//! The DNS content blockers page.

use crate::app::{App, DnsBlocker};
use crate::components::{check_mark, checkbox_label, on_off, on_off_label};
use crate::focus::WidgetId;
use crate::geometry::{
    divides_into_rows, one_cell_each, single_rows, split_rows, Constraint, Rect,
};
use crate::pages::settings::{blocks, dns_blocker_enabled, widgets, SettingsWidget};
use crate::scene::{
    block_op, label_button_op, label_op, raw_line, OpView, Scene, SpanView, TextBlock, Wrap,
};
use crate::text::owned;
use crate::wrap::{row_count, rows_of, WIDEST};
use vstd::prelude::*;

verus! {

/// The blockers, in the order of their rows.
pub open spec fn blockers() -> Seq<DnsBlocker> {
    seq![
        DnsBlocker::Ads,
        DnsBlocker::Trackers,
        DnsBlocker::Malware,
        DnsBlocker::AdultContent,
        DnsBlocker::Gambling,
        DnsBlocker::SocialMedia,
    ]
}

/// The widget that toggles a blocker.
pub open spec fn toggler(blocker: DnsBlocker) -> SettingsWidget {
    match blocker {
        DnsBlocker::Ads => SettingsWidget::DnsBlockAds,
        DnsBlocker::Trackers => SettingsWidget::DnsBlockTrackers,
        DnsBlocker::Malware => SettingsWidget::DnsBlockMalware,
        DnsBlocker::AdultContent => SettingsWidget::DnsBlockAdultContent,
        DnsBlocker::Gambling => SettingsWidget::DnsBlockGambling,
        DnsBlocker::SocialMedia => SettingsWidget::DnsBlockSocialMedia,
    }
}

/// The id of the widget that toggles a blocker.
pub fn widget_id(blocker: DnsBlocker) -> (r: WidgetId)
    ensures
        r == WidgetId(toggler(blocker).id()),
{
    WidgetId(
        match blocker {
            DnsBlocker::Ads => widgets::DNS_BLOCK_ADS,
            DnsBlocker::Trackers => widgets::DNS_BLOCK_TRACKERS,
            DnsBlocker::Malware => widgets::DNS_BLOCK_MALWARE,
            DnsBlocker::AdultContent => widgets::DNS_BLOCK_ADULT_CONTENT,
            DnsBlocker::Gambling => widgets::DNS_BLOCK_GAMBLING,
            DnsBlocker::SocialMedia => widgets::DNS_BLOCK_SOCIAL_MEDIA,
        },
    )
}

/// The widget that toggles a blocker toggles that blocker, and no other widget
/// does.
pub proof fn every_blocker_has_its_widget(blocker: DnsBlocker, widget: SettingsWidget)
    ensures
        toggler(blocker).blocker() == Some(blocker),
        widget.blocker() == Some(blocker) <==> widget == toggler(blocker),
        blockers().contains(blocker),
{
    let i: int = match blocker {
        DnsBlocker::Ads => 0,
        DnsBlocker::Trackers => 1,
        DnsBlocker::Malware => 2,
        DnsBlocker::AdultContent => 3,
        DnsBlocker::Gambling => 4,
        DnsBlocker::SocialMedia => 5,
    };
    assert(blockers()[i] == blocker);
}

/// What the blockers do.
pub const DESCRIPTION_A: &'static str = "When this feature is enabled it stops the device from contacting certain domains or websites known for distributing ads, malware, trackers and more.";

pub const DESCRIPTION_B: &'static str = "This might cause issues on certain websites, services, and apps.";

pub const DESCRIPTION_C: &'static str = "Attention: this setting cannot be used in combination with \"Use custom DNS server\"";

/// The description, as lines.
pub open spec fn description() -> Seq<Seq<SpanView>> {
    seq![
        raw_line(DESCRIPTION_A@),
        raw_line(""@),
        raw_line(DESCRIPTION_B@),
        raw_line(""@),
        raw_line(DESCRIPTION_C@),
    ]
}

/// The rows of the page, with a description that takes `height` rows.
pub open spec fn page_rows(height: u16) -> Seq<Constraint> {
    (seq![
        Constraint::Length(1),
        Constraint::Length(1),
        Constraint::Min(height),
        Constraint::Min(1),
    ] + single_rows(6)).push(Constraint::Min(1))
}

/// The row of a blocker.
pub open spec fn blocker_row_op(
    area: Rect,
    blocker: DnsBlocker,
    enabled: bool,
    focused: Option<WidgetId>,
) -> OpView {
    label_button_op(
        area,
        blocker.name() + ": "@ + on_off(enabled),
        check_mark(enabled),
        WidgetId(toggler(blocker).id()),
        focused,
    )
}

/// What the page shows.
pub open spec fn page_ops(parts: Seq<Rect>, app: App) -> Seq<OpView> {
    seq![
        label_op(parts[0], "DNS content blockers"@),
        block_op(parts[2], description(), Wrap::Keep),
    ] + Seq::new(
        6,
        |i: int|
            blocker_row_op(parts[4 + i], blockers()[i], blocks(app, blockers()[i]), app.focused),
    )
}

/// `ops` draws the page in `area`.
pub open spec fn draws_page(ops: Seq<OpView>, area: Rect, app: App) -> bool {
    exists|parts: Seq<Rect>|
        #[trigger] divides_into_rows(
            area,
            page_rows(rows_of(description(), false, area.width) as u16),
            parts,
        ) && ops == page_ops(parts, app)
}

fn render_row(scene: &mut Scene, area: Rect, blocker: DnsBlocker, app: &App)
    ensures
        final(scene)@ == old(scene)@.push(
            blocker_row_op(area, blocker, blocks(*app, blocker), app.focused),
        ),
{
    let enabled = dns_blocker_enabled(app, blocker);
    let mut label = owned(blocker.label());
    label.append(": ");
    label.append(on_off_label(enabled));
    scene.label_button_row(
        area,
        label.as_str(),
        checkbox_label(enabled),
        widget_id(blocker),
        app.focused,
    );
}

/// Draw the page in `area`: what the blockers do, and one row for each.
///
/// `area` is the page's column, as [`crate::pages::page_area`] gives it.
pub fn render(area: Rect, app: &App) -> (scene: Scene)
    requires
        area.width <= WIDEST,
    ensures
        draws_page(scene@, area, *app),
{
    let mut text = TextBlock::new();
    text.push_raw(DESCRIPTION_A);
    text.push_raw("");
    text.push_raw(DESCRIPTION_B);
    text.push_raw("");
    text.push_raw(DESCRIPTION_C);
    assert(text@ =~= description());
    let rows: usize = row_count(&text, false, area.width);
    #[verifier::truncate]
    let height: u16 = rows as u16;
    let mut constraints: Vec<Constraint> = vec![
        Constraint::Length(1),
        Constraint::Length(1),
        Constraint::Min(height),
        Constraint::Min(1),
    ];
    let mut below = one_cell_each(6);
    constraints.append(&mut below);
    constraints.push(Constraint::Min(1));
    assert(constraints@ =~= page_rows(height));
    let parts = split_rows(area, &constraints);
    let mut scene = Scene::new();
    scene.label(parts[0], "DNS content blockers");
    scene.block(parts[2], text, Wrap::Keep);
    render_row(&mut scene, parts[4], DnsBlocker::Ads, app);
    render_row(&mut scene, parts[5], DnsBlocker::Trackers, app);
    render_row(&mut scene, parts[6], DnsBlocker::Malware, app);
    render_row(&mut scene, parts[7], DnsBlocker::AdultContent, app);
    render_row(&mut scene, parts[8], DnsBlocker::Gambling, app);
    render_row(&mut scene, parts[9], DnsBlocker::SocialMedia, app);
    assert(scene@ =~= page_ops(parts@, *app));
    scene
}

} // verus!
