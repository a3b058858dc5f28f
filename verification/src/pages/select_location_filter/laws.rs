//! What the filter page does and shows, said of the filter itself.

use crate::app::filter::{Ownership, PageStateView};
use crate::focus::WidgetId;
use crate::geometry::Rect;
use crate::pages::select_location_filter::{
    after_activation, all_providers_row, ownership_rows, provider_names, provider_row, widgets,
    PROVIDER_RADIO_BASE,
};
use crate::text::lower_char;
use vstd::prelude::*;

verus! {

/// Each ownership has its own widget, which sets it and leaves the providers
/// alone; no other widget sets it.
pub proof fn each_ownership_has_its_own_widget(state: PageStateView, widget: WidgetId)
    ensures
        ({
            let after = after_activation(state, widget);
            &&& after.ownership == if widget == WidgetId(widgets::OWNERSHIP_ANY) {
                Ownership::Any
            } else if widget == WidgetId(widgets::OWNERSHIP_MULLVAD_OWNED) {
                Ownership::MullvadOwned
            } else if widget == WidgetId(widgets::OWNERSHIP_RENTED) {
                Ownership::Rented
            } else {
                state.ownership
            }
            &&& widget == WidgetId(widgets::OWNERSHIP_ANY) || widget == WidgetId(
                widgets::OWNERSHIP_MULLVAD_OWNED,
            ) || widget == WidgetId(widgets::OWNERSHIP_RENTED) ==> after.excluded == state.excluded
        }),
{
}

/// A provider's widget takes that provider out if it was in, and in if it was out,
/// and leaves the others as they were.
pub proof fn a_provider_is_turned_over_alone(state: PageStateView, i: int, other: Seq<char>)
    requires
        0 <= i < 15,
    ensures
        ({
            let name = provider_names()[i];
            let after = after_activation(state, WidgetId((PROVIDER_RADIO_BASE + i) as u32));
            &&& after.excluded.contains(name) <==> !state.excluded.contains(name)
            &&& other != name ==> (after.excluded.contains(other) <==> state.excluded.contains(
                other,
            ))
            &&& after.ownership == state.ownership
        }),
{
}

/// The widget for all providers puts all of them in if one was out, and takes all
/// of them out if none was.
pub proof fn all_providers_go_in_or_out_together(state: PageStateView, i: int)
    requires
        0 <= i < 15,
    ensures
        ({
            let after = after_activation(state, WidgetId(widgets::PROVIDERS_ALL));
            let none_is_out = state.excluded == Set::<Seq<char>>::empty();
            &&& after.excluded.contains(provider_names()[i]) <==> none_is_out
            &&& !none_is_out ==> after.excluded == Set::<Seq<char>>::empty()
            &&& after.ownership == state.ownership
        }),
{
    assert(provider_names().to_set().contains(provider_names()[i]));
}

/// The rows show the filter: the radio of the ownership that is set, and no other,
/// a checked box for each provider that is in, and one for all only if none is
/// out; each beside the widget that changes it.
pub proof fn rows_show_the_filter(parts: Seq<Rect>, area: Rect, state: PageStateView, i: int)
    requires
        0 <= i < 15,
    ensures
        ({
            let owners = ownership_rows(parts, state);
            let all = all_providers_row(area, state);
            let one = provider_row(area, i, state);
            let dot = |on: bool|
                if on {
                    "(•)"@
                } else {
                    "( )"@
                };
            let cross = |on: bool|
                if on {
                    "[x]"@
                } else {
                    "[ ]"@
                };
            &&& owners.len() == 3
            &&& owners[0].id == Some(WidgetId(widgets::OWNERSHIP_ANY)) && owners[0].label
                == "Any"@ && owners[0].glyph == dot(state.ownership == Ownership::Any)
            &&& owners[1].id == Some(WidgetId(widgets::OWNERSHIP_MULLVAD_OWNED)) && owners[1].label
                == "Mullvad owned only"@ && owners[1].glyph == dot(
                state.ownership == Ownership::MullvadOwned,
            )
            &&& owners[2].id == Some(WidgetId(widgets::OWNERSHIP_RENTED)) && owners[2].label
                == "Rented only"@ && owners[2].glyph == dot(state.ownership == Ownership::Rented)
            &&& all.id == Some(WidgetId(widgets::PROVIDERS_ALL)) && all.glyph == cross(
                state.excluded == Set::<Seq<char>>::empty(),
            )
            &&& one.id == Some(WidgetId((PROVIDER_RADIO_BASE + i) as u32)) && one.label
                == provider_names()[i] && one.glyph == cross(
                !state.excluded.contains(provider_names()[i]),
            )
        }),
{
}

/// No two rows are of the same provider, and the rows stand in alphabetical order,
/// whatever the case.
pub proof fn providers_are_listed_once_and_in_order(i: int, j: int)
    requires
        0 <= i < j < 15,
    ensures
        provider_names().len() == 15,
        provider_names()[i] != provider_names()[j],
        provider_names()[i].len() > 0 && provider_names()[j].len() > 0,
        lower_char(provider_names()[i][0]) <= lower_char(provider_names()[j][0]),
{
    reveal_strlit("100TB");
    reveal_strlit("31173");
    reveal_strlit("Blix");
    reveal_strlit("Creanova");
    reveal_strlit("DataPacket");
    reveal_strlit("HostRoyale");
    reveal_strlit("hostuniversal");
    reveal_strlit("iRegister");
    reveal_strlit("m247");
    reveal_strlit("PrivateLayer");
    reveal_strlit("techfutures");
    reveal_strlit("Tzulo");
    reveal_strlit("Veloxserv");
    reveal_strlit("xtom");
    reveal_strlit("Zenlayer");
    let names = provider_names();
    assert(names[0][0] == '1' && names[1][0] == '3' && names[2][0] == 'B' && names[3][0] == 'C');
    assert(names[4][0] == 'D' && names[5][0] == 'H' && names[6][0] == 'h' && names[7][0] == 'i');
    assert(names[8][0] == 'm' && names[9][0] == 'P' && names[10][0] == 't' && names[11][0] == 'T');
    assert(names[12][0] == 'V' && names[13][0] == 'x' && names[14][0] == 'Z');
}

} // verus!
