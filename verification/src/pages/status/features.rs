//! The active features on the Status page: which there are, in what order, and
//! how they are packed into lines.

use crate::app::App;
use crate::daemon::{FeatureIndicators, TunnelState};
use crate::pages::status::details::texts_of;
use crate::pages::status::state_of;
use crate::scene::{raw_span, span, SpanView, Style, TextBlock, TextLine};
use crate::text::{
    cat, decimal, decimal_digits, owned, text_less, text_lt, text_lt_irreflexive, text_lt_total,
    text_lt_transitive,
};
use vstd::multiset::Multiset;
use vstd::prelude::*;
use vstd::relations::{sorted_by, total_ordering};

verus! {

// ---- Order ----

/// `list` with `text` put at its place.
pub open spec fn insert_text(list: Seq<Seq<char>>, text: Seq<char>) -> Seq<Seq<char>>
    decreases list.len(),
{
    if list.len() == 0 {
        seq![text]
    } else if text_lt(text, list[0]) {
        seq![text] + list
    } else {
        seq![list[0]] + insert_text(list.skip(1), text)
    }
}

/// `list` in ascending order.
pub open spec fn sorted(list: Seq<Seq<char>>) -> Seq<Seq<char>>
    decreases list.len(),
{
    if list.len() == 0 {
        list
    } else {
        insert_text(sorted(list.drop_last()), list.last())
    }
}

/// Not after in dictionary order.
pub open spec fn text_le(a: Seq<char>, b: Seq<char>) -> bool {
    !text_lt(b, a)
}

proof fn insert_text_skips(list: Seq<Seq<char>>, text: Seq<char>, n: int)
    requires
        0 <= n <= list.len(),
        forall|i: int| 0 <= i < n ==> !text_lt(text, #[trigger] list[i]),
    ensures
        insert_text(list, text) == list.take(n) + insert_text(list.skip(n), text),
    decreases n,
{
    if n == 0 {
        assert(list.skip(0) =~= list);
        assert(list.take(0) + insert_text(list, text) =~= insert_text(list, text));
    } else {
        assert(!text_lt(text, list[0]));
        let rest = list.skip(1);
        assert forall|i: int| 0 <= i < n - 1 implies !text_lt(text, #[trigger] rest[i]) by {
            assert(rest[i] == list[i + 1]);
        }
        insert_text_skips(rest, text, n - 1);
        assert(rest.skip(n - 1) =~= list.skip(n));
        assert(seq![list[0]] + (rest.take(n - 1) + insert_text(rest.skip(n - 1), text))
            =~= list.take(n) + insert_text(list.skip(n), text));
    }
}

fn insert_sorted(list: &mut Vec<String>, text: String)
    ensures
        texts_of(final(list)@) == insert_text(texts_of(old(list)@), text@),
{
    let ghost before = texts_of(list@);
    let mut i: usize = 0;
    while i < list.len() && !text_less(text.as_str(), list[i].as_str())
        invariant
            i <= list.len(),
            before == texts_of(list@),
            forall|j: int| 0 <= j < i ==> !text_lt(text@, #[trigger] before[j]),
        decreases list.len() - i,
    {
        i = i + 1;
    }
    proof {
        insert_text_skips(before, text@, i as int);
        if i < list@.len() {
            assert(before.skip(i as int)[0] == list@[i as int]@);
        } else {
            assert(before.skip(i as int) =~= Seq::empty());
        }
    }
    list.insert(i, text);
    assert(texts_of(list@) =~= before.take(i as int) + (seq![text@] + before.skip(i as int)));
    assert(i == before.len() ==> seq![text@] + before.skip(i as int) =~= seq![text@]);
}

proof fn insert_text_facts(list: Seq<Seq<char>>, text: Seq<char>)
    requires
        sorted_by(list, |a: Seq<char>, b: Seq<char>| text_le(a, b)),
    ensures
        sorted_by(insert_text(list, text), |a: Seq<char>, b: Seq<char>| text_le(a, b)),
        insert_text(list, text).to_multiset() == list.to_multiset().insert(text),
    decreases list.len(),
{
    broadcast use vstd::seq_lib::group_to_multiset_ensures;

    let le = |a: Seq<char>, b: Seq<char>| text_le(a, b);
    let result = insert_text(list, text);
    if list.len() == 0 {
        assert(list =~= Seq::empty());
        assert(result =~= list.push(text));
    } else if text_lt(text, list[0]) {
        assert forall|i: int, j: int| 0 <= i < j < result.len() implies le(
            result[i],
            result[j],
        ) by {
            if i == 0 {
                assert(result[j] == list[j - 1]);
                if text_lt(list[j - 1], text) {
                    text_lt_transitive(list[j - 1], text, list[0]);
                    if j - 1 > 0 {
                        assert(le(list[0], list[j - 1]));
                    } else {
                        text_lt_irreflexive(list[0]);
                    }
                }
            } else {
                assert(result[i] == list[i - 1] && result[j] == list[j - 1]);
                assert(le(list[i - 1], list[j - 1]));
            }
        }
        assert(result =~= list.insert(0, text));
        vstd::seq_lib::to_multiset_insert(list, 0, text);
    } else {
        let rest = list.skip(1);
        assert forall|i: int, j: int| 0 <= i < j < rest.len() implies le(rest[i], rest[j]) by {
            assert(rest[i] == list[i + 1] && rest[j] == list[j + 1]);
            assert(le(list[i + 1], list[j + 1]));
        }
        insert_text_facts(rest, text);
        let tail = insert_text(rest, text);
        assert(list =~= seq![list[0]] + rest);
        vstd::seq_lib::lemma_multiset_commutative(seq![list[0]], rest);
        vstd::seq_lib::lemma_multiset_commutative(seq![list[0]], tail);
        assert(result.to_multiset() =~= list.to_multiset().insert(text));
        assert forall|k: int| 0 <= k < tail.len() implies le(list[0], #[trigger] tail[k]) by {
            assert(tail.to_multiset().count(tail[k]) > 0);
            assert(tail.contains(tail[k]));
            if tail[k] != text {
                assert(rest.to_multiset().count(tail[k]) > 0);
                assert(rest.contains(tail[k]));
                let m = rest.index_of(tail[k]);
                assert(le(list[0], list[m + 1]));
            }
        }
        assert forall|i: int, j: int| 0 <= i < j < result.len() implies le(
            result[i],
            result[j],
        ) by {
            assert(result[j] == tail[j - 1]);
            if i > 0 {
                assert(result[i] == tail[i - 1]);
                assert(le(tail[i - 1], tail[j - 1]));
            }
        }
    }
}

/// Sorting puts a list in ascending order, and neither adds nor loses an entry.
pub proof fn sorting_sorts(list: Seq<Seq<char>>)
    ensures
        sorted_by(sorted(list), |a: Seq<char>, b: Seq<char>| text_le(a, b)),
        sorted(list).to_multiset() == list.to_multiset(),
    decreases list.len(),
{
    broadcast use vstd::seq_lib::group_to_multiset_ensures;

    if list.len() > 0 {
        sorting_sorts(list.drop_last());
        insert_text_facts(sorted(list.drop_last()), list.last());
        assert(list =~= list.drop_last().push(list.last()));
    }
}

proof fn text_le_is_total()
    ensures
        total_ordering(|a: Seq<char>, b: Seq<char>| text_le(a, b)),
{
    let le = |a: Seq<char>, b: Seq<char>| text_le(a, b);
    assert forall|x: Seq<char>| #[trigger] le(x, x) by {
        text_lt_irreflexive(x);
    }
    assert forall|x: Seq<char>, y: Seq<char>| #[trigger] le(x, y) && #[trigger] le(y, x) implies x
        == y by {
        text_lt_total(x, y);
    }
    assert forall|x: Seq<char>, y: Seq<char>, z: Seq<char>|
        #[trigger] le(x, y) && #[trigger] le(y, z) implies le(x, z) by {
        if text_lt(z, x) {
            text_lt_total(x, y);
            if x == y {
            } else {
                text_lt_transitive(z, x, y);
            }
        }
    }
    assert forall|x: Seq<char>, y: Seq<char>| #[trigger] le(x, y) || #[trigger] le(y, x) by {
        if text_lt(x, y) && text_lt(y, x) {
            text_lt_transitive(x, y, x);
            text_lt_irreflexive(x);
        }
    }
}

/// The order in which the daemon lists features makes no difference.
pub proof fn feature_order_does_not_matter(a: Seq<Seq<char>>, b: Seq<Seq<char>>)
    requires
        a.to_multiset() == b.to_multiset(),
    ensures
        sorted(a) == sorted(b),
{
    sorting_sorts(a);
    sorting_sorts(b);
    text_le_is_total();
    vstd::seq_lib::lemma_sorted_unique(
        sorted(a),
        sorted(b),
        |a: Seq<char>, b: Seq<char>| text_le(a, b),
    );
}

// ---- Which features ----

/// The features that the daemon reports on a tunnel that is up or coming up.
pub open spec fn indicators_in(state: Option<TunnelState>) -> Option<FeatureIndicators> {
    match state {
        Some(TunnelState::Connected { feature_indicators, .. }) => Some(feature_indicators),
        Some(TunnelState::Connecting { feature_indicators, .. }) => Some(feature_indicators),
        _ => None,
    }
}

/// The features that the daemon reports on a tunnel that is up or coming up.
pub fn active_feature_indicators<'a>(state: Option<&'a TunnelState>) -> (r: Option<
    &'a FeatureIndicators,
>)
    ensures
        match r {
            Some(i) => indicators_in(state_of(state)) == Some(*i),
            None => indicators_in(state_of(state)) is None,
        },
{
    match state {
        Some(TunnelState::Connected { feature_indicators, .. }) => Some(feature_indicators),
        Some(TunnelState::Connecting { feature_indicators, .. }) => Some(feature_indicators),
        _ => None,
    }
}

/// Features with an asterisk before each.
pub open spec fn starred(features: Seq<String>) -> Seq<Seq<char>> {
    features.map_values(|f: String| "*"@ + f@)
}

/// The features with an asterisk before each, in ascending order.
pub fn format_indicators(indicators: &FeatureIndicators) -> (r: Vec<String>)
    ensures
        texts_of(r@) == sorted(starred(indicators.active@)),
{
    let ghost all = starred(indicators.active@);
    let mut list: Vec<String> = Vec::new();
    let mut i: usize = 0;
    assert(texts_of(list@) =~= sorted(all.take(0)));
    while i < indicators.active.len()
        invariant
            i <= indicators.active.len(),
            all == starred(indicators.active@),
            texts_of(list@) == sorted(all.take(i as int)),
        decreases indicators.active.len() - i,
    {
        assert(all.take(i + 1).drop_last() =~= all.take(i as int));
        insert_sorted(&mut list, cat("*", indicators.active[i].as_str()));
        i = i + 1;
    }
    assert(all.take(i as int) =~= all);
    list
}

/// `text` if `on`, else nothing.
pub open spec fn flag(text: Seq<char>, on: bool) -> Seq<Seq<char>> {
    if on {
        seq![text]
    } else {
        Seq::empty()
    }
}

/// The features that the page lists: those that the daemon reports as active,
/// or else those of the settings that matter while there is no tunnel.
pub open spec fn features_of(app: App) -> Seq<Seq<char>> {
    match indicators_in(app.connection) {
        Some(indicators) => sorted(starred(indicators.active@)),
        None => match app.settings {
            None => Seq::empty(),
            Some(s) => flag("*Quantum resistance"@, s.quantum_resistant) + flag(
                "*Lockdown mode"@,
                s.lockdown_mode,
            ) + flag("*Local network sharing"@, s.allow_lan),
        },
    }
}

/// The features that the page lists.
pub fn collect_features(app: &App) -> (r: Vec<String>)
    ensures
        texts_of(r@) == features_of(*app),
{
    let connection = match &app.connection {
        Some(c) => Some(c),
        None => None,
    };
    if let Some(indicators) = active_feature_indicators(connection) {
        return format_indicators(indicators);
    }
    let mut list: Vec<String> = Vec::new();
    if let Some(s) = &app.settings {
        if s.quantum_resistant {
            list.push(owned("*Quantum resistance"));
        }
        if s.lockdown_mode {
            list.push(owned("*Lockdown mode"));
        }
        if s.allow_lan {
            list.push(owned("*Local network sharing"));
        }
    }
    assert(texts_of(list@) =~= features_of(*app));
    list
}

// ---- Packing into lines ----

/// The width of labels with one cell between each two.
pub open spec fn packed_width(labels: Seq<Seq<char>>) -> int
    decreases labels.len(),
{
    if labels.len() == 0 {
        0
    } else if labels.len() == 1 {
        labels[0].len() as int
    } else {
        packed_width(labels.drop_last()) + 1 + labels.last().len()
    }
}

/// The first `n` labels packed into lines: each goes on the last line if it
/// fits there, and else starts a line.
pub open spec fn packed(labels: Seq<Seq<char>>, n: int, width: int) -> Seq<Seq<Seq<char>>>
    decreases n,
{
    if n <= 0 {
        Seq::empty()
    } else {
        let lines = packed(labels, n - 1, width);
        let label = labels[n - 1];
        if lines.len() > 0 && packed_width(lines.last()) + 1 + label.len() <= width {
            lines.drop_last().push(lines.last().push(label))
        } else {
            lines.push(seq![label])
        }
    }
}

/// What is shown of the features: all of them if `expanded`, and else two, with
/// the number of the others.
pub open spec fn shown_labels(features: Seq<Seq<char>>, expanded: bool) -> Seq<Seq<char>> {
    if expanded || features.len() <= 2 {
        features
    } else {
        features.take(2).push(
            "*"@ + decimal_digits((features.len() - 2) as nat) + " more…"@,
        )
    }
}

/// A line of labels, as spans: a blank between each two.
pub open spec fn line_of(labels: Seq<Seq<char>>) -> Seq<SpanView>
    decreases labels.len(),
{
    if labels.len() == 0 {
        Seq::empty()
    } else if labels.len() == 1 {
        seq![raw_span(labels[0])]
    } else {
        line_of(labels.drop_last()).push(raw_span(" "@)).push(raw_span(labels.last()))
    }
}

/// The lines that list the features. Without any there is one blank line.
pub open spec fn features_text(features: Seq<Seq<char>>, expanded: bool, width: u16) -> Seq<
    Seq<SpanView>,
> {
    if features.len() == 0 {
        seq![seq![raw_span(""@)]]
    } else {
        let labels = shown_labels(features, expanded);
        packed(labels, labels.len() as int, width as int).map_values(
            |l: Seq<Seq<char>>| line_of(l),
        )
    }
}

fn labels_to_show(flags: &Vec<String>, expanded: bool) -> (r: Vec<String>)
    ensures
        texts_of(r@) == shown_labels(texts_of(flags@), expanded),
{
    let all = expanded || flags.len() <= 2;
    let count: usize = if all {
        flags.len()
    } else {
        2
    };
    let ghost v = texts_of(flags@);
    let mut labels: Vec<String> = Vec::new();
    let mut i: usize = 0;
    assert(texts_of(labels@) =~= v.take(0));
    while i < count
        invariant
            i <= count <= flags.len(),
            v == texts_of(flags@),
            texts_of(labels@) == v.take(i as int),
        decreases count - i,
    {
        let ghost labels0 = labels@;
        labels.push(flags[i].clone());
        assert(texts_of(labels@) =~= texts_of(labels0).push(v[i as int]));
        assert(v.take(i + 1) =~= v.take(i as int).push(v[i as int]));
        i = i + 1;
    }
    if all {
        assert(v.take(i as int) =~= v);
    } else {
        let mut more = cat("*", decimal((flags.len() - 2) as u64).as_str());
        more.append(" more…");
        let ghost labels0 = labels@;
        labels.push(more);
        assert(texts_of(labels@) =~= texts_of(labels0).push(more@));
    }
    labels
}

/// The lines that list the features, in lines of at most `width` cells. A line
/// breaks only between two features; a feature that is wider than a line has
/// one to itself.
pub fn format_features_lines(flags: &Vec<String>, expanded: bool, width: u16) -> (r: TextBlock)
    ensures
        r@ == features_text(texts_of(flags@), expanded, width),
{
    let mut block = TextBlock::new();
    if flags.len() == 0 {
        block.push_raw("");
        assert(block@ =~= features_text(texts_of(flags@), expanded, width));
        return block;
    }
    let labels = labels_to_show(flags, expanded);
    let ghost v = texts_of(labels@);
    let ghost render = |l: Seq<Seq<char>>| line_of(l);
    let w: usize = width as usize;
    let mut current = TextLine::new();
    let mut current_width: usize = 0;
    let ghost mut current_labels: Seq<Seq<char>> = Seq::empty();
    let mut i: usize = 0;
    assert(packed(v, 0, width as int) =~= Seq::empty());
    assert(block@ =~= packed(v, 0, width as int).map_values(render));
    while i < labels.len()
        invariant
            i <= labels.len(),
            v == texts_of(labels@),
            w == width,
            render == (|l: Seq<Seq<char>>| line_of(l)),
            current@ == line_of(current_labels),
            current_width == packed_width(current_labels),
            i == 0 ==> current_labels.len() == 0 && block@.len() == 0,
            i > 0 ==> current_labels.len() > 0 && {
                let lines = packed(v, i as int, width as int);
                &&& lines.len() > 0
                &&& lines.last() == current_labels
                &&& block@ == lines.drop_last().map_values(render)
            },
        decreases labels.len() - i,
    {
        let label = labels[i].as_str();
        let n: usize = label.unicode_len();
        assert(v[i as int] == label@);
        let ghost lines = packed(v, i as int, width as int);
        if i == 0 {
            current = TextLine::raw(label);
            current_width = n;
            proof {
                current_labels = seq![label@];
                assert(lines =~= Seq::empty());
                assert(lines.push(seq![label@]).drop_last() =~= Seq::empty());
                assert(block@ =~= lines.push(seq![label@]).drop_last().map_values(render));
            }
        } else if current_width < w && n <= w - current_width - 1 {
            current.push(span(" ", Style::new()));
            current.push(span(label, Style::new()));
            current_width = current_width + 1 + n;
            proof {
                let before = current_labels;
                current_labels = current_labels.push(label@);
                assert(current_labels.drop_last() =~= before);
                assert(lines.drop_last().push(current_labels).drop_last() =~= lines.drop_last());
            }
        } else {
            let ghost done = current_labels;
            let mut next = TextLine::raw(label);
            std::mem::swap(&mut current, &mut next);
            block.push(next);
            current_width = n;
            proof {
                current_labels = seq![label@];
                assert(lines.push(seq![label@]).drop_last() =~= lines);
                assert(lines =~= lines.drop_last().push(done));
                assert(block@ =~= lines.map_values(render));
            }
        }
        i = i + 1;
    }
    let ghost lines = packed(v, v.len() as int, width as int);
    assert(labels@.len() == v.len());
    assert(shown_labels(texts_of(flags@), expanded).len() > 0);
    block.push(current);
    assert(block@ =~= lines.map_values(render)) by {
        assert(lines =~= lines.drop_last().push(lines.last()));
    }
    block
}

// ---- What holds of the lines ----

/// The labels of `lines`, one line after the other.
pub open spec fn unpacked(lines: Seq<Seq<Seq<char>>>) -> Seq<Seq<char>>
    decreases lines.len(),
{
    if lines.len() == 0 {
        Seq::empty()
    } else {
        unpacked(lines.drop_last()) + lines.last()
    }
}

proof fn packed_facts(labels: Seq<Seq<char>>, n: int, width: int)
    requires
        0 <= n <= labels.len(),
    ensures
        unpacked(packed(labels, n, width)) == labels.take(n),
        forall|k: int|
            0 <= k < packed(labels, n, width).len() ==> {
                let line = #[trigger] packed(labels, n, width)[k];
                &&& line.len() > 0
                &&& line.len() > 1 ==> packed_width(line) <= width
            },
    decreases n,
{
    if n == 0 {
        assert(labels.take(0) =~= Seq::empty());
    } else {
        packed_facts(labels, n - 1, width);
        let lines = packed(labels, n - 1, width);
        let all = packed(labels, n, width);
        let label = labels[n - 1];
        assert(labels.take(n) =~= labels.take(n - 1).push(label));
        if lines.len() > 0 && packed_width(lines.last()) + 1 + label.len() <= width {
            let longer = lines.last().push(label);
            assert(longer.drop_last() =~= lines.last());
            assert(all.drop_last() =~= lines.drop_last());
            assert(all.last() == longer);
            assert(unpacked(all) =~= unpacked(lines).push(label));
            assert forall|k: int| 0 <= k < all.len() implies {
                let line = #[trigger] all[k];
                &&& line.len() > 0
                &&& line.len() > 1 ==> packed_width(line) <= width
            } by {
                if k < all.len() - 1 {
                    assert(all[k] == lines[k]);
                }
            }
        } else {
            assert(all.drop_last() =~= lines);
            assert(unpacked(all) =~= unpacked(lines).push(label));
            assert forall|k: int| 0 <= k < all.len() implies {
                let line = #[trigger] all[k];
                &&& line.len() > 0
                &&& line.len() > 1 ==> packed_width(line) <= width
            } by {
                if k < all.len() - 1 {
                    assert(all[k] == lines[k]);
                }
            }
        }
    }
}

/// The lines hold the labels that are shown, whole and in their order; no line
/// is empty, and none is wider than `width` unless it holds one label alone.
pub proof fn lines_hold_whole_labels(features: Seq<Seq<char>>, expanded: bool, width: u16)
    ensures
        ({
            let labels = shown_labels(features, expanded);
            let lines = packed(labels, labels.len() as int, width as int);
            &&& unpacked(lines) == labels
            &&& forall|k: int|
                0 <= k < lines.len() ==> (#[trigger] lines[k]).len() > 0 && (lines[k].len() > 1
                    ==> packed_width(lines[k]) <= width)
        }),
{
    let labels = shown_labels(features, expanded);
    packed_facts(labels, labels.len() as int, width as int);
    assert(labels.take(labels.len() as int) =~= labels);
}

/// Without `expanded`, at most two features are shown by name, and the others
/// are counted.
pub proof fn hidden_features_are_counted(features: Seq<Seq<char>>)
    requires
        features.len() > 2,
    ensures
        shown_labels(features, false).len() == 3,
        shown_labels(features, false).take(2) == features.take(2),
        shown_labels(features, false)[2] == "*"@ + decimal_digits((features.len() - 2) as nat)
            + " more…"@,
        shown_labels(features, true) == features,
{
    assert(shown_labels(features, false).take(2) =~= features.take(2));
}

/// How many cells some labels take, without what stands between them.
pub open spec fn cells(labels: Seq<Seq<char>>) -> int
    decreases labels.len(),
{
    if labels.len() == 0 {
        0
    } else {
        cells(labels.drop_last()) + labels.last().len()
    }
}

/// A line takes the cells of its labels, and one between each two.
pub proof fn a_line_is_as_wide_as_its_labels(labels: Seq<Seq<char>>)
    requires
        labels.len() > 0,
    ensures
        packed_width(labels) == cells(labels) + labels.len() - 1,
    decreases labels.len(),
{
    if labels.len() == 1 {
        assert(labels.drop_last() =~= Seq::empty());
        assert(cells(labels.drop_last()) == 0);
    } else {
        a_line_is_as_wide_as_its_labels(labels.drop_last());
    }
}

/// A line ends only where the label after it has no room left on it.
pub proof fn lines_end_only_where_they_are_full(
    labels: Seq<Seq<char>>,
    n: int,
    width: int,
    k: int,
)
    requires
        0 <= n <= labels.len(),
        0 <= k < packed(labels, n, width).len() - 1,
    ensures
        ({
            let lines = packed(labels, n, width);
            &&& lines[k + 1].len() > 0
            &&& packed_width(lines[k]) + 1 + lines[k + 1][0].len() > width
        }),
    decreases n,
{
    packed_facts(labels, n, width);
    if n > 0 {
        let lines = packed(labels, n - 1, width);
        let all = packed(labels, n, width);
        packed_facts(labels, n - 1, width);
        if all.len() == lines.len() {
            lines_end_only_where_they_are_full(labels, n - 1, width, k);
            assert(all[k] == lines[k]);
            assert(all[k + 1][0] == lines[k + 1][0]);
        } else if k + 1 < lines.len() {
            lines_end_only_where_they_are_full(labels, n - 1, width, k);
            assert(all[k] == lines[k] && all[k + 1] == lines[k + 1]);
        } else {
            assert(all[k] == lines[k]);
        }
    }
}

/// A line reads its labels, one after the other, with a blank between each two.
pub proof fn lines_read_their_labels(labels: Seq<Seq<char>>, i: int)
    requires
        0 <= i < labels.len(),
    ensures
        line_of(labels).len() == 2 * labels.len() - 1,
        line_of(labels)[2 * i] is Styled,
        line_of(labels)[2 * i]->Styled_content == labels[i],
        i + 1 < labels.len() ==> line_of(labels)[2 * i + 1] is Styled && line_of(labels)[2 * i
            + 1]->Styled_content == " "@,
    decreases labels.len(),
{
    if labels.len() > 1 {
        let less = labels.drop_last();
        lines_read_their_labels(less, less.len() - 1);
        if i < less.len() {
            lines_read_their_labels(less, i);
        }
    }
}

} // verus!
