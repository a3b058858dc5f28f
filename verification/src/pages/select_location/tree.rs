//! The relay list as a tree, and the tree pruned to a search query.
//!
//! The daemon's relay list is flat. [`project_tree`] groups it: countries in
//! the order of their codes, in each country its cities in the order of their
//! codes, in each city its relays in the order of the list. [`filter_tree`]
//! prunes that tree to what the user typed.

use crate::app::select_location::PageStateView;
use crate::app::App;
use crate::daemon::{RelayLocation, RelayView};
use crate::text::{
    chars, contains, contains_text, find, found_at, lower, lower_char, lowered, occurs_at, text_eq,
    text_less, text_lt, text_lt_irreflexive, text_lt_total, text_lt_transitive,
};
use vstd::prelude::*;

verus! {

// ---- Nodes ----

/// A country of the tree.
pub struct CountryNode<'a> {
    pub name: &'a str,
    pub code: &'a str,
    pub cities: Vec<CityNode<'a>>,
}

/// A city of the tree.
pub struct CityNode<'a> {
    pub name: &'a str,
    pub code: &'a str,
    /// The search query matched a relay of this city and neither the city nor
    /// its country, so the city is shown open.
    pub force_expand_under_filter: bool,
    /// All relays of the city, whatever the query.
    pub relays: Vec<&'a RelayLocation>,
}

/// A country of the tree, over texts.
#[verifier::ext_equal]
pub struct CountryView {
    pub name: Seq<char>,
    pub code: Seq<char>,
    pub cities: Seq<CityView>,
}

/// A city of the tree, over texts.
#[verifier::ext_equal]
pub struct CityView {
    pub name: Seq<char>,
    pub code: Seq<char>,
    pub force_expand_under_filter: bool,
    pub relays: Seq<RelayView>,
}

/// The relays in `relays`, over texts.
pub open spec fn relay_views(relays: Seq<&RelayLocation>) -> Seq<RelayView> {
    relays.map_values(|r: &RelayLocation| r@)
}

/// The relay list of the application, over texts.
pub open spec fn relays_of(app: App) -> Seq<RelayView> {
    app.relay_locations@.map_values(|r: RelayLocation| r@)
}

impl<'a> View for CityNode<'a> {
    type V = CityView;

    open spec fn view(&self) -> CityView {
        CityView {
            name: self.name@,
            code: self.code@,
            force_expand_under_filter: self.force_expand_under_filter,
            relays: relay_views(self.relays@),
        }
    }
}

/// The cities in `cities`, over texts.
pub open spec fn city_views(cities: Seq<CityNode<'_>>) -> Seq<CityView> {
    cities.map_values(|c: CityNode<'_>| c@)
}

impl<'a> View for CountryNode<'a> {
    type V = CountryView;

    open spec fn view(&self) -> CountryView {
        CountryView { name: self.name@, code: self.code@, cities: city_views(self.cities@) }
    }
}

/// The tree, over texts.
pub open spec fn tree_view(tree: Seq<CountryNode<'_>>) -> Seq<CountryView> {
    tree.map_values(|c: CountryNode<'_>| c@)
}

// ---- Projection ----

/// The level of the tree at which relays are grouped.
#[derive(Clone, Copy, PartialEq, Eq, Structural)]
pub enum Tier {
    Country,
    City,
}

/// The code by which a relay is grouped.
pub open spec fn code_at(tier: Tier, relay: RelayView) -> Seq<char> {
    match tier {
        Tier::Country => relay.country_code,
        Tier::City => relay.city_code,
    }
}

/// The name that goes with that code.
pub open spec fn name_at(tier: Tier, relay: RelayView) -> Seq<char> {
    match tier {
        Tier::Country => relay.country_name,
        Tier::City => relay.city_name,
    }
}

/// `codes` with `code` put at its place, unless it is there already.
pub open spec fn insert_code(codes: Seq<Seq<char>>, code: Seq<char>) -> Seq<Seq<char>>
    decreases codes.len(),
{
    if codes.len() == 0 {
        seq![code]
    } else if codes[0] == code {
        codes
    } else if text_lt(code, codes[0]) {
        seq![code] + codes
    } else {
        seq![codes[0]] + insert_code(codes.skip(1), code)
    }
}

/// The codes that occur among `relays`, each once, in ascending order.
pub open spec fn codes_of(tier: Tier, relays: Seq<RelayView>) -> Seq<Seq<char>>
    decreases relays.len(),
{
    if relays.len() == 0 {
        Seq::empty()
    } else {
        insert_code(codes_of(tier, relays.drop_last()), code_at(tier, relays.last()))
    }
}

/// The relays with the code `code`, in their order.
pub open spec fn group(tier: Tier, relays: Seq<RelayView>, code: Seq<char>) -> Seq<RelayView> {
    relays.filter(|r: RelayView| code_at(tier, r) == code)
}

/// The city `code` of a country with the relays `relays`. Its name is the one
/// its first relay gives.
pub open spec fn city_of(relays: Seq<RelayView>, code: Seq<char>) -> CityView {
    CityView {
        name: name_at(Tier::City, group(Tier::City, relays, code)[0]),
        code,
        force_expand_under_filter: false,
        relays: group(Tier::City, relays, code),
    }
}

/// The cities of a country with the relays `relays`.
pub open spec fn cities_of(relays: Seq<RelayView>) -> Seq<CityView> {
    codes_of(Tier::City, relays).map_values(|code: Seq<char>| city_of(relays, code))
}

/// The country `code`. Its name is the one its first relay gives.
pub open spec fn country_of(relays: Seq<RelayView>, code: Seq<char>) -> CountryView {
    CountryView {
        name: name_at(Tier::Country, group(Tier::Country, relays, code)[0]),
        code,
        cities: cities_of(group(Tier::Country, relays, code)),
    }
}

/// The relay list grouped by country and city.
pub open spec fn project(relays: Seq<RelayView>) -> Seq<CountryView> {
    codes_of(Tier::Country, relays).map_values(|code: Seq<char>| country_of(relays, code))
}

/// Whether `codes` ascends strictly.
pub open spec fn ascending(codes: Seq<Seq<char>>) -> bool {
    forall|i: int, j: int| 0 <= i < j < codes.len() ==> text_lt(codes[i], codes[j])
}

proof fn insert_code_skips(codes: Seq<Seq<char>>, code: Seq<char>, n: int)
    requires
        0 <= n <= codes.len(),
        forall|i: int| 0 <= i < n ==> text_lt(#[trigger] codes[i], code),
    ensures
        insert_code(codes, code) == codes.take(n) + insert_code(codes.skip(n), code),
    decreases n,
{
    if n == 0 {
        assert(codes.skip(0) =~= codes);
        assert(codes.take(0) + insert_code(codes, code) =~= insert_code(codes, code));
    } else {
        assert(text_lt(codes[0], code));
        text_lt_irreflexive(code);
        if text_lt(code, codes[0]) {
            text_lt_transitive(code, codes[0], code);
        }
        let rest = codes.skip(1);
        assert forall|i: int| 0 <= i < n - 1 implies text_lt(#[trigger] rest[i], code) by {
            assert(rest[i] == codes[i + 1]);
        }
        insert_code_skips(rest, code, n - 1);
        assert(rest.skip(n - 1) =~= codes.skip(n));
        assert(seq![codes[0]] + (rest.take(n - 1) + insert_code(rest.skip(n - 1), code))
            =~= codes.take(n) + insert_code(codes.skip(n), code));
    }
}

proof fn insert_code_facts(codes: Seq<Seq<char>>, code: Seq<char>)
    requires
        ascending(codes),
    ensures
        ascending(insert_code(codes, code)),
        forall|c: Seq<char>|
            #![trigger insert_code(codes, code).contains(c)]
            insert_code(codes, code).contains(c) <==> (c == code || codes.contains(c)),
    decreases codes.len(),
{
    let result = insert_code(codes, code);
    if codes.len() == 0 {
        assert(result[0] == code);
        assert forall|c: Seq<char>|
            #![trigger result.contains(c)]
            result.contains(c) <==> (c == code || codes.contains(c)) by {
            if c == code {
                assert(result[0] == c);
            }
        }
    } else if codes[0] == code {
        assert(codes.contains(code));
    } else if text_lt(code, codes[0]) {
        assert forall|i: int, j: int| 0 <= i < j < result.len() implies text_lt(
            result[i],
            result[j],
        ) by {
            assert(result[j] == codes[j - 1]);
            if i == 0 {
                if j > 1 {
                    assert(text_lt(codes[0], codes[j - 1]));
                    text_lt_transitive(code, codes[0], codes[j - 1]);
                }
            } else {
                assert(result[i] == codes[i - 1]);
            }
        }
        assert forall|c: Seq<char>|
            #![trigger result.contains(c)]
            result.contains(c) <==> (c == code || codes.contains(c)) by {
            if c == code {
                assert(result[0] == c);
            }
            if codes.contains(c) {
                let i = codes.index_of(c);
                assert(result[i + 1] == c);
            }
            if result.contains(c) && c != code {
                let i = result.index_of(c);
                assert(codes[i - 1] == c);
            }
        }
    } else {
        text_lt_total(code, codes[0]);
        let rest = codes.skip(1);
        assert forall|i: int, j: int| 0 <= i < j < rest.len() implies text_lt(rest[i], rest[j]) by {
            assert(rest[i] == codes[i + 1] && rest[j] == codes[j + 1]);
        }
        insert_code_facts(rest, code);
        let tail = insert_code(rest, code);
        assert forall|c: Seq<char>| rest.contains(c) implies codes.contains(c) && text_lt(
            codes[0],
            c,
        ) by {
            let i = rest.index_of(c);
            assert(codes[i + 1] == c);
        }
        assert forall|i: int, j: int| 0 <= i < j < result.len() implies text_lt(
            result[i],
            result[j],
        ) by {
            assert(result[j] == tail[j - 1]);
            assert(tail.contains(tail[j - 1]));
            if i > 0 {
                assert(result[i] == tail[i - 1]);
            }
        }
        assert forall|c: Seq<char>|
            #![trigger result.contains(c)]
            result.contains(c) <==> (c == code || codes.contains(c)) by {
            if tail.contains(c) {
                let i = tail.index_of(c);
                assert(result[i + 1] == c);
            }
            if codes.contains(c) {
                let i = codes.index_of(c);
                if i == 0 {
                    assert(result[0] == c);
                } else {
                    assert(rest[i - 1] == c);
                    assert(rest.contains(c));
                    assert(tail.contains(c));
                }
            }
            if c == code {
                assert(tail.contains(c));
            }
            if result.contains(c) {
                let i = result.index_of(c);
                if i > 0 {
                    assert(tail[i - 1] == c);
                    assert(tail.contains(c));
                } else {
                    assert(codes.contains(codes[0]));
                }
            }
        }
    }
}

/// The codes of a list of relays ascend strictly, and are exactly the codes
/// that its relays have.
pub proof fn codes_are_sorted_and_complete(tier: Tier, relays: Seq<RelayView>)
    ensures
        ascending(codes_of(tier, relays)),
        forall|c: Seq<char>|
            #![trigger codes_of(tier, relays).contains(c)]
            codes_of(tier, relays).contains(c) <==> exists|i: int|
                0 <= i < relays.len() && code_at(tier, #[trigger] relays[i]) == c,
    decreases relays.len(),
{
    if relays.len() > 0 {
        let init = relays.drop_last();
        codes_are_sorted_and_complete(tier, init);
        insert_code_facts(codes_of(tier, init), code_at(tier, relays.last()));
        assert forall|c: Seq<char>|
            #![trigger codes_of(tier, relays).contains(c)]
            codes_of(tier, relays).contains(c) <==> exists|i: int|
                0 <= i < relays.len() && code_at(tier, #[trigger] relays[i]) == c by {
            if codes_of(tier, relays).contains(c) {
                if c == code_at(tier, relays.last()) {
                    assert(relays[relays.len() - 1] == relays.last());
                } else {
                    assert(codes_of(tier, init).contains(c));
                    let i = choose|i: int|
                        0 <= i < init.len() && code_at(tier, #[trigger] init[i]) == c;
                    assert(relays[i] == init[i]);
                }
            }
            if exists|i: int| 0 <= i < relays.len() && code_at(tier, #[trigger] relays[i]) == c {
                let i = choose|i: int|
                    0 <= i < relays.len() && code_at(tier, #[trigger] relays[i]) == c;
                if i < init.len() {
                    assert(init[i] == relays[i]);
                    assert(codes_of(tier, init).contains(c));
                }
            }
        }
    }
}

proof fn group_take(tier: Tier, relays: Seq<RelayView>, code: Seq<char>, n: int)
    requires
        0 <= n < relays.len(),
    ensures
        group(tier, relays.take(n + 1), code) == if code_at(tier, relays[n]) == code {
            group(tier, relays.take(n), code).push(relays[n])
        } else {
            group(tier, relays.take(n), code)
        },
{
    reveal(Seq::filter);
    assert(relays.take(n + 1).drop_last() =~= relays.take(n));
}

proof fn group_is_not_empty(tier: Tier, relays: Seq<RelayView>, code: Seq<char>, i: int)
    requires
        0 <= i < relays.len(),
        code_at(tier, relays[i]) == code,
    ensures
        group(tier, relays, code).len() > 0,
    decreases relays.len(),
{
    let n = relays.len() - 1;
    group_take(tier, relays, code, n);
    assert(relays.take(n + 1) =~= relays);
    if i < n {
        group_is_not_empty(tier, relays.take(n), code, i);
    }
}

fn relay_code<'a>(tier: Tier, relay: &'a RelayLocation) -> (r: &'a str)
    ensures
        r@ == code_at(tier, relay@),
{
    match tier {
        Tier::Country => relay.country_code.as_str(),
        Tier::City => relay.city_code.as_str(),
    }
}

/// `codes` as texts.
pub open spec fn code_views(codes: Seq<&str>) -> Seq<Seq<char>> {
    codes.map_values(|c: &str| c@)
}

fn insert_sorted<'a>(codes: &mut Vec<&'a str>, code: &'a str)
    ensures
        code_views(final(codes)@) == insert_code(code_views(old(codes)@), code@),
{
    let ghost before = code_views(codes@);
    let mut i: usize = 0;
    while i < codes.len() && text_less(codes[i], code)
        invariant
            i <= codes.len(),
            before == code_views(codes@),
            forall|j: int| 0 <= j < i ==> text_lt(#[trigger] before[j], code@),
        decreases codes.len() - i,
    {
        i = i + 1;
    }
    proof {
        insert_code_skips(before, code@, i as int);
        if i < codes@.len() {
            assert(before.skip(i as int)[0] == codes@[i as int]@);
            text_lt_total(before[i as int], code@);
        }
    }
    if i < codes.len() && text_eq(codes[i], code) {
        assert(before.take(i as int) + before.skip(i as int) =~= before);
        return;
    }
    let ghost v = codes@;
    codes.insert(i, code);
    assert(code_views(codes@) =~= before.take(i as int) + (seq![code@] + before.skip(i as int)));
    assert(i == v.len() ==> before.skip(i as int) =~= Seq::empty());
    assert(i == v.len() ==> seq![code@] + before.skip(i as int) =~= seq![code@]);
}

fn distinct_codes<'a>(tier: Tier, relays: &Vec<&'a RelayLocation>) -> (r: Vec<&'a str>)
    ensures
        code_views(r@) == codes_of(tier, relay_views(relays@)),
{
    let ghost all = relay_views(relays@);
    let mut codes: Vec<&'a str> = Vec::new();
    let mut i: usize = 0;
    assert(code_views(codes@) =~= codes_of(tier, all.take(0)));
    while i < relays.len()
        invariant
            i <= relays.len(),
            all == relay_views(relays@),
            code_views(codes@) == codes_of(tier, all.take(i as int)),
        decreases relays.len() - i,
    {
        assert(all.take(i + 1).drop_last() =~= all.take(i as int));
        let code: &'a str = relay_code(tier, relays[i]);
        insert_sorted(&mut codes, code);
        i = i + 1;
    }
    assert(all.take(i as int) =~= all);
    codes
}

fn relays_with_code<'a>(tier: Tier, relays: &Vec<&'a RelayLocation>, code: &str) -> (r: Vec<
    &'a RelayLocation,
>)
    ensures
        relay_views(r@) == group(tier, relay_views(relays@), code@),
{
    let ghost all = relay_views(relays@);
    let mut found: Vec<&'a RelayLocation> = Vec::new();
    let mut i: usize = 0;
    proof {
        reveal(Seq::filter);
        assert(relay_views(found@) =~= group(tier, all.take(0), code@));
    }
    while i < relays.len()
        invariant
            i <= relays.len(),
            all == relay_views(relays@),
            relay_views(found@) == group(tier, all.take(i as int), code@),
        decreases relays.len() - i,
    {
        proof {
            group_take(tier, all, code@, i as int);
        }
        let ghost found0 = found@;
        if text_eq(relay_code(tier, relays[i]), code) {
            found.push(relays[i]);
            assert(relay_views(found@) =~= relay_views(found0).push(all[i as int]));
        }
        i = i + 1;
    }
    assert(all.take(i as int) =~= all);
    found
}

proof fn code_has_a_group(tier: Tier, relays: Seq<RelayView>, i: int)
    requires
        0 <= i < codes_of(tier, relays).len(),
    ensures
        group(tier, relays, codes_of(tier, relays)[i]).len() > 0,
{
    let code = codes_of(tier, relays)[i];
    codes_are_sorted_and_complete(tier, relays);
    assert(codes_of(tier, relays).contains(code));
    let k = choose|k: int| 0 <= k < relays.len() && code_at(tier, #[trigger] relays[k]) == code;
    group_is_not_empty(tier, relays, code, k);
}

fn city_nodes<'a>(relays: &Vec<&'a RelayLocation>) -> (r: Vec<CityNode<'a>>)
    ensures
        city_views(r@) == cities_of(relay_views(relays@)),
{
    let ghost all = relay_views(relays@);
    let codes = distinct_codes(Tier::City, relays);
    let mut cities: Vec<CityNode<'a>> = Vec::new();
    let mut i: usize = 0;
    while i < codes.len()
        invariant
            i <= codes.len(),
            all == relay_views(relays@),
            code_views(codes@) == codes_of(Tier::City, all),
            city_views(cities@) == cities_of(all).take(i as int),
        decreases codes.len() - i,
    {
        let code: &'a str = codes[i];
        assert(code@ == code_views(codes@)[i as int]);
        let members = relays_with_code(Tier::City, relays, code);
        proof {
            code_has_a_group(Tier::City, all, i as int);
        }
        let ghost cities0 = cities@;
        cities.push(
            CityNode {
                name: members[0].city_name.as_str(),
                code,
                force_expand_under_filter: false,
                relays: members,
            },
        );
        assert(cities_of(all)[i as int] == city_of(all, code@));
        assert(city_views(cities@) =~= city_views(cities0).push(cities@.last()@));
        assert(cities_of(all).take(i + 1) =~= cities_of(all).take(i as int).push(
            cities_of(all)[i as int],
        ));
        i = i + 1;
    }
    assert(cities_of(all).take(i as int) =~= cities_of(all));
    cities
}

/// The application's relays, grouped by country and city.
pub fn project_tree(app: &App) -> (r: Vec<CountryNode<'_>>)
    ensures
        tree_view(r@) == project(relays_of(*app)),
{
    let mut relays: Vec<&RelayLocation> = Vec::new();
    let mut k: usize = 0;
    while k < app.relay_locations.len()
        invariant
            k <= app.relay_locations.len(),
            relay_views(relays@) == relays_of(*app).take(k as int),
        decreases app.relay_locations.len() - k,
    {
        let ghost relays0 = relays@;
        relays.push(&app.relay_locations[k]);
        assert(relay_views(relays@) =~= relay_views(relays0).push(relays_of(*app)[k as int]));
        assert(relays_of(*app).take(k + 1) =~= relays_of(*app).take(k as int).push(
            relays_of(*app)[k as int],
        ));
        k = k + 1;
    }
    let ghost all = relays_of(*app);
    assert(relays_of(*app).take(k as int) =~= all);
    let codes = distinct_codes(Tier::Country, &relays);
    let mut tree: Vec<CountryNode<'_>> = Vec::new();
    let mut i: usize = 0;
    while i < codes.len()
        invariant
            i <= codes.len(),
            all == relay_views(relays@),
            code_views(codes@) == codes_of(Tier::Country, all),
            tree_view(tree@) == project(all).take(i as int),
        decreases codes.len() - i,
    {
        let code: &str = codes[i];
        assert(code@ == code_views(codes@)[i as int]);
        let members = relays_with_code(Tier::Country, &relays, code);
        proof {
            code_has_a_group(Tier::Country, all, i as int);
        }
        let ghost tree0 = tree@;
        let cities = city_nodes(&members);
        tree.push(CountryNode { name: members[0].country_name.as_str(), code, cities });
        assert(project(all)[i as int] == country_of(all, code@));
        assert(tree_view(tree@) =~= tree_view(tree0).push(tree@.last()@));
        assert(project(all).take(i + 1) =~= project(all).take(i as int).push(
            project(all)[i as int],
        ));
        i = i + 1;
    }
    assert(project(all).take(i as int) =~= project(all));
    tree
}

// ---- Search ----

/// The protocol segment that the hostname of every WireGuard relay carries.
pub open spec fn protocol_segment() -> Seq<char> {
    "-wg-"@
}

/// Whether `p` is the first position at which `needle` stands in `hay`.
pub open spec fn is_first_at(hay: Seq<char>, needle: Seq<char>, p: int) -> bool {
    occurs_at(hay, needle, p) && forall|q: int| 0 <= q < p ==> !occurs_at(hay, needle, q)
}

/// Whether an occurrence of `needle` at `p` reaches outside the protocol
/// segment that starts at `w`.
pub open spec fn reaches_outside(needle: Seq<char>, p: int, w: int) -> bool {
    p < w || p + needle.len() > w + protocol_segment().len()
}

/// Whether `needle` stands in the lower-cased `hostname`, not merely inside its
/// first protocol segment.
pub open spec fn hostname_hit(hostname: Seq<char>, needle: Seq<char>) -> bool {
    let hay = lower(hostname);
    if contains_text(hay, protocol_segment()) {
        exists|p: int, w: int|
            #![trigger occurs_at(hay, needle, p), is_first_at(hay, protocol_segment(), w)]
            is_first_at(hay, protocol_segment(), w) && occurs_at(hay, needle, p)
                && reaches_outside(needle, p, w)
    } else {
        contains_text(hay, needle)
    }
}

/// True if `needle`, which is in lower case, stands in `hostname` with at least
/// one occurrence that reaches outside the literal `-wg-` of a WireGuard relay:
/// `wg` alone does not find `se-got-wg-001`, while `got-wg`, `wg-001` and `001`
/// do. A hostname without that segment is searched plainly.
///
/// An empty needle may not be looked for in a hostname that begins with the
/// segment, unless an ASCII character follows it.
pub fn hostname_matches(hostname: &str, needle: &str) -> (r: bool)
    requires
        needle@.len() == 0 && occurs_at(lower(hostname@), protocol_segment(), 0) ==> {
            &&& hostname@.len() > protocol_segment().len()
            &&& hostname@[protocol_segment().len() as int] <= '\u{7f}'
        },
    ensures
        r == hostname_hit(hostname@, needle@),
{
    let needle = chars(needle);
    hostname_has(hostname, &needle)
}

fn hostname_has(hostname: &str, needle: &Vec<char>) -> (r: bool)
    ensures
        r == hostname_hit(hostname@, needle@),
{
    let hay = lowered(hostname);
    let segment = chars("-wg-");
    let start: usize = match find(&hay, &segment) {
        None => {
            return contains(&hay, needle);
        },
        Some(w) => w,
    };
    proof {
        assert(is_first_at(hay@, segment@, start as int));
        assert forall|w: int| is_first_at(hay@, segment@, w) implies w == start by {
            if w < start {
                assert(!occurs_at(hay@, segment@, w));
            }
            if start < w {
                assert(!occurs_at(hay@, segment@, start as int));
            }
        }
    }
    assert(start + segment.len() <= hay.len());
    let end: usize = start + segment.len();
    let mut p: usize = 0;
    while p <= hay.len()
        invariant
            hay@ == lower(hostname@),
            segment@ == protocol_segment(),
            p <= hay.len() + 1,
            end == start + segment@.len(),
            is_first_at(hay@, segment@, start as int),
            contains_text(hay@, segment@),
            forall|w: int| is_first_at(hay@, segment@, w) ==> w == start,
            forall|q: int|
                0 <= q < p && #[trigger] occurs_at(hay@, needle@, q) ==> !reaches_outside(
                    needle@,
                    q,
                    start as int,
                ),
        decreases hay.len() + 1 - p,
    {
        if found_at(&hay, needle, p) && (p < start || p + needle.len() > end) {
            assert(reaches_outside(needle@, p as int, start as int));
            return true;
        }
        if p == hay.len() {
            return false;
        }
        p = p + 1;
    }
    false
}

/// Whether `needle` stands in the lower-cased `text`.
pub open spec fn text_hit(text: Seq<char>, needle: Seq<char>) -> bool {
    contains_text(lower(text), needle)
}

/// Whether the name or the code of a place matches.
pub open spec fn place_hit(name: Seq<char>, code: Seq<char>, needle: Seq<char>) -> bool {
    text_hit(name, needle) || text_hit(code, needle)
}

/// Whether the hostname of one of the relays matches.
pub open spec fn relay_hit(relays: Seq<RelayView>, needle: Seq<char>) -> bool {
    exists|i: int| 0 <= i < relays.len() && hostname_hit((#[trigger] relays[i]).hostname, needle)
}

/// Whether the city stays: it matches, one of its relays does, or its country
/// does (`country_hit`).
pub open spec fn keeps_city(city: CityView, country_hit: bool, needle: Seq<char>) -> bool {
    country_hit || place_hit(city.name, city.code, needle) || relay_hit(city.relays, needle)
}

/// A city that stays. It is forced open if only a relay matched.
pub open spec fn kept_city(city: CityView, country_hit: bool, needle: Seq<char>) -> CityView {
    CityView {
        force_expand_under_filter: relay_hit(city.relays, needle) && !country_hit && !place_hit(
            city.name,
            city.code,
            needle,
        ),
        ..city
    }
}

/// The cities that stay.
pub open spec fn kept_cities(
    cities: Seq<CityView>,
    country_hit: bool,
    needle: Seq<char>,
) -> Seq<CityView> {
    cities.filter(|c: CityView| keeps_city(c, country_hit, needle)).map_values(
        |c: CityView| kept_city(c, country_hit, needle),
    )
}

/// Whether the country's own name or code matches.
pub open spec fn country_hit(country: CountryView, needle: Seq<char>) -> bool {
    place_hit(country.name, country.code, needle)
}

/// A country with only the cities that stay.
pub open spec fn kept_country(country: CountryView, needle: Seq<char>) -> CountryView {
    CountryView {
        cities: kept_cities(country.cities, country_hit(country, needle), needle),
        ..country
    }
}

/// Whether the country stays: it matches, or one of its cities stays.
pub open spec fn keeps_country(country: CountryView, needle: Seq<char>) -> bool {
    country_hit(country, needle) || kept_country(country, needle).cities.len() > 0
}

/// The countries that stay, each with the cities that stay.
pub open spec fn prune(tree: Seq<CountryView>, needle: Seq<char>) -> Seq<CountryView> {
    tree.filter(|c: CountryView| keeps_country(c, needle)).map_values(
        |c: CountryView| kept_country(c, needle),
    )
}

/// The tree pruned to `query`, whatever the case it is typed in. An empty query
/// prunes nothing.
pub open spec fn filter(tree: Seq<CountryView>, query: Seq<char>) -> Seq<CountryView> {
    if query.len() == 0 {
        tree
    } else {
        prune(tree, lower(query))
    }
}

proof fn kept_cities_step(cities: Seq<CityView>, country_hit: bool, needle: Seq<char>, n: int)
    requires
        0 <= n < cities.len(),
    ensures
        kept_cities(cities.take(n + 1), country_hit, needle) == if keeps_city(
            cities[n],
            country_hit,
            needle,
        ) {
            kept_cities(cities.take(n), country_hit, needle).push(
                kept_city(cities[n], country_hit, needle),
            )
        } else {
            kept_cities(cities.take(n), country_hit, needle)
        },
{
    reveal(Seq::filter);
    assert(cities.take(n + 1).drop_last() =~= cities.take(n));
    assert(kept_cities(cities.take(n + 1), country_hit, needle) =~= if keeps_city(
        cities[n],
        country_hit,
        needle,
    ) {
        kept_cities(cities.take(n), country_hit, needle).push(
            kept_city(cities[n], country_hit, needle),
        )
    } else {
        kept_cities(cities.take(n), country_hit, needle)
    });
}

proof fn prune_step(tree: Seq<CountryView>, needle: Seq<char>, n: int)
    requires
        0 <= n < tree.len(),
    ensures
        prune(tree.take(n + 1), needle) == if keeps_country(tree[n], needle) {
            prune(tree.take(n), needle).push(kept_country(tree[n], needle))
        } else {
            prune(tree.take(n), needle)
        },
{
    reveal(Seq::filter);
    assert(tree.take(n + 1).drop_last() =~= tree.take(n));
    assert(prune(tree.take(n + 1), needle) =~= if keeps_country(tree[n], needle) {
        prune(tree.take(n), needle).push(kept_country(tree[n], needle))
    } else {
        prune(tree.take(n), needle)
    });
}

proof fn nothing_to_prune(country_hit: bool, needle: Seq<char>)
    ensures
        kept_cities(Seq::empty(), country_hit, needle) == Seq::<CityView>::empty(),
        prune(Seq::empty(), needle) == Seq::<CountryView>::empty(),
{
    reveal(Seq::filter);
    assert(kept_cities(Seq::empty(), country_hit, needle) =~= Seq::<CityView>::empty());
    assert(prune(Seq::empty(), needle) =~= Seq::<CountryView>::empty());
}

fn place_matches(name: &str, code: &str, needle: &Vec<char>) -> (r: bool)
    ensures
        r == place_hit(name@, code@, needle@),
{
    contains(&lowered(name), needle) || contains(&lowered(code), needle)
}

fn relay_matches(relays: &Vec<&RelayLocation>, needle: &Vec<char>) -> (r: bool)
    ensures
        r == relay_hit(relay_views(relays@), needle@),
{
    let mut i: usize = 0;
    while i < relays.len()
        invariant
            i <= relays.len(),
            forall|j: int|
                0 <= j < i ==> !hostname_hit(
                    (#[trigger] relay_views(relays@)[j]).hostname,
                    needle@,
                ),
        decreases relays.len() - i,
    {
        if hostname_has(relays[i].hostname.as_str(), needle) {
            assert(hostname_hit(relay_views(relays@)[i as int].hostname, needle@));
            return true;
        }
        i = i + 1;
    }
    false
}

fn filter_cities<'a>(cities: Vec<CityNode<'a>>, country_match: bool, needle: &Vec<char>) -> (r: Vec<
    CityNode<'a>,
>)
    ensures
        city_views(r@) == kept_cities(city_views(cities@), country_match, needle@),
{
    let ghost all = city_views(cities@);
    let mut kept: Vec<CityNode<'a>> = Vec::new();
    proof {
        nothing_to_prune(country_match, needle@);
        assert(all.take(0) =~= Seq::empty());
        assert(city_views(kept@) =~= Seq::empty());
    }
    for city in it: cities
        invariant
            all == city_views(it.seq()),
            city_views(kept@) == kept_cities(all.take(it.index() as int), country_match, needle@),
    {
        let ghost n = it.index() as int;
        proof {
            kept_cities_step(all, country_match, needle@, n);
            assert(all[n] == city@);
        }
        let city_match = place_matches(city.name, city.code, needle);
        let hostname_match = relay_matches(&city.relays, needle);
        let ghost kept0 = kept@;
        if country_match || city_match || hostname_match {
            kept.push(
                CityNode {
                    name: city.name,
                    code: city.code,
                    force_expand_under_filter: hostname_match && !country_match && !city_match,
                    relays: city.relays,
                },
            );
            assert(city_views(kept@) =~= city_views(kept0).push(kept@.last()@));
        }
    }
    assert(all.take(all.len() as int) =~= all);
    kept
}

/// `tree` pruned to what matches `query`: names and codes of countries and
/// cities, and hostnames as [`hostname_matches`] finds them. A country or city
/// that matches keeps all it holds, and every city keeps its full relay list.
pub fn filter_tree<'a>(tree: Vec<CountryNode<'a>>, query: &str) -> (r: Vec<CountryNode<'a>>)
    ensures
        tree_view(r@) == filter(tree_view(tree@), query@),
{
    if query.is_empty() {
        return tree;
    }
    let needle = lowered(query);
    let ghost all = tree_view(tree@);
    let mut kept: Vec<CountryNode<'a>> = Vec::new();
    proof {
        nothing_to_prune(false, needle@);
        assert(all.take(0) =~= Seq::empty());
        assert(tree_view(kept@) =~= Seq::empty());
    }
    for country in it: tree
        invariant
            all == tree_view(it.seq()),
            tree_view(kept@) == prune(all.take(it.index() as int), needle@),
    {
        let ghost n = it.index() as int;
        proof {
            prune_step(all, needle@, n);
            assert(all[n] == country@);
        }
        let country_match = place_matches(country.name, country.code, &needle);
        let cities = filter_cities(country.cities, country_match, &needle);
        let ghost kept0 = kept@;
        assert(city_views(cities@).len() == cities@.len());
        if country_match || cities.len() > 0 {
            kept.push(CountryNode { name: country.name, code: country.code, cities });
            assert(tree_view(kept@) =~= tree_view(kept0).push(kept@.last()@));
        }
    }
    assert(all.take(all.len() as int) =~= all);
    kept
}

/// The tree that the page shows in the state `state`: the relay list, grouped,
/// and pruned to the query.
pub open spec fn tree_in(app: App, state: PageStateView) -> Seq<CountryView> {
    filter(project(relays_of(app)), state.query)
}

/// The tree that the page shows.
pub open spec fn filtered_tree(app: App) -> Seq<CountryView> {
    tree_in(app, app.select_location_state@)
}

/// The tree that the page shows. Rendering, focusing and activating all go by
/// it, so that a row index means the same row to each of them.
pub fn project_filtered_tree(app: &App) -> (r: Vec<CountryNode<'_>>)
    ensures
        tree_view(r@) == filtered_tree(*app),
{
    let tree = project_tree(app);
    filter_tree(tree, app.select_location_state.query())
}

/// Whether a query prunes the tree.
pub open spec fn filtering(state: PageStateView) -> bool {
    state.query.len() > 0
}

/// Whether a query prunes the tree. While it does, every country is shown open.
pub fn filter_active(app: &App) -> (r: bool)
    ensures
        r == filtering(app.select_location_state@),
{
    !app.select_location_state.query().is_empty()
}

// ---- What holds of the tree ----

proof fn group_holds_every_match(tier: Tier, relays: Seq<RelayView>, code: Seq<char>, i: int)
    requires
        0 <= i < relays.len(),
        code_at(tier, relays[i]) == code,
    ensures
        group(tier, relays, code).contains(relays[i]),
    decreases relays.len(),
{
    let n = relays.len() - 1;
    group_take(tier, relays, code, n);
    assert(relays.take(n + 1) =~= relays);
    let g = group(tier, relays, code);
    if i < n {
        group_holds_every_match(tier, relays.take(n), code, i);
        let h = group(tier, relays.take(n), code);
        let k = h.index_of(relays[i]);
        assert(g[k] == relays[i]);
    } else {
        assert(g[g.len() - 1] == relays[i]);
    }
}

proof fn group_holds_only_matches(tier: Tier, relays: Seq<RelayView>, code: Seq<char>, k: int)
    requires
        0 <= k < group(tier, relays, code).len(),
    ensures
        code_at(tier, group(tier, relays, code)[k]) == code,
        relays.contains(group(tier, relays, code)[k]),
    decreases relays.len(),
{
    reveal(Seq::filter);
    if relays.len() > 0 {
        let n = relays.len() - 1;
        group_take(tier, relays, code, n);
        assert(relays.take(n + 1) =~= relays);
        let h = group(tier, relays.take(n), code);
        if k < h.len() {
            group_holds_only_matches(tier, relays.take(n), code, k);
            let i = relays.take(n).index_of(h[k]);
            assert(relays[i] == h[k]);
        } else {
            assert(relays[n] == group(tier, relays, code)[k]);
        }
    }
}

/// The countries of the tree stand in strictly ascending order of their codes,
/// and so do the cities of each country: no place is listed twice.
pub proof fn places_are_in_order(relays: Seq<RelayView>)
    ensures
        forall|i: int, j: int|
            0 <= i < j < project(relays).len() ==> text_lt(
                (#[trigger] project(relays)[i]).code,
                (#[trigger] project(relays)[j]).code,
            ),
        forall|i: int, j: int, k: int|
            0 <= i < project(relays).len() && 0 <= j < k < project(relays)[i].cities.len()
                ==> text_lt(
                (#[trigger] project(relays)[i].cities[j]).code,
                (#[trigger] project(relays)[i].cities[k]).code,
            ),
{
    codes_are_sorted_and_complete(Tier::Country, relays);
    let codes = codes_of(Tier::Country, relays);
    assert forall|i: int, j: int| 0 <= i < j < project(relays).len() implies text_lt(
        (#[trigger] project(relays)[i]).code,
        (#[trigger] project(relays)[j]).code,
    ) by {
        assert(project(relays)[i].code == codes[i]);
        assert(project(relays)[j].code == codes[j]);
    }
    assert forall|i: int, j: int, k: int|
        0 <= i < project(relays).len() && 0 <= j < k < project(relays)[i].cities.len() implies text_lt(
        (#[trigger] project(relays)[i].cities[j]).code,
        (#[trigger] project(relays)[i].cities[k]).code,
    ) by {
        let members = group(Tier::Country, relays, codes[i]);
        assert(project(relays)[i].cities == cities_of(members));
        codes_are_sorted_and_complete(Tier::City, members);
        let city_codes = codes_of(Tier::City, members);
        assert(project(relays)[i].cities[j].code == city_codes[j]);
        assert(project(relays)[i].cities[k].code == city_codes[k]);
    }
}

/// Every relay of the list stands in the tree, under its country and its city.
pub proof fn every_relay_is_in_the_tree(relays: Seq<RelayView>, n: int)
    requires
        0 <= n < relays.len(),
    ensures
        exists|i: int, j: int|
            #![trigger project(relays)[i].cities[j]]
            0 <= i < project(relays).len() && 0 <= j < project(relays)[i].cities.len()
                && project(relays)[i].code == relays[n].country_code
                && project(relays)[i].cities[j].code == relays[n].city_code
                && project(relays)[i].cities[j].relays.contains(relays[n]),
{
    let r = relays[n];
    let codes = codes_of(Tier::Country, relays);
    codes_are_sorted_and_complete(Tier::Country, relays);
    assert(code_at(Tier::Country, relays[n]) == r.country_code);
    assert(codes.contains(r.country_code));
    let i = codes.index_of(r.country_code);
    let members = group(Tier::Country, relays, r.country_code);
    assert(project(relays)[i] == country_of(relays, r.country_code));
    group_holds_every_match(Tier::Country, relays, r.country_code, n);
    let m = members.index_of(r);
    codes_are_sorted_and_complete(Tier::City, members);
    let city_codes = codes_of(Tier::City, members);
    assert(code_at(Tier::City, members[m]) == r.city_code);
    assert(city_codes.contains(r.city_code));
    let j = city_codes.index_of(r.city_code);
    assert(cities_of(members)[j] == city_of(members, r.city_code));
    group_holds_every_match(Tier::City, members, r.city_code, m);
    assert(project(relays)[i].cities[j].relays.contains(r));
}

/// Every relay of the tree is one of the list, and stands under its own
/// country and city; and no city is forced open.
pub proof fn the_tree_holds_only_listed_relays(relays: Seq<RelayView>, i: int, j: int, k: int)
    requires
        0 <= i < project(relays).len(),
        0 <= j < project(relays)[i].cities.len(),
        0 <= k < project(relays)[i].cities[j].relays.len(),
    ensures
        relays.contains(project(relays)[i].cities[j].relays[k]),
        project(relays)[i].cities[j].relays[k].country_code == project(relays)[i].code,
        project(relays)[i].cities[j].relays[k].city_code == project(relays)[i].cities[j].code,
        !project(relays)[i].cities[j].force_expand_under_filter,
{
    let code = codes_of(Tier::Country, relays)[i];
    let members = group(Tier::Country, relays, code);
    assert(project(relays)[i] == country_of(relays, code));
    let city_code = codes_of(Tier::City, members)[j];
    assert(cities_of(members)[j] == city_of(members, city_code));
    group_holds_only_matches(Tier::City, members, city_code, k);
    let r = group(Tier::City, members, city_code)[k];
    let m = members.index_of(r);
    group_holds_only_matches(Tier::Country, relays, code, m);
}

proof fn kept_city_comes_from(cities: Seq<CityView>, hit: bool, needle: Seq<char>, k: int)
    requires
        0 <= k < kept_cities(cities, hit, needle).len(),
    ensures
        exists|j: int|
            0 <= j < cities.len() && keeps_city(#[trigger] cities[j], hit, needle) && kept_cities(
                cities,
                hit,
                needle,
            )[k] == kept_city(cities[j], hit, needle),
    decreases cities.len(),
{
    nothing_to_prune(hit, needle);
    if cities.len() == 0 {
        assert(cities =~= Seq::empty());
    } else {
        let n = cities.len() - 1;
        kept_cities_step(cities, hit, needle, n);
        assert(cities.take(n + 1) =~= cities);
        let init = kept_cities(cities.take(n), hit, needle);
        if k < init.len() {
            kept_city_comes_from(cities.take(n), hit, needle, k);
            let j = choose|j: int|
                0 <= j < cities.take(n).len() && keeps_city(#[trigger] cities.take(n)[j], hit, needle)
                    && init[k] == kept_city(cities.take(n)[j], hit, needle);
            assert(cities[j] == cities.take(n)[j]);
        } else {
            assert(keeps_city(cities[n], hit, needle));
        }
    }
}

proof fn kept_country_comes_from(tree: Seq<CountryView>, needle: Seq<char>, k: int)
    requires
        0 <= k < prune(tree, needle).len(),
    ensures
        exists|i: int|
            0 <= i < tree.len() && keeps_country(#[trigger] tree[i], needle) && prune(
                tree,
                needle,
            )[k] == kept_country(tree[i], needle),
    decreases tree.len(),
{
    nothing_to_prune(false, needle);
    if tree.len() == 0 {
        assert(tree =~= Seq::empty());
    } else {
        let n = tree.len() - 1;
        prune_step(tree, needle, n);
        assert(tree.take(n + 1) =~= tree);
        let init = prune(tree.take(n), needle);
        if k < init.len() {
            kept_country_comes_from(tree.take(n), needle, k);
            let i = choose|i: int|
                0 <= i < tree.take(n).len() && keeps_country(#[trigger] tree.take(n)[i], needle)
                    && init[k] == kept_country(tree.take(n)[i], needle);
            assert(tree[i] == tree.take(n)[i]);
        } else {
            assert(keeps_country(tree[n], needle));
        }
    }
}

pub(crate) proof fn city_stays(cities: Seq<CityView>, hit: bool, needle: Seq<char>, j: int) -> (l:
    int)
    requires
        0 <= j < cities.len(),
        keeps_city(cities[j], hit, needle),
    ensures
        0 <= l < kept_cities(cities, hit, needle).len(),
        kept_cities(cities, hit, needle)[l] == kept_city(cities[j], hit, needle),
    decreases cities.len(),
{
    let n = cities.len() - 1;
    kept_cities_step(cities, hit, needle, n);
    assert(cities.take(n + 1) =~= cities);
    let init = kept_cities(cities.take(n), hit, needle);
    if j < n {
        let l = city_stays(cities.take(n), hit, needle, j);
        assert(kept_cities(cities, hit, needle)[l] == init[l]);
        l
    } else {
        init.len() as int
    }
}

pub(crate) proof fn country_stays(tree: Seq<CountryView>, needle: Seq<char>, i: int) -> (k: int)
    requires
        0 <= i < tree.len(),
        keeps_country(tree[i], needle),
    ensures
        0 <= k < prune(tree, needle).len(),
        prune(tree, needle)[k] == kept_country(tree[i], needle),
    decreases tree.len(),
{
    let n = tree.len() - 1;
    prune_step(tree, needle, n);
    assert(tree.take(n + 1) =~= tree);
    let init = prune(tree.take(n), needle);
    if i < n {
        let k = country_stays(tree.take(n), needle, i);
        assert(prune(tree, needle)[k] == init[k]);
        k
    } else {
        init.len() as int
    }
}

/// A city that stays under a query is a city of the unpruned tree, with the
/// same name and code and with its full relay list, and it is forced open only
/// where a relay of it matched and neither it nor its country did.
pub proof fn filtering_keeps_relay_lists_full(
    tree: Seq<CountryView>,
    query: Seq<char>,
    k: int,
    l: int,
)
    requires
        query.len() > 0,
        0 <= k < filter(tree, query).len(),
        0 <= l < filter(tree, query)[k].cities.len(),
    ensures
        exists|i: int, j: int|
            #![trigger tree[i].cities[j]]
            {
                let country = filter(tree, query)[k];
                let city = country.cities[l];
                &&& 0 <= i < tree.len()
                &&& 0 <= j < tree[i].cities.len()
                &&& country.name == tree[i].name
                &&& country.code == tree[i].code
                &&& city.name == tree[i].cities[j].name
                &&& city.code == tree[i].cities[j].code
                &&& city.relays == tree[i].cities[j].relays
                &&& city.force_expand_under_filter == (relay_hit(city.relays, lower(query))
                    && !country_hit(country, lower(query)) && !place_hit(
                    city.name,
                    city.code,
                    lower(query),
                ))
            },
{
    let needle = lower(query);
    kept_country_comes_from(tree, needle, k);
    let i = choose|i: int|
        0 <= i < tree.len() && keeps_country(#[trigger] tree[i], needle) && prune(tree, needle)[k]
            == kept_country(tree[i], needle);
    let hit = country_hit(tree[i], needle);
    kept_city_comes_from(tree[i].cities, hit, needle, l);
    let j = choose|j: int|
        0 <= j < tree[i].cities.len() && keeps_city(#[trigger] tree[i].cities[j], hit, needle)
            && kept_cities(tree[i].cities, hit, needle)[l] == kept_city(
            tree[i].cities[j],
            hit,
            needle,
        );
    assert(tree[i].cities[j].relays == filter(tree, query)[k].cities[l].relays);
}

/// Pruning twice is pruning once.
pub proof fn filtering_is_idempotent(tree: Seq<CountryView>, query: Seq<char>)
    ensures
        filter(filter(tree, query), query) == filter(tree, query),
{
    if query.len() > 0 {
        prune_again(tree, lower(query));
    }
}

proof fn keep_all_cities_again(cities: Seq<CityView>, hit: bool, needle: Seq<char>)
    ensures
        kept_cities(kept_cities(cities, hit, needle), hit, needle) == kept_cities(
            cities,
            hit,
            needle,
        ),
    decreases cities.len(),
{
    nothing_to_prune(hit, needle);
    if cities.len() == 0 {
        assert(cities =~= Seq::empty());
    } else {
        let n = cities.len() - 1;
        kept_cities_step(cities, hit, needle, n);
        assert(cities.take(n + 1) =~= cities);
        keep_all_cities_again(cities.take(n), hit, needle);
        if keeps_city(cities[n], hit, needle) {
            let once = kept_cities(cities, hit, needle);
            let m = once.len() - 1;
            kept_cities_step(once, hit, needle, m);
            assert(once.take(m + 1) =~= once);
            assert(once.take(m) =~= kept_cities(cities.take(n), hit, needle));
        }
    }
}

proof fn prune_again(tree: Seq<CountryView>, needle: Seq<char>)
    ensures
        prune(prune(tree, needle), needle) == prune(tree, needle),
    decreases tree.len(),
{
    nothing_to_prune(false, needle);
    if tree.len() == 0 {
        assert(tree =~= Seq::empty());
    } else {
        let n = tree.len() - 1;
        prune_step(tree, needle, n);
        assert(tree.take(n + 1) =~= tree);
        prune_again(tree.take(n), needle);
        if keeps_country(tree[n], needle) {
            let once = prune(tree, needle);
            let m = once.len() - 1;
            prune_step(once, needle, m);
            assert(once.take(m + 1) =~= once);
            assert(once.take(m) =~= prune(tree.take(n), needle));
            keep_all_cities_again(tree[n].cities, country_hit(tree[n], needle), needle);
            assert(kept_country(once[m], needle) =~= once[m]);
        }
    }
}

proof fn lower_is_idempotent(s: Seq<char>)
    ensures
        lower(lower(s)) == lower(s),
{
    assert forall|i: int| 0 <= i < s.len() implies lower_char(lower_char(#[trigger] s[i]))
        == lower_char(s[i]) by {
        let c = s[i];
        if 'A' <= c && c <= 'Z' {
            assert(((c as u8) + 32) as u8 as char > 'Z');
        }
    }
    assert(lower(lower(s)) =~= lower(s));
}

/// The case in which a query is typed, and the case of a hostname, make no
/// difference.
pub proof fn search_ignores_case(tree: Seq<CountryView>, query: Seq<char>, hostname: Seq<char>)
    ensures
        filter(tree, lower(query)) == filter(tree, query),
        hostname_hit(lower(hostname), query) == hostname_hit(hostname, query),
{
    lower_is_idempotent(query);
    lower_is_idempotent(hostname);
}

/// What stands only inside the protocol segment finds no relay: a needle whose
/// every occurrence in the hostname lies within the first `-wg-` does not match.
pub proof fn the_protocol_segment_alone_finds_nothing(
    hostname: Seq<char>,
    needle: Seq<char>,
    segment: int,
)
    requires
        is_first_at(lower(hostname), protocol_segment(), segment),
        forall|p: int|
            occurs_at(lower(hostname), needle, p) ==> segment <= p && p + needle.len() <= segment
                + protocol_segment().len(),
    ensures
        !hostname_hit(hostname, needle),
{
    let hay = lower(hostname);
    assert(contains_text(hay, protocol_segment()));
    if hostname_hit(hostname, needle) {
        let (p, w) = choose|p: int, w: int|
            #![trigger occurs_at(hay, needle, p), is_first_at(hay, protocol_segment(), w)]
            is_first_at(hay, protocol_segment(), w) && occurs_at(hay, needle, p)
                && reaches_outside(needle, p, w);
        if w < segment {
            assert(!occurs_at(hay, protocol_segment(), w));
        }
        if segment < w {
            assert(!occurs_at(hay, protocol_segment(), segment));
        }
    }
}

} // verus!
