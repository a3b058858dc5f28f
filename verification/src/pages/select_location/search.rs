//! What a search finds, said of the texts themselves.

use crate::daemon::RelayView;
use crate::pages::select_location::tree::{
    city_stays, country_hit, country_stays, filter, hostname_hit, is_first_at, kept_cities,
    kept_city, kept_country, keeps_city, keeps_country, place_hit, prune, protocol_segment,
    reaches_outside, relay_hit, text_hit, CityView, CountryView,
};
use crate::text::{contains_text, lower, lower_char, occurs_at};
use vstd::prelude::*;

verus! {

// ---- Mentions ----

/// Whether two characters are the same but for the case of an ASCII letter.
pub open spec fn same_letter(a: char, b: char) -> bool {
    ||| a == b
    ||| 'A' <= a && a <= 'Z' && b as int == a as int + 32
    ||| 'A' <= b && b <= 'Z' && a as int == b as int + 32
}

/// Whether `text` reads `query` from position `p` on, whatever the case.
pub open spec fn reads_at(text: Seq<char>, query: Seq<char>, p: int) -> bool {
    &&& 0 <= p
    &&& p + query.len() <= text.len()
    &&& forall|i: int| 0 <= i < query.len() ==> same_letter(#[trigger] text[p + i], query[i])
}

/// Whether `text` mentions `query` anywhere.
pub open spec fn mentions(text: Seq<char>, query: Seq<char>) -> bool {
    exists|p: int| #[trigger] reads_at(text, query, p)
}

/// Whether `w` is where the first `-wg-` of `hostname` starts.
pub open spec fn segment_at(hostname: Seq<char>, w: int) -> bool {
    reads_at(hostname, seq!['-', 'w', 'g', '-'], w) && forall|v: int|
        0 <= v < w ==> !reads_at(hostname, seq!['-', 'w', 'g', '-'], v)
}

/// Whether the character at `c` lies in the first `-wg-` of `hostname`.
pub open spec fn in_segment(hostname: Seq<char>, c: int) -> bool {
    exists|w: int| #[trigger] segment_at(hostname, w) && w <= c < w + 4
}

/// Whether `hostname` mentions `query` with a character outside its first `-wg-`.
pub open spec fn hostname_mentions(hostname: Seq<char>, query: Seq<char>) -> bool {
    exists|p: int, c: int| #[trigger]
        reads_at(hostname, query, p) && p <= c < p + query.len() && !#[trigger] in_segment(
            hostname,
            c,
        )
}

/// Whether one of the relays is mentioned.
pub open spec fn relay_mentioned(relays: Seq<RelayView>, query: Seq<char>) -> bool {
    exists|r: int|
        0 <= r < relays.len() && hostname_mentions((#[trigger] relays[r]).hostname, query)
}

/// Whether the country is mentioned by its name or its code.
pub open spec fn country_mentioned(country: CountryView, query: Seq<char>) -> bool {
    mentions(country.name, query) || mentions(country.code, query)
}

/// Whether the city is mentioned by its name or its code.
pub open spec fn city_mentioned(city: CityView, query: Seq<char>) -> bool {
    mentions(city.name, query) || mentions(city.code, query)
}

proof fn letters_agree(a: char, b: char)
    ensures
        lower_char(a) == lower_char(b) <==> same_letter(a, b),
{
    if 'A' <= a && a <= 'Z' {
        assert(lower_char(a) as int == a as int + 32);
    }
    if 'A' <= b && b <= 'Z' {
        assert(lower_char(b) as int == b as int + 32);
    }
}

proof fn occurrences_are_readings(text: Seq<char>, query: Seq<char>, p: int)
    ensures
        occurs_at(lower(text), lower(query), p) <==> reads_at(text, query, p),
{
    let hay = lower(text);
    let needle = lower(query);
    if 0 <= p && p + query.len() <= text.len() {
        let part = hay.subrange(p, p + needle.len());
        assert forall|i: int| 0 <= i < query.len() implies (part[i] == needle[i] <==> same_letter(
            #[trigger] text[p + i],
            query[i],
        )) by {
            assert(part[i] == lower_char(text[p + i]));
            letters_agree(text[p + i], query[i]);
        }
        if part == needle {
            assert forall|i: int| 0 <= i < query.len() implies same_letter(
                #[trigger] text[p + i],
                query[i],
            ) by {
                assert(part[i] == needle[i]);
            }
        }
        if reads_at(text, query, p) {
            assert forall|i: int| 0 <= i < query.len() implies part[i] == needle[i] by {
                assert(same_letter(text[p + i], query[i]));
            }
            assert(part =~= needle);
        }
    }
}

proof fn hits_are_mentions(text: Seq<char>, query: Seq<char>)
    ensures
        text_hit(text, lower(query)) <==> mentions(text, query),
{
    if text_hit(text, lower(query)) {
        let p = choose|p: int| occurs_at(lower(text), lower(query), p);
        occurrences_are_readings(text, query, p);
    }
    if mentions(text, query) {
        let p = choose|p: int| #[trigger] reads_at(text, query, p);
        occurrences_are_readings(text, query, p);
    }
}

proof fn segments_agree(hostname: Seq<char>, w: int)
    ensures
        is_first_at(lower(hostname), protocol_segment(), w) <==> segment_at(hostname, w),
{
    reveal_strlit("-wg-");
    let s = seq!['-', 'w', 'g', '-'];
    assert(protocol_segment() =~= s);
    assert(lower(s) =~= s);
    assert forall|v: int| #[trigger] occurs_at(lower(hostname), s, v) <==> reads_at(
        hostname,
        s,
        v,
    ) by {
        occurrences_are_readings(hostname, s, v);
    }
    if is_first_at(lower(hostname), protocol_segment(), w) {
        assert forall|v: int| 0 <= v < w implies !reads_at(hostname, s, v) by {
            assert(!occurs_at(lower(hostname), s, v));
        }
    }
    if segment_at(hostname, w) {
        assert forall|v: int| 0 <= v < w implies !occurs_at(lower(hostname), s, v) by {
            assert(!reads_at(hostname, s, v));
        }
    }
}

proof fn first_occurrence(hay: Seq<char>, needle: Seq<char>, p: int) -> (w: int)
    requires
        occurs_at(hay, needle, p),
    ensures
        is_first_at(hay, needle, w),
    decreases p,
{
    if exists|q: int| 0 <= q < p && occurs_at(hay, needle, q) {
        let q = choose|q: int| 0 <= q < p && occurs_at(hay, needle, q);
        first_occurrence(hay, needle, q)
    } else {
        p
    }
}

/// A hostname is found exactly if it mentions the query outside its protocol
/// segment.
pub proof fn hostnames_are_found_by_what_they_mention(hostname: Seq<char>, query: Seq<char>)
    requires
        query.len() > 0,
    ensures
        hostname_hit(hostname, lower(query)) <==> hostname_mentions(hostname, query),
{
    let hay = lower(hostname);
    let needle = lower(query);
    reveal_strlit("-wg-");
    assert forall|v: int| #[trigger]
        is_first_at(hay, protocol_segment(), v) <==> segment_at(hostname, v) by {
        segments_agree(hostname, v);
    }
    assert forall|p: int| #[trigger] occurs_at(hay, needle, p) <==> reads_at(
        hostname,
        query,
        p,
    ) by {
        occurrences_are_readings(hostname, query, p);
    }
    if contains_text(hay, protocol_segment()) {
        let at = choose|p: int| occurs_at(hay, protocol_segment(), p);
        let w = first_occurrence(hay, protocol_segment(), at);
        assert(segment_at(hostname, w));
        assert forall|v: int| segment_at(hostname, v) implies v == w by {
            assert(is_first_at(hay, protocol_segment(), v));
        }
        assert forall|c: int| #[trigger] in_segment(hostname, c) <==> w <= c < w + 4 by {}
        if hostname_hit(hostname, needle) {
            let (p, v) = choose|p: int, v: int|
                #![trigger occurs_at(hay, needle, p), is_first_at(hay, protocol_segment(), v)]
                is_first_at(hay, protocol_segment(), v) && occurs_at(hay, needle, p)
                    && reaches_outside(needle, p, v);
            let c = if p < w {
                p
            } else {
                p + query.len() - 1
            };
            assert(reads_at(hostname, query, p));
            assert(!in_segment(hostname, c));
        }
        if hostname_mentions(hostname, query) {
            let (p, c) = choose|p: int, c: int| #[trigger]
                reads_at(hostname, query, p) && p <= c < p + query.len() && !#[trigger] in_segment(
                    hostname,
                    c,
                );
            assert(occurs_at(hay, needle, p));
            assert(reaches_outside(needle, p, w));
        }
    } else {
        assert forall|c: int| !#[trigger] in_segment(hostname, c) by {
            if in_segment(hostname, c) {
                let v = choose|v: int| #[trigger] segment_at(hostname, v) && v <= c < v + 4;
                assert(is_first_at(hay, protocol_segment(), v));
                assert(occurs_at(hay, protocol_segment(), v));
            }
        }
        if hostname_hit(hostname, needle) {
            let p = choose|p: int| occurs_at(hay, needle, p);
            assert(reads_at(hostname, query, p));
            assert(!in_segment(hostname, p));
        }
        if hostname_mentions(hostname, query) {
            let (p, c) = choose|p: int, c: int| #[trigger]
                reads_at(hostname, query, p) && p <= c < p + query.len() && !#[trigger] in_segment(
                    hostname,
                    c,
                );
            assert(occurs_at(hay, needle, p));
        }
    }
}

proof fn what_is_hit(country: CountryView, city: CityView, query: Seq<char>)
    requires
        query.len() > 0,
    ensures
        country_hit(country, lower(query)) <==> country_mentioned(country, query),
        place_hit(city.name, city.code, lower(query)) <==> city_mentioned(city, query),
        relay_hit(city.relays, lower(query)) <==> relay_mentioned(city.relays, query),
{
    hits_are_mentions(country.name, query);
    hits_are_mentions(country.code, query);
    hits_are_mentions(city.name, query);
    hits_are_mentions(city.code, query);
    assert forall|r: int| 0 <= r < city.relays.len() implies (hostname_hit(
        (#[trigger] city.relays[r]).hostname,
        lower(query),
    ) <==> hostname_mentions(city.relays[r].hostname, query)) by {
        hostnames_are_found_by_what_they_mention(city.relays[r].hostname, query);
    }
}

// ---- What stays ----

/// Whether `query` is about the city: it mentions the city, its country, or one
/// of its relays.
pub open spec fn is_about(country: CountryView, city: CityView, query: Seq<char>) -> bool {
    country_mentioned(country, query) || city_mentioned(city, query) || relay_mentioned(
        city.relays,
        query,
    )
}

/// Whether `found` is the city `city`, open exactly if only a relay of it is
/// mentioned.
pub open spec fn found_as(
    found: CityView,
    country: CountryView,
    city: CityView,
    query: Seq<char>,
) -> bool {
    &&& found.name == city.name
    &&& found.code == city.code
    &&& found.relays == city.relays
    &&& found.force_expand_under_filter <==> relay_mentioned(city.relays, query)
        && !country_mentioned(country, query) && !city_mentioned(city, query)
}

/// Every city that the query is about stays, under its country.
pub proof fn what_is_mentioned_is_found(
    tree: Seq<CountryView>,
    query: Seq<char>,
    i: int,
    j: int,
)
    requires
        query.len() > 0,
        0 <= i < tree.len(),
        0 <= j < tree[i].cities.len(),
        is_about(tree[i], tree[i].cities[j], query),
    ensures
        exists|k: int, l: int|
            #![trigger filter(tree, query)[k].cities[l]]
            0 <= k < filter(tree, query).len() && 0 <= l < filter(tree, query)[k].cities.len()
                && filter(tree, query)[k].name == tree[i].name && filter(tree, query)[k].code
                == tree[i].code && found_as(
                filter(tree, query)[k].cities[l],
                tree[i],
                tree[i].cities[j],
                query,
            ),
{
    let needle = lower(query);
    let hit = country_hit(tree[i], needle);
    what_is_hit(tree[i], tree[i].cities[j], query);
    assert(keeps_city(tree[i].cities[j], hit, needle));
    let l = city_stays(tree[i].cities, hit, needle, j);
    assert(keeps_country(tree[i], needle));
    let k = country_stays(tree, needle, i);
    assert(filter(tree, query)[k].cities[l] == kept_city(tree[i].cities[j], hit, needle));
}

/// A country that the query mentions stays, with all its cities.
pub proof fn a_mentioned_country_stays_whole(tree: Seq<CountryView>, query: Seq<char>, i: int)
    requires
        query.len() > 0,
        0 <= i < tree.len(),
        country_mentioned(tree[i], query),
    ensures
        exists|k: int|
            0 <= k < filter(tree, query).len() && (#[trigger] filter(tree, query)[k]).name
                == tree[i].name && filter(tree, query)[k].code == tree[i].code && filter(
                tree,
                query,
            )[k].cities.len() == tree[i].cities.len(),
{
    let needle = lower(query);
    hits_are_mentions(tree[i].name, query);
    hits_are_mentions(tree[i].code, query);
    assert(country_hit(tree[i], needle));
    all_cities_stay(tree[i].cities, needle);
    let k = country_stays(tree, needle, i);
    assert(filter(tree, query)[k] == kept_country(tree[i], needle));
}

proof fn all_cities_stay(cities: Seq<CityView>, needle: Seq<char>)
    ensures
        kept_cities(cities, true, needle).len() == cities.len(),
    decreases cities.len(),
{
    reveal(Seq::filter);
    if cities.len() > 0 {
        all_cities_stay(cities.drop_last(), needle);
    }
}

/// Every city that stays is one that the query is about.
pub proof fn what_is_found_is_mentioned(
    tree: Seq<CountryView>,
    query: Seq<char>,
    k: int,
    l: int,
)
    requires
        query.len() > 0,
        0 <= k < filter(tree, query).len(),
        0 <= l < filter(tree, query)[k].cities.len(),
    ensures
        exists|i: int, j: int|
            #![trigger tree[i].cities[j]]
            0 <= i < tree.len() && 0 <= j < tree[i].cities.len() && filter(tree, query)[k].name
                == tree[i].name && filter(tree, query)[k].code == tree[i].code && is_about(
                tree[i],
                tree[i].cities[j],
                query,
            ) && found_as(filter(tree, query)[k].cities[l], tree[i], tree[i].cities[j], query),
{
    let needle = lower(query);
    let i = country_source(tree, needle, k);
    let hit = country_hit(tree[i], needle);
    let j = city_source(tree[i].cities, hit, needle, l);
    what_is_hit(tree[i], tree[i].cities[j], query);
    assert(tree[i].cities[j].name == filter(tree, query)[k].cities[l].name);
}

/// A country that stays is mentioned, or has a city that stays.
pub proof fn no_country_stays_for_nothing(tree: Seq<CountryView>, query: Seq<char>, k: int)
    requires
        query.len() > 0,
        0 <= k < filter(tree, query).len(),
    ensures
        country_mentioned(filter(tree, query)[k], query) || filter(tree, query)[k].cities.len() > 0,
{
    let needle = lower(query);
    let i = country_source(tree, needle, k);
    hits_are_mentions(tree[i].name, query);
    hits_are_mentions(tree[i].code, query);
}

proof fn country_source(tree: Seq<CountryView>, needle: Seq<char>, k: int) -> (i: int)
    requires
        0 <= k < prune(tree, needle).len(),
    ensures
        0 <= i < tree.len(),
        keeps_country(tree[i], needle),
        prune(tree, needle)[k] == kept_country(tree[i], needle),
    decreases tree.len(),
{
    reveal(Seq::filter);
    let n = tree.len() - 1;
    let init = prune(tree.drop_last(), needle);
    if tree.len() == 0 {
        0
    } else if k < init.len() {
        let i = country_source(tree.drop_last(), needle, k);
        assert(prune(tree, needle)[k] == init[k]);
        i
    } else {
        n
    }
}

proof fn city_source(cities: Seq<CityView>, hit: bool, needle: Seq<char>, l: int) -> (j: int)
    requires
        0 <= l < kept_cities(cities, hit, needle).len(),
    ensures
        0 <= j < cities.len(),
        keeps_city(cities[j], hit, needle),
        kept_cities(cities, hit, needle)[l] == kept_city(cities[j], hit, needle),
    decreases cities.len(),
{
    reveal(Seq::filter);
    let n = cities.len() - 1;
    let init = kept_cities(cities.drop_last(), hit, needle);
    if cities.len() == 0 {
        0
    } else if l < init.len() {
        let j = city_source(cities.drop_last(), hit, needle, l);
        assert(kept_cities(cities, hit, needle)[l] == init[l]);
        j
    } else {
        n
    }
}

/// Without a query nothing is pruned, and nothing is marked.
pub proof fn no_query_prunes_nothing(tree: Seq<CountryView>)
    ensures
        filter(tree, Seq::empty()) == tree,
{
}

/// A search keeps the order of the countries: where it leaves two, the one that
/// stood first still does.
pub proof fn a_search_keeps_the_order(tree: Seq<CountryView>, query: Seq<char>, k: int, m: int)
    requires
        query.len() > 0,
        0 <= k < m < filter(tree, query).len(),
    ensures
        exists|i: int, j: int|
            #![trigger tree[i], tree[j]]
            0 <= i < j < tree.len() && filter(tree, query)[k].code == tree[i].code && filter(
                tree,
                query,
            )[m].code == tree[j].code,
{
    in_order(tree, lower(query), k, m);
}

proof fn in_order(tree: Seq<CountryView>, needle: Seq<char>, k: int, m: int)
    requires
        0 <= k < m < prune(tree, needle).len(),
    ensures
        exists|i: int, j: int|
            #![trigger tree[i], tree[j]]
            0 <= i < j < tree.len() && prune(tree, needle)[k].code == tree[i].code && prune(
                tree,
                needle,
            )[m].code == tree[j].code,
    decreases tree.len(),
{
    reveal(Seq::filter);
    if tree.len() > 0 {
        let less = tree.drop_last();
        let init = prune(less, needle);
        let all = prune(tree, needle);
        if m < init.len() {
            in_order(less, needle, k, m);
            assert(all[k] == init[k] && all[m] == init[m]);
            let (i, j) = choose|i: int, j: int|
                #![trigger less[i], less[j]]
                0 <= i < j < less.len() && init[k].code == less[i].code && init[m].code
                    == less[j].code;
            assert(tree[i] == less[i] && tree[j] == less[j]);
        } else {
            let i = country_source(less, needle, k);
            assert(all[k] == init[k]);
            assert(tree[i] == less[i]);
            assert(tree[tree.len() - 1].code == all[m].code);
        }
    }
}

} // verus!
