//! State of the location filter page.

use crate::text_set::TextSet;
use vstd::prelude::*;

verus! {

/// Who owns a relay.
#[derive(Clone, Copy, Debug, PartialEq, Eq, Structural)]
pub enum Ownership {
    Any,
    MullvadOwned,
    Rented,
}

/// State of the location filter page. A provider is selected unless it is
/// excluded.
#[derive(Debug)]
pub struct PageState {
    pub ownership: Ownership,
    pub excluded: TextSet,
}

/// The ownership filter, and the providers that are not selected.
#[verifier::ext_equal]
pub struct PageStateView {
    pub ownership: Ownership,
    pub excluded: Set<Seq<char>>,
}

impl View for PageState {
    type V = PageStateView;

    open spec fn view(&self) -> PageStateView {
        PageStateView { ownership: self.ownership, excluded: self.excluded@ }
    }
}

/// The names in `providers`.
pub open spec fn names(providers: Seq<&str>) -> Set<Seq<char>> {
    providers.map_values(|p: &str| p@).to_set()
}

impl PageStateView {
    /// Whether every provider is selected.
    pub open spec fn all_selected(self) -> bool {
        self.excluded == Set::<Seq<char>>::empty()
    }

    /// The state with the selection of `provider` turned over.
    pub open spec fn toggle(self, provider: Seq<char>) -> PageStateView {
        if self.excluded.contains(provider) {
            PageStateView { excluded: self.excluded.remove(provider), ..self }
        } else {
            PageStateView { excluded: self.excluded.insert(provider), ..self }
        }
    }

    /// The state with none of `providers` selected if all were, and with all
    /// selected if some were not.
    pub open spec fn toggle_all(self, providers: Set<Seq<char>>) -> PageStateView {
        if self.all_selected() {
            PageStateView { excluded: providers, ..self }
        } else {
            PageStateView { excluded: Set::empty(), ..self }
        }
    }
}

/// No filter: any owner, all providers.
pub open spec fn no_filter() -> PageStateView {
    PageStateView { ownership: Ownership::Any, excluded: Set::empty() }
}

impl PageState {
    /// No filter: any owner, all providers.
    pub fn new() -> (r: PageState)
        ensures
            r@ == no_filter(),
    {
        PageState { ownership: Ownership::Any, excluded: TextSet::new() }
    }

    /// Filter by `ownership`.
    pub fn set_ownership(&mut self, ownership: Ownership)
        ensures
            final(self)@ == (PageStateView { ownership, ..old(self)@ }),
    {
        self.ownership = ownership;
    }

    /// Whether `provider` is selected.
    pub fn is_provider_selected(&self, provider: &str) -> (r: bool)
        ensures
            r == !self@.excluded.contains(provider@),
    {
        !self.excluded.contains(provider)
    }

    /// Whether every provider is selected.
    pub fn all_providers_selected(&self) -> (r: bool)
        ensures
            r == self@.all_selected(),
    {
        self.excluded.is_empty()
    }

    /// Turn the selection of `provider` over.
    pub fn toggle_provider(&mut self, provider: &str)
        ensures
            final(self)@ == old(self)@.toggle(provider@),
    {
        if self.excluded.contains(provider) {
            self.excluded.remove(provider);
        } else {
            self.excluded.insert(provider);
        }
    }

    /// Deselect all of `providers` if every provider is selected; select every
    /// provider otherwise.
    pub fn toggle_all_providers(&mut self, providers: &[&str])
        ensures
            final(self)@ == old(self)@.toggle_all(names(providers@)),
    {
        let all = self.all_providers_selected();
        let mut excluded: TextSet = TextSet::new();
        if all {
            let mut i: usize = 0;
            assert(names(providers@.take(0)) =~= Set::<Seq<char>>::empty());
            while i < providers.len()
                invariant
                    i <= providers.len(),
                    excluded@ == names(providers@.take(i as int)),
                decreases providers.len() - i,
            {
                proof {
                    names_push(providers@.take(i as int), providers@[i as int]);
                    assert(providers@.take(i + 1) =~= providers@.take(i as int).push(
                        providers@[i as int],
                    ));
                }
                excluded.insert(providers[i]);
                i = i + 1;
            }
            assert(providers@.take(i as int) =~= providers@);
        }
        self.excluded = excluded;
    }
}

proof fn names_push(v: Seq<&str>, p: &str)
    ensures
        names(v.push(p)) == names(v).insert(p@),
{
    let m = v.map_values(|p: &str| p@);
    let n = v.push(p).map_values(|p: &str| p@);
    assert(n =~= m.push(p@));
    assert forall|c: Seq<char>| n.to_set().contains(c) == m.to_set().insert(p@).contains(c) by {
        assert(n[m.len() as int] == p@);
        if m.contains(c) {
            let i = choose|i: int| 0 <= i < m.len() && m[i] == c;
            assert(n[i] == c);
        }
        if n.contains(c) && c != p@ {
            let i = choose|i: int| 0 <= i < n.len() && n[i] == c;
            assert(m[i] == c);
        }
    }
    assert(names(v.push(p)) =~= names(v).insert(p@));
}

/// Turning a provider over twice changes nothing.
pub proof fn toggle_twice_changes_nothing(state: PageStateView, provider: Seq<char>)
    ensures
        state.toggle(provider).toggle(provider) == state,
{
    assert(state.toggle(provider).toggle(provider).excluded =~= state.excluded);
}

/// Unless there are no providers at all, turning all of them over twice leaves
/// every provider selected if it was so before, and none of them if not.
pub proof fn toggle_all_twice(state: PageStateView, providers: Set<Seq<char>>)
    requires
        providers != Set::<Seq<char>>::empty(),
    ensures
        state.toggle_all(providers).toggle_all(providers).all_selected() == state.all_selected(),
        !state.all_selected() ==> state.toggle_all(providers).toggle_all(providers).excluded
            == providers,
{
}

/// At the start nothing is filtered out.
pub proof fn nothing_is_filtered_at_the_start(provider: Seq<char>)
    ensures
        no_filter().ownership == Ownership::Any,
        !no_filter().excluded.contains(provider),
        no_filter().all_selected(),
{
}

/// All providers are selected exactly if none is excluded.
pub proof fn all_means_that_none_is_out(state: PageStateView)
    ensures
        state.all_selected() <==> forall|p: Seq<char>| !state.excluded.contains(p),
{
    if forall|p: Seq<char>| !state.excluded.contains(p) {
        assert(state.excluded =~= Set::<Seq<char>>::empty());
    }
}

} // verus!
