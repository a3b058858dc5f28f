//! State of the Select-location page: the search query, which end of the tunnel
//! is being edited, and, for each end, what is expanded and scrolled to.

use crate::focus::WidgetId;
use crate::text::owned;
use crate::text_set::{PairSet, TextSet};
use vstd::prelude::*;

verus! {

/// An end of a multihop tunnel.
#[derive(Clone, Copy, Debug, PartialEq, Eq, Structural)]
pub enum NodeKind {
    Entry,
    Exit,
}

/// What is open in the location tree of one end, and how far it is scrolled.
#[derive(Debug)]
pub struct TreeState {
    pub countries: TextSet,
    pub cities: PairSet,
    pub scroll_offset: usize,
}

/// The open country codes, the open (country code, city code) pairs, and the
/// first visible row.
#[verifier::ext_equal]
pub struct TreeStateView {
    pub countries: Set<Seq<char>>,
    pub cities: Set<(Seq<char>, Seq<char>)>,
    pub scroll_offset: usize,
}

impl View for TreeState {
    type V = TreeStateView;

    open spec fn view(&self) -> TreeStateView {
        TreeStateView {
            countries: self.countries@,
            cities: self.cities@,
            scroll_offset: self.scroll_offset,
        }
    }
}

impl TreeState {
    /// Nothing open, scrolled to the top.
    pub fn new() -> (r: TreeState)
        ensures
            r@ == (TreeStateView {
                countries: Set::empty(),
                cities: Set::empty(),
                scroll_offset: 0,
            }),
    {
        TreeState { countries: TextSet::new(), cities: PairSet::new(), scroll_offset: 0 }
    }
}

/// State of the Select-location page.
#[derive(Debug)]
pub struct PageState {
    pub query: String,
    pub node_mode: NodeKind,
    pub entry: TreeState,
    pub exit: TreeState,
    /// The next frame centres the focused row.
    pub center_focused: bool,
    /// The wheel moved the window; the focused row need not be in it.
    pub user_scrolled: bool,
    /// The focus as of the last frame.
    pub observed_focus: Option<WidgetId>,
    /// Rows of the tree, and rows that fit the window, as of the last frame.
    pub rows: usize,
    pub capacity: usize,
}

/// State of the Select-location page, over texts and sets.
#[verifier::ext_equal]
pub struct PageStateView {
    pub query: Seq<char>,
    pub node_mode: NodeKind,
    pub entry: TreeStateView,
    pub exit: TreeStateView,
    pub center_focused: bool,
    pub user_scrolled: bool,
    pub observed_focus: Option<WidgetId>,
    pub rows: usize,
    pub capacity: usize,
}

impl View for PageState {
    type V = PageStateView;

    open spec fn view(&self) -> PageStateView {
        PageStateView {
            query: self.query@,
            node_mode: self.node_mode,
            entry: self.entry@,
            exit: self.exit@,
            center_focused: self.center_focused,
            user_scrolled: self.user_scrolled,
            observed_focus: self.observed_focus,
            rows: self.rows,
            capacity: self.capacity,
        }
    }
}

impl PageStateView {
    /// Tree state of the end that is being edited.
    pub open spec fn tree(self) -> TreeStateView {
        match self.node_mode {
            NodeKind::Entry => self.entry,
            NodeKind::Exit => self.exit,
        }
    }

    /// The same state with another tree state for the end that is being edited.
    pub open spec fn with_tree(self, tree: TreeStateView) -> PageStateView {
        match self.node_mode {
            NodeKind::Entry => PageStateView { entry: tree, ..self },
            NodeKind::Exit => PageStateView { exit: tree, ..self },
        }
    }

    /// The state with `node_mode` set.
    pub open spec fn with_mode(self, mode: NodeKind) -> PageStateView {
        PageStateView { node_mode: mode, ..self }
    }

    /// The state with the country open.
    pub open spec fn expand_country(self, code: Seq<char>) -> PageStateView {
        self.with_tree(
            TreeStateView { countries: self.tree().countries.insert(code), ..self.tree() },
        )
    }

    /// The state with the country closed.
    pub open spec fn collapse_country(self, code: Seq<char>) -> PageStateView {
        self.with_tree(
            TreeStateView { countries: self.tree().countries.remove(code), ..self.tree() },
        )
    }

    /// The state with the city open.
    pub open spec fn expand_city(self, country: Seq<char>, city: Seq<char>) -> PageStateView {
        self.with_tree(
            TreeStateView { cities: self.tree().cities.insert((country, city)), ..self.tree() },
        )
    }

    /// The state with the city closed.
    pub open spec fn collapse_city(self, country: Seq<char>, city: Seq<char>) -> PageStateView {
        self.with_tree(
            TreeStateView { cities: self.tree().cities.remove((country, city)), ..self.tree() },
        )
    }

    /// The state after a frame that saw `focused` as the focus: a focus that
    /// moved ends a scroll by wheel.
    pub open spec fn observe_focus(self, focused: Option<WidgetId>) -> PageStateView {
        PageStateView {
            user_scrolled: self.user_scrolled && self.observed_focus == focused,
            observed_focus: focused,
            ..self
        }
    }
}

/// A tree in which nothing is open, seen from its top.
pub open spec fn closed_tree() -> TreeStateView {
    TreeStateView { countries: Set::empty(), cities: Set::empty(), scroll_offset: 0 }
}

/// The state before the page was ever opened.
pub open spec fn unopened() -> PageStateView {
    PageStateView {
        query: Seq::empty(),
        node_mode: NodeKind::Exit,
        entry: closed_tree(),
        exit: closed_tree(),
        center_focused: false,
        user_scrolled: false,
        observed_focus: None,
        rows: 0,
        capacity: 0,
    }
}

impl PageState {
    /// The state before the page was ever opened.
    pub fn new() -> (r: PageState)
        ensures
            r@ == unopened(),
    {
        PageState {
            query: String::new(),
            node_mode: NodeKind::Exit,
            entry: TreeState::new(),
            exit: TreeState::new(),
            center_focused: false,
            user_scrolled: false,
            observed_focus: None,
            rows: 0,
            capacity: 0,
        }
    }

    /// The search query.
    pub fn query(&self) -> (r: &str)
        ensures
            r@ == self@.query,
    {
        self.query.as_str()
    }

    /// Tree state of the end that is being edited.
    pub fn tree(&self) -> (r: &TreeState)
        ensures
            r@ == self@.tree(),
    {
        match self.node_mode {
            NodeKind::Entry => &self.entry,
            NodeKind::Exit => &self.exit,
        }
    }

    /// Edit the end `mode`.
    pub fn set_node_mode(&mut self, mode: NodeKind)
        ensures
            final(self)@ == old(self)@.with_mode(mode),
    {
        self.node_mode = mode;
    }

    /// Whether the country `code` is open.
    pub fn is_country_expanded(&self, code: &str) -> (r: bool)
        ensures
            r == self@.tree().countries.contains(code@),
    {
        self.tree().countries.contains(code)
    }

    /// Whether the city `city` of the country `country` is open.
    pub fn is_city_expanded(&self, country: &str, city: &str) -> (r: bool)
        ensures
            r == self@.tree().cities.contains((country@, city@)),
    {
        self.tree().cities.contains(country, city)
    }

    /// Open the country `code`.
    pub fn expand_country(&mut self, code: &str)
        ensures
            final(self)@ == old(self)@.expand_country(code@),
    {
        match self.node_mode {
            NodeKind::Entry => self.entry.countries.insert(code),
            NodeKind::Exit => self.exit.countries.insert(code),
        }
    }

    /// Close the country `code`.
    pub fn collapse_country(&mut self, code: &str)
        ensures
            final(self)@ == old(self)@.collapse_country(code@),
    {
        match self.node_mode {
            NodeKind::Entry => self.entry.countries.remove(code),
            NodeKind::Exit => self.exit.countries.remove(code),
        }
    }

    /// Open the city `city` of the country `country`.
    pub fn expand_city(&mut self, country: &str, city: &str)
        ensures
            final(self)@ == old(self)@.expand_city(country@, city@),
    {
        match self.node_mode {
            NodeKind::Entry => self.entry.cities.insert(country, city),
            NodeKind::Exit => self.exit.cities.insert(country, city),
        }
    }

    /// Close the city `city` of the country `country`.
    pub fn collapse_city(&mut self, country: &str, city: &str)
        ensures
            final(self)@ == old(self)@.collapse_city(country@, city@),
    {
        match self.node_mode {
            NodeKind::Entry => self.entry.cities.remove(country, city),
            NodeKind::Exit => self.exit.cities.remove(country, city),
        }
    }

    /// Ask the next frame to centre the focused row.
    pub fn request_center_focused(&mut self)
        ensures
            final(self)@ == (PageStateView { center_focused: true, ..old(self)@ }),
    {
        self.center_focused = true;
    }

    /// Take note of the focus of a frame.
    pub fn observe_focus_for_scroll(&mut self, focused: Option<WidgetId>)
        ensures
            final(self)@ == old(self)@.observe_focus(focused),
    {
        let moved = match (self.observed_focus, focused) {
            (Some(a), Some(b)) => a != b,
            (None, None) => false,
            _ => true,
        };
        if moved {
            self.user_scrolled = false;
        }
        self.observed_focus = focused;
    }

    /// Take note of the size of the tree and of its window.
    pub fn record_dimensions(&mut self, rows: usize, capacity: usize)
        ensures
            final(self)@ == (PageStateView { rows, capacity, ..old(self)@ }),
    {
        self.rows = rows;
        self.capacity = capacity;
    }

    /// First visible row of the tree.
    pub fn scroll_offset(&self) -> (r: usize)
        ensures
            r == self@.tree().scroll_offset,
    {
        self.tree().scroll_offset
    }

    /// Make `offset` the first visible row of the tree.
    pub fn set_scroll_offset(&mut self, offset: usize)
        ensures
            final(self)@ == old(self)@.with_tree(
                (TreeStateView { scroll_offset: offset, ..old(self)@.tree() }),
            ),
    {
        match self.node_mode {
            NodeKind::Entry => {
                self.entry.scroll_offset = offset;
            },
            NodeKind::Exit => {
                self.exit.scroll_offset = offset;
            },
        }
    }
}

/// Opening a closed country and closing it again changes nothing.
pub proof fn collapse_undoes_expand_country(state: PageStateView, code: Seq<char>)
    requires
        !state.tree().countries.contains(code),
    ensures
        state.expand_country(code).collapse_country(code) == state,
{
    let s = state.expand_country(code).collapse_country(code);
    assert(s.tree().countries =~= state.tree().countries);
    assert(s =~= state);
}

/// Opening a closed city and closing it again changes nothing.
pub proof fn collapse_undoes_expand_city(state: PageStateView, country: Seq<char>, city: Seq<char>)
    requires
        !state.tree().cities.contains((country, city)),
    ensures
        state.expand_city(country, city).collapse_city(country, city) == state,
{
    let s = state.expand_city(country, city).collapse_city(country, city);
    assert(s.tree().cities =~= state.tree().cities);
    assert(s =~= state);
}

/// Opening what is open changes nothing.
pub proof fn expand_is_idempotent(state: PageStateView, country: Seq<char>, city: Seq<char>)
    ensures
        state.expand_country(country).expand_country(country) == state.expand_country(country),
        state.expand_city(country, city).expand_city(country, city) == state.expand_city(
            country,
            city,
        ),
{
    let a = state.expand_country(country);
    assert(a.tree().countries.insert(country) =~= a.tree().countries);
    assert(a.expand_country(country) =~= a);
    let b = state.expand_city(country, city);
    assert(b.tree().cities.insert((country, city)) =~= b.tree().cities);
    assert(b.expand_city(country, city) =~= b);
}

/// Each end keeps its own tree state: what is opened or closed while one end is
/// edited leaves the other end's tree as it was.
pub proof fn ends_are_independent(state: PageStateView, country: Seq<char>, city: Seq<char>)
    ensures
        state.node_mode == NodeKind::Exit ==> state.expand_country(country).entry == state.entry
            && state.collapse_country(country).entry == state.entry && state.expand_city(
            country,
            city,
        ).entry == state.entry && state.collapse_city(country, city).entry == state.entry,
        state.node_mode == NodeKind::Entry ==> state.expand_country(country).exit == state.exit
            && state.collapse_country(country).exit == state.exit && state.expand_city(
            country,
            city,
        ).exit == state.exit && state.collapse_city(country, city).exit == state.exit,
{
}

/// At the start nothing is typed, nothing is open, and the exit is edited.
pub proof fn nothing_is_open_at_the_start(country: Seq<char>, city: Seq<char>)
    ensures
        unopened().query.len() == 0,
        unopened().node_mode == NodeKind::Exit,
        !unopened().exit.countries.contains(country),
        !unopened().entry.countries.contains(country),
        !unopened().exit.cities.contains((country, city)),
        !unopened().entry.cities.contains((country, city)),
        unopened().exit.scroll_offset == 0,
        unopened().entry.scroll_offset == 0,
        !unopened().center_focused,
        !unopened().user_scrolled,
{
}

} // verus!
