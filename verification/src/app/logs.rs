//! State of the Logs page: where the window into the log stands.

use vstd::prelude::*;

verus! {

/// State of the Logs page.
#[derive(Clone, Copy, Debug, PartialEq, Eq, Structural)]
pub struct PageState {
    /// The row at the top of the window, or none while the window follows the
    /// newest entry.
    pub pinned: Option<u16>,
    /// Rows of the log, and rows of the window, as of the last frame.
    pub total: u16,
    pub viewport: u16,
}

/// The last row that can stand at the top of a window of `viewport` rows.
pub open spec fn last_top(total: u16, viewport: u16) -> u16 {
    if total > viewport {
        (total - viewport) as u16
    } else {
        0
    }
}

impl PageState {
    /// Following the newest entry.
    pub fn new() -> (r: PageState)
        ensures
            r == (PageState { pinned: None, total: 0, viewport: 0 }),
    {
        PageState { pinned: None, total: 0, viewport: 0 }
    }

    /// The row at the top of a window of `viewport` rows into `total` rows.
    pub open spec fn top(self, total: u16, viewport: u16) -> u16 {
        match self.pinned {
            Some(row) => if row < last_top(total, viewport) {
                row
            } else {
                last_top(total, viewport)
            },
            None => last_top(total, viewport),
        }
    }

    /// The row at the top of a window of `viewport` rows into `total` rows.
    pub fn effective_scroll(&self, total: u16, viewport: u16) -> (r: u16)
        ensures
            r == self.top(total, viewport),
    {
        let max: u16 = if total > viewport {
            total - viewport
        } else {
            0
        };
        match self.pinned {
            Some(row) => if row < max {
                row
            } else {
                max
            },
            None => max,
        }
    }

    /// The state with the size of the log and of its window taken note of.
    pub open spec fn sized(self, total: u16, viewport: u16) -> PageState {
        PageState { total, viewport, ..self }
    }

    /// The size of the log and of its window, as of the last frame.
    pub open spec fn size(self) -> (u16, u16) {
        (self.total, self.viewport)
    }

    /// The state with the window pinned to the oldest entry.
    pub open spec fn at_top(self) -> PageState {
        PageState { pinned: Some(0), ..self }
    }

    /// Take note of the size of the log and of its window.
    pub fn record_dimensions(&mut self, total: u16, viewport: u16)
        ensures
            *final(self) == old(self).sized(total, viewport),
            *final(self) == (PageState { total, viewport, ..*old(self) }),
    {
        self.total = total;
        self.viewport = viewport;
    }

    /// The size of the log and of its window, as of the last frame.
    pub fn last_dimensions(&self) -> (r: (u16, u16))
        ensures
            r == (self.total, self.viewport),
            r == self.size(),
    {
        (self.total, self.viewport)
    }

    /// Pin the window to the oldest entry.
    pub fn scroll_to_top(&mut self)
        ensures
            *final(self) == old(self).at_top(),
            *final(self) == (PageState { pinned: Some(0), ..*old(self) }),
    {
        self.pinned = Some(0);
    }

    /// The window moved down by its height. One that reaches the bottom follows
    /// the newest entry again.
    pub open spec fn page_below(self, total: u16, viewport: u16) -> PageState {
        PageState {
            pinned: if self.top(total, viewport) + viewport < last_top(total, viewport) {
                Some((self.top(total, viewport) + viewport) as u16)
            } else {
                None
            },
            ..self
        }
    }

    /// Move the window down by its height. A window that reaches the bottom
    /// follows the newest entry again.
    pub fn page_down(&mut self, total: u16, viewport: u16)
        ensures
            *final(self) == old(self).page_below(total, viewport),
    {
        let max: u16 = if total > viewport {
            total - viewport
        } else {
            0
        };
        let top: u16 = self.effective_scroll(total, viewport);
        if viewport < max && top < max - viewport {
            self.pinned = Some(top + viewport);
        } else {
            self.pinned = None;
        }
    }
}

/// The window never ends past the last row, unless the log is shorter than it.
pub proof fn window_stays_in_the_log(state: PageState, total: u16, viewport: u16)
    ensures
        total >= viewport ==> state.top(total, viewport) + viewport <= total,
        total < viewport ==> state.top(total, viewport) == 0,
{
}

/// While nothing is pinned, the window shows the last rows.
pub proof fn unpinned_window_follows_the_tail(state: PageState, total: u16, viewport: u16)
    requires
        state.pinned is None,
        total >= viewport,
    ensures
        state.top(total, viewport) + viewport == total,
{
}

/// The state after `n` pages down through a log of `total` rows.
pub open spec fn paged_down(state: PageState, total: u16, viewport: u16, n: nat) -> PageState
    decreases n,
{
    if n == 0 {
        state
    } else {
        paged_down(state, total, viewport, (n - 1) as nat).page_below(total, viewport)
    }
}

/// Paging down reaches the bottom: after enough pages to cover the log the
/// window follows the newest entry again.
pub proof fn paging_down_reaches_the_tail(state: PageState, total: u16, viewport: u16, n: nat)
    requires
        n > 0,
        n * viewport >= last_top(total, viewport),
    ensures
        paged_down(state, total, viewport, n).pinned is None,
{
    pages_add_up(state, total, viewport, (n - 1) as nat);
    assert(n * viewport == (n - 1) * viewport + viewport) by (nonlinear_arith)
        requires
            n > 0,
    ;
}

proof fn pages_add_up(state: PageState, total: u16, viewport: u16, n: nat)
    ensures
        paged_down(state, total, viewport, n).top(total, viewport) >= n * viewport
            || paged_down(state, total, viewport, n).top(total, viewport) == last_top(
            total,
            viewport,
        ),
    decreases n,
{
    if n > 0 {
        pages_add_up(state, total, viewport, (n - 1) as nat);
        assert(n * viewport == (n - 1) * viewport + viewport) by (nonlinear_arith)
            requires
                n > 0,
        ;
    } else {
        assert(n * viewport == 0) by (nonlinear_arith)
            requires
                n == 0,
        ;
    }
}

/// A size that was taken note of is the size that is told, and moves no window.
pub proof fn sizes_are_told_as_noted(state: PageState, total: u16, viewport: u16)
    ensures
        state.sized(total, viewport).size() == (total, viewport),
        state.sized(total, viewport).pinned == state.pinned,
{
}

/// A window at the top shows the oldest entry, whatever the size of the log.
pub proof fn the_top_shows_the_oldest_entry(state: PageState, total: u16, viewport: u16)
    ensures
        state.at_top().top(total, viewport) == 0,
        state.at_top().size() == state.size(),
{
}

/// A pinned window stays where it is pinned as long as the log reaches that far,
/// and a page further down begins right below the page before.
pub proof fn pages_follow_each_other(state: PageState, total: u16, viewport: u16)
    requires
        state.pinned is Some,
    ensures
        state.pinned->0 + viewport <= total ==> state.top(total, viewport) == state.pinned->0,
        ({
            let next = state.page_below(total, viewport);
            let top = state.top(total, viewport);
            &&& next.size() == state.size()
            &&& next.pinned is Some ==> next.pinned->0 == top + viewport
            &&& next.pinned is None <==> top + 2 * viewport >= total
            &&& next.top(total, viewport) >= top
        }),
{
}

} // verus!
