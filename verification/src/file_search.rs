//! The file-search popup: query tracking, the fetched matches, and the
//! selection and scroll state kept within a fixed visible window.

use vstd::prelude::*;

use crate::status::strings_model;
use crate::strutil::{str_eq, str_starts_with};

verus! {

/// How many rows the popup shows at once.
pub const MAX_POPUP_ROWS: usize = 8;

/// One match from the file search: its score, the path relative to the
/// search directory, and the matched character indices when known.
pub struct FileMatch {
    pub score: u32,
    pub path: String,
    pub indices: Option<Vec<u32>>,
}

/// Shared selection and scroll state of a scrollable list.
pub struct ScrollState {
    pub selected_idx: Option<usize>,
    pub scroll_top: usize,
}

impl ScrollState {
    pub fn new() -> (r: ScrollState)
        ensures
            r.selected_idx is None,
            r.scroll_top == 0,
    {
        ScrollState { selected_idx: Option::None, scroll_top: 0 }
    }

    /// Forgets the selection and scrolls back to the top.
    pub fn reset(&mut self)
        ensures
            final(self).selected_idx is None,
            final(self).scroll_top == 0,
    {
        self.selected_idx = Option::None;
        self.scroll_top = 0;
    }

    /// Clamps the selection into `0..num_rows`, selecting the first row
    /// when nothing was selected; no rows leaves nothing selected.
    pub fn clamp_selection(&mut self, num_rows: usize)
        ensures
            final(self).scroll_top == old(self).scroll_top,
            num_rows == 0 ==> final(self).selected_idx is None,
            num_rows > 0 ==> final(self).selected_idx == Option::Some(
                {
                    let prev = match old(self).selected_idx {
                        Option::Some(s) => s,
                        Option::None => 0,
                    };
                    if prev < num_rows {
                        prev
                    } else {
                        (num_rows - 1) as usize
                    }
                },
            ),
    {
        if num_rows == 0 {
            self.selected_idx = Option::None;
        } else {
            let prev = match self.selected_idx {
                Option::Some(s) => s,
                Option::None => 0,
            };
            self.selected_idx = Option::Some(
                if prev < num_rows {
                    prev
                } else {
                    num_rows - 1
                },
            );
        }
    }

    /// Moves the selection one row up, stopping at the first row.
    pub fn move_up(&mut self, num_rows: usize)
        requires
            num_rows > 0,
        ensures
            final(self).scroll_top == old(self).scroll_top,
            final(self).selected_idx == Option::Some(
                match old(self).selected_idx {
                    Option::Some(s) => if s > 0 {
                        (s - 1) as usize
                    } else {
                        0
                    },
                    Option::None => 0,
                },
            ),
    {
        self.selected_idx = match self.selected_idx {
            Option::Some(s) => Option::Some(
                if s > 0 {
                    s - 1
                } else {
                    0
                },
            ),
            Option::None => Option::Some(0),
        };
    }

    /// Moves the selection one row down, stopping at the last row.
    pub fn move_down(&mut self, num_rows: usize)
        requires
            num_rows > 0,
        ensures
            final(self).scroll_top == old(self).scroll_top,
            final(self).selected_idx == Option::Some(
                match old(self).selected_idx {
                    Option::Some(s) => if s + 1 < num_rows {
                        (s + 1) as usize
                    } else {
                        (num_rows - 1) as usize
                    },
                    Option::None => 0,
                },
            ),
    {
        self.selected_idx = match self.selected_idx {
            Option::Some(s) => Option::Some(
                if s < num_rows - 1 {
                    s + 1
                } else {
                    num_rows - 1
                },
            ),
            Option::None => Option::Some(0),
        };
    }
}

/// Visual state for the file-search popup.
pub struct FileSearchPopup {
    /// Query corresponding to the matches currently shown.
    pub display_query: String,
    /// Latest query typed; may run ahead of `display_query` while a search
    /// is in flight.
    pub pending_query: String,
    /// Still waiting for results for `pending_query`.
    pub waiting: bool,
    /// All fetched matches, paths relative to the search directory.
    pub matches: Vec<FileMatch>,
    /// How many matches are available for display.
    pub displayed_count: usize,
    /// Shared selection and scroll state.
    pub state: ScrollState,
}

impl FileSearchPopup {
    /// The struct's well-formedness: the display count covers exactly the
    /// fetched matches, and any selection stays within them.
    pub open spec fn wf(&self) -> bool {
        &&& self.displayed_count == self.matches@.len()
        &&& (self.state.selected_idx matches Option::Some(s) ==> s < self.displayed_count)
    }

    /// The selection sits inside the visible window.
    pub open spec fn selection_visible(&self) -> bool {
        self.state.selected_idx matches Option::Some(s) ==> self.state.scroll_top <= s
            < self.state.scroll_top + MAX_POPUP_ROWS
    }

    pub fn new() -> (r: FileSearchPopup)
        ensures
            r.wf(),
            r.selection_visible(),
            r.display_query@ == Seq::<char>::empty(),
            r.pending_query@ == Seq::<char>::empty(),
            !r.waiting,
            r.matches@.len() == 0,
            r.state.selected_idx is None,
    {
        FileSearchPopup {
            display_query: String::new(),
            pending_query: String::new(),
            waiting: false,
            matches: Vec::new(),
            displayed_count: 0,
            state: ScrollState::new(),
        }
    }

    /// Records the newly typed query and goes back to waiting; matches are
    /// kept only while the new query extends the one they answer.
    pub fn set_query(&mut self, query: &str)
        requires
            old(self).wf(),
        ensures
            final(self).wf(),
            final(self).pending_query@ == query@,
            final(self).waiting,
            final(self).display_query == old(self).display_query,
            ({
                let keep = old(self).display_query@.len() <= query@.len() && old(
                    self,
                ).display_query@ == query@.subrange(0, old(self).display_query@.len() as int);
                if keep {
                    final(self).matches == old(self).matches && final(self).state == old(
                        self,
                    ).state
                } else {
                    final(self).matches@.len() == 0 && final(self).state.selected_idx is None
                        && final(self).state.scroll_top == 0
                }
            }),
    {
        let keep_existing = str_starts_with(query, self.display_query.as_str());
        self.pending_query = String::from_str(query);
        self.waiting = true;
        if !keep_existing {
            self.matches = Vec::new();
            self.displayed_count = 0;
            self.state.reset();
        }
    }

    /// Installs the results for `query`, unless they are stale; all results
    /// become scrollable at once and the selection is clamped into them.
    pub fn set_matches(&mut self, query: &str, matches: Vec<FileMatch>)
        requires
            old(self).wf(),
        ensures
            final(self).wf(),
            query@ != old(self).pending_query@ ==> *final(self) == *old(self),
            query@ == old(self).pending_query@ ==> {
                &&& final(self).display_query@ == query@
                &&& final(self).matches == matches
                &&& !final(self).waiting
                &&& final(self).displayed_count == matches@.len()
                &&& final(self).state.scroll_top == old(self).state.scroll_top
                &&& (matches@.len() == 0 ==> final(self).state.selected_idx is None)
                &&& (matches@.len() > 0 ==> final(self).state.selected_idx == Option::Some(
                    {
                        let prev = match old(self).state.selected_idx {
                            Option::Some(s) => s,
                            Option::None => 0,
                        };
                        if prev < matches@.len() {
                            prev
                        } else {
                            (matches@.len() - 1) as usize
                        }
                    },
                ))
            },
    {
        if !str_eq(query, self.pending_query.as_str()) {
            return ;
        }
        self.display_query = String::from_str(query);
        self.matches = matches;
        self.waiting = false;
        self.displayed_count = self.matches.len();
        self.state.clamp_selection(self.displayed_count);
    }

    /// Pulls the scroll window along so the selection stays visible.
    fn ensure_selection_visible(&mut self)
        ensures
            final(self).selection_visible(),
            final(self).display_query == old(self).display_query,
            final(self).pending_query == old(self).pending_query,
            final(self).waiting == old(self).waiting,
            final(self).matches == old(self).matches,
            final(self).displayed_count == old(self).displayed_count,
            final(self).state.selected_idx == old(self).state.selected_idx,
            final(self).state.scroll_top == (match old(self).state.selected_idx {
                Option::Some(s) => if s < old(self).state.scroll_top {
                    s as usize
                } else if s >= old(self).state.scroll_top + MAX_POPUP_ROWS {
                    (s + 1 - MAX_POPUP_ROWS) as usize
                } else {
                    old(self).state.scroll_top
                },
                Option::None => 0,
            }),
    {
        match self.state.selected_idx {
            Option::Some(sel) => {
                if sel < self.state.scroll_top {
                    self.state.scroll_top = sel;
                } else if sel - self.state.scroll_top >= MAX_POPUP_ROWS {
                    self.state.scroll_top = sel - (MAX_POPUP_ROWS - 1);
                }
            },
            Option::None => {
                self.state.scroll_top = 0;
            },
        }
    }

    /// Moves the selection up one row, keeping it visible.
    pub fn move_up(&mut self)
        requires
            old(self).wf(),
        ensures
            final(self).wf(),
            final(self).selection_visible() || final(self).displayed_count == 0,
            final(self).matches == old(self).matches,
            final(self).displayed_count == old(self).displayed_count,
            old(self).displayed_count == 0 ==> *final(self) == *old(self),
            old(self).displayed_count > 0 ==> final(self).state.selected_idx == Option::Some(
                match old(self).state.selected_idx {
                    Option::Some(s) => if s > 0 {
                        (s - 1) as usize
                    } else {
                        0
                    },
                    Option::None => 0,
                },
            ),
    {
        if self.displayed_count == 0 {
            return ;
        }
        self.state.move_up(self.displayed_count);
        self.ensure_selection_visible();
    }

    /// Moves the selection down one row, stopping at the last match and
    /// keeping it visible.
    pub fn move_down(&mut self)
        requires
            old(self).wf(),
        ensures
            final(self).wf(),
            final(self).selection_visible() || final(self).displayed_count == 0,
            final(self).matches == old(self).matches,
            final(self).displayed_count == old(self).displayed_count,
            old(self).displayed_count == 0 ==> *final(self) == *old(self),
            old(self).displayed_count > 0 ==> final(self).state.selected_idx == Option::Some(
                match old(self).state.selected_idx {
                    Option::Some(s) => if s + 1 < old(self).displayed_count {
                        (s + 1) as usize
                    } else {
                        (old(self).displayed_count - 1) as usize
                    },
                    Option::None => 0,
                },
            ),
    {
        if self.displayed_count == 0 {
            return ;
        }
        self.state.move_down(self.displayed_count);
        self.ensure_selection_visible();
    }

    /// The path of the selected match, if one is selected.
    pub fn selected_match(&self) -> (r: Option<&str>)
        requires
            self.wf(),
        ensures
            match (r, self.state.selected_idx) {
                (Option::Some(p), Option::Some(idx)) => idx < self.matches@.len() && p@
                    == self.matches@[idx as int].path@,
                (Option::None, Option::None) => true,
                _ => false,
            },
    {
        match self.state.selected_idx {
            Option::Some(idx) => Option::Some(self.matches[idx].path.as_str()),
            Option::None => Option::None,
        }
    }

    /// The paths visible in the scroll window: up to a window's worth of
    /// matches starting at the scroll position.
    pub open spec fn visible_window(&self) -> Seq<Seq<char>> {
        let top = self.state.scroll_top as int;
        let len = if top >= self.displayed_count {
            0
        } else if self.displayed_count - top > MAX_POPUP_ROWS {
            MAX_POPUP_ROWS as int
        } else {
            self.displayed_count - top
        };
        Seq::new(len as nat, |i: int| self.matches@[top + i].path@)
    }

    /// The rows the popup draws: the visible window of match paths.
    pub fn visible_rows(&self) -> (r: Vec<String>)
        requires
            self.wf(),
        ensures
            strings_model(r@) == self.visible_window(),
    {
        let mut rows: Vec<String> = Vec::new();
        if self.state.scroll_top >= self.displayed_count {
            proof {
                assert(strings_model(rows@) =~= self.visible_window());
            }
            return rows;
        }
        let top = self.state.scroll_top;
        let len = if self.displayed_count - top > MAX_POPUP_ROWS {
            MAX_POPUP_ROWS
        } else {
            self.displayed_count - top
        };
        let mut i: usize = 0;
        while i < len
            invariant
                i <= len,
                top + len <= self.displayed_count == self.matches@.len(),
                strings_model(rows@) =~= self.visible_window().subrange(0, i as int),
                len == self.visible_window().len(),
                top == self.state.scroll_top,
            decreases len - i,
        {
            let ghost prev = rows@;
            rows.push(self.matches[top + i].path.clone());
            proof {
                assert(strings_model(prev).len() == prev.len());
                assert(prev.len() == i);
                assert(rows@ == prev.push(rows@[i as int]));
                assert forall|k: int| 0 <= k < i + 1 implies strings_model(rows@)[k]
                    == self.visible_window().subrange(0, i + 1)[k] by {
                    assert(strings_model(rows@)[k] == rows@[k]@);
                    if k < i {
                        assert(rows@[k] == prev[k]);
                        assert(strings_model(prev)[k] == prev[k]@);
                        assert(strings_model(prev)[k] == self.visible_window().subrange(
                            0,
                            i as int,
                        )[k]);
                    } else {
                        assert(rows@[k]@ == self.matches@[top + i].path@);
                        assert(self.visible_window()[i as int] == self.matches@[top + i].path@);
                    }
                }
                assert(strings_model(rows@) =~= self.visible_window().subrange(0, i + 1));
            }
            i = i + 1;
        }
        proof {
            assert(self.visible_window().subrange(0, len as int) =~= self.visible_window());
        }
        rows
    }

    /// The placeholder shown while no match is displayable: a loading note
    /// while a search is in flight, otherwise a no-match note.
    pub fn empty_message(&self) -> (r: Option<&'static str>)
        ensures
            self.displayed_count > 0 ==> r is None,
            self.displayed_count == 0 && self.waiting ==> (r matches Option::Some(m) && m@
                == "loading..."@),
            self.displayed_count == 0 && !self.waiting ==> (r matches Option::Some(m) && m@
                == "no matches"@),
    {
        if self.displayed_count > 0 {
            Option::None
        } else if self.waiting {
            Option::Some("loading...")
        } else {
            Option::Some("no matches")
        }
    }

    /// The popup's height in rows: one row per displayed match, clamped to
    /// the window, and one row when empty so the popup stays visible.
    pub fn calculate_required_height(&self) -> (r: u16)
        ensures
            r == (if self.displayed_count < 1 {
                1usize
            } else if self.displayed_count > MAX_POPUP_ROWS {
                MAX_POPUP_ROWS
            } else {
                self.displayed_count
            }),
    {
        let clamped = if self.displayed_count < 1 {
            1
        } else if self.displayed_count > MAX_POPUP_ROWS {
            MAX_POPUP_ROWS
        } else {
            self.displayed_count
        };
        clamped as u16
    }
}

} // verus!
