use vstd::prelude::*;
use crate::fmt::{concat, decimal, push_decimal};
use crate::focus::{FocusState, ScrollState};
use crate::input::MouseButton;
use crate::model::{CollectionDetail, CollectionEntry, CollectionStatus, SubjectType};

verus! {

/// The subject kinds the collection can be filtered by, in the order of the filters.
pub const SELECTS: [SubjectType; 3] = [SubjectType::Anime, SubjectType::Book, SubjectType::Real];

/// Consecutive unbound inputs after which the help hint shows.
pub const HELP_THRESHOLD: usize = 3;

/// Longest gap between two presses on one cell that counts as a double click, in milliseconds.
pub const DOUBLE_CLICK_MS: u64 = 300;

/// One tab of the interface.
#[derive(Clone, Debug)]
pub enum Tab {
    Collection,
    Search { text: String },
    Subject { id: u64, scroll: ScrollState },
    SearchResult { search: String, index: usize, scroll: ScrollState, focus: FocusState },
}

impl Tab {
    pub open spec fn subject_id_spec(&self) -> Option<u64> {
        match self {
            Tab::Subject { id, .. } => Some(*id),
            _ => None,
        }
    }

    /// The tab's title.
    pub fn disp(&self) -> (r: String)
        ensures
            r@ == match self {
                Tab::Collection => "格子"@,
                Tab::Search { .. } => "搜索"@,
                Tab::Subject { id, .. } => "条目: "@ + decimal(*id as nat),
                Tab::SearchResult { search, index, .. } => "搜索: "@ + search@ + " / "@ + decimal(
                    if *index as int + 1 > u64::MAX { u64::MAX as nat } else { (*index + 1) as nat },
                ),
            },
    {
        match self {
            Tab::Collection => String::from_str("格子"),
            Tab::Search { .. } => String::from_str("搜索"),
            Tab::Subject { id, .. } => {
                let mut s = String::from_str("条目: ");
                push_decimal(&mut s, *id);
                s
            },
            Tab::SearchResult { search, index, .. } => {
                let mut s = concat("搜索: ", search.as_str());
                s.append(" / ");
                let n: u64 = (*index as u64).saturating_add(1);
                push_decimal(&mut s, n);
                s
            },
        }
    }

    pub fn is_search(&self) -> (r: bool)
        ensures
            r == self is Search,
    {
        match self {
            Tab::Search { .. } => true,
            _ => false,
        }
    }

    pub fn is_collection(&self) -> (r: bool)
        ensures
            r == self is Collection,
    {
        match self {
            Tab::Collection => true,
            _ => false,
        }
    }

    pub fn is_subject(&self) -> (r: bool)
        ensures
            r == self is Subject,
    {
        match self {
            Tab::Subject { .. } => true,
            _ => false,
        }
    }

    pub fn is_search_result(&self) -> (r: bool)
        ensures
            r == self is SearchResult,
    {
        match self {
            Tab::SearchResult { .. } => true,
            _ => false,
        }
    }

    /// The subject a detail tab shows.
    pub fn subject_id(&self) -> (r: Option<u64>)
        ensures
            r == self.subject_id_spec(),
    {
        match self {
            Tab::Subject { id, .. } => Some(*id),
            _ => None,
        }
    }

    pub open spec fn get_focus_spec(&self) -> Option<usize> {
        match self {
            Tab::SearchResult { focus, .. } => focus.focus,
            _ => None,
        }
    }

    /// The selected result of a search result tab.
    pub fn get_focus(&self) -> (r: Option<usize>)
        ensures
            r == self.get_focus_spec(),
    {
        match self {
            Tab::SearchResult { focus, .. } => focus.get(),
            _ => None,
        }
    }
}

/// A multi-keystroke input in progress; while one is active it sees every key first.
#[derive(Clone, Debug)]
pub enum LongCommand {
    Absent,
    /// After the `g` lead-in.
    Graphical,
    /// A `:` command line being typed.
    Command(String),
    /// After the `t` lead-in on the collection tab.
    Toggle,
    /// Rating of a subject being typed: its id, the record, the digits so far.
    EditRating(u64, CollectionDetail, String),
    /// Status of a subject being chosen: its id, the record, the status shown.
    EditStatus(u64, Option<CollectionDetail>, CollectionStatus),
    /// Search text being typed.
    SearchInput(String),
}

impl LongCommand {
    pub fn present(&self) -> (r: bool)
        ensures
            r == !(self is Absent),
    {
        match self {
            LongCommand::Absent => false,
            _ => true,
        }
    }

    /// The prompt shown on the status line.
    pub fn prompt(&self) -> (r: Option<String>)
        ensures
            self is Absent <==> r is None,
            self is Graphical ==> (r matches Some(p) && p@ == "g"@),
            self is Toggle ==> (r matches Some(p) && p@ == "t"@),
            self matches LongCommand::Command(c) ==> (r matches Some(p) && p@ == ":"@ + c@),
            self matches LongCommand::EditRating(_, _, d) ==> (r matches Some(p) && p@ == "评分 (1-10, 0=取消): "@ + d@),
            self matches LongCommand::SearchInput(t) ==> (r matches Some(p) && p@ == "搜索: "@ + t@),
            self matches LongCommand::EditStatus(_, _, st) ==> (r matches Some(p) && p@ == "状态: "@ + crate::widgets::status_label(*st) + " [Tab]"@),
    {
        match self {
            LongCommand::Absent => None,
            LongCommand::Graphical => Some(String::from_str("g")),
            LongCommand::Command(inner) => Some(concat(":", inner.as_str())),
            LongCommand::Toggle => Some(String::from_str("t")),
            LongCommand::EditRating(_, _, r) => Some(concat("评分 (1-10, 0=取消): ", r.as_str())),
            LongCommand::EditStatus(_, _, st) => {
                let mut s = concat("状态: ", st.disp());
                s.append(" [Tab]");
                Some(s)
            },
            LongCommand::SearchInput(inner) => Some(concat("搜索: ", inner.as_str())),
        }
    }
}

/// A one-shot instruction from the reducer to the next paint.
#[derive(Clone, Copy, Debug, PartialEq, Eq, Structural)]
pub enum PendingUIEvent {
    /// A pointer event at 0-based coordinates, to resolve against the widgets.
    Click(u16, u16, MouseButton),
    ScrollIntoView(usize),
    /// The active tab changed from the keyboard; the tab bar should show it.
    KBTabSelect,
    Quit,
    /// The terminal must be restored before an outside editor runs.
    Reset,
}

/// Text to edit in an outside editor, and what to do with the result.
pub enum EditJob {
    /// The tags of subject `id`, one per line.
    Tags { id: u64, detail: CollectionDetail, initial: String },
    /// The comment on subject `id`.
    Comment { id: u64, detail: CollectionDetail },
}

/// Index in `SELECTS` of a subject kind, or -1 for a kind with no filter.
pub open spec fn select_index(t: SubjectType) -> int {
    match t {
        SubjectType::Anime => 0,
        SubjectType::Book => 1,
        SubjectType::Real => 2,
        _ => -1,
    }
}

/// Whether the filters let an entry through: its kind has a filter, and the filter is on.
pub open spec fn passes(filters: Seq<bool>, e: CollectionEntry) -> bool {
    let i = select_index(e.subject.subject_type);
    i >= 0 && filters[i]
}

/// The entries the filters let through, in order.
pub open spec fn kept(entries: Seq<CollectionEntry>, filters: Seq<bool>) -> Seq<CollectionEntry>
    decreases entries.len(),
{
    if entries.len() == 0 {
        seq![]
    } else {
        let rest = kept(entries.drop_last(), filters);
        if passes(filters, entries.last()) {
            rest.push(entries.last())
        } else {
            rest
        }
    }
}

/// Index of the first detail tab of subject `id`, or -1.
pub open spec fn first_subject_tab(tabs: Seq<Tab>, id: u64) -> int
    decreases tabs.len(),
{
    if tabs.len() == 0 {
        -1
    } else {
        let r = first_subject_tab(tabs.drop_last(), id);
        if r >= 0 {
            r
        } else if tabs.last().subject_id_spec() == Some(id) {
            tabs.len() - 1
        } else {
            -1
        }
    }
}

/// Index of the last entry of `s` about subject `id`, if any.
pub open spec fn last_with_id(s: Seq<CollectionEntry>, id: u64) -> Option<usize>
    decreases s.len(),
{
    if s.len() == 0 {
        None
    } else if s.last().subject.id == id {
        Some((s.len() - 1) as usize)
    } else {
        last_with_id(s.drop_last(), id)
    }
}

proof fn lemma_first_subject_tab_prefix(tabs: Seq<Tab>, id: u64, n: int)
    requires
        0 <= n <= tabs.len(),
        first_subject_tab(tabs.take(n), id) >= 0,
    ensures
        first_subject_tab(tabs, id) == first_subject_tab(tabs.take(n), id),
    decreases tabs.len() - n,
{
    if n < tabs.len() {
        assert(tabs.take(n + 1).drop_last() =~= tabs.take(n));
        lemma_first_subject_tab_prefix(tabs, id, n + 1);
    } else {
        assert(tabs.take(n) =~= tabs);
    }
}

/// The interface state the reducer owns.
pub struct UIState {
    pub tabs: Vec<Tab>,
    /// Index of the active tab.
    pub tab: usize,
    pub tab_scroll: ScrollState,
    /// One switch per kind of `SELECTS`.
    pub filters: [bool; 3],
    pub scroll: ScrollState,
    pub focus: FocusState,
    pub pending: Option<PendingUIEvent>,
    pub help: bool,
    pub help_scroll: ScrollState,
    pub command: LongCommand,
    /// Milliseconds between the last two presses on one cell, if the last two were on one cell.
    pub last_click_interval: Option<u64>,
    /// Cell and time (in milliseconds) of the last press.
    pub last_click: Option<(u16, u16, u64)>,
    /// Whether the last input matched no binding.
    pub last_input_meaningless: bool,
    /// Number of inputs in a row, up to the last, that matched no binding.
    pub meaningless_count: usize,
    /// Text waiting to be edited in an outside editor.
    pub editing: Option<EditJob>,
}

impl UIState {
    /// The active tab index points at a tab while there is one.
    pub open spec fn wf(&self) -> bool {
        self.tabs@.len() > 0 ==> self.tab < self.tabs@.len()
    }

    /// The initial state: a collection tab and an empty search tab, every filter on.
    pub fn with() -> (r: UIState)
        ensures
            r.wf(),
            r.tabs@.len() == 2,
            r.tabs@[0] is Collection,
            r.tabs@[1] matches Tab::Search { text } && text@.len() == 0,
            r.tab == 0,
            r.filters@ == seq![true, true, true],
            r.pending is None,
            !r.help,
            r.command is Absent,
            r.focus.focus is None,
            r.editing is None,
    {
        let mut tabs = Vec::new();
        tabs.push(Tab::Collection);
        tabs.push(Tab::Search { text: String::new() });
        let r = UIState {
            tabs,
            tab: 0,
            tab_scroll: ScrollState::default(),
            filters: [true, true, true],
            scroll: ScrollState::default(),
            focus: FocusState::default(),
            pending: None,
            help: false,
            help_scroll: ScrollState::default(),
            command: LongCommand::Absent,
            last_click_interval: None,
            last_click: None,
            last_input_meaningless: false,
            meaningless_count: 0,
            editing: None,
        };
        assert(r.filters@ =~= seq![true, true, true]);
        r
    }

    /// Activates the next tab, wrapping to the first.
    pub fn rotate_tab(&mut self)
        requires
            old(self).wf(),
            old(self).tabs@.len() > 0,
        ensures
            final(self).tab == if old(self).tab == old(self).tabs@.len() - 1 { 0 } else { old(self).tab + 1 },
            final(self).tabs == old(self).tabs,
            final(self).wf(),
            final(self).command == old(self).command,
            final(self).pending == old(self).pending,
    {
        if self.tab != self.tabs.len() - 1 {
            self.tab = self.tab + 1;
        } else {
            self.tab = 0;
        }
    }

    /// Activates the previous tab, wrapping to the last.
    pub fn rotate_tab_rev(&mut self)
        requires
            old(self).wf(),
            old(self).tabs@.len() > 0,
        ensures
            final(self).tab == if old(self).tab == 0 { old(self).tabs@.len() - 1 } else { old(self).tab - 1 },
            final(self).tabs == old(self).tabs,
            final(self).wf(),
            final(self).command == old(self).command,
            final(self).pending == old(self).pending,
    {
        if self.tab != 0 {
            self.tab = self.tab - 1;
        } else {
            self.tab = self.tabs.len() - 1;
        }
    }

    /// Activates tab `tab`, or the last tab for an index past the end.
    pub fn select_tab(&mut self, tab: usize)
        requires
            old(self).tabs@.len() > 0,
        ensures
            final(self).tab == if tab >= old(self).tabs@.len() { old(self).tabs@.len() - 1 } else { tab as int },
            final(self).tabs == old(self).tabs,
            final(self).wf(),
            final(self).command == old(self).command,
            final(self).pending == old(self).pending,
    {
        if tab >= self.tabs.len() {
            self.tab = self.tabs.len() - 1;
        } else {
            self.tab = tab;
        }
    }

    /// Inserts `tab` at `pos` (after the active tab by default, at the end for a
    /// position past it) and returns where it went. The active index is left alone.
    pub fn open_tab(&mut self, tab: Tab, pos: Option<usize>) -> (r: usize)
        ensures
            r == ({
                let p = match pos {
                    Some(p) => p as int,
                    None => old(self).tab + 1,
                };
                if p > old(self).tabs@.len() { old(self).tabs@.len() as int } else { p }
            }),
            final(self).tabs@ == old(self).tabs@.insert(r as int, tab),
            final(self).tab == old(self).tab,
            final(self).command == old(self).command,
            final(self).pending == old(self).pending,
            final(self).filters == old(self).filters,
            final(self).focus == old(self).focus,
            final(self).help == old(self).help,
            final(self).scroll == old(self).scroll,
    {
        let mut p = match pos {
            Some(p) => p,
            None => if self.tab < self.tabs.len() { self.tab + 1 } else { self.tabs.len() },
        };
        if p > self.tabs.len() {
            p = self.tabs.len();
        }
        self.tabs.insert(p, tab);
        p
    }

    /// Replaces the active tab.
    pub fn replace_tab(&mut self, tab: Tab)
        requires
            old(self).wf(),
            old(self).tabs@.len() > 0,
        ensures
            final(self).tabs@ == old(self).tabs@.update(old(self).tab as int, tab),
            final(self).tab == old(self).tab,
            final(self).wf(),
    {
        let t = self.tab;
        self.tabs.set(t, tab);
    }

    /// Moves the active tab to position `dest` (the end for a position past it) and
    /// returns its new index. The active index is left alone.
    pub fn move_tab(&mut self, dest: usize) -> (r: usize)
        requires
            old(self).wf(),
            old(self).tabs@.len() > 0,
        ensures
            ({
                let n = old(self).tabs@.len();
                let d = if dest > n { n as int } else { dest as int };
                let d2 = if d > old(self).tab { d - 1 } else { d };
                &&& r == d2
                &&& final(self).tabs@ == old(self).tabs@.remove(old(self).tab as int).insert(d2, old(self).tabs@[old(self).tab as int])
            }),
            final(self).tab == old(self).tab,
            r < final(self).tabs@.len(),
            final(self).command == old(self).command,
            final(self).pending == old(self).pending,
            final(self).filters == old(self).filters,
            final(self).focus == old(self).focus,
            final(self).help == old(self).help,
            final(self).scroll == old(self).scroll,
    {
        let mut dest = dest;
        if dest > self.tabs.len() {
            dest = self.tabs.len();
        }
        let t = self.tabs.remove(self.tab);
        if dest > self.tab {
            dest = dest - 1;
        }
        self.tabs.insert(dest, t);
        dest
    }

    /// Closes tab `index`; when it was the last tab, asks to quit. The active index
    /// steps back when it pointed at the last tab.
    pub fn close_tab(&mut self, index: usize)
        requires
            old(self).wf(),
        ensures
            index < old(self).tabs@.len() ==> final(self).tabs@ == old(self).tabs@.remove(index as int),
            index < old(self).tabs@.len() ==> final(self).tab == if old(self).tab == old(self).tabs@.len() - 1 && old(self).tab != 0 {
                old(self).tab - 1
            } else {
                old(self).tab as int
            },
            index >= old(self).tabs@.len() ==> final(self).tabs == old(self).tabs && final(self).tab == old(self).tab,
            final(self).pending == if final(self).tabs@.len() == 0 { Some(PendingUIEvent::Quit) } else { old(self).pending },
            final(self).wf(),
            final(self).command == old(self).command,
            final(self).help == old(self).help,
            final(self).filters == old(self).filters,
            final(self).focus == old(self).focus,
            final(self).scroll == old(self).scroll,
    {
        if index < self.tabs.len() {
            if self.tab == self.tabs.len() - 1 && self.tab != 0 {
                self.tab = self.tab - 1;
            }
            self.tabs.remove(index);
        }
        if self.tabs.len() == 0 {
            self.pending = Some(PendingUIEvent::Quit);
        }
    }

    /// The active tab.
    pub fn active_tab(&self) -> (r: &Tab)
        requires
            self.wf(),
            self.tabs@.len() > 0,
        ensures
            *r == self.tabs@[self.tab as int],
    {
        &self.tabs[self.tab]
    }

    /// The active tab, to change in place.
    pub fn active_tab_mut(&mut self) -> (r: &mut Tab)
        requires
            old(self).wf(),
            old(self).tabs@.len() > 0,
        ensures
            *r == old(self).tabs@[old(self).tab as int],
            final(self).tabs@ == old(self).tabs@.update(old(self).tab as int, *final(r)),
            final(self).tab == old(self).tab,
            final(self).command == old(self).command,
            final(self).pending == old(self).pending,
            final(self).focus == old(self).focus,
            final(self).filters == old(self).filters,
    {
        let t = self.tab;
        &mut self.tabs[t]
    }

    /// The entries of `entries` the filters let through, in order (none when the
    /// collection is not there).
    pub fn do_filter(&self, entries: &Option<Vec<CollectionEntry>>) -> (r: Vec<CollectionEntry>)
        ensures
            entries matches Some(v) ==> r@ == kept(v@, self.filters@),
            entries is None ==> r@.len() == 0,
    {
        let mut r: Vec<CollectionEntry> = Vec::new();
        match entries {
            None => r,
            Some(v) => {
                let mut i: usize = 0;
                while i < v.len()
                    invariant
                        0 <= i <= v@.len(),
                        r@ == kept(v@.take(i as int), self.filters@),
                    decreases v@.len() - i,
                {
                    assert(v@.take(i + 1).drop_last() =~= v@.take(i as int));
                    let e = &v[i];
                    let t = e.subject.subject_type;
                    let keep = match t {
                        SubjectType::Anime => self.filters[0],
                        SubjectType::Book => self.filters[1],
                        SubjectType::Real => self.filters[2],
                        _ => false,
                    };
                    if keep {
                        r.push(e.duplicate());
                    }
                    i = i + 1;
                }
                assert(v@.take(v@.len() as int) =~= v@);
                r
            },
        }
    }

    /// Switches filter `index`, keeping the focus on the same subject when it still shows.
    pub fn toggle_filter(&mut self, index: usize, entries: &Option<Vec<CollectionEntry>>)
        ensures
            index >= 3 ==> final(self).filters == old(self).filters && final(self).focus == old(self).focus,
            index < 3 ==> final(self).filters@ == old(self).filters@.update(index as int, !old(self).filters@[index as int]),
            index < 3 ==> ({
                let before = match entries { Some(v) => kept(v@, old(self).filters@), None => seq![] };
                let after = match entries { Some(v) => kept(v@, final(self).filters@), None => seq![] };
                let focused_id = match old(self).focus.focus {
                    Some(f) => if f < before.len() { Some(before[f as int].subject.id) } else { None },
                    None => None,
                };
                &&& final(self).focus.limit == old(self).focus.limit
                &&& final(self).focus.focus == crate::focus::clamp_focus(
                    match focused_id { Some(id) => last_with_id(after, id), None => None },
                    old(self).focus.limit,
                )
            }),
            final(self).tabs == old(self).tabs,
            final(self).tab == old(self).tab,
            final(self).command == old(self).command,
            final(self).pending == old(self).pending,
    {
        if index >= 3 {
            return;
        }
        let before = self.do_filter(entries);
        let focused_id: Option<u64> = match self.focus.get() {
            Some(f) => if f < before.len() { Some(before[f].subject.id) } else { None },
            None => None,
        };
        let cur = self.filters[index];
        self.filters.set(index, !cur);
        let after = self.do_filter(entries);
        let mut new_focus: Option<usize> = None;
        let mut i: usize = 0;
        while i < after.len()
            invariant
                0 <= i <= after@.len(),
                new_focus == match focused_id { Some(id) => last_with_id(after@.take(i as int), id), None => None },
            decreases after@.len() - i,
        {
            assert(after@.take(i + 1).drop_last() =~= after@.take(i as int));
            if Some(after[i].subject.id) == focused_id {
                new_focus = Some(i);
            }
            i = i + 1;
        }
        assert(after@.take(after@.len() as int) =~= after@);
        self.focus.set(new_focus);
    }

    /// Activates the detail tab of subject `id`, opening one after the active tab
    /// when none is open.
    pub fn goto_detail(&mut self, id: u64)
        requires
            old(self).wf(),
        ensures
            ({
                let i = first_subject_tab(old(self).tabs@, id);
                if i >= 0 {
                    &&& final(self).tab == i
                    &&& final(self).tabs == old(self).tabs
                } else {
                    let p = if old(self).tabs@.len() == 0 { 0 } else { old(self).tab + 1 };
                    &&& final(self).tab == p
                    &&& final(self).tabs@ == old(self).tabs@.insert(p, Tab::Subject { id, scroll: ScrollState { scroll: 0 } })
                }
            }),
            final(self).wf(),
            final(self).command == old(self).command,
            final(self).pending == old(self).pending,
            final(self).filters == old(self).filters,
            final(self).focus == old(self).focus,
    {
        let mut i: usize = 0;
        while i < self.tabs.len()
            invariant
                0 <= i <= self.tabs@.len(),
                first_subject_tab(self.tabs@.take(i as int), id) < 0,
                self.tabs == old(self).tabs,
                self.tab == old(self).tab,
                self.command == old(self).command,
                self.pending == old(self).pending,
                self.filters == old(self).filters,
                self.focus == old(self).focus,
                self.wf(),
            decreases self.tabs@.len() - i,
        {
            assert(self.tabs@.take(i + 1).drop_last() =~= self.tabs@.take(i as int));
            if self.tabs[i].subject_id() == Some(id) {
                proof {
                    lemma_first_subject_tab_prefix(self.tabs@, id, i + 1);
                }
                self.tab = i;
                return;
            }
            i = i + 1;
        }
        assert(self.tabs@.take(self.tabs@.len() as int) =~= self.tabs@);
        let p = self.open_tab(Tab::Subject { id, scroll: ScrollState::default() }, None);
        self.tab = p;
    }

    /// Drops the pending instruction; says whether there was one.
    pub fn clear_pending(&mut self) -> (r: bool)
        ensures
            r == old(self).pending is Some,
            *final(self) == (UIState { pending: None, ..*old(self) }),
    {
        if self.pending.is_some() {
            self.pending = None;
            true
        } else {
            false
        }
    }

    /// Records a press on cell `(x, y)` at time `now` (milliseconds).
    pub fn update_click(&mut self, x: u16, y: u16, now: u64)
        ensures
            final(self).last_click == Some((x, y, now)),
            final(self).pending == old(self).pending,
            final(self).tabs == old(self).tabs,
            final(self).tab == old(self).tab,
            final(self).last_click_interval == match old(self).last_click {
                Some((ox, oy, t)) => if ox == x && oy == y {
                    Some(if now >= t { (now - t) as u64 } else { 0u64 })
                } else {
                    None
                },
                None => old(self).last_click_interval,
            },
    {
        if let Some((ox, oy, t)) = self.last_click {
            if ox == x && oy == y {
                self.last_click_interval = Some(now.saturating_sub(t));
            } else {
                self.last_click_interval = None;
            }
        }
        self.last_click = Some((x, y, now));
    }

    /// Whether the last two presses were a double click.
    pub fn is_double_click(&self) -> (r: bool)
        ensures
            r == (self.last_click_interval matches Some(d) && d < DOUBLE_CLICK_MS),
    {
        match self.last_click_interval {
            Some(d) => d < DOUBLE_CLICK_MS,
            None => false,
        }
    }

    /// Whether enough unbound inputs came in a row to suggest the help.
    pub fn needs_help(&self) -> (r: bool)
        ensures
            r == (self.meaningless_count >= HELP_THRESHOLD),
    {
        self.meaningless_count >= HELP_THRESHOLD
    }
}

/// Number of entries of `entries` of kind `t`.
pub open spec fn count_kind(entries: Seq<CollectionEntry>, t: SubjectType) -> nat
    decreases entries.len(),
{
    if entries.len() == 0 {
        0
    } else {
        count_kind(entries.drop_last(), t) + if entries.last().subject.subject_type == t { 1nat } else { 0nat }
    }
}

/// How many entries there are of each kind of `SELECTS`, in that order.
pub fn filter_counts(entries: &Vec<CollectionEntry>) -> (r: Vec<usize>)
    ensures
        r@.len() == 3,
        r@[0] == count_kind(entries@, SubjectType::Anime),
        r@[1] == count_kind(entries@, SubjectType::Book),
        r@[2] == count_kind(entries@, SubjectType::Real),
{
    let mut a: usize = 0;
    let mut b: usize = 0;
    let mut c: usize = 0;
    let mut i: usize = 0;
    while i < entries.len()
        invariant
            0 <= i <= entries@.len(),
            a == count_kind(entries@.take(i as int), SubjectType::Anime),
            b == count_kind(entries@.take(i as int), SubjectType::Book),
            c == count_kind(entries@.take(i as int), SubjectType::Real),
            a + b + c <= i,
        decreases entries@.len() - i,
    {
        assert(entries@.take(i + 1).drop_last() =~= entries@.take(i as int));
        match entries[i].subject.subject_type {
            SubjectType::Anime => a = a + 1,
            SubjectType::Book => b = b + 1,
            SubjectType::Real => c = c + 1,
            _ => {},
        }
        i = i + 1;
    }
    assert(entries@.take(entries@.len() as int) =~= entries@);
    let mut r = Vec::new();
    r.push(a);
    r.push(b);
    r.push(c);
    r
}

/// A table holding a detail tab of subject `id` has a first one.
proof fn lemma_subject_tab_found(tabs: Seq<Tab>, id: u64, j: int)
    requires
        0 <= j < tabs.len(),
        tabs[j].subject_id_spec() == Some(id),
    ensures
        0 <= first_subject_tab(tabs, id) <= j,
    decreases tabs.len(),
{
    lemma_first_subject_tab_in_range(tabs.drop_last(), id);
    if j < tabs.len() - 1 {
        assert(tabs.drop_last()[j] == tabs[j]);
        lemma_subject_tab_found(tabs.drop_last(), id, j);
    }
}

/// Opening the detail tab of subject `id` twice reuses the tab the first time opened:
/// whatever tab the first call activated, the second finds the tab and leaves the
/// tabs as they are.
pub proof fn lemma_detail_tab_reused(tabs: Seq<Tab>, tab: int, id: u64)
    requires
        tabs.len() > 0 ==> 0 <= tab < tabs.len(),
    ensures
        ({
            let i = first_subject_tab(tabs, id);
            let p = if tabs.len() == 0 { 0 } else { tab + 1 };
            let after = if i >= 0 { tabs } else { tabs.insert(p, Tab::Subject { id, scroll: ScrollState { scroll: 0 } }) };
            let at = if i >= 0 { i } else { p };
            &&& 0 <= at < after.len()
            &&& first_subject_tab(after, id) == at
        }),
{
    let i = first_subject_tab(tabs, id);
    if i < 0 {
        let p = if tabs.len() == 0 { 0 } else { tab + 1 };
        let after = tabs.insert(p, Tab::Subject { id, scroll: ScrollState { scroll: 0 } });
        assert(after[p].subject_id_spec() == Some(id));
        lemma_subject_tab_found(after, id, p);
        lemma_first_subject_tab_in_range(after, id);
        let f = first_subject_tab(after, id);
        if f < p {
            assert(after[f] == tabs[f]);
            lemma_subject_tab_found(tabs, id, f);
        }
    } else {
        lemma_first_subject_tab_in_range(tabs, id);
    }
}

proof fn lemma_first_subject_tab_in_range(tabs: Seq<Tab>, id: u64)
    ensures
        first_subject_tab(tabs, id) >= 0 ==> first_subject_tab(tabs, id) < tabs.len()
            && tabs[first_subject_tab(tabs, id)].subject_id_spec() == Some(id),
    decreases tabs.len(),
{
    if tabs.len() > 0 {
        lemma_first_subject_tab_in_range(tabs.drop_last(), id);
    }
}

} // verus!
