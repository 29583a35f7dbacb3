use vstd::prelude::*;
use crate::cache::{entry_of, AppState, FetchResult, InnerState, Request};
use crate::fmt::{concat, parse_u8, parse_usize, parse_bounded, pop_char, push_char};
use crate::focus::{FocusState, ScrollState};
use crate::input::{Key, MouseButton, MouseEvent, UIEvent};
use crate::model::{stepped, CollectionDetail, CollectionEntry, CollectionStatus, SubjectType};
use crate::ui::{kept, EditJob, LongCommand, PendingUIEvent, Tab, UIState};

verus! {

/// A command typed after `:`.
#[derive(Clone, Debug)]
pub enum CommandLine {
    /// `qa`: quit.
    QuitAll,
    /// `q`: close the active tab.
    Close,
    /// `help`: toggle the help.
    Help,
    /// `tabe search`: open a search tab.
    OpenSearch,
    /// `tabe coll`: open a collection tab.
    OpenCollection,
    /// `tabm <n>`: move the active tab to position `n`.
    MoveTab(usize),
    /// `tabm` followed by something that is not a position.
    BadPosition(String),
    Unknown,
}

/// What the command text `s` asks for.
pub open spec fn command_of(s: Seq<char>) -> CommandLine {
    if s == "qa"@ {
        CommandLine::QuitAll
    } else if s == "q"@ {
        CommandLine::Close
    } else if s == "help"@ {
        CommandLine::Help
    } else if s == "tabe search"@ {
        CommandLine::OpenSearch
    } else if s == "tabe coll"@ {
        CommandLine::OpenCollection
    } else if s.len() >= 5 && s.take(5) == "tabm "@ {
        match parse_bounded(s.skip(5), usize::MAX as int) {
            Some(n) => CommandLine::MoveTab(n as usize),
            None => CommandLine::Unknown,
        }
    } else {
        CommandLine::Unknown
    }
}

fn same_text(s: &String, lit: &str) -> (r: bool)
    ensures
        r == (s@ == lit@),
{
    *s == String::from_str(lit)
}

/// Reads a command line.
pub fn parse_command(cmd: &String) -> (r: CommandLine)
    ensures
        !(r is BadPosition) ==> r == command_of(cmd@),
        r matches CommandLine::BadPosition(t) ==> command_of(cmd@) is Unknown && cmd@.len() >= 5
            && cmd@.take(5) == "tabm "@ && t@ == cmd@.skip(5),
{
    if same_text(cmd, "qa") {
        return CommandLine::QuitAll;
    }
    if same_text(cmd, "q") {
        return CommandLine::Close;
    }
    if same_text(cmd, "help") {
        return CommandLine::Help;
    }
    if same_text(cmd, "tabe search") {
        return CommandLine::OpenSearch;
    }
    if same_text(cmd, "tabe coll") {
        return CommandLine::OpenCollection;
    }
    let n = cmd.as_str().unicode_len();
    if n >= 5 {
        let head = String::from_str(cmd.as_str().substring_char(0, 5));
        if same_text(&head, "tabm ") {
            let rest = cmd.as_str().substring_char(5, n);
            assert(cmd@.subrange(0, 5) == cmd@.take(5));
            assert(cmd@.subrange(5, n as int) == cmd@.skip(5));
            return match parse_usize(rest) {
                Some(p) => CommandLine::MoveTab(p),
                None => CommandLine::BadPosition(String::from_str(rest)),
            };
        }
        assert(cmd@.subrange(0, 5) == cmd@.take(5));
    }
    CommandLine::Unknown
}

/// The rating digits after typing digit `c`: a lone `0` is replaced, otherwise the digit is appended.
pub open spec fn rating_after(buf: Seq<char>, c: char) -> Seq<char> {
    if buf == "0"@ {
        seq![c]
    } else {
        buf.push(c)
    }
}

/// Types digit `c` into the rating digits `buf`.
pub fn rating_input(buf: &mut String, c: char)
    ensures
        final(buf)@ == rating_after(old(buf)@, c),
{
    if same_text(buf, "0") {
        *buf = String::new();
    }
    push_char(buf, c);
    assert(final(buf)@ =~= rating_after(old(buf)@, c));
}

/// The rating the digits `buf` commit: their value capped at ten, if they spell a byte.
pub open spec fn rating_of(buf: Seq<char>) -> Option<u8> {
    match parse_bounded(buf, 255) {
        Some(v) => Some(if v > 10 { 10u8 } else { v as u8 }),
        None => None,
    }
}

/// The rating the digits `buf` commit.
pub fn committed_rating(buf: &String) -> (r: Option<u8>)
    ensures
        r == rating_of(buf@),
{
    match parse_u8(buf.as_str()) {
        Some(d) => Some(if d > 10 { 10 } else { d }),
        None => None,
    }
}

/// Text with the lines of `ts` joined by line feeds.
pub open spec fn join_lines(ts: Seq<Seq<char>>) -> Seq<char>
    decreases ts.len(),
{
    if ts.len() == 0 {
        seq![]
    } else if ts.len() == 1 {
        ts[0]
    } else {
        join_lines(ts.drop_last()) + "\n"@ + ts.last()
    }
}

/// The tags joined one per line.
pub fn join_tags(tags: &Vec<String>) -> (r: String)
    ensures
        r@ == join_lines(tags@.map_values(|t: String| t@)),
{
    let ghost tv = tags@.map_values(|t: String| t@);
    let mut r = String::new();
    let mut i: usize = 0;
    while i < tags.len()
        invariant
            0 <= i <= tags@.len(),
            tv == tags@.map_values(|t: String| t@),
            r@ == join_lines(tv.take(i as int)),
        decreases tags@.len() - i,
    {
        assert(tv.take(i + 1).drop_last() =~= tv.take(i as int));
        if i > 0 {
            r.append("\n");
        }
        r.append(tags[i].as_str());
        i = i + 1;
        proof {
            if i == 1 {
                assert(tv.take(0) =~= Seq::<Seq<char>>::empty());
                assert(r@ =~= join_lines(tv.take(i as int)));
            }
        }
    }
    assert(tv.take(tags@.len() as int) =~= tv);
    r
}

/// `l` without a trailing carriage return.
pub open spec fn strip_cr(l: Seq<char>) -> Seq<char> {
    if l.len() > 0 && l.last() == '\r' {
        l.drop_last()
    } else {
        l
    }
}

/// The non-empty lines ended by a line feed in `s`, and the text after the last line feed.
pub open spec fn line_fold(s: Seq<char>) -> (Seq<Seq<char>>, Seq<char>)
    decreases s.len(),
{
    if s.len() == 0 {
        (seq![], seq![])
    } else {
        let (done, cur) = line_fold(s.drop_last());
        if s.last() == '\n' {
            let l = strip_cr(cur);
            (if l.len() > 0 { done.push(l) } else { done }, seq![])
        } else {
            (done, cur.push(s.last()))
        }
    }
}

/// The non-empty lines of `s` (a line ends at a line feed, which with a carriage
/// return before it is dropped), in order.
pub open spec fn tags_of(s: Seq<char>) -> Seq<Seq<char>> {
    let (done, cur) = line_fold(s);
    if cur.len() > 0 {
        done.push(cur)
    } else {
        done
    }
}

/// The tags written one per line in `content`.
pub fn split_tags(content: &str) -> (r: Vec<String>)
    ensures
        r@.map_values(|t: String| t@) == tags_of(content@),
{
    let n = content.unicode_len();
    let mut done: Vec<String> = Vec::new();
    let mut cur = String::new();
    let mut i: usize = 0;
    while i < n
        invariant
            0 <= i <= n,
            n == content@.len(),
            line_fold(content@.take(i as int)) == (done@.map_values(|t: String| t@), cur@),
        decreases n - i,
    {
        assert(content@.take(i + 1).drop_last() =~= content@.take(i as int));
        let c = content.get_char(i);
        if c == '\n' {
            let ghost before = done@.map_values(|t: String| t@);
            let ghost cv = cur@;
            let cl = cur.as_str().unicode_len();
            if cl > 0 && cur.as_str().get_char(cl - 1) == '\r' {
                pop_char(&mut cur);
            }
            assert(cur@ == strip_cr(cv));
            if cur.as_str().unicode_len() > 0 {
                done.push(cur);
                assert(done@.map_values(|t: String| t@) =~= before.push(strip_cr(cv)));
            }
            cur = String::new();
        } else {
            push_char(&mut cur, c);
        }
        i = i + 1;
    }
    assert(content@.take(n as int) =~= content@);
    if cur.as_str().unicode_len() > 0 {
        let ghost before = done@.map_values(|t: String| t@);
        let ghost cv = cur@;
        done.push(cur);
        assert(done@.map_values(|t: String| t@) =~= before.push(cv));
    }
    done
}

/// `n - 1`, stopping at zero.
pub open spec fn dec1(n: u16) -> u16 {
    if n == 0 { 0 } else { (n - 1) as u16 }
}

/// Scroll offset that `G` jumps to; painting pulls it back to the end of the content.
pub const SCROLL_BOTTOM: u16 = 64535;

/// Typing a character other than Enter into a command line appends it.
pub open spec fn command_typed(before: LongCommand, k: Key, after: LongCommand) -> bool {
    match (before, k) {
        (LongCommand::Command(s), Key::Char(c)) => c != '\n' ==> (after matches LongCommand::Command(s2) && s2@ == s@.push(c)),
        _ => true,
    }
}

/// Typing a digit into the rating editor updates its digits.
pub open spec fn rating_typed(before: LongCommand, k: Key, after: LongCommand) -> bool {
    match (before, k) {
        (LongCommand::EditRating(id, d, buf), Key::Char(c)) => crate::fmt::is_digit(c) ==> (after matches LongCommand::EditRating(id2, d2, b2)
            && id2 == id && d2 == d && b2@ == rating_after(buf@, c)),
        _ => true,
    }
}

/// Enter in the rating editor closes it and sends the record with the new rating
/// when it differs; digits that are no rating only bring a message.
pub open spec fn rating_committed(before: LongCommand, k: Key, after: LongCommand, app0: AppState, app1: AppState) -> bool {
    match before {
        LongCommand::EditRating(id, d, buf) => k == Key::Char('\n') ==> {
            &&& after is Absent
            &&& match rating_of(buf@) {
                Some(v) => if v != d.rating {
                    &&& app1.requests@.len() == app0.requests@.len() + 1
                    &&& app1.requests@.drop_last() == app0.requests@
                    &&& app1.requests@.last() matches Request::UpdateCollectionDetail { id: id2, status, detail: Some(nd) }
                    &&& id2 == id && status == d.status && nd.rating == v && nd.status == d.status && nd.comment == d.comment
                        && nd.tag@ == d.tag@
                } else {
                    app1.requests == app0.requests
                },
                None => app1.requests == app0.requests && app1.messages@.len() == app0.messages@.len() + 1,
            }
        },
        _ => true,
    }
}

/// What a key does to an active long command.
pub open spec fn long_command_effects(before: LongCommand, ev: UIEvent, after: LongCommand, app0: AppState, app1: AppState) -> bool {
    match ev {
        UIEvent::Key(k) => before is Absent || k == Key::Esc || (command_typed(before, k, after) && rating_typed(before, k, after)
            && rating_committed(before, k, after, app0, app1)),
        _ => true,
    }
}

/// The progress update `+` (`dist` 1) or `-` (`dist` -1) sends for entry `e`:
/// volumes for a book, episodes otherwise, kept within zero and the known total.
pub open spec fn progress_request(e: CollectionEntry, dist: i64) -> Request {
    if e.subject.subject_type == SubjectType::Book {
        Request::UpdateProgress { entry: e, ep: None, vol: Some(stepped(e.vol_status, e.subject.vols_count, dist) as u64) }
    } else {
        Request::UpdateProgress { entry: e, ep: Some(stepped(e.ep_status, e.subject.eps_count, dist) as u64), vol: None }
    }
}

/// With the collection at hand, stepping the focused entry sends one progress update
/// for the entry the focus is on among those the filters let through.
pub open spec fn focused_step_effect(focus: Option<usize>, filters: Seq<bool>, dist: i64, app0: AppState, app1: AppState) -> bool {
    match (focus, app0.collection) {
        (Some(f), InnerState::Fetched(_, v)) => {
            let shown = kept(v@, filters);
            if f < shown.len() {
                &&& app1.requests@.len() == app0.requests@.len() + 1
                &&& app1.requests@.last() == progress_request(shown[f as int], dist)
            } else {
                app1.requests == app0.requests
            }
        },
        _ => true,
    }
}

/// What running the command line `cmd` does, from state `u0` and cache `a0` to `u1`
/// and `a1`. Focus, scroll, filters and the command slot are kept in every case.
pub open spec fn command_effect(cmd: CommandLine, u0: UIState, u1: UIState, a0: AppState, a1: AppState) -> bool {
    &&& u1.command == u0.command
    &&& u1.focus == u0.focus
    &&& u1.scroll == u0.scroll
    &&& u1.filters == u0.filters
    &&& match cmd {
        CommandLine::QuitAll => u1.pending == Some(PendingUIEvent::Quit) && u1.tabs == u0.tabs && u1.tab == u0.tab
            && u1.help == u0.help && a1 == a0,
        CommandLine::Close => u1.tabs@ == u0.tabs@.remove(u0.tab as int) && u1.pending == (if u1.tabs@.len() == 0 {
            Some(PendingUIEvent::Quit)
        } else {
            Some(PendingUIEvent::KBTabSelect)
        }) && u1.help == u0.help && a1 == a0,
        CommandLine::Help => u1.help == !u0.help && u1.tabs == u0.tabs && u1.tab == u0.tab && u1.pending == u0.pending
            && a1 == a0,
        CommandLine::OpenSearch => u1.tab == u0.tab + 1 && u1.tab < u1.tabs@.len() && u1.tabs@.remove(u1.tab as int) == u0.tabs@
            && (u1.tabs@[u1.tab as int] matches Tab::Search { text } && text@.len() == 0) && u1.help == u0.help
            && u1.pending == u0.pending && a1 == a0,
        CommandLine::OpenCollection => u1.tab == u0.tab + 1 && u1.tab < u1.tabs@.len() && u1.tabs@.remove(u1.tab as int) == u0.tabs@
            && u1.tabs@[u1.tab as int] is Collection && u1.help == u0.help && u1.pending == u0.pending && a1 == a0,
        CommandLine::MoveTab(n) => {
            let len = u0.tabs@.len();
            let d = if n > len { len as int } else { n as int };
            let d2 = if d > u0.tab { d - 1 } else { d };
            &&& u1.tabs@ == u0.tabs@.remove(u0.tab as int).insert(d2, u0.tabs@[u0.tab as int])
            &&& u1.tab == d2
            &&& u1.pending == Some(PendingUIEvent::KBTabSelect)
            &&& u1.help == u0.help
            &&& a1 == a0
        },
        _ => a1.messages@.len() == a0.messages@.len() + 1 && a1.requests == a0.requests && a1.collection == a0.collection
            && a1.subject == a0.subject && a1.collection_detail == a0.collection_detail && a1.search == a0.search
            && u1.tabs == u0.tabs && u1.tab == u0.tab && u1.help == u0.help && u1.pending == u0.pending,
    }
}

/// Enter on a command line runs it and closes it.
pub open spec fn command_entered(before: LongCommand, k: Key, u0: UIState, u1: UIState, a0: AppState, a1: AppState) -> bool {
    match before {
        LongCommand::Command(s) => k == Key::Char('\n') ==> command_effect(command_of(s@), u0, UIState { command: u0.command, ..u1 }, a0, a1)
            && u1.command is Absent,
        _ => true,
    }
}

/// A key on an active command line: Enter runs it.
pub open spec fn line_run(before: LongCommand, ev: UIEvent, u0: UIState, u1: UIState, a0: AppState, a1: AppState) -> bool {
    match ev {
        UIEvent::Key(k) => command_entered(before, k, u0, u1, a0, a1),
        _ => true,
    }
}

/// Whether key `k` matches a binding with no long command active in state `u`.
pub open spec fn key_bound(u: UIState, k: Key) -> bool {
    let t = u.tabs@[u.tab as int];
    let nav = k == Key::Down || k == Key::Char('j') || k == Key::Up || k == Key::Char('k');
    ||| k == Key::Ctrl('q')
    ||| (t is Collection && (nav || k == Key::Char('t') || (u.focus.focus is Some && (k == Key::Char('+') || k == Key::Char('-')
        || k == Key::Char('\n') || k == Key::Esc))))
    ||| (t is Subject && (nav || k == Key::Char('s') || k == Key::Char('r') || k == Key::Char('t') || k == Key::Char('c') || k
        == Key::Esc))
    ||| (t is Search && (k == Key::Char('\n') || k == Key::Char('e')))
    ||| (t is SearchResult && (nav || k == Key::Char('n') || k == Key::Char('N') || (t.get_focus_spec() is Some && (k == Key::Esc
        || k == Key::Char('\n')))))
    ||| k == Key::Char('\t') || k == Key::Char('g') || k == Key::Char('G') || k == Key::Char('R') || k == Key::Char(':') || k
        == Key::Char('?') || k == Key::Char('h')
    ||| (u.help && (k == Key::Char('J') || k == Key::Char('K')))
}

/// Whether event `ev` matches a binding in state `u`: every pointer event does, and
/// while a long command is active every key does.
pub open spec fn event_bound(u: UIState, ev: UIEvent) -> bool {
    match ev {
        UIEvent::Mouse(_) => true,
        UIEvent::Key(k) => !(u.command is Absent) || key_bound(u, k),
    }
}

/// What `goto_detail(id)` does: activate the first detail tab of subject `id`, or
/// open one after the active tab.
pub open spec fn detail_opened(u0: UIState, u1: UIState, id: u64) -> bool {
    let i = crate::ui::first_subject_tab(u0.tabs@, id);
    if i >= 0 {
        u1.tab == i && u1.tabs == u0.tabs
    } else {
        let p = if u0.tabs@.len() == 0 { 0 } else { u0.tab + 1 };
        u1.tab == p && u1.tabs@ == u0.tabs@.insert(p, Tab::Subject { id, scroll: ScrollState { scroll: 0 } })
    }
}

/// Enter on the focused collection entry, with the collection at hand, opens (or
/// returns to) the detail tab of the entry the focus is on among those shown.
pub open spec fn enter_effect(u0: UIState, u1: UIState, a0: AppState) -> bool {
    match (u0.focus.focus, a0.collection) {
        (Some(f), InnerState::Fetched(_, v)) => {
            let shown = kept(v@, u0.filters@);
            f < shown.len() ==> detail_opened(u0, u1, shown[f as int].subject.id)
        },
        _ => true,
    }
}

/// Moving the focus: down selects the next row (the first when none is selected),
/// up the previous one; a selection asks for the row to be scrolled into view.
pub open spec fn nav_effect(f0: FocusState, down: bool, f1: FocusState, pending: Option<PendingUIEvent>, pending0: Option<PendingUIEvent>) -> bool {
    &&& f1.limit == f0.limit
    &&& f1.focus == if down {
        crate::focus::clamp_focus(match f0.focus {
            Some(f) => Some(if f == usize::MAX { f } else { (f + 1) as usize }),
            None => Some(0usize),
        }, f0.limit)
    } else {
        match f0.focus {
            Some(f) => if f > 0 { crate::focus::clamp_focus(Some((f - 1) as usize), f0.limit) } else { Some(f) },
            None => None,
        }
    }
    &&& pending == match f1.focus { Some(f) => Some(PendingUIEvent::ScrollIntoView(f)), None => pending0 }
}

/// With the record of subject `id` at hand, `t` and `c` queue an edit of its tags or
/// comment, together with a request to restore the terminal.
pub open spec fn edit_queued(k: Key, id: u64, u1: UIState, a0: AppState) -> bool {
    match entry_of(a0.collection_detail@, id) {
        InnerState::Fetched(_, Some(d)) => {
            &&& k == Key::Char('t') ==> (u1.editing matches Some(EditJob::Tags { id: i2, .. }) && i2 == id
                && u1.pending == Some(PendingUIEvent::Reset))
            &&& k == Key::Char('c') ==> (u1.editing matches Some(EditJob::Comment { id: i2, detail }) && i2 == id
                && detail.same(&d) && u1.pending == Some(PendingUIEvent::Reset))
        },
        _ => true,
    }
}

/// Enter commits the search text, the status, or a digit toggles a filter.
pub open spec fn commit_effect(before: LongCommand, k: Key, u0: UIState, u1: UIState, a0: AppState, a1: AppState) -> bool {
    match before {
        LongCommand::SearchInput(st) => (k == Key::Char('\n') && u0.tabs@[u0.tab as int] is Search) ==> (u1.tabs@.len() == u0.tabs@.len()
            && (u1.tabs@[u0.tab as int] matches Tab::Search { text } && text@ == st@) && u1.command is Absent),
        LongCommand::EditStatus(id, d, cur) => k == Key::Char('\n') ==> (a1.requests@ == a0.requests@.push(
            Request::UpdateCollectionDetail { id, status: cur, detail: d }) && u1.command is Absent),
        LongCommand::Toggle => (k matches Key::Char(c) && '1' <= c <= '9') ==> ({
            let i = (k->Char_0 as int) - ('1' as int);
            &&& u1.command is Absent
            &&& i < 3 ==> u1.filters@ == u0.filters@.update(i, !u0.filters@[i])
        }),
        _ => true,
    }
}

/// What the tab-specific keys do: moving the focus on the collection tab, Enter on
/// its focused entry, Esc closing a detail tab, and `t`/`c` queuing an edit there.
pub open spec fn tab_key_effects(u0: UIState, ev: UIEvent, u1: UIState, a0: AppState) -> bool {
    let t = u0.tabs@[u0.tab as int];
    match ev {
        UIEvent::Key(k) => {
            &&& (t is Collection && (k == Key::Down || k == Key::Char('j'))) ==> nav_effect(u0.focus, true, u1.focus, u1.pending, u0.pending)
            &&& (t is Collection && (k == Key::Up || k == Key::Char('k'))) ==> nav_effect(u0.focus, false, u1.focus, u1.pending, u0.pending)
            &&& (t is Collection && u0.focus.focus is Some && k == Key::Char('\n')) ==> enter_effect(u0, u1, a0)
            &&& (t is Subject && k == Key::Esc) ==> u1.tabs@ == u0.tabs@.remove(u0.tab as int)
            &&& (t matches Tab::Subject { id, .. } ==> edit_queued(k, id, u1, a0))
        },
        _ => true,
    }
}

/// A key other than Esc on an active long command commits what `commit_effect` says.
pub open spec fn commits(before: LongCommand, ev: UIEvent, u0: UIState, u1: UIState, a0: AppState, a1: AppState) -> bool {
    match ev {
        UIEvent::Key(k) => (!(before is Absent) && k != Key::Esc) ==> commit_effect(before, k, u0, u1, a0, a1),
        _ => true,
    }
}

/// Whether event `ev` in state `u` closes a tab: Esc on a detail tab, or the command line `q`.
pub open spec fn closes_tab(u: UIState, ev: UIEvent) -> bool {
    ||| u.command is Absent && u.tabs@[u.tab as int] is Subject && ev == UIEvent::Key(Key::Esc)
    ||| (u.command matches LongCommand::Command(s) && command_of(s@) is Close && ev == UIEvent::Key(Key::Char('\n')))
}

/// The tabs run out only together with a request to quit.
pub open spec fn quit_if_empty(u: UIState) -> bool {
    u.tabs@.len() == 0 ==> u.pending == Some(PendingUIEvent::Quit)
}

/// An edited comment goes to the service when it changed; an unchanged one sends nothing.
pub open spec fn comment_sent(job: Option<EditJob>, content: Option<String>, a0: AppState, a1: AppState) -> bool {
    match (job, content) {
        (Some(EditJob::Comment { id, detail }), Some(text)) => if text@ != detail.comment@ {
            &&& a1.requests@.len() == a0.requests@.len() + 1
            &&& a1.requests@.drop_last() == a0.requests@
            &&& a1.requests@.last() matches Request::UpdateCollectionDetail { id: id2, status, detail: Some(nd) }
            &&& id2 == id && status == detail.status && nd.status == detail.status && nd.rating == detail.rating
                && nd.comment@ == text@ && nd.tag@ == detail.tag@
        } else {
            a1.requests == a0.requests
        },
        _ => true,
    }
}

/// Edited tags go to the service, one tag per non-empty line.
pub open spec fn tags_sent(job: Option<EditJob>, content: Option<String>, app1: AppState) -> bool {
    match (job, content) {
        (Some(EditJob::Tags { id, detail, .. }), Some(text)) => app1.requests@.len() > 0 && (app1.requests@.last()
            matches Request::UpdateCollectionDetail { id: id2, status, detail: Some(nd) } && id2 == id
            && status == detail.status && nd.tag@.map_values(|t: String| t@) == tags_of(text@)),
        _ => true,
    }
}

impl UIState {
    fn take_active(&mut self) -> (r: Tab)
        requires
            old(self).wf(),
            old(self).tabs@.len() > 0,
        ensures
            r == old(self).tabs@[old(self).tab as int],
            final(self).tabs@ == old(self).tabs@.update(old(self).tab as int, Tab::Collection),
            final(self).tab == old(self).tab,
            final(self).command == old(self).command,
            final(self).pending == old(self).pending,
            final(self).meaningless_count == old(self).meaningless_count,
            final(self).last_input_meaningless == old(self).last_input_meaningless,
            final(self).wf(),
    {
        let t = self.tab;
        let mut tab = Tab::Collection;
        std::mem::swap(&mut tab, &mut self.tabs[t]);
        tab
    }

    fn put_active(&mut self, tab: Tab)
        requires
            old(self).wf(),
            old(self).tabs@.len() > 0,
        ensures
            final(self).tabs@ == old(self).tabs@.update(old(self).tab as int, tab),
            final(self).tab == old(self).tab,
            final(self).command == old(self).command,
            final(self).pending == old(self).pending,
            final(self).meaningless_count == old(self).meaningless_count,
            final(self).last_input_meaningless == old(self).last_input_meaningless,
            final(self).wf(),
    {
        let t = self.tab;
        self.tabs.set(t, tab);
    }

    /// Runs a command line.
    fn run_command(&mut self, cmd: CommandLine, app: &mut AppState)
        requires
            old(self).wf(),
            old(self).tabs@.len() > 0,
        ensures
            final(self).wf(),
            command_effect(cmd, *old(self), *final(self), *old(app), *final(app)),
            quit_if_empty(*final(self)),
    {
        match cmd {
            CommandLine::QuitAll => {
                self.pending = Some(PendingUIEvent::Quit);
            },
            CommandLine::Close => {
                self.close_tab(self.tab);
                if self.tabs.len() > 0 {
                    self.pending = Some(PendingUIEvent::KBTabSelect);
                }
            },
            CommandLine::Help => {
                self.help = !self.help;
            },
            CommandLine::OpenSearch => {
                self.tab = self.open_tab(Tab::Search { text: String::new() }, None);
                assert(self.tabs@.remove(self.tab as int) =~= old(self).tabs@);
            },
            CommandLine::OpenCollection => {
                self.tab = self.open_tab(Tab::Collection, None);
                assert(self.tabs@.remove(self.tab as int) =~= old(self).tabs@);
            },
            CommandLine::MoveTab(n) => {
                self.tab = self.move_tab(n);
                self.pending = Some(PendingUIEvent::KBTabSelect);
            },
            CommandLine::BadPosition(t) => {
                let mut m = t;
                m.append(" 是不认识的数字!");
                app.publish_message(m);
            },
            CommandLine::Unknown => {
                app.publish_message(String::from_str("是不认识的命令!"));
            },
        }
    }

    /// `gg`: back to the top of the active tab.
    fn to_top(&mut self)
        requires
            old(self).wf(),
            old(self).tabs@.len() > 0,
        ensures
            final(self).wf(),
            final(self).tabs@.len() == old(self).tabs@.len(),
            final(self).tab == old(self).tab,
            final(self).command == old(self).command,
            final(self).pending == old(self).pending,
            final(self).meaningless_count == old(self).meaningless_count,
            final(self).last_input_meaningless == old(self).last_input_meaningless,
    {
        let mut tab = self.take_active();
        match &mut tab {
            Tab::Collection => {
                self.scroll.set(0);
                self.focus.set(Some(0));
            },
            Tab::Subject { scroll, .. } => {
                scroll.set(0);
            },
            Tab::SearchResult { scroll, focus, .. } => {
                scroll.set(0);
                focus.set(Some(0));
            },
            Tab::Search { .. } => {},
        }
        self.put_active(tab);
    }

    /// `G`: to the bottom of the active tab.
    fn to_bottom(&mut self)
        requires
            old(self).wf(),
            old(self).tabs@.len() > 0,
        ensures
            final(self).wf(),
            final(self).tabs@.len() == old(self).tabs@.len(),
            final(self).tab == old(self).tab,
            final(self).command == old(self).command,
            final(self).pending == old(self).pending,
            final(self).meaningless_count == old(self).meaningless_count,
            final(self).last_input_meaningless == old(self).last_input_meaningless,
    {
        let mut tab = self.take_active();
        match &mut tab {
            Tab::Collection => {
                self.scroll.set(SCROLL_BOTTOM);
                self.focus.set(Some(usize::MAX));
            },
            Tab::Subject { scroll, .. } => {
                scroll.set(SCROLL_BOTTOM);
            },
            Tab::SearchResult { scroll, focus, .. } => {
                scroll.set(SCROLL_BOTTOM);
                focus.set(Some(usize::MAX));
            },
            Tab::Search { .. } => {},
        }
        self.put_active(tab);
    }

    /// A key while a long command is active (other than Esc).
    fn long_command_key(&mut self, k: Key, app: &mut AppState)
        requires
            old(self).wf(),
            old(self).tabs@.len() > 0,
        ensures
            final(self).wf(),
            old(self).command is Graphical && k == Key::Char('t') ==> final(self).tab == (if old(self).tab
                == old(self).tabs@.len() - 1 { 0 } else { old(self).tab + 1 }) && final(self).pending == Some(
                PendingUIEvent::KBTabSelect,
            ) && final(self).command is Absent,
            command_typed(old(self).command, k, final(self).command),
            rating_typed(old(self).command, k, final(self).command),
            rating_committed(old(self).command, k, final(self).command, *old(app), *final(app)),
            command_entered(old(self).command, k, *old(self), *final(self), *old(app), *final(app)),
            commit_effect(old(self).command, k, *old(self), *final(self), *old(app), *final(app)),
            quit_if_empty(*final(self)),
            !closes_tab(*old(self), UIEvent::Key(k)) ==> final(self).tabs@.len() >= old(self).tabs@.len(),
    {
        let mut cmd = LongCommand::Absent;
        std::mem::swap(&mut cmd, &mut self.command);
        match cmd {
            LongCommand::Graphical => {
                if k == Key::Char('t') {
                    self.rotate_tab();
                    self.pending = Some(PendingUIEvent::KBTabSelect);
                } else if k == Key::Char('T') {
                    self.rotate_tab_rev();
                    self.pending = Some(PendingUIEvent::KBTabSelect);
                } else if k == Key::Char('g') {
                    self.to_top();
                }
            },
            LongCommand::Command(mut line) => {
                match k {
                    Key::Char('\n') => {
                        let c = parse_command(&line);
                        let ghost u0 = *self;
                        self.run_command(c, app);
                        proof {
                            assert(u0 == UIState { command: u0.command, ..*old(self) });
                            if !(c is Close) {
                                if c is OpenSearch || c is OpenCollection {
                                    assert(self.tabs@.remove(self.tab as int).len() == self.tabs@.len() - 1);
                                }
                                assert(self.tabs@.len() >= old(self).tabs@.len());
                            }
                        }
                    },
                    Key::Backspace => {
                        if pop_char(&mut line).is_some() {
                            self.command = LongCommand::Command(line);
                        }
                    },
                    Key::Char(c) => {
                        push_char(&mut line, c);
                        self.command = LongCommand::Command(line);
                    },
                    _ => {
                        self.command = LongCommand::Command(line);
                    },
                }
            },
            LongCommand::Toggle => {
                if let Key::Char(c) = k {
                    if '1' <= c && c <= '9' {
                        let i = (c as u32 - '1' as u32) as usize;
                        let coll = app.fetch_collection().into_option();
                        self.toggle_filter(i, &coll);
                    }
                }
            },
            LongCommand::EditRating(id, detail, mut buf) => {
                match k {
                    Key::Char('\n') => {
                        match committed_rating(&buf) {
                            Some(v) => {
                                if detail.rating != v {
                                    let nd = CollectionDetail {
                                        status: detail.status,
                                        rating: v,
                                        comment: detail.comment.clone(),
                                        tag: crate::model::copy_strings(&detail.tag),
                                    };
                                    app.update_collection_detail(id, detail.status, Some(nd));
                                    assert(app.requests@.drop_last() =~= old(app).requests@);
                                }
                            },
                            None => {
                                app.publish_message(concat(buf.as_str(), " 是不认识的评分!"));
                            },
                        }
                    },
                    Key::Backspace => {
                        pop_char(&mut buf);
                        self.command = LongCommand::EditRating(id, detail, buf);
                    },
                    Key::Char(c) => {
                        if '0' <= c && c <= '9' {
                            rating_input(&mut buf, c);
                        }
                        self.command = LongCommand::EditRating(id, detail, buf);
                    },
                    _ => {
                        self.command = LongCommand::EditRating(id, detail, buf);
                    },
                }
            },
            LongCommand::EditStatus(id, detail, current) => {
                if k == Key::Char('\t') {
                    self.command = LongCommand::EditStatus(id, detail, current.rotate());
                } else if k == Key::Char('\n') {
                    app.update_collection_detail(id, current, detail);
                }
            },
            LongCommand::SearchInput(mut staging) => {
                match k {
                    Key::Char('\n') => {
                        let mut tab = self.take_active();
                        if let Tab::Search { text } = &mut tab {
                            *text = staging;
                        }
                        self.put_active(tab);
                    },
                    Key::Backspace => {
                        pop_char(&mut staging);
                        self.command = LongCommand::SearchInput(staging);
                    },
                    Key::Char(c) => {
                        push_char(&mut staging, c);
                        self.command = LongCommand::SearchInput(staging);
                    },
                    _ => {
                        self.command = LongCommand::SearchInput(staging);
                    },
                }
            },
            LongCommand::Absent => {},
        }
    }
}

impl UIState {
    /// `+` / `-` on the focused collection entry: one step of progress, kept within
    /// zero and the known total.
    fn step_focused(&mut self, dist: i64, app: &mut AppState)
        requires
            old(self).wf(),
            old(self).tabs@.len() > 0,
        ensures
            *final(self) == *old(self),
            focused_step_effect(old(self).focus.focus, old(self).filters@, dist, *old(app), *final(app)),
    {
        let focus = match self.focus.get() {
            Some(f) => f,
            None => { return; },
        };
        let collection = app.fetch_collection().into_option();
        let filtered = self.do_filter(&collection);
        let ghost app1 = *app;
        if focus < filtered.len() {
            let t = &filtered[focus];
            if t.subject.subject_type == SubjectType::Book {
                let v = t.step_vol(dist);
                app.update_progress(t, None, Some(v));
            } else {
                let e = t.step_ep(dist);
                app.update_progress(t, Some(e), None);
            }
        }
    }

    /// Enter on the focused collection entry: its detail tab.
    fn open_focused(&mut self, app: &mut AppState)
        requires
            old(self).wf(),
            old(self).tabs@.len() > 0,
        ensures
            final(self).wf(),
            final(self).tabs@.len() >= old(self).tabs@.len(),
            enter_effect(*old(self), *final(self), *old(app)),
    {
        let focus = match self.focus.get() {
            Some(f) => f,
            None => { return; },
        };
        let collection = app.fetch_collection().into_option();
        let filtered = self.do_filter(&collection);
        if focus < filtered.len() {
            self.goto_detail(filtered[focus].subject.id);
        }
    }

    /// Keys on a detail tab; says whether the key is bound there.
    fn subject_key(&mut self, id: u64, k: Key, app: &mut AppState) -> (bound: bool)
        requires
            old(self).wf(),
            old(self).tabs@.len() > 0,
        ensures
            final(self).wf(),
            !bound ==> *final(self) == *old(self),
            bound == (k == Key::Char('s') || k == Key::Char('r') || k == Key::Char('t') || k == Key::Char('c') || k == Key::Down
                || k == Key::Char('j') || k == Key::Up || k == Key::Char('k') || k == Key::Esc),
            k != Key::Esc ==> final(self).tabs@.len() >= old(self).tabs@.len(),
            quit_if_empty(*final(self)),
            k == Key::Esc ==> final(self).tabs@ == old(self).tabs@.remove(old(self).tab as int),
            edit_queued(k, id, *final(self), *old(app)),
    {
        if k == Key::Char('s') {
            if let FetchResult::Direct(coll) = app.fetch_collection_detail(id) {
                let initial = match &coll {
                    Some(c) => c.status,
                    None => CollectionStatus::default(),
                };
                self.command = LongCommand::EditStatus(id, coll, initial);
            }
            true
        } else if k == Key::Char('r') {
            if let FetchResult::Direct(Some(coll)) = app.fetch_collection_detail(id) {
                let digits = crate::fmt::to_decimal(coll.rating as u64);
                self.command = LongCommand::EditRating(id, coll, digits);
            }
            true
        } else if k == Key::Char('t') {
            if let FetchResult::Direct(Some(coll)) = app.fetch_collection_detail(id) {
                let initial = join_tags(&coll.tag);
                self.editing = Some(EditJob::Tags { id, detail: coll, initial });
                self.pending = Some(PendingUIEvent::Reset);
            }
            true
        } else if k == Key::Char('c') {
            if let FetchResult::Direct(Some(coll)) = app.fetch_collection_detail(id) {
                self.editing = Some(EditJob::Comment { id, detail: coll });
                self.pending = Some(PendingUIEvent::Reset);
            }
            true
        } else if k == Key::Down || k == Key::Char('j') || k == Key::Up || k == Key::Char('k') {
            let d: i16 = if k == Key::Down || k == Key::Char('j') { 1 } else { -1 };
            let mut tab = self.take_active();
            if let Tab::Subject { scroll, .. } = &mut tab {
                scroll.delta(d);
            }
            self.put_active(tab);
            true
        } else if k == Key::Esc {
            self.close_tab(self.tab);
            true
        } else {
            false
        }
    }

    /// Keys on a search result tab; says whether the key is bound there.
    fn result_key(&mut self, k: Key, app: &mut AppState) -> (bound: bool)
        requires
            old(self).wf(),
            old(self).tabs@.len() > 0,
            old(self).tabs@[old(self).tab as int] is SearchResult,
        ensures
            final(self).wf(),
            final(self).tabs@.len() >= old(self).tabs@.len(),
            !bound ==> *final(self) == *old(self),
            bound == (k == Key::Down || k == Key::Char('j') || k == Key::Up || k == Key::Char('k') || k == Key::Char('n') || k
                == Key::Char('N') || (old(self).tabs@[old(self).tab as int].get_focus_spec() is Some && (k == Key::Esc || k == Key::Char('\n')))),
    {
        let down = k == Key::Down || k == Key::Char('j');
        let up = k == Key::Up || k == Key::Char('k');
        let focused = self.active_tab().get_focus().is_some();
        if down || up || k == Key::Char('n') || k == Key::Char('N') || (focused && k == Key::Esc) {
            let mut tab = self.take_active();
            let mut into_view: Option<usize> = None;
            if let Tab::SearchResult { index, focus, .. } = &mut tab {
                if down {
                    focus.next();
                    into_view = focus.get();
                } else if up {
                    focus.prev();
                    into_view = focus.get();
                } else if k == Key::Char('n') {
                    *index = index.saturating_add(1);
                } else if k == Key::Char('N') {
                    if *index > 0 {
                        *index = *index - 1;
                    }
                } else {
                    focus.set(None);
                }
            }
            self.put_active(tab);
            if let Some(f) = into_view {
                self.pending = Some(PendingUIEvent::ScrollIntoView(f));
            }
            true
        } else if focused && k == Key::Char('\n') {
            let mut target: Option<u64> = None;
            if let Tab::SearchResult { search, index, focus, .. } = self.active_tab() {
                if let Some(f) = focus.get() {
                    if let FetchResult::Direct(result) = app.fetch_search(search.as_str(), *index) {
                        if f < result.list.len() {
                            target = Some(result.list[f].id);
                        }
                    }
                }
            }
            if let Some(id) = target {
                self.goto_detail(id);
            }
            true
        } else {
            false
        }
    }

    /// Keys bound on every tab; says whether the key is bound.
    fn global_key(&mut self, k: Key, app: &mut AppState) -> (bound: bool)
        requires
            old(self).wf(),
            old(self).tabs@.len() > 0,
        ensures
            final(self).wf(),
            !bound ==> *final(self) == *old(self),
            bound == (k == Key::Char('\t') || k == Key::Char('g') || k == Key::Char('G') || k == Key::Char('R') || k == Key::Char(':')
                || k == Key::Char('?') || k == Key::Char('h') || (old(self).help && (k == Key::Char('J') || k == Key::Char('K')))),
            k == Key::Char(':') ==> (bound && (final(self).command matches LongCommand::Command(s) && s@.len() == 0)),
            final(self).tabs@.len() == old(self).tabs@.len(),
            k == Key::Char('g') ==> bound && final(self).command is Graphical,
            (k == Key::Char('?') || k == Key::Char('h')) ==> bound && final(self).help == !old(self).help,
    {
        match k {
            Key::Char('\t') => {
                self.rotate_tab();
                true
            },
            Key::Char('g') => {
                self.command = LongCommand::Graphical;
                true
            },
            Key::Char('G') => {
                self.to_bottom();
                true
            },
            Key::Char('R') => {
                match self.active_tab() {
                    Tab::Collection => app.refresh_collection(),
                    Tab::Subject { id, .. } => {
                        app.refresh_subject(*id);
                        app.refresh_collection_detail(*id);
                    },
                    Tab::SearchResult { search, index, .. } => app.refresh_search(search.clone(), *index),
                    Tab::Search { .. } => {},
                }
                true
            },
            Key::Char(':') => {
                self.command = LongCommand::Command(String::new());
                true
            },
            Key::Char('?') | Key::Char('h') => {
                self.help = !self.help;
                true
            },
            Key::Char('J') => {
                if self.help {
                    self.help_scroll.delta(1);
                }
                self.help
            },
            Key::Char('K') => {
                if self.help {
                    self.help_scroll.delta(-1);
                }
                self.help
            },
            _ => false,
        }
    }

    /// An event with no long command in the way; says whether nothing was bound to it.
    fn dispatch(&mut self, ev: UIEvent, app: &mut AppState, now: u64) -> (unbound: bool)
        requires
            old(self).wf(),
            old(self).tabs@.len() > 0,
        ensures
            final(self).wf(),
            unbound ==> ev is Key,
            ev matches UIEvent::Key(k) ==> unbound == !key_bound(*old(self), k),
            tab_key_effects(*old(self), ev, *final(self), *old(app)),
            ev == UIEvent::Key(Key::Ctrl('q')) ==> final(self).pending == Some(PendingUIEvent::Quit),
            ev matches UIEvent::Mouse(MouseEvent::Press(b, x, y)) ==> final(self).pending == Some(
                PendingUIEvent::Click(dec1(x), dec1(y), b),
            ) && final(self).last_click == Some((x, y, now)),
            ev matches UIEvent::Mouse(MouseEvent::Hold(x, y)) ==> final(self).pending == Some(
                PendingUIEvent::Click(dec1(x), dec1(y), MouseButton::Left),
            ) && final(self).last_click is None && final(self).last_click_interval is None,
            old(self).tabs@[old(self).tab as int] is Collection && ev == UIEvent::Key(Key::Char('+')) ==> focused_step_effect(
                old(self).focus.focus, old(self).filters@, 1i64, *old(app), *final(app)),
            old(self).tabs@[old(self).tab as int] is Collection && ev == UIEvent::Key(Key::Char('-')) ==> focused_step_effect(
                old(self).focus.focus, old(self).filters@, -1i64, *old(app), *final(app)),
            ev == UIEvent::Key(Key::Char(':')) ==> (final(self).command matches LongCommand::Command(s) && s@.len() == 0),
            ev == UIEvent::Key(Key::Char('g')) ==> final(self).command is Graphical,
            (ev == UIEvent::Key(Key::Char('?')) || ev == UIEvent::Key(Key::Char('h'))) ==> final(self).help == !old(self).help,
            quit_if_empty(*final(self)),
            !(old(self).tabs@[old(self).tab as int] is Subject && ev == UIEvent::Key(Key::Esc)) ==> final(self).tabs@.len()
                >= old(self).tabs@.len(),
            ev matches UIEvent::Mouse(MouseEvent::Press(b, x, y)) ==> final(self).last_click_interval == match old(self).last_click {
                Some((ox, oy, t)) => if ox == x && oy == y {
                    Some(if now >= t { (now - t) as u64 } else { 0u64 })
                } else {
                    None
                },
                None => old(self).last_click_interval,
            },
    {
        let k = match ev {
            UIEvent::Mouse(m) => {
                match m {
                    MouseEvent::Press(btn, x, y) => {
                        self.pending = Some(PendingUIEvent::Click(x.saturating_sub(1), y.saturating_sub(1), btn));
                        self.update_click(x, y, now);
                    },
                    MouseEvent::Hold(x, y) => {
                        self.pending = Some(PendingUIEvent::Click(x.saturating_sub(1), y.saturating_sub(1), MouseButton::Left));
                        self.last_click_interval = None;
                        self.last_click = None;
                    },
                    MouseEvent::Release(_, _) => {},
                }
                return false;
            },
            UIEvent::Key(k) => k,
        };
        if k == Key::Ctrl('q') {
            self.pending = Some(PendingUIEvent::Quit);
            return false;
        }
        let down = k == Key::Down || k == Key::Char('j');
        let up = k == Key::Up || k == Key::Char('k');
        let t = self.tab;
        if self.tabs[t].is_collection() {
            if down || up {
                if down {
                    self.focus.next();
                } else {
                    self.focus.prev();
                }
                if let Some(f) = self.focus.get() {
                    self.pending = Some(PendingUIEvent::ScrollIntoView(f));
                }
                return false;
            }
            if k == Key::Char('t') {
                self.command = LongCommand::Toggle;
                return false;
            }
            if self.focus.get().is_some() {
                if k == Key::Char('+') {
                    self.step_focused(1, app);
                    return false;
                }
                if k == Key::Char('-') {
                    self.step_focused(-1, app);
                    return false;
                }
                if k == Key::Char('\n') {
                    self.open_focused(app);
                    return false;
                }
                if k == Key::Esc {
                    self.focus.set(None);
                    return false;
                }
            }
        } else if let Some(id) = self.tabs[t].subject_id() {
            if self.subject_key(id, k, app) {
                return false;
            }
        } else if self.tabs[t].is_search() {
            if k == Key::Char('\n') || k == Key::Char('e') {
                let mut text = String::new();
                if let Tab::Search { text: t0 } = self.active_tab() {
                    text = t0.clone();
                }
                if k == Key::Char('\n') && text.as_str().unicode_len() > 0 {
                    self.replace_tab(Tab::SearchResult {
                        search: text,
                        index: 0,
                        scroll: ScrollState::default(),
                        focus: FocusState::default(),
                    });
                } else if k == Key::Char('\n') {
                    self.command = LongCommand::SearchInput(String::new());
                } else {
                    self.command = LongCommand::SearchInput(text);
                }
                return false;
            }
        } else {
            if self.result_key(k, app) {
                return false;
            }
        }
        !self.global_key(k, app)
    }

    /// Feeds one input event to the interface. `now` is the time in milliseconds,
    /// used to tell double clicks.
    pub fn reduce(&mut self, ev: UIEvent, app: &mut AppState, now: u64)
        requires
            old(self).wf(),
            old(self).tabs@.len() > 0,
        ensures
            final(self).wf(),
            final(self).meaningless_count == if final(self).last_input_meaningless {
                if old(self).meaningless_count == usize::MAX { usize::MAX as int } else { old(self).meaningless_count + 1 }
            } else {
                0
            },
            final(self).last_input_meaningless == !event_bound(*old(self), ev),
            !(old(self).command is Absent) && ev == UIEvent::Key(Key::Esc) ==> *final(self) == (UIState {
                command: LongCommand::Absent,
                meaningless_count: 0,
                last_input_meaningless: false,
                ..*old(self)
            }) && *final(app) == *old(app),
            line_run(old(self).command, ev, *old(self), *final(self), *old(app), *final(app)),
            commits(old(self).command, ev, *old(self), *final(self), *old(app), *final(app)),
            old(self).command is Absent ==> tab_key_effects(*old(self), ev, *final(self), *old(app)),
            quit_if_empty(*final(self)),
            !closes_tab(*old(self), ev) ==> final(self).tabs@.len() >= old(self).tabs@.len(),
            ev matches UIEvent::Mouse(MouseEvent::Press(b, x, y)) ==> final(self).last_click_interval == match old(self).last_click {
                Some((ox, oy, t)) => if ox == x && oy == y {
                    Some(if now >= t { (now - t) as u64 } else { 0u64 })
                } else {
                    None
                },
                None => old(self).last_click_interval,
            },
            ev matches UIEvent::Mouse(MouseEvent::Hold(x, y)) ==> final(self).last_click_interval is None,
            old(self).command is Graphical && ev == UIEvent::Key(Key::Char('t')) ==> final(self).tab == (if old(self).tab
                == old(self).tabs@.len() - 1 { 0 } else { old(self).tab + 1 }) && final(self).pending == Some(
                PendingUIEvent::KBTabSelect,
            ) && final(self).command is Absent,
            long_command_effects(old(self).command, ev, final(self).command, *old(app), *final(app)),
            old(self).command is Absent && ev == UIEvent::Key(Key::Ctrl('q')) ==> final(self).pending == Some(PendingUIEvent::Quit),
            old(self).command is Absent && old(self).tabs@[old(self).tab as int] is Collection && ev == UIEvent::Key(Key::Char('+'))
                ==> focused_step_effect(old(self).focus.focus, old(self).filters@, 1i64, *old(app), *final(app)),
            old(self).command is Absent && old(self).tabs@[old(self).tab as int] is Collection && ev == UIEvent::Key(Key::Char('-'))
                ==> focused_step_effect(old(self).focus.focus, old(self).filters@, -1i64, *old(app), *final(app)),
            old(self).command is Absent && ev == UIEvent::Key(Key::Char(':')) ==> (final(self).command matches LongCommand::Command(s)
                && s@.len() == 0),
            old(self).command is Absent && ev == UIEvent::Key(Key::Char('g')) ==> final(self).command is Graphical,
            old(self).command is Absent && (ev == UIEvent::Key(Key::Char('?')) || ev == UIEvent::Key(Key::Char('h')))
                ==> final(self).help == !old(self).help,
            ev matches UIEvent::Mouse(MouseEvent::Press(b, x, y)) ==> final(self).pending == Some(
                PendingUIEvent::Click(dec1(x), dec1(y), b),
            ) && final(self).last_click == Some((x, y, now)),
            ev matches UIEvent::Mouse(MouseEvent::Hold(x, y)) ==> final(self).pending == Some(
                PendingUIEvent::Click(dec1(x), dec1(y), MouseButton::Left),
            ) && final(self).last_click is None,
    {
        let prev = self.meaningless_count;
        let mut unbound = false;
        if self.command.present() && ev == UIEvent::Key(Key::Esc) {
            self.command = LongCommand::Absent;
        } else {
            match ev {
                UIEvent::Key(k) if self.command.present() => {
                    self.long_command_key(k, app);
                },
                _ => {
                    unbound = self.dispatch(ev, app, now);
                },
            }
        }
        self.meaningless_count = if unbound { prev.saturating_add(1) } else { 0 };
        self.last_input_meaningless = unbound;
    }

    /// The outside editor finished the pending edit with `content` (`None` when it
    /// failed): new tags replace the old ones, a changed comment replaces the old one,
    /// and the record goes to the service.
    pub fn finish_edit(&mut self, content: Option<String>, app: &mut AppState)
        ensures
            final(self).editing is None,
            final(self).tabs == old(self).tabs,
            final(self).tab == old(self).tab,
            content is None ==> final(app).requests == old(app).requests,
            tags_sent(old(self).editing, content, *final(app)),
            comment_sent(old(self).editing, content, *old(app), *final(app)),
    {
        let mut job: Option<EditJob> = None;
        std::mem::swap(&mut job, &mut self.editing);
        let text = match content {
            Some(t) => t,
            None => { return; },
        };
        match job {
            Some(EditJob::Tags { id, detail, .. }) => {
                let nd = CollectionDetail { status: detail.status, rating: detail.rating, comment: detail.comment, tag: split_tags(text.as_str()) };
                app.update_collection_detail(id, detail.status, Some(nd));
            },
            Some(EditJob::Comment { id, detail }) => {
                if text != detail.comment {
                    let nd = CollectionDetail { status: detail.status, rating: detail.rating, comment: text, tag: detail.tag };
                    app.update_collection_detail(id, detail.status, Some(nd));
                    assert(app.requests@.drop_last() =~= old(app).requests@);
                }
            },
            None => {},
        }
    }
}

} // verus!
