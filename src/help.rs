use vstd::prelude::*;
use crate::style::{Color, Style};
use crate::text::CJKText;
use crate::ui::{Tab, UIState};

verus! {

/// When a help entry applies.
#[derive(Clone, Copy, Debug, PartialEq, Eq, Structural)]
pub enum HelpGate {
    Always,
    /// The help is open.
    HelpShown,
    /// The active tab is not a search tab.
    NotSearch,
    /// The collection tab is active.
    Collection,
    /// The collection tab is active with an entry selected.
    CollectionFocused,
    /// As above, with no long command active.
    CollectionFocusedIdle,
    /// A detail tab is active.
    Subject,
    /// As above, with no long command active.
    SubjectIdle,
    /// A search tab with no text is active.
    SearchEmpty,
    /// A search tab with text is active.
    SearchFilled,
    /// A search result tab is active.
    SearchResult,
    /// A long command is active.
    CommandActive,
}

/// One line of the help: the keys, what they do, and when the line shows.
pub struct HelpEntry {
    pub keys: Vec<&'static str>,
    pub desc: &'static str,
    pub gate: HelpGate,
}

/// Whether a line gated by `g` shows in state `ui`.
pub open spec fn gate_holds(g: HelpGate, ui: UIState) -> bool {
    let t = ui.tabs@[ui.tab as int];
    let idle = ui.command is Absent;
    match g {
        HelpGate::Always => true,
        HelpGate::HelpShown => ui.help,
        HelpGate::NotSearch => !(t is Search),
        HelpGate::Collection => t is Collection,
        HelpGate::CollectionFocused => t is Collection && ui.focus.focus is Some,
        HelpGate::CollectionFocusedIdle => t is Collection && ui.focus.focus is Some && idle,
        HelpGate::Subject => t is Subject,
        HelpGate::SubjectIdle => t is Subject && idle,
        HelpGate::SearchEmpty => t matches Tab::Search { text } && text@.len() == 0,
        HelpGate::SearchFilled => t matches Tab::Search { text } && text@.len() > 0,
        HelpGate::SearchResult => t is SearchResult,
        HelpGate::CommandActive => !idle,
    }
}

/// The runs of a help line: the keys in bold red separated by slashes, then the description.
pub open spec fn entry_runs(keys: Seq<&'static str>, desc: Seq<char>) -> Seq<(Seq<char>, Style)> {
    key_runs(keys) + seq![(": "@, Style::plain_spec()), (desc, Style::plain_spec())]
}

/// The runs of the keys of a help line.
pub open spec fn key_runs(keys: Seq<&'static str>) -> Seq<(Seq<char>, Style)>
    decreases keys.len(),
{
    if keys.len() == 0 {
        seq![]
    } else if keys.len() == 1 {
        seq![(keys[0]@, Style { fg: Some(Color::Red), bold: true })]
    } else {
        key_runs(keys.drop_last()) + seq![(" / "@, Style::plain_spec()), (keys.last()@, Style { fg: Some(Color::Red), bold: true })]
    }
}

impl HelpEntry {
    /// Whether the line shows in state `ui`.
    pub fn pred(&self, ui: &UIState) -> (r: bool)
        requires
            ui.wf(),
            ui.tabs@.len() > 0,
        ensures
            r == gate_holds(self.gate, *ui),
    {
        let t = ui.active_tab();
        let idle = !ui.command.present();
        match self.gate {
            HelpGate::Always => true,
            HelpGate::HelpShown => ui.help,
            HelpGate::NotSearch => !t.is_search(),
            HelpGate::Collection => t.is_collection(),
            HelpGate::CollectionFocused => t.is_collection() && ui.focus.get().is_some(),
            HelpGate::CollectionFocusedIdle => t.is_collection() && ui.focus.get().is_some() && idle,
            HelpGate::Subject => t.is_subject(),
            HelpGate::SubjectIdle => t.is_subject() && idle,
            HelpGate::SearchEmpty => match t {
                Tab::Search { text } => text.as_str().unicode_len() == 0,
                _ => false,
            },
            HelpGate::SearchFilled => match t {
                Tab::Search { text } => text.as_str().unicode_len() > 0,
                _ => false,
            },
            HelpGate::SearchResult => t.is_search_result(),
            HelpGate::CommandActive => !idle,
        }
    }

    /// The line as styled text.
    pub fn text(&self) -> (r: CJKText)
        ensures
            r.holds_runs(entry_runs(self.keys@, self.desc@)),
    {
        let mut runs: Vec<(String, Style)> = Vec::new();
        let mut i: usize = 0;
        while i < self.keys.len()
            invariant
                0 <= i <= self.keys@.len(),
                runs@.map_values(|p: (String, Style)| (p.0@, p.1)) == key_runs(self.keys@.take(i as int)),
            decreases self.keys@.len() - i,
        {
            let ghost before = runs@.map_values(|p: (String, Style)| (p.0@, p.1));
            assert(self.keys@.take(i + 1).drop_last() =~= self.keys@.take(i as int));
            if i != 0 {
                runs.push((String::from_str(" / "), Style::plain()));
            }
            runs.push((String::from_str(self.keys[i]), Style::plain().fg(Color::Red).bolded()));
            proof {
                if i == 0 {
                    assert(runs@.map_values(|p: (String, Style)| (p.0@, p.1)) =~= key_runs(self.keys@.take(1)));
                } else {
                    assert(runs@.map_values(|p: (String, Style)| (p.0@, p.1)) =~= key_runs(self.keys@.take(i + 1)));
                }
            }
            i = i + 1;
        }
        assert(self.keys@.take(self.keys@.len() as int) =~= self.keys@);
        let ghost ks = runs@.map_values(|p: (String, Style)| (p.0@, p.1));
        runs.push((String::from_str(": "), Style::plain()));
        runs.push((String::from_str(self.desc), Style::plain()));
        assert(runs@.map_values(|p: (String, Style)| (p.0@, p.1)) =~= entry_runs(self.keys@, self.desc@));
        CJKText::raw(runs)
    }
}

fn entry(keys: &[&'static str], desc: &'static str, gate: HelpGate) -> (r: HelpEntry)
    ensures
        r.keys@ == keys@,
        r.desc == desc,
        r.gate == gate,
{
    let mut v: Vec<&'static str> = Vec::new();
    let mut i: usize = 0;
    while i < keys.len()
        invariant
            0 <= i <= keys@.len(),
            v@ == keys@.take(i as int),
        decreases keys@.len() - i,
    {
        v.push(keys[i]);
        i = i + 1;
        assert(v@ =~= keys@.take(i as int));
    }
    assert(keys@.take(keys@.len() as int) =~= keys@);
    HelpEntry { keys: v, desc, gate }
}

/// Every help line, in the order shown.
#[verifier::rlimit(50)]
pub fn help_database() -> (r: Vec<HelpEntry>)
    ensures
        r@.len() == 32,
        r@[0].gate == HelpGate::Always && r@[0].desc@ == "康帮助"@ && r@[0].keys@.len() == 3,
        r@[1].gate == HelpGate::HelpShown && r@[1].desc@ == "向上滚动帮助"@ && r@[1].keys@.len() == 1,
        r@[2].gate == HelpGate::HelpShown && r@[2].desc@ == "向下滚动帮助"@ && r@[2].keys@.len() == 1,
        r@[3].gate == HelpGate::Always && r@[3].desc@ == "Rage quit"@ && r@[3].keys@.len() == 2,
        r@[4].gate == HelpGate::NotSearch && r@[4].desc@ == "刷新"@ && r@[4].keys@.len() == 1,
        r@[5].gate == HelpGate::Collection && r@[5].desc@ == "选择上一个"@ && r@[5].keys@.len() == 2,
        r@[6].gate == HelpGate::Collection && r@[6].desc@ == "选择下一个"@ && r@[6].keys@.len() == 2,
        r@[7].gate == HelpGate::Collection && r@[7].desc@ == "切换第 i 个过滤选项"@ && r@[7].keys@.len() == 1,
        r@[8].gate == HelpGate::CollectionFocused && r@[8].desc@ == "增加进度"@ && r@[8].keys@.len() == 1,
        r@[9].gate == HelpGate::CollectionFocused && r@[9].desc@ == "减少进度"@ && r@[9].keys@.len() == 1,
        r@[10].gate == HelpGate::CollectionFocused && r@[10].desc@ == "详情/编辑"@ && r@[10].keys@.len() == 1,
        r@[11].gate == HelpGate::CollectionFocusedIdle && r@[11].desc@ == "取消选择"@ && r@[11].keys@.len() == 1,
        r@[12].gate == HelpGate::Subject && r@[12].desc@ == "修改收藏状态"@ && r@[12].keys@.len() == 1,
        r@[13].gate == HelpGate::Subject && r@[13].desc@ == "修改评分"@ && r@[13].keys@.len() == 1,
        r@[14].gate == HelpGate::Subject && r@[14].desc@ == "修改标签"@ && r@[14].keys@.len() == 1,
        r@[15].gate == HelpGate::Subject && r@[15].desc@ == "修改评论"@ && r@[15].keys@.len() == 1,
        r@[16].gate == HelpGate::SubjectIdle && r@[16].desc@ == "也可以关闭标签"@ && r@[16].keys@.len() == 1,
        r@[17].gate == HelpGate::SearchEmpty && r@[17].desc@ == "修改搜索文字"@ && r@[17].keys@.len() == 2,
        r@[18].gate == HelpGate::SearchFilled && r@[18].desc@ == "修改搜索文字"@ && r@[18].keys@.len() == 1,
        r@[19].gate == HelpGate::SearchFilled && r@[19].desc@ == "搜索"@ && r@[19].keys@.len() == 1,
        r@[20].gate == HelpGate::SearchResult && r@[20].desc@ == "下一页"@ && r@[20].keys@.len() == 1,
        r@[21].gate == HelpGate::SearchResult && r@[21].desc@ == "上一页"@ && r@[21].keys@.len() == 1,
        r@[22].gate == HelpGate::SearchResult && r@[22].desc@ == "选择上一个"@ && r@[22].keys@.len() == 2,
        r@[23].gate == HelpGate::SearchResult && r@[23].desc@ == "选择下一个"@ && r@[23].keys@.len() == 2,
        r@[24].gate == HelpGate::CommandActive && r@[24].desc@ == "取消命令"@ && r@[24].keys@.len() == 1,
        r@[25].gate == HelpGate::Always && r@[25].desc@ == "下一个 Tab"@ && r@[25].keys@.len() == 2,
        r@[26].gate == HelpGate::Always && r@[26].desc@ == "上一个 Tab"@ && r@[26].keys@.len() == 1,
        r@[27].gate == HelpGate::NotSearch && r@[27].desc@ == "滚动至顶"@ && r@[27].keys@.len() == 1,
        r@[28].gate == HelpGate::NotSearch && r@[28].desc@ == "滚动至底"@ && r@[28].keys@.len() == 1,
        r@[29].gate == HelpGate::Always && r@[29].desc@ == "打开格子/搜索 Tab"@ && r@[29].keys@.len() == 1,
        r@[30].gate == HelpGate::Always && r@[30].desc@ == "移动 Tab"@ && r@[30].keys@.len() == 1,
        r@[31].gate == HelpGate::Always && r@[31].desc@ == "关闭 Tab"@ && r@[31].keys@.len() == 1,
{
    let mut db: Vec<HelpEntry> = Vec::new();
    db.push(entry(&["?", "h", ":help"], "康帮助", HelpGate::Always));
    db.push(entry(&["K"], "向上滚动帮助", HelpGate::HelpShown));
    db.push(entry(&["J"], "向下滚动帮助", HelpGate::HelpShown));
    db.push(entry(&[":qa", "C-q"], "Rage quit", HelpGate::Always));
    db.push(entry(&["R"], "刷新", HelpGate::NotSearch));
    db.push(entry(&["k", "Up"], "选择上一个", HelpGate::Collection));
    db.push(entry(&["j", "Down"], "选择下一个", HelpGate::Collection));
    db.push(entry(&["t<i>"], "切换第 i 个过滤选项", HelpGate::Collection));
    db.push(entry(&["+"], "增加进度", HelpGate::CollectionFocused));
    db.push(entry(&["-"], "减少进度", HelpGate::CollectionFocused));
    db.push(entry(&["Enter"], "详情/编辑", HelpGate::CollectionFocused));
    db.push(entry(&["Esc"], "取消选择", HelpGate::CollectionFocusedIdle));
    db.push(entry(&["s"], "修改收藏状态", HelpGate::Subject));
    db.push(entry(&["r"], "修改评分", HelpGate::Subject));
    db.push(entry(&["t"], "修改标签", HelpGate::Subject));
    db.push(entry(&["c"], "修改评论", HelpGate::Subject));
    db.push(entry(&["Esc"], "也可以关闭标签", HelpGate::SubjectIdle));
    db.push(entry(&["e", "Enter"], "修改搜索文字", HelpGate::SearchEmpty));
    db.push(entry(&["e"], "修改搜索文字", HelpGate::SearchFilled));
    db.push(entry(&["Enter"], "搜索", HelpGate::SearchFilled));
    db.push(entry(&["n"], "下一页", HelpGate::SearchResult));
    db.push(entry(&["N"], "上一页", HelpGate::SearchResult));
    db.push(entry(&["k", "Up"], "选择上一个", HelpGate::SearchResult));
    db.push(entry(&["j", "Down"], "选择下一个", HelpGate::SearchResult));
    db.push(entry(&["Esc"], "取消命令", HelpGate::CommandActive));
    db.push(entry(&["gt", "Tab"], "下一个 Tab", HelpGate::Always));
    db.push(entry(&["gT"], "上一个 Tab", HelpGate::Always));
    db.push(entry(&["gg"], "滚动至顶", HelpGate::NotSearch));
    db.push(entry(&["G"], "滚动至底", HelpGate::NotSearch));
    db.push(entry(&[":tabe <coll|search>"], "打开格子/搜索 Tab", HelpGate::Always));
    db.push(entry(&[":tabm <n>"], "移动 Tab", HelpGate::Always));
    db.push(entry(&[":q"], "关闭 Tab", HelpGate::Always));
    db
}

} // verus!
