use bgmtty::cache::{AppState, FetchResult, InnerState, Request};
use bgmtty::fmt::{parse_u8, parse_usize, to_decimal};
use bgmtty::input::{Key, MouseButton, MouseEvent, UIEvent};
use bgmtty::model::{CollectionDetail, CollectionEntry, CollectionStatus, SubjectSmall, SubjectType};
use bgmtty::reducer::{committed_rating, join_tags, parse_command, split_tags, CommandLine};
use bgmtty::ui::{LongCommand, PendingUIEvent, Tab, UIState};

fn subject(id: u64, kind: SubjectType, eps: Option<u64>) -> SubjectSmall {
    SubjectSmall {
        id,
        air_date: String::new(),
        air_weekday: 0,
        name: format!("name {}", id),
        name_cn: format!("名 {}", id),
        summary: String::new(),
        subject_type: kind,
        url: String::new(),
        vols_count: Some(3),
        eps_count: eps,
    }
}

fn entry(id: u64, kind: SubjectType, eps: Option<u64>, ep_status: u64) -> CollectionEntry {
    CollectionEntry { ep_status, vol_status: 1, lasttouch: 0, subject: subject(id, kind, eps) }
}

fn detail(rating: u8) -> CollectionDetail {
    CollectionDetail { status: CollectionStatus::Doing, rating, comment: "ok".to_string(), tag: vec!["a".to_string()] }
}

fn key(c: char) -> UIEvent {
    UIEvent::Key(Key::Char(c))
}

fn app_with_collection(entries: Vec<CollectionEntry>) -> AppState {
    let mut app = AppState::create();
    assert!(matches!(app.fetch_collection(), FetchResult::Deferred));
    let ticket = match app.requests.last() {
        Some(Request::Collection { ticket }) => *ticket,
        _ => panic!("no collection request"),
    };
    app.complete_collection(ticket, entries);
    app
}

#[test]
fn subject_fetch_is_deferred_until_its_answer() {
    let mut app = AppState::create();
    assert!(matches!(app.fetch_subject(9), FetchResult::Deferred));
    assert!(matches!(app.fetch_subject(9), FetchResult::Deferred));
    assert_eq!(app.requests.len(), 1);
    let ticket = match &app.requests[0] {
        Request::Subject { id, ticket } => {
            assert_eq!(*id, 9);
            *ticket
        },
        _ => panic!("wrong request"),
    };
    app.complete_subject(9, ticket, subject(9, SubjectType::Anime, Some(12)));
    let a = match app.fetch_subject(9) {
        FetchResult::Direct(s) => s,
        FetchResult::Deferred => panic!("still deferred"),
    };
    let b = match app.fetch_subject(9) {
        FetchResult::Direct(s) => s,
        FetchResult::Deferred => panic!("still deferred"),
    };
    assert_eq!(a.id, 9);
    assert_eq!(a.name, b.name);
    assert_eq!(a.eps_count, b.eps_count);
    assert_eq!(app.requests.len(), 1);
    assert_eq!(app.last_message(), "条目加载完成！");
}

#[test]
fn stale_answers_do_not_overwrite_newer_requests() {
    let mut app = AppState::create();
    app.fetch_subject(5);
    let first = app.next_ticket - 1;
    app.fail_subject(5, first, "timeout");
    assert_eq!(app.last_message(), "请求失败！timeout");
    app.fetch_subject(5);
    let second = app.next_ticket - 1;
    assert_ne!(first, second);
    app.complete_subject(5, first, subject(5, SubjectType::Book, None));
    assert!(matches!(app.subject.get(&5), Some(InnerState::Fetching(t)) if *t == second));
    assert!(matches!(app.fetch_subject(5), FetchResult::Deferred));
    app.complete_subject(5, second, subject(5, SubjectType::Book, None));
    assert!(matches!(app.fetch_subject(5), FetchResult::Direct(_)));
    app.refresh_subject(5);
    assert!(matches!(app.fetch_subject(5), FetchResult::Deferred));
    assert_eq!(app.requests.len(), 3);
}

#[test]
fn search_pages_fill_in_their_subjects() {
    let mut app = AppState::create();
    assert!(matches!(app.fetch_search("cat", 0), FetchResult::Deferred));
    assert!(matches!(app.fetch_search("cat", 0), FetchResult::Deferred));
    let ticket = app.next_ticket - 1;
    app.complete_search("cat", 0, ticket, 2, vec![subject(1, SubjectType::Anime, None), subject(2, SubjectType::Game, None)]);
    match app.fetch_search("cat", 0) {
        FetchResult::Direct(r) => {
            assert_eq!(r.count, 2);
            assert_eq!(r.list.len(), 2);
            assert_eq!(r.list[1].id, 2);
        },
        FetchResult::Deferred => panic!("deferred"),
    }
    assert!(matches!(app.fetch_subject(1), FetchResult::Direct(_)));
    assert!(matches!(app.fetch_search("cat", 1), FetchResult::Deferred));
    app.refresh_subject(2);
    assert!(matches!(app.fetch_search("cat", 0), FetchResult::Deferred));
    assert_eq!(app.requests.len(), 2);
}

#[test]
fn plus_steps_episode_progress_within_the_total() {
    let mut app = app_with_collection(vec![entry(7, SubjectType::Anime, Some(12), 5)]);
    let mut ui = UIState::with();
    ui.focus.set_limit(1);
    ui.focus.set(Some(0));
    ui.reduce(key('+'), &mut app, 0);
    match app.requests.last() {
        Some(Request::UpdateProgress { entry, ep, vol }) => {
            assert_eq!(entry.subject.id, 7);
            assert_eq!(*ep, Some(6));
            assert_eq!(*vol, None);
        },
        _ => panic!("no progress update"),
    }
    let mut app = app_with_collection(vec![entry(7, SubjectType::Anime, Some(12), 12)]);
    ui.reduce(key('+'), &mut app, 0);
    assert!(matches!(app.requests.last(), Some(Request::UpdateProgress { ep: Some(12), vol: None, .. })));
    assert!(matches!(app.collection, InnerState::Discarded));
    let n = app.requests.len();
    ui.reduce(key('-'), &mut app, 0);
    assert_eq!(app.requests.len(), n + 1);
    assert!(matches!(app.requests.last(), Some(Request::Collection { .. })));
    let mut app = app_with_collection(vec![entry(7, SubjectType::Anime, Some(12), 12)]);
    ui.reduce(key('-'), &mut app, 0);
    assert!(matches!(app.requests.last(), Some(Request::UpdateProgress { ep: Some(11), vol: None, .. })));
}

#[test]
fn books_step_volumes() {
    let mut app = app_with_collection(vec![entry(8, SubjectType::Book, None, 0)]);
    let mut ui = UIState::with();
    ui.focus.set_limit(1);
    ui.focus.set(Some(0));
    ui.reduce(key('+'), &mut app, 0);
    assert!(matches!(app.requests.last(), Some(Request::UpdateProgress { ep: None, vol: Some(2), .. })));
}

#[test]
fn rating_editor_commits_capped_rating() {
    let mut app = AppState::create();
    let mut ui = UIState::with();
    ui.command = LongCommand::EditRating(42, detail(3), "7".to_string());
    ui.reduce(key('5'), &mut app, 0);
    match &ui.command {
        LongCommand::EditRating(_, _, d) => assert_eq!(d, "75"),
        _ => panic!("editor closed"),
    }
    ui.reduce(key('\n'), &mut app, 0);
    assert!(matches!(ui.command, LongCommand::Absent));
    match app.requests.last() {
        Some(Request::UpdateCollectionDetail { id, status, detail: Some(d) }) => {
            assert_eq!(*id, 42);
            assert_eq!(*status, CollectionStatus::Doing);
            assert_eq!(d.rating, 10);
            assert_eq!(d.comment, "ok");
        },
        _ => panic!("no update"),
    }
}

#[test]
fn rating_editor_rejects_bad_digits() {
    let mut app = AppState::create();
    let mut ui = UIState::with();
    ui.command = LongCommand::EditRating(42, detail(3), String::new());
    ui.reduce(key('\n'), &mut app, 0);
    assert!(matches!(ui.command, LongCommand::Absent));
    assert_eq!(app.requests.len(), 0);
    assert_eq!(app.messages.len(), 2);
    ui.command = LongCommand::EditRating(42, detail(3), "0".to_string());
    ui.reduce(key('3'), &mut app, 0);
    ui.reduce(key('\n'), &mut app, 0);
    assert_eq!(app.requests.len(), 0);
    assert_eq!(committed_rating(&"0".to_string()), Some(0));
    assert_eq!(committed_rating(&"999".to_string()), None);
}

#[test]
fn detail_tab_is_reused() {
    let mut ui = UIState::with();
    ui.goto_detail(42);
    let first = ui.tab;
    assert_eq!(first, 1);
    assert_eq!(ui.tabs.len(), 3);
    ui.tab = 0;
    ui.goto_detail(42);
    assert_eq!(ui.tab, first);
    assert_eq!(ui.tabs.len(), 3);
    assert_eq!(ui.tabs[1].subject_id(), Some(42));
}

#[test]
fn escape_cancels_a_long_command() {
    let mut app = AppState::create();
    let mut ui = UIState::with();
    ui.reduce(key(':'), &mut app, 0);
    ui.reduce(key('q'), &mut app, 0);
    match &ui.command {
        LongCommand::Command(s) => assert_eq!(s, "q"),
        _ => panic!("no command line"),
    }
    ui.reduce(UIEvent::Key(Key::Esc), &mut app, 0);
    assert!(matches!(ui.command, LongCommand::Absent));
    assert_eq!(ui.tabs.len(), 2);
}

#[test]
fn command_line_grammar() {
    assert!(matches!(parse_command(&"qa".to_string()), CommandLine::QuitAll));
    assert!(matches!(parse_command(&"q".to_string()), CommandLine::Close));
    assert!(matches!(parse_command(&"help".to_string()), CommandLine::Help));
    assert!(matches!(parse_command(&"tabe search".to_string()), CommandLine::OpenSearch));
    assert!(matches!(parse_command(&"tabe coll".to_string()), CommandLine::OpenCollection));
    assert!(matches!(parse_command(&"tabm 3".to_string()), CommandLine::MoveTab(3)));
    assert!(matches!(parse_command(&"tabm x".to_string()), CommandLine::BadPosition(_)));
    assert!(matches!(parse_command(&"nope".to_string()), CommandLine::Unknown));
}

#[test]
fn command_line_runs_commands() {
    let mut app = AppState::create();
    let mut ui = UIState::with();
    for c in ":tabe coll\n".chars() {
        ui.reduce(key(c), &mut app, 0);
    }
    assert_eq!(ui.tabs.len(), 3);
    assert_eq!(ui.tab, 1);
    for c in ":tabm 0\n".chars() {
        ui.reduce(key(c), &mut app, 0);
    }
    assert_eq!(ui.tab, 0);
    assert_eq!(ui.pending, Some(PendingUIEvent::KBTabSelect));
    for c in ":bogus\n".chars() {
        ui.reduce(key(c), &mut app, 0);
    }
    assert_eq!(app.last_message(), "是不认识的命令!");
    for c in ":q\n:q\n:q\n".chars() {
        ui.reduce(key(c), &mut app, 0);
        if ui.tabs.is_empty() {
            break;
        }
    }
    assert!(ui.tabs.is_empty());
    assert_eq!(ui.pending, Some(PendingUIEvent::Quit));
}

#[test]
fn unbound_keys_lead_to_the_help_hint() {
    let mut app = AppState::create();
    let mut ui = UIState::with();
    for _ in 0..2 {
        ui.reduce(key('z'), &mut app, 0);
    }
    assert!(!ui.needs_help());
    ui.reduce(key('z'), &mut app, 0);
    assert!(ui.needs_help());
    ui.reduce(key('?'), &mut app, 0);
    assert!(ui.help);
    assert!(!ui.needs_help());
    ui.reduce(key('?'), &mut app, 0);
    assert!(!ui.needs_help());
}

#[test]
fn clicks_are_pending_and_doubles_detected() {
    let mut app = AppState::create();
    let mut ui = UIState::with();
    ui.reduce(UIEvent::Mouse(MouseEvent::Press(MouseButton::Left, 3, 4)), &mut app, 1000);
    assert_eq!(ui.pending, Some(PendingUIEvent::Click(2, 3, MouseButton::Left)));
    assert!(!ui.is_double_click());
    ui.reduce(UIEvent::Mouse(MouseEvent::Press(MouseButton::Left, 3, 4)), &mut app, 1200);
    assert!(ui.is_double_click());
    ui.reduce(UIEvent::Mouse(MouseEvent::Press(MouseButton::Left, 3, 4)), &mut app, 1600);
    assert!(!ui.is_double_click());
    ui.reduce(UIEvent::Mouse(MouseEvent::Hold(1, 1)), &mut app, 1700);
    assert_eq!(ui.pending, Some(PendingUIEvent::Click(0, 0, MouseButton::Left)));
    assert!(!ui.is_double_click());
    assert!(ui.clear_pending());
    assert!(!ui.clear_pending());
}

#[test]
fn search_tab_flow() {
    let mut app = AppState::create();
    let mut ui = UIState::with();
    ui.reduce(key('\t'), &mut app, 0);
    assert_eq!(ui.tab, 1);
    ui.reduce(key('\n'), &mut app, 0);
    assert!(matches!(ui.command, LongCommand::SearchInput(_)));
    for c in "cat\n".chars() {
        ui.reduce(key(c), &mut app, 0);
    }
    match &ui.tabs[1] {
        Tab::Search { text } => assert_eq!(text, "cat"),
        _ => panic!("not a search tab"),
    }
    ui.reduce(key('\n'), &mut app, 0);
    assert!(matches!(&ui.tabs[1], Tab::SearchResult { index: 0, .. }));
    ui.reduce(key('n'), &mut app, 0);
    assert_eq!(ui.tabs[1].disp(), "搜索: cat / 2");
}

#[test]
fn filters_toggle_and_keep_focus() {
    let entries = vec![
        entry(1, SubjectType::Anime, None, 0),
        entry(2, SubjectType::Book, None, 0),
        entry(3, SubjectType::Anime, None, 0),
    ];
    let mut ui = UIState::with();
    ui.focus.set_limit(3);
    ui.focus.set(Some(2));
    let coll = Some(entries);
    ui.toggle_filter(1, &coll);
    assert_eq!(ui.filters, [true, false, true]);
    assert_eq!(ui.focus.get(), Some(1));
    assert_eq!(ui.do_filter(&coll).len(), 2);
    ui.toggle_filter(7, &coll);
    assert_eq!(ui.filters, [true, false, true]);
}

#[test]
fn progress_steps_saturate() {
    let e = entry(1, SubjectType::Anime, Some(12), 5);
    assert_eq!(e.step_ep(1), 6);
    assert_eq!(e.step_ep(100), 12);
    assert_eq!(e.step_ep(-9), 0);
    assert_eq!(e.step_vol(1), 2);
    assert_eq!(e.step_vol(9), 3);
    let open = entry(1, SubjectType::Anime, None, u64::MAX);
    assert_eq!(open.step_ep(1), u64::MAX);
    assert_eq!(open.step_ep(i64::MIN), u64::MAX - 9223372036854775808);
}

#[test]
fn numbers_parse_like_std() {
    assert_eq!(parse_usize("+5"), Some(5));
    assert_eq!(parse_usize("0042"), Some(42));
    assert_eq!(parse_usize(""), None);
    assert_eq!(parse_usize("+"), None);
    assert_eq!(parse_usize("-1"), None);
    assert_eq!(parse_usize("1 "), None);
    assert_eq!(parse_usize("18446744073709551616"), None);
    assert_eq!(parse_usize("18446744073709551615"), Some(usize::MAX));
    assert_eq!(parse_u8("255"), Some(255));
    assert_eq!(parse_u8("256"), None);
    assert_eq!(to_decimal(0), "0");
    assert_eq!(to_decimal(1234567890123), "1234567890123");
}

#[test]
fn tags_round_trip_through_lines() {
    let tags = vec!["a".to_string(), "b c".to_string()];
    assert_eq!(join_tags(&tags), "a\nb c");
    assert_eq!(split_tags("a\r\n\nb c\n"), vec!["a".to_string(), "b c".to_string()]);
    assert_eq!(split_tags(""), Vec::<String>::new());
    assert_eq!(split_tags(&join_tags(&tags)), tags);
}

#[test]
fn tab_titles_and_prompts() {
    assert_eq!(Tab::Collection.disp(), "格子");
    assert_eq!(Tab::Subject { id: 42, scroll: bgmtty::focus::ScrollState::default() }.disp(), "条目: 42");
    assert_eq!(LongCommand::Command("tabm".to_string()).prompt(), Some(":tabm".to_string()));
    assert_eq!(LongCommand::EditStatus(1, None, CollectionStatus::Done).prompt(), Some("状态: 完成！ [Tab]".to_string()));
    assert_eq!(LongCommand::Absent.prompt(), None);
    assert_eq!(CollectionStatus::Wished.rotate(), CollectionStatus::Doing);
    assert_eq!(CollectionStatus::OnHold.id(), "on_hold");
    assert_eq!(SubjectType::from_code(6), Some(SubjectType::Real));
    assert_eq!(SubjectType::from_code(5), None);
}

#[test]
fn status_editor_cycles_and_sends() {
    let mut app = AppState::create();
    let mut ui = UIState::with();
    ui.command = LongCommand::EditStatus(9, None, CollectionStatus::Doing);
    ui.reduce(key('\t'), &mut app, 0);
    ui.reduce(key('\n'), &mut app, 0);
    assert!(matches!(app.requests.last(), Some(Request::UpdateCollectionDetail { id: 9, status: CollectionStatus::Done, detail: None })));
}

#[test]
fn edited_tags_are_sent() {
    let mut app = AppState::create();
    let mut ui = UIState::with();
    ui.goto_detail(4);
    app.fetch_collection_detail(4);
    let t = app.next_ticket - 1;
    app.complete_collection_detail(4, t, Some(detail(6)));
    ui.reduce(key('t'), &mut app, 0);
    assert_eq!(ui.pending, Some(PendingUIEvent::Reset));
    ui.finish_edit(Some("x\ny\n".to_string()), &mut app);
    match app.requests.last() {
        Some(Request::UpdateCollectionDetail { id: 4, detail: Some(d), .. }) => assert_eq!(d.tag, vec!["x".to_string(), "y".to_string()]),
        _ => panic!("no update"),
    }
}

#[test]
fn command_line_backspace_closes_when_empty() {
    let mut app = AppState::create();
    let mut ui = UIState::with();
    for c in ":ab".chars() {
        ui.reduce(key(c), &mut app, 0);
    }
    ui.reduce(UIEvent::Key(Key::Backspace), &mut app, 0);
    match &ui.command {
        LongCommand::Command(s) => assert_eq!(s, "a"),
        _ => panic!("command line closed"),
    }
    ui.reduce(UIEvent::Key(Key::Backspace), &mut app, 0);
    assert!(matches!(&ui.command, LongCommand::Command(s) if s.is_empty()));
    ui.reduce(UIEvent::Key(Key::Backspace), &mut app, 0);
    assert!(matches!(ui.command, LongCommand::Absent));
}

#[test]
fn graphical_prefix_moves_between_tabs_and_to_top() {
    let mut app = AppState::create();
    let mut ui = UIState::with();
    ui.reduce(key('g'), &mut app, 0);
    ui.reduce(key('t'), &mut app, 0);
    assert_eq!(ui.tab, 1);
    assert_eq!(ui.pending, Some(PendingUIEvent::KBTabSelect));
    ui.reduce(key('g'), &mut app, 0);
    ui.reduce(key('T'), &mut app, 0);
    assert_eq!(ui.tab, 0);
    ui.scroll.set(7);
    ui.focus.set_limit(4);
    ui.reduce(key('G'), &mut app, 0);
    assert_eq!(ui.focus.get(), Some(3));
    ui.reduce(key('g'), &mut app, 0);
    ui.reduce(key('g'), &mut app, 0);
    assert_eq!(ui.scroll.get(), 0);
    assert_eq!(ui.focus.get(), Some(0));
}

#[test]
fn search_page_ranges() {
    assert_eq!(bgmtty::cache::page_range(25, 0), (1, 10));
    assert_eq!(bgmtty::cache::page_range(25, 2), (21, 25));
    assert_eq!(bgmtty::cache::page_range(20, 1), (11, 20));
    assert_eq!(bgmtty::cache::page_range(0, 0), (1, 0));
}

#[test]
fn counts_per_filter_kind() {
    let entries = vec![
        entry(1, SubjectType::Anime, None, 0),
        entry(2, SubjectType::Book, None, 0),
        entry(3, SubjectType::Anime, None, 0),
        entry(4, SubjectType::Music, None, 0),
    ];
    assert_eq!(bgmtty::ui::filter_counts(&entries), vec![2, 1, 0]);
}

#[test]
fn updates_discard_cached_records_at_once() {
    let mut app = AppState::create();
    app.fetch_collection_detail(4);
    let t = app.next_ticket - 1;
    app.complete_collection_detail(4, t, Some(detail(6)));
    assert!(matches!(app.fetch_collection_detail(4), FetchResult::Direct(Some(_))));
    app.update_collection_detail(4, CollectionStatus::Done, Some(detail(7)));
    assert!(matches!(app.collection_detail.get(&4), Some(InnerState::Discarded)));
    assert!(matches!(app.fetch_collection_detail(4), FetchResult::Deferred));
    app.complete_collection_detail_update(4, detail(7));
    match app.fetch_collection_detail(4) {
        FetchResult::Direct(Some(d)) => assert_eq!(d.rating, 7),
        _ => panic!("not cached"),
    }
}

#[test]
fn unknown_and_help_commands() {
    let mut app = AppState::create();
    let mut ui = UIState::with();
    for c in ":help\n".chars() {
        ui.reduce(key(c), &mut app, 0);
    }
    assert!(ui.help);
    assert!(matches!(ui.command, LongCommand::Absent));
    let n = app.messages.len();
    for c in ":tabm x\n".chars() {
        ui.reduce(key(c), &mut app, 0);
    }
    assert_eq!(app.messages.len(), n + 1);
    assert_eq!(app.last_message(), "x 是不认识的数字!");
    assert_eq!(ui.tabs.len(), 2);
}

#[test]
fn comment_edits_are_sent_only_when_changed() {
    let mut app = AppState::create();
    let mut ui = UIState::with();
    ui.goto_detail(4);
    app.fetch_collection_detail(4);
    let t = app.next_ticket - 1;
    app.complete_collection_detail(4, t, Some(detail(6)));
    ui.reduce(key('c'), &mut app, 0);
    let n = app.requests.len();
    ui.finish_edit(Some("ok".to_string()), &mut app);
    assert_eq!(app.requests.len(), n);
    app.complete_collection_detail_update(4, detail(6));
    ui.reduce(key('c'), &mut app, 0);
    ui.finish_edit(Some("great".to_string()), &mut app);
    match app.requests.last() {
        Some(Request::UpdateCollectionDetail { id: 4, detail: Some(d), .. }) => assert_eq!(d.comment, "great"),
        _ => panic!("no update"),
    }
}

#[test]
fn paint_draws_the_frame_and_reads_the_cache() {
    let mut app = AppState::create();
    let mut ui = UIState::with();
    let size = bgmtty::geometry::Rect::new(0, 0, 60, 12);
    let buf = bgmtty::render::paint(&mut ui, &mut app, size, false);
    assert_eq!(buf.get(1, 0).symbol, "b");
    assert_eq!(buf.get(0, 0).symbol, "┌");
    assert_eq!(buf.get(0, 2).symbol, "├");
    assert_eq!(app.requests.len(), 1);
    assert!(matches!(app.requests[0], Request::Collection { .. }));
    let _ = bgmtty::render::paint(&mut ui, &mut app, size, false);
    assert_eq!(app.requests.len(), 1);
}

#[test]
fn failed_updates_are_reported() {
    let mut app = AppState::create();
    app.fail_update("timeout");
    assert_eq!(app.last_message(), "请求失败！timeout");
}
