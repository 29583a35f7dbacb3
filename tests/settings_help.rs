use bgmtty::auth::{AppCred, AuthHandle, AuthInfo, Settings};
use bgmtty::help::help_database;
use bgmtty::ui::UIState;

fn handle(time: i64, expires_in: u64) -> AuthHandle {
    AuthHandle {
        info: AuthInfo { access_token: "t".to_string(), user_id: 1, refresh_token: "r".to_string(), expires_in },
        time,
        redirect: "http://localhost:8478/".to_string(),
    }
}

#[test]
fn token_age_rules() {
    let h = handle(1000, 100);
    assert!(!h.outdated(1100));
    assert!(h.outdated(1101));
    assert!(!h.requires_refresh(1020));
    assert!(h.requires_refresh(1021));
    assert!(!h.outdated(0));
    assert_eq!(h.redir(), "http://localhost:8478/");
}

#[test]
fn settings_sign_in_and_out() {
    let cred = AppCred::new("id".to_string(), "secret".to_string());
    assert_eq!(cred.get_client_id(), "id");
    assert_eq!(cred.get_client_secret(), "secret");
    let s = Settings::new(cred, None);
    let s = s.update_handle(handle(5, 10));
    assert!(s.auth().is_some());
    let s = s.logout();
    assert!(s.auth().is_none());
    assert_eq!(s.cred().client_id, "id");
}

#[test]
fn help_lines_follow_the_state() {
    let db = help_database();
    assert_eq!(db.len(), 32);
    let ui = UIState::with();
    let shown: Vec<&str> = db.iter().filter(|e| e.pred(&ui)).map(|e| e.desc).collect();
    assert!(shown.contains(&"选择上一个"));
    assert!(!shown.contains(&"修改评分"));
    assert!(!shown.contains(&"向上滚动帮助"));
    let t = db[0].text();
    assert_eq!(t.oneline_min_width(), 1 + 3 + 1 + 3 + 5 + 2 + 6);
}
