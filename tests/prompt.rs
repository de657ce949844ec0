use go_scaffold::prompt::{app_name_supported, is_valid_app_name, yn_to_bool, ConfigPrompt, Question};
use go_scaffold::username::{get_git_username, username_from_line};

#[test]
fn yes_no_tokens() {
    assert_eq!(yn_to_bool("y"), Some(true));
    assert_eq!(yn_to_bool("n"), Some(false));
    assert_eq!(yn_to_bool("Y"), None);
    assert_eq!(yn_to_bool("yes"), None);
    assert_eq!(yn_to_bool(""), None);
}

#[test]
fn app_name_validity() {
    assert!(!is_valid_app_name(""));
    assert!(is_valid_app_name("blog"));
    assert!(app_name_supported("blog"));
    assert!(!app_name_supported(""));
    assert!(!app_name_supported("ñu"));
}

#[test]
fn empty_app_name_is_asked_again() {
    let mut p = ConfigPrompt::new();
    assert_eq!(p.asking(), Some(Question::AppName));
    p = p.answer("");
    assert_eq!(p.asking(), Some(Question::AppName));
    p = p.answer("");
    assert_eq!(p.asking(), Some(Question::AppName));
    p = p.answer("blog");
    assert_eq!(p.asking(), Some(Question::Sessions));
}

#[test]
fn full_collection() {
    let mut p = ConfigPrompt::new();
    for line in ["", "blog", "maybe", "y", "n", "Y", "y", "n"] {
        p = p.answer(line);
    }
    assert_eq!(p.asking(), None);
    let c = p.finish();
    assert_eq!(c.app_name, "blog");
    assert!(c.sessions);
    assert!(!c.turso);
    assert!(c.htmx);
    assert!(!c.tailwind);
    assert!(!c.air);
}

#[test]
fn username_line() {
    assert_eq!(username_from_line("user.name=Ann Lee"), Some("Ann Lee".to_string()));
    assert_eq!(username_from_line("user.name="), Some("".to_string()));
    assert_eq!(username_from_line("user.email=a@b.c"), None);
    assert_eq!(username_from_line("user.name"), None);
}

#[test]
fn username_from_listing() {
    let out = "  core.editor=vim\n   user.name=ann  \nuser.name=other\n";
    assert_eq!(get_git_username(out), Some("ann".to_string()));
    assert_eq!(get_git_username("core.editor=vim\ncolor.ui=auto"), None);
    assert_eq!(get_git_username(""), None);
    assert_eq!(get_git_username("user.name=a=b"), Some("a=b".to_string()));
}

#[test]
fn username_trims_unicode_white_space() {
    let out = "core.editor=vim\n\u{3000}user.name=ann\u{a0}\r\n";
    assert_eq!(get_git_username(out), Some("ann".to_string()));
}
