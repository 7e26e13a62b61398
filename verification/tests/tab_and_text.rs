use dotfiles_tui::tab::Tab;
use dotfiles_tui::text::{code_to_text, decimal, int_to_text, join, trim, unquote};

#[test]
fn tab_titles_follow_display_order() {
    let titles: Vec<&str> = Tab::all().iter().map(|t| t.title()).collect();
    assert_eq!(titles, vec!["Install", "Symlinks", "Configs", "Status"]);
}

#[test]
fn tab_next_and_prev_wrap_around() {
    assert_eq!(Tab::Install.next(), Tab::Symlinks);
    assert_eq!(Tab::Status.next(), Tab::Install);
    assert_eq!(Tab::Install.prev(), Tab::Status);
    assert_eq!(Tab::Configs.prev(), Tab::Symlinks);
    for t in Tab::all() {
        assert_eq!(t.next().prev(), t);
        assert_eq!(t.prev().next(), t);
        assert_eq!(t.next().next().next().next(), t);
        assert_ne!(t.next(), t);
    }
}

#[test]
fn tab_index_matches_position() {
    for (i, t) in Tab::all().iter().enumerate() {
        assert_eq!(t.index(), i);
    }
}

#[test]
fn trim_removes_unicode_whitespace() {
    assert_eq!(trim("  go1.22.3\n"), "go1.22.3");
    assert_eq!(trim("\u{3000}\tv0.44\u{a0}"), "v0.44");
    assert_eq!(trim(" \n\t "), "");
    assert_eq!(trim("a b"), "a b");
}

#[test]
fn unquote_strips_surrounding_quotes_only() {
    assert_eq!(unquote("\"ubuntu\""), "ubuntu");
    assert_eq!(unquote("\"\"a\"b\"\""), "a\"b");
    assert_eq!(unquote("plain"), "plain");
    assert_eq!(unquote("\"\""), "");
}

#[test]
fn join_behaves_like_pathbuf_join() {
    assert_eq!(join("/home/u", ".zshrc"), "/home/u/.zshrc");
    assert_eq!(join("/home/u/", ".zshrc"), "/home/u/.zshrc");
    assert_eq!(join("", "a"), "a");
    assert_eq!(join("/home/u", "/etc/x"), "/etc/x");
    for (b, r) in [("/home/u", ".config/nvim"), ("rel", "x/y"), ("/", "dotfiles")] {
        let expected = std::path::Path::new(b).join(r);
        assert_eq!(join(b, r), expected.to_str().unwrap());
    }
}

#[test]
fn decimal_and_codes_match_std_formatting() {
    assert_eq!(decimal(0), "0");
    assert_eq!(decimal(1234567890), "1234567890");
    assert_eq!(int_to_text(-17), "-17");
    assert_eq!(int_to_text(i32::MIN), i32::MIN.to_string());
    assert_eq!(int_to_text(i32::MAX), i32::MAX.to_string());
    assert_eq!(code_to_text(Some(1)), format!("{:?}", Some(1)));
    assert_eq!(code_to_text(Some(-2)), "Some(-2)");
    assert_eq!(code_to_text(None), "None");
}
