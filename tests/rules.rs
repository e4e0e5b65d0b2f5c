use raykit_match::{
    extensions_dir, Context, ExtensionStore, Expression, FileEntry, FileType, LogicalOp, Match,
    MatchError, MatchType, Operator, Parser,
};

fn simple(match_type: MatchType, operator: Operator, value: &str) -> Expression {
    Expression::Simple { match_type, operator, value: value.to_string() }
}

fn parsed(rule: &str) -> Expression {
    Match::new(rule).parse().expect("rule should parse")
}

fn files(paths: &[&str]) -> Context {
    Context::new().with_files(paths.iter().map(|p| FileEntry::new(p, FileType::File)).collect())
}

#[test]
fn matching_twice_gives_the_same_answer() {
    let m = Match::new("text == 'hello' || files = '.rs'");
    let c = files(&["/p/main.rs"]).with_text("bye");
    let first = m.matches(&c);
    let second = m.matches(&c);
    assert_eq!(first, second);
    assert!(first);
    assert_eq!(c.text, Some("bye".to_string()));
}

#[test]
fn and_does_not_evaluate_its_right_side_when_left_is_false() {
    let m = Match::new("text == 'x' && text == /(/");
    let expr = m.parse().unwrap();
    let c = Context::new().with_text("y");
    assert!(matches!(m.evaluate_expression(&expr, &c), Ok(false)));
    assert!(!m.matches(&c));
}

#[test]
fn and_reports_a_bad_pattern_once_it_is_reached() {
    let m = Match::new("text == 'x' && text == /(/");
    let expr = m.parse().unwrap();
    let c = Context::new().with_text("x");
    assert!(matches!(m.evaluate_expression(&expr, &c), Err(MatchError::RegexError(_))));
    assert!(!m.matches(&c));
}

#[test]
fn or_does_not_evaluate_its_right_side_when_left_is_true() {
    let m = Match::new("text == 'x' || text == /(/");
    let expr = m.parse().unwrap();
    let c = Context::new().with_text("x");
    assert!(matches!(m.evaluate_expression(&expr, &c), Ok(true)));
}

#[test]
fn binary_not_is_rejected_by_the_evaluator() {
    let m = Match::new("text == *");
    let expr = Expression::Logical {
        left: Box::new(simple(MatchType::Text, Operator::Any, "*")),
        op: LogicalOp::Not,
        right: Box::new(simple(MatchType::Text, Operator::Any, "*")),
    };
    let c = Context::new().with_text("x");
    assert!(matches!(m.evaluate_expression(&expr, &c), Err(MatchError::InvalidExpression(_))));
}

#[test]
fn malformed_rules_never_match() {
    let c = files(&["/p/a.rs"]).with_text("anything").with_app("vscode", Some("main"));
    for rule in [
        "",
        "text == 'open",
        "text == /open",
        "(text == a",
        "texts == a",
        "text a",
        "text ==",
        "text == )",
        "&& text == a",
    ] {
        let m = Match::new(rule);
        assert!(matches!(m.parse(), Err(MatchError::ParseError(_))), "{}", rule);
        assert!(!m.matches(&c), "{}", rule);
    }
}

#[test]
fn lens_bounds_the_text_length() {
    let m = Match::with_lens("text == *", [1, 5]);
    assert!(m.matches(&Context::new().with_text("hello")));
    assert!(m.matches(&Context::new().with_text("hi")));
    assert!(m.matches(&Context::new().with_text("a")));
    assert!(!m.matches(&Context::new().with_text("")));
    assert!(!m.matches(&Context::new().with_text("sixsix")));
    assert!(!m.matches(&Context::new().with_text("this is too long")));
    assert!(!m.matches(&Context::new()));
}

#[test]
fn lens_bounds_the_number_of_files() {
    let m = Match::with_lens("files == *", [2, 3]);
    assert!(!m.matches(&files(&["/p/a"])));
    assert!(m.matches(&files(&["/p/a", "/p/b"])));
    assert!(m.matches(&files(&["/p/a", "/p/b", "/p/c"])));
    assert!(!m.matches(&files(&["/p/a", "/p/b", "/p/c", "/p/d"])));
}

#[test]
fn default_lens_is_unconstrained() {
    let m = Match::new("text == *");
    assert_eq!(m.lens, Some([0, u32::MAX]));
    assert!(m.matches(&Context::new().with_text("")));
    let m = Match::with_lens("text == *", [3, 4]);
    assert_eq!(m.lens, Some([3, 4]));
}

#[test]
fn scenario_text_equality() {
    let m = Match::new("text == 'hello'");
    assert!(m.matches(&Context::new().with_text("hello")));
    assert!(!m.matches(&Context::new().with_text("world")));
}

#[test]
fn scenario_files_by_name() {
    let m = Match::new("files == 'tsconfig.json'");
    assert!(m.matches(&files(&["/p/tsconfig.json", "/p/package.json"])));
    assert!(!m.matches(&files(&["/p/package.json"])));
}

#[test]
fn scenario_dirs_by_name() {
    let m = Match::new("dirs == 'src'");
    let c = Context::new().with_files(vec![
        FileEntry::new("/p/src", FileType::Directory),
        FileEntry::new("/p/tests", FileType::Directory),
        FileEntry::new("/p/main.rs", FileType::File),
    ]);
    assert!(m.matches(&c));
}

#[test]
fn scenario_active_file_contains() {
    let m = Match::new("activeFile = '.rs'");
    assert!(m.matches(&Context::new().with_active_file("/p/src/main.rs")));
    assert!(!m.matches(&Context::new().with_active_file("/p/package.json")));
}

#[test]
fn scenario_file_extension() {
    let m = Match::new("fileExt == 'rs'");
    assert!(m.matches(&files(&["/p/main.rs", "/p/lib.rs", "/p/package.json"])));
    assert!(!m.matches(&files(&["/p/package.json", "/p/README.md"])));
}

#[test]
fn scenario_conjunction_of_three() {
    let m = Match::new("text == 'hello' && files == 'main.rs' && app == 'vscode'");
    let c = files(&["/p/main.rs"]).with_text("hello").with_app("vscode", None);
    assert!(m.matches(&c));
    let c = files(&["/p/main.rs"]).with_text("hello").with_app("code", None);
    assert!(!m.matches(&c));
}

#[test]
fn operators_resolve_from_surface_and_value() {
    assert_eq!(parsed("text == 'a'"), simple(MatchType::Text, Operator::Equals, "a"));
    assert_eq!(parsed("text == *"), simple(MatchType::Text, Operator::Any, "*"));
    assert_eq!(parsed("text == '*'"), simple(MatchType::Text, Operator::Any, "*"));
    assert_eq!(parsed("text == /a+/"), simple(MatchType::Text, Operator::Regex, "a+"));
    assert_eq!(parsed("text == \\^https"), simple(MatchType::Text, Operator::Regex, "^https"));
    assert_eq!(parsed("text != 'a'"), simple(MatchType::Text, Operator::NotEquals, "a"));
    assert_eq!(parsed("text != /a/"), simple(MatchType::Text, Operator::NotRegex, "a"));
    assert_eq!(parsed("text = a"), simple(MatchType::Text, Operator::Contains, "a"));
    assert_eq!(parsed("text = /a/"), simple(MatchType::Text, Operator::Regex, "a"));
}

#[test]
fn every_keyword_is_recognised() {
    assert_eq!(parsed("activeFile == a"), simple(MatchType::ActiveFile, Operator::Equals, "a"));
    assert_eq!(parsed("appTitle == a"), simple(MatchType::AppTitle, Operator::Equals, "a"));
    assert_eq!(parsed("workspace == a"), simple(MatchType::Workspace, Operator::Equals, "a"));
    assert_eq!(parsed("fileExt == a"), simple(MatchType::FileExt, Operator::Equals, "a"));
    assert_eq!(parsed("files == a"), simple(MatchType::Files, Operator::Equals, "a"));
    assert_eq!(parsed("dirs == a"), simple(MatchType::Dirs, Operator::Equals, "a"));
    assert_eq!(parsed("app == a"), simple(MatchType::App, Operator::Equals, "a"));
    assert_eq!(parsed("app==a"), simple(MatchType::App, Operator::Equals, "a"));
    assert_eq!(parsed("app!=a"), simple(MatchType::App, Operator::NotEquals, "a"));
    assert!(Match::new("apps == a").parse().is_err());
}

#[test]
fn quoted_values_unescape() {
    assert_eq!(parsed("text == 'a\\'b'"), simple(MatchType::Text, Operator::Equals, "a'b"));
    assert_eq!(parsed("text == \"x\\ny\\t\\r\""), simple(MatchType::Text, Operator::Equals, "x\ny\t\r"));
    assert_eq!(parsed("text == 'a\\\\b'"), simple(MatchType::Text, Operator::Equals, "a\\b"));
    assert_eq!(parsed("text == 'a\\qb'"), simple(MatchType::Text, Operator::Equals, "aqb"));
    assert_eq!(parsed("text == '&& ||'"), simple(MatchType::Text, Operator::Equals, "&& ||"));
}

#[test]
fn regex_literals_keep_escapes() {
    assert_eq!(parsed("files == /.*\\.rs$/"), simple(MatchType::Files, Operator::Regex, ".*\\.rs$"));
    assert_eq!(parsed("text == /a\\/b/"), simple(MatchType::Text, Operator::Regex, "a\\/b"));
}

#[test]
fn and_binds_tighter_than_or() {
    let a = simple(MatchType::Text, Operator::Equals, "a");
    let b = simple(MatchType::Text, Operator::Equals, "b");
    let c = simple(MatchType::Text, Operator::Equals, "c");
    let want = Expression::Logical {
        left: Box::new(a),
        op: LogicalOp::Or,
        right: Box::new(Expression::Logical { left: Box::new(b), op: LogicalOp::And, right: Box::new(c) }),
    };
    assert_eq!(parsed("text == a || text == b && text == c"), want);
}

#[test]
fn negation_and_parentheses() {
    let a = simple(MatchType::Text, Operator::Equals, "a");
    assert_eq!(parsed("!text == a"), Expression::Not(Box::new(a)));
    let a = simple(MatchType::Text, Operator::Equals, "a");
    let b = simple(MatchType::App, Operator::Equals, "b");
    let want = Expression::Not(Box::new(Expression::Parentheses(Box::new(Expression::Logical {
        left: Box::new(a),
        op: LogicalOp::Or,
        right: Box::new(b),
    }))));
    assert_eq!(parsed("! ( text == a || app == b )"), want);
    let m = Match::new("!(text == a || app == b)");
    assert!(m.matches(&Context::new().with_text("c")));
    assert!(!m.matches(&Context::new().with_text("a")));
}

#[test]
fn whitespace_around_operators_is_optional() {
    let m = Match::new("text=='a'&&app=='b'");
    assert!(m.matches(&Context::new().with_text("a").with_app("b", None)));
    assert!(!m.matches(&Context::new().with_text("a").with_app("c", None)));
    let m = Match::new("text == a||text == b");
    assert!(m.matches(&Context::new().with_text("b")));
}

#[test]
fn unicode_whitespace_separates_tokens() {
    assert_eq!(parsed("text\u{00A0}==\u{3000}a"), simple(MatchType::Text, Operator::Equals, "a"));
}

#[test]
fn text_after_a_complete_rule_is_ignored() {
    assert_eq!(parsed("text == a b"), simple(MatchType::Text, Operator::Equals, "a"));
}

#[test]
fn parser_reads_from_its_cursor() {
    let mut p = Parser::new("app == 'x'");
    assert_eq!(p.parse().unwrap(), simple(MatchType::App, Operator::Equals, "x"));
}

#[test]
fn negated_operators_mean_no_entry_matches() {
    let c = Context::new().with_files(vec![
        FileEntry::new("/p/src", FileType::Directory),
        FileEntry::new("/p/main.rs", FileType::File),
    ]);
    assert!(!Match::new("dirs != 'src'").matches(&c));
    assert!(Match::new("dirs != 'lib'").matches(&c));
    assert!(!Match::new("files != /\\.rs$/").matches(&c));
    assert!(Match::new("files != /\\.md$/").matches(&c));
    assert!(Match::new("files = 'main'").matches(&c));
    assert!(!Match::new("dirs = 'main'").matches(&c));
}

#[test]
fn wildcard_on_entries_needs_one() {
    assert!(!Match::new("files == *").matches(&Context::new()));
    assert!(!Match::new("dirs == *").matches(&files(&["/p/a.rs"])));
    assert!(Match::new("files == *").matches(&files(&["/p/a.rs"])));
}

#[test]
fn file_extension_operators() {
    let c = files(&["/p/main.rs", "/p/README.md"]);
    assert!(Match::new("fileExt != 'toml'").matches(&c));
    assert!(!Match::new("fileExt != 'rs'").matches(&c));
    assert!(!Match::new("fileExt = rs").matches(&c));
    assert!(!Match::new("fileExt == /rs/").matches(&c));
    let dirs_only = Context::new().with_files(vec![FileEntry::new("/p/x.rs", FileType::Directory)]);
    assert!(!Match::new("fileExt == rs").matches(&dirs_only));
}

#[test]
fn string_facts_compare_as_whole_or_part() {
    let c = Context::new().with_app("vscode", Some("main.rs - project")).with_workspace("/home/u/proj");
    assert!(Match::new("app == vscode").matches(&c));
    assert!(!Match::new("app == vs").matches(&c));
    assert!(Match::new("app = vs").matches(&c));
    assert!(Match::new("app != code").matches(&c));
    assert!(Match::new("appTitle = 'main.rs'").matches(&c));
    assert!(Match::new("workspace == \\^/home").matches(&c));
    assert!(!Match::new("workspace != /proj$/").matches(&c));
    assert!(Match::new("activeFile == ''").parse().is_ok());
    assert!(Match::new("activeFile == ''").matches(&c));
}

#[test]
fn absent_facts_read_as_empty() {
    let c = Context::new();
    assert!(Match::new("app != 'x'").matches(&c));
    assert!(!Match::new("app = 'x'").matches(&c));
    assert!(Match::new("text = ''").matches(&c));
}

#[test]
fn entries_take_their_name_from_the_path() {
    let e = FileEntry::new("/a/b/c.tar.gz", FileType::File);
    assert_eq!(e.name, "c.tar.gz");
    assert_eq!(e.extension(), Some("gz".to_string()));
    assert_eq!(e.parent(), Some("/a/b".to_string()));
    let root = FileEntry::new("/", FileType::Directory);
    assert_eq!(root.name, "");
    assert_eq!(root.parent(), None);
}

#[test]
fn compatibility_helpers() {
    let m = Match::new("files == 'a.txt'");
    assert!(m.validate_files(&["/x/a.txt".to_string()]));
    assert!(!m.validate_files(&["/x/b.txt".to_string()]));
    let m = Match::new("app == 'vscode' && appTitle = 'main'");
    assert!(m.validate_app("vscode", Some("main.rs")));
    assert!(!m.validate_app("vscode", None));
    assert!(Match::new("text = ell").validate_text("hello"));
}

#[test]
fn extension_paths_are_joined_under_home() {
    assert_eq!(extensions_dir("/home/u"), "/home/u/.raykit/extensions");
    let store = ExtensionStore::new("/home/u/.raykit/extensions");
    assert_eq!(store.index_path, "/home/u/.raykit/extensions/extensions.json");
}

#[test]
fn cloned_expressions_are_equal() {
    let e = parsed("!(text == a || app == /b/) && files = c");
    assert_eq!(e.clone(), e);
}
