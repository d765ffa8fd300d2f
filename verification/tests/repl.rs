use nexus::repl::input::{is_incomplete_input, parse_input_for_repl, ParseState, ReplInput, SyntaxError};
use nexus::repl::names::{accept_checked_definitions, default_alias_from_path, NameRegistry, TopLevelEntry};
use nexus::repl::session::{LineOutcome, ParseAction, ReplCommand, ReplSession};

fn err(end: usize, found: Option<char>) -> SyntaxError {
    SyntaxError {
        start: 0,
        end,
        found,
        message: "unexpected".to_string(),
        label: "unexpected".to_string(),
    }
}

#[test]
fn input_ending_early_is_incomplete() {
    let input = "if true then";
    assert!(is_incomplete_input(input, &[err(12, None)]));
    assert!(is_incomplete_input(input, &[err(11, None)]));
    assert!(!is_incomplete_input(input, &[err(10, None)]));
    assert!(!is_incomplete_input(input, &[err(12, Some('x'))]));
    assert!(!is_incomplete_input(input, &[]));
}

#[test]
fn blank_input_is_never_incomplete() {
    assert!(!is_incomplete_input("   \n", &[err(4, None)]));
    assert!(!is_incomplete_input("", &[err(0, None)]));
}

#[test]
fn definitions_win_over_statements() {
    let r: ParseState<&str, &str> = parse_input_for_repl("fn id", Ok(vec!["id"]), Ok("stmt"));
    assert!(matches!(r, ParseState::Complete(ReplInput::TopLevels(ref d)) if d == &vec!["id"]));
}

#[test]
fn statement_when_no_definitions() {
    let r: ParseState<&str, &str> = parse_input_for_repl("let x = 1", Ok(vec![]), Ok("let"));
    assert!(matches!(r, ParseState::Complete(ReplInput::Stmt("let"))));
    let r: ParseState<&str, &str> =
        parse_input_for_repl("let x = 1", Err(vec![err(0, Some('l'))]), Ok("let"));
    assert!(matches!(r, ParseState::Complete(ReplInput::Stmt("let"))));
}

#[test]
fn unfinished_input_waits_for_more() {
    let input = "if true then\n";
    let r: ParseState<&str, &str> =
        parse_input_for_repl(input, Err(vec![err(0, Some('i'))]), Err(vec![err(13, None)]));
    assert!(matches!(r, ParseState::Incomplete));
    let r: ParseState<&str, &str> =
        parse_input_for_repl(input, Err(vec![err(13, None)]), Err(vec![err(3, Some('t'))]));
    assert!(matches!(r, ParseState::Incomplete));
}

#[test]
fn wrong_input_reports_statement_errors() {
    let r: ParseState<&str, &str> =
        parse_input_for_repl("let = 1", Err(vec![err(0, Some('l'))]), Err(vec![err(4, Some('='))]));
    match r {
        ParseState::Error(errors) => {
            assert_eq!(errors.len(), 1);
            assert_eq!(errors[0].end, 4);
            assert_eq!(errors[0].found, Some('='));
        }
        _ => panic!("expected a syntax error"),
    }
}

#[test]
fn commands_only_with_nothing_pending() {
    let mut s = ReplSession::new();
    assert_eq!(s.prompt(), ">> ");
    assert_eq!(s.accept_line(":exit"), LineOutcome::Command(ReplCommand::Quit));
    assert_eq!(s.accept_line(":quit  "), LineOutcome::Command(ReplCommand::Quit));
    assert_eq!(s.accept_line(":help"), LineOutcome::Command(ReplCommand::Help));
    assert_eq!(s.accept_line(":vars"), LineOutcome::Command(ReplCommand::Vars));
    assert_eq!(
        s.accept_line(":nope \t"),
        LineOutcome::Command(ReplCommand::Unknown(":nope".to_string()))
    );
    assert_eq!(s.pending_input(), "");
    assert_eq!(s.accept_line("   "), LineOutcome::Skip);
    assert_eq!(s.accept_line("if true then"), LineOutcome::Parse);
    assert_eq!(s.prompt(), ".. ");
    assert_eq!(s.accept_line(":exit"), LineOutcome::Parse);
    assert_eq!(s.accept_line(""), LineOutcome::Parse);
    assert_eq!(s.pending_input(), "if true then\n:exit\n\n");
}

#[test]
fn complete_and_discard_clear_pending_input() {
    let mut s = ReplSession::new();
    s.accept_line("let x = 1  ");
    assert_eq!(s.pending_input(), "let x = 1  \n");
    assert_eq!(s.complete(), "let x = 1");
    assert_eq!(s.pending_input(), "");
    s.accept_line("let = ");
    s.discard();
    assert_eq!(s.prompt(), ">> ");
}

#[test]
fn interrupt_cancels_or_quits() {
    let mut s = ReplSession::new();
    s.accept_line("fn f() -> unit do");
    assert!(!s.interrupt());
    assert_eq!(s.pending_input(), "");
    assert!(s.interrupt());
}

#[test]
fn builtins_are_registered_once() {
    let mut r = NameRegistry::with_builtins();
    assert!(r.contains("print"));
    assert!(r.contains("i64_to_string"));
    assert!(!r.contains("println"));
    assert!(!r.insert("print".to_string()));
    assert!(r.insert("x".to_string()));
    assert!(!r.insert("x".to_string()));
    assert_eq!(r.candidates("dr"), vec!["drop_i64".to_string(), "drop_array".to_string()]);
}

#[test]
fn definitions_register_their_names() {
    let mut r = NameRegistry::new();
    r.register_completion_names(&[
        TopLevelEntry::Function { name: "main".to_string() },
        TopLevelEntry::ExternalFn { name: "ext".to_string() },
        TopLevelEntry::Port {
            name: "Logger".to_string(),
            methods: vec!["log".to_string(), "flush".to_string()],
        },
        TopLevelEntry::Import {
            is_external: false,
            items: vec!["Console".to_string(), "system_handler".to_string()],
            alias: None,
            path: "nxlib/stdlib/stdio.nx".to_string(),
        },
        TopLevelEntry::Import {
            is_external: false,
            items: vec![],
            alias: None,
            path: "nxlib/stdlib/string.nx".to_string(),
        },
        TopLevelEntry::Import {
            is_external: false,
            items: vec![],
            alias: Some("rng".to_string()),
            path: "nxlib/stdlib/random.nx".to_string(),
        },
        TopLevelEntry::Import {
            is_external: true,
            items: vec!["ignored".to_string()],
            alias: None,
            path: "env".to_string(),
        },
        TopLevelEntry::Other,
        TopLevelEntry::Function { name: "main".to_string() },
    ]);
    assert_eq!(
        r.sorted_names(),
        vec![
            "Console", "Logger.flush", "Logger.log", "ext", "main", "rng", "string",
            "system_handler",
        ]
        .into_iter()
        .map(String::from)
        .collect::<Vec<_>>()
    );
    assert_eq!(r.candidates("Logger."), vec!["Logger.log".to_string(), "Logger.flush".to_string()]);
}

#[test]
fn default_alias_is_the_file_stem() {
    assert_eq!(default_alias_from_path("nxlib/stdlib/stdio.nx"), "stdio");
    assert_eq!(default_alias_from_path("math"), "math");
    assert_eq!(default_alias_from_path("dir/.hidden"), ".hidden");
    assert_eq!(default_alias_from_path(""), "");
}

#[test]
fn completion_uses_the_word_before_the_cursor() {
    let mut r = NameRegistry::with_builtins();
    r.insert("printer".to_string());
    let line = "let s = pri";
    assert_eq!(r.complete(line, line.len()), (8, vec!["print".to_string(), "printer".to_string()]));
    assert_eq!(r.complete("x(bool_", 7), (2, vec!["bool_to_string".to_string()]));
    assert_eq!(r.complete("é.dro", "é.dro".len()), (3, vec!["drop_i64".to_string(), "drop_array".to_string()]));
    assert_eq!(r.complete("abc", 0).0, 0);
}

#[test]
fn sorted_names_lists_each_name_once_in_order() {
    let mut r = NameRegistry::new();
    for n in ["b", "a", "c", "a", "ab"] {
        r.insert(n.to_string());
    }
    assert_eq!(r.sorted_names(), vec!["a", "ab", "b", "c"]);
}

#[test]
fn complete_parse_runs_and_clears_pending_input() {
    let mut s = ReplSession::new();
    s.accept_line("let x = 1   ");
    let action: ParseAction<&str, &str> = s.after_parse(ParseState::Complete(ReplInput::Stmt("let")));
    match action {
        ParseAction::Run { entry, input } => {
            assert_eq!(entry, "let x = 1");
            assert!(matches!(input, ReplInput::Stmt("let")));
        }
        _ => panic!("expected Run"),
    }
    assert_eq!(s.pending_input(), "");
    assert_eq!(s.prompt(), ">> ");
}

#[test]
fn unfinished_parse_keeps_pending_lines() {
    let mut s = ReplSession::new();
    s.accept_line("fn f() -> unit do");
    let action: ParseAction<&str, &str> = s.after_parse(ParseState::Incomplete);
    assert!(matches!(action, ParseAction::Wait));
    assert_eq!(s.pending_input(), "fn f() -> unit do\n");
    assert_eq!(s.prompt(), ".. ");
    assert_eq!(s.accept_line(":help"), LineOutcome::Parse);
    assert_eq!(s.accept_line(""), LineOutcome::Parse);
    assert_eq!(s.pending_input(), "fn f() -> unit do\n:help\n\n");
}

#[test]
fn syntax_error_empties_pending_lines() {
    let mut s = ReplSession::new();
    s.accept_line("let = )");
    let action: ParseAction<&str, &str> = s.after_parse(ParseState::Error(vec![err(4, Some('='))]));
    match action {
        ParseAction::Report(errors) => {
            assert_eq!(errors.len(), 1);
            assert_eq!(errors[0].end, 4);
            assert_eq!(errors[0].found, Some('='));
        }
        _ => panic!("expected Report"),
    }
    assert_eq!(s.pending_input(), "");
}

#[test]
fn passed_check_registers_definitions() {
    let mut r = NameRegistry::with_builtins();
    let mut accepted: Vec<&str> = vec!["old"];
    let entries = vec![
        TopLevelEntry::Function { name: "fresh_fn".to_string() },
        TopLevelEntry::Port { name: "Net".to_string(), methods: vec!["send".to_string()] },
    ];
    accept_checked_definitions(&mut r, &mut accepted, vec!["f", "p"], &entries, true);
    assert_eq!(accepted, vec!["old", "f", "p"]);
    assert!(r.contains("fresh_fn"));
    assert!(r.contains("Net.send"));
    assert_eq!(r.candidates("fre"), vec!["fresh_fn".to_string()]);
}

#[test]
fn failed_check_leaves_names_unchanged() {
    let mut r = NameRegistry::with_builtins();
    let before = r.sorted_names();
    let mut accepted: Vec<&str> = vec!["old"];
    let entries = vec![TopLevelEntry::Function { name: "broken_fn".to_string() }];
    accept_checked_definitions(&mut r, &mut accepted, vec!["b"], &entries, false);
    assert_eq!(accepted, vec!["old"]);
    assert!(!r.contains("broken_fn"));
    assert_eq!(r.sorted_names(), before);
    assert_eq!(r.candidates("bro"), Vec::<String>::new());
}

#[test]
fn completion_offers_each_name_once() {
    let mut r = NameRegistry::new();
    assert!(r.insert("print".to_string()));
    assert!(!r.insert("print".to_string()));
    let entries = vec![
        TopLevelEntry::Function { name: "print".to_string() },
        TopLevelEntry::ExternalFn { name: "printer".to_string() },
    ];
    r.register_completion_names(&entries);
    assert_eq!(r.complete("pri", 3), (0, vec!["print".to_string(), "printer".to_string()]));
}
