use spt::parser::{
    is_recognized_command, parse, tokenize, verify_command, verify_flags, Arg, CommandNode,
    ParseError, Token,
};

fn commands() -> Vec<String> {
    ["play", "pause", "queue", "now", "search"].iter().map(|s| s.to_string()).collect()
}

fn texts(tokens: &[Token]) -> Vec<(String, bool)> {
    tokens.iter().map(|t| (t.text.clone(), t.is_quoted)).collect()
}

fn render(cmd: &CommandNode) -> String {
    let mut out = format!("({}", cmd.name);
    for a in &cmd.args {
        match a {
            Arg::Command(c) => out.push_str(&format!(" {}", render(c))),
            Arg::Text(t) => out.push_str(&format!(" {}", t)),
        }
    }
    out.push(')');
    out
}

#[test]
fn tokenizes_words_quotes_and_parentheses() {
    let toks = tokenize("queue (search \"daft punk\")  -h").unwrap();
    assert_eq!(
        texts(&toks),
        vec![
            ("queue".to_string(), false),
            ("(".to_string(), false),
            ("search".to_string(), false),
            ("\"daft punk\"".to_string(), true),
            (")".to_string(), false),
            ("-h".to_string(), false),
        ]
    );
    assert!(tokenize("").unwrap().is_empty());
    assert_eq!(texts(&tokenize("a\"b\"c").unwrap()).len(), 3);
}

#[test]
fn unclosed_quote_is_an_error() {
    assert!(matches!(tokenize("play \"abc"), Err(ParseError::General(m)) if m == "Unclosed double quote"));
}

#[test]
fn recognizes_commands() {
    assert!(is_recognized_command("play", &commands()));
    assert!(!is_recognized_command("stop", &commands()));
    let toks = tokenize("play").unwrap();
    assert!(verify_command(&toks, &commands()).is_ok());
    assert!(matches!(verify_command(&[], &commands()), Err(ParseError::UnexpectedEndOfInput)));
    let toks = tokenize("\"play\"").unwrap();
    assert!(matches!(verify_command(&toks, &commands()), Err(ParseError::NoCommandFound)));
    let toks = tokenize("stop").unwrap();
    assert!(matches!(verify_command(&toks, &commands()), Err(ParseError::NoCommandFound)));
}

#[test]
fn parses_nested_commands() {
    let toks = tokenize("queue (search \"daft punk\") -h").unwrap();
    let cmd = parse(&toks, &commands()).unwrap();
    assert_eq!(render(&cmd), "(queue (search \"daft punk\") -h)");
    let toks = tokenize("queue now x").unwrap();
    let cmd = parse(&toks, &commands()).unwrap();
    assert_eq!(render(&cmd), "(queue (now x))");
    let toks = tokenize("(play)").unwrap();
    assert_eq!(render(&parse(&toks, &commands()).unwrap()), "(play)");
}

#[test]
fn parse_errors() {
    let toks = tokenize("queue (search x").unwrap();
    assert!(matches!(parse(&toks, &commands()), Err(ParseError::MismatchedParentheses)));
    let toks = tokenize("(play").unwrap();
    assert!(matches!(parse(&toks, &commands()), Err(ParseError::MismatchedParentheses)));
    let toks = tokenize("play ) x").unwrap();
    assert!(matches!(parse(&toks, &commands()), Err(ParseError::General(_))));
    assert!(matches!(parse(&[], &commands()), Err(ParseError::UnexpectedEndOfInput)));
    let toks = tokenize("(").unwrap();
    assert!(matches!(parse(&toks, &commands()), Err(ParseError::UnexpectedEndOfInput)));
}

#[test]
fn flags_must_be_allowed() {
    let allowed = vec![
        ("queue".to_string(), vec!["-h".to_string()]),
        ("search".to_string(), vec![]),
        ("now".to_string(), vec!["-h".to_string()]),
    ];
    let toks = tokenize("queue -h (search x)").unwrap();
    assert!(verify_flags(&parse(&toks, &commands()).unwrap(), &allowed).is_ok());
    let toks = tokenize("queue (search -h)").unwrap();
    match verify_flags(&parse(&toks, &commands()).unwrap(), &allowed) {
        Err(ParseError::General(m)) => assert_eq!(m, "Flag -h cannot be used as an argument for search"),
        other => panic!("unexpected {:?}", other),
    }
    let toks = tokenize("play -x").unwrap();
    match verify_flags(&parse(&toks, &commands()).unwrap(), &allowed) {
        Err(ParseError::General(m)) => assert_eq!(m, "Flag -x cannot be used as an argument for play"),
        other => panic!("unexpected {:?}", other),
    }
}
