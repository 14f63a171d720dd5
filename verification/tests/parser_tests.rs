use chat_server::parser::parseCommand;
use chat_server::parser::parseLogin;
use chat_server::parser::parseQuit;
use chat_server::parser::parseReg;
use chat_server::parser::parseText;
use chat_server::parser::tokenize;
use chat_server::parser::Command;

#[test]
fn tokenize_splits_on_whitespace_runs() {
    let toks = tokenize("  reg \t-u\n alice  -p pw ");
    assert_eq!(toks, vec!["reg", "-u", "alice", "-p", "pw"]);
}

#[test]
fn tokenize_empty_line() {
    let toks = tokenize("");
    assert!(toks.is_empty());
    assert!(tokenize("   \t ").is_empty());
}

#[test]
fn parse_register_line() {
    let cmd = parseReg("reg -u alice -p secret");
    assert_eq!(
        cmd,
        Some(Command::Register { name: "alice".to_string(), password: "secret".to_string() })
    );
}

#[test]
fn parse_register_needs_all_tokens() {
    assert_eq!(parseReg("reg -u alice"), None);
    assert_eq!(parseReg("reg -u alice -p"), None);
    assert_eq!(parseReg("reg alice secret pw x"), None);
}

#[test]
fn parse_login_line() {
    let cmd = parseLogin("login -u bob -p hunter2");
    assert_eq!(
        cmd,
        Some(Command::Login { name: "bob".to_string(), password: "hunter2".to_string() })
    );
}

#[test]
fn parse_text_line() {
    let cmd = parseText("text -u bob hello");
    assert_eq!(
        cmd,
        Some(Command::Text { name: "bob".to_string(), content: "hello".to_string() })
    );
}

#[test]
fn parse_text_keeps_only_first_content_token() {
    // The grammar carries a single whitespace-delimited content token.
    let cmd = parseCommand("text -u bob hello world");
    assert_eq!(
        cmd,
        Some(Command::Text { name: "bob".to_string(), content: "hello".to_string() })
    );
}

#[test]
fn parse_quit_line() {
    assert_eq!(parseQuit("quit"), Some(Command::Quit));
    assert_eq!(parseCommand("quit now please"), Some(Command::Quit));
}

#[test]
fn parse_is_case_sensitive() {
    assert_eq!(parseCommand("REG -u a -p b"), None);
    assert_eq!(parseCommand("Quit"), None);
}

#[test]
fn parse_unrecognized_lines() {
    assert_eq!(parseCommand(""), None);
    assert_eq!(parseCommand("hello there"), None);
    assert_eq!(parseCommand("textx -u bob hi"), None);
    assert_eq!(parseCommand("reg -x alice -p pw x"), None);
}

#[test]
fn parse_command_tries_grammars_in_order() {
    let cmd = parseCommand("reg -u alice -p pw");
    assert_eq!(
        cmd,
        Some(Command::Register { name: "alice".to_string(), password: "pw".to_string() })
    );
    let cmd = parseCommand("login -u alice -p pw");
    assert_eq!(
        cmd,
        Some(Command::Login { name: "alice".to_string(), password: "pw".to_string() })
    );
}
