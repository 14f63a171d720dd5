//! Command grammar: one line of text in, one typed command out.
//!
//! A line is tokenized on runs of ASCII whitespace and matched against four
//! fixed positional grammars, tried in a fixed order.  Anything else is
//! "unrecognized", reported as `None`; parsing never fails a session.

use vstd::prelude::*;
use vstd::string::*;

verus! {

/// One command of the wire protocol.
#[derive(Debug, PartialEq)]
pub enum Command {
    Register { name: String, password: String },
    Login { name: String, password: String },
    Text { name: String, content: String },
    Quit,
}

/// The mathematical shape of a `Command`: the same variants over `Seq<char>`.
pub enum CommandView {
    Register { name: Seq<char>, password: Seq<char> },
    Login { name: Seq<char>, password: Seq<char> },
    Text { name: Seq<char>, content: Seq<char> },
    Quit,
}

impl View for Command {
    type V = CommandView;

    open spec fn view(&self) -> CommandView {
        match self {
            Command::Register { name, password } => CommandView::Register {
                name: name@,
                password: password@,
            },
            Command::Login { name, password } => CommandView::Login {
                name: name@,
                password: password@,
            },
            Command::Text { name, content } => CommandView::Text {
                name: name@,
                content: content@,
            },
            Command::Quit => CommandView::Quit,
        }
    }
}

/// The characters `str::split_ascii_whitespace` separates tokens on.
pub open spec fn is_ws(c: char) -> bool {
    c == ' ' || c == '\t' || c == '\n' || c == '\r' || c == '\x0C'
}

/// The tokens of `s`: maximal runs of non-whitespace characters, in order.
///
/// Defined by how one more character extends the tokens of a prefix: a
/// whitespace character closes the current word, a non-whitespace character
/// extends it or opens a new one.
pub open spec fn split_ws(s: Seq<char>) -> Seq<Seq<char>>
    decreases s.len(),
{
    if s.len() == 0 {
        Seq::empty()
    } else {
        let pre = s.drop_last();
        let c = s.last();
        let t = split_ws(pre);
        if is_ws(c) {
            t
        } else if pre.len() > 0 && !is_ws(pre.last()) {
            t.drop_last().push(t.last().push(c))
        } else {
            t.push(seq![c])
        }
    }
}

/// The views of a vector of owned tokens.
pub open spec fn views_of(v: Seq<String>) -> Seq<Seq<char>> {
    v.map_values(|t: String| t@)
}

proof fn lemma_views_of_push(v: Seq<String>, x: String)
    ensures
        views_of(v.push(x)) == views_of(v).push(x@),
{
    assert(views_of(v.push(x)) =~= views_of(v).push(x@));
}

/// Splits a line into its whitespace-separated tokens.
pub fn tokenize(line: &str) -> (toks: Vec<String>)
    ensures
        views_of(toks@) == split_ws(line@),
{
    let n: usize = line.unicode_len();
    let mut toks: Vec<String> = Vec::new();
    let mut cur: String = String::new();
    let mut i: usize = 0;
    while i < n
        invariant
            i <= n,
            n == line@.len(),
            cur@.len() > 0 ==> i > 0 && !is_ws(line@[i as int - 1]),
            cur@.len() == 0 ==> i == 0 || is_ws(line@[i as int - 1]),
            cur@.len() == 0 ==> split_ws(line@.take(i as int)) == views_of(toks@),
            cur@.len() > 0 ==> split_ws(line@.take(i as int)) == views_of(toks@).push(cur@),
        decreases n - i,
    {
        let c = line.get_char(i);
        proof {
            assert(line@.take(i as int + 1).drop_last() =~= line@.take(i as int));
        }
        if c == ' ' || c == '\t' || c == '\n' || c == '\r' || c == '\x0C' {
            if !cur.as_str().is_empty() {
                proof {
                    lemma_views_of_push(toks@, cur);
                }
                toks.push(cur);
                cur = String::new();
            }
        } else {
            let piece = line.substring_char(i, i + 1);
            proof {
                assert(piece@ =~= seq![line@[i as int]]);
                let t = split_ws(line@.take(i as int));
                if cur@.len() > 0 {
                    assert(t.drop_last() =~= views_of(toks@));
                    assert(t.last() == cur@);
                }
                assert(cur@ + piece@ =~= cur@.push(line@[i as int]));
            }
            cur.append(piece);
        }
        i = i + 1;
    }
    proof {
        assert(line@.take(n as int) =~= line@);
    }
    if !cur.as_str().is_empty() {
        proof {
            lemma_views_of_push(toks@, cur);
        }
        toks.push(cur);
    }
    toks
}

/// True when `t` matches the shape of a `reg -u <name> -p <password>` line.
pub open spec fn reg_match(t: Seq<Seq<char>>) -> bool {
    t.len() > 4 && t[0] == "reg"@ && t[1] == "-u"@ && t[3] == "-p"@
}

/// True when `t` matches the shape of a `login -u <name> -p <password>` line.
pub open spec fn login_match(t: Seq<Seq<char>>) -> bool {
    t.len() > 4 && t[0] == "login"@ && t[1] == "-u"@ && t[3] == "-p"@
}

/// True when `t` matches the shape of a `text -u <recipient> <content>` line.
pub open spec fn text_match(t: Seq<Seq<char>>) -> bool {
    t.len() > 3 && t[0] == "text"@ && t[1] == "-u"@
}

/// True when `t` matches the shape of a `quit` line.
pub open spec fn quit_match(t: Seq<Seq<char>>) -> bool {
    t.len() > 0 && t[0] == "quit"@
}

/// The command a whole line denotes: the four grammars tried in order,
/// `None` for anything unrecognized.
pub open spec fn parse_spec(t: Seq<Seq<char>>) -> Option<CommandView> {
    if reg_match(t) {
        Some(CommandView::Register { name: t[2], password: t[4] })
    } else if login_match(t) {
        Some(CommandView::Login { name: t[2], password: t[4] })
    } else if text_match(t) {
        Some(CommandView::Text { name: t[2], content: t[3] })
    } else if quit_match(t) {
        Some(CommandView::Quit)
    } else {
        None
    }
}

/// True when the exec token equals the keyword.
fn token_is(t: &String, kw: &str) -> (r: bool)
    ensures
        r == (t@ == kw@),
{
    *t == kw.to_owned()
}

#[allow(non_snake_case)]
pub fn parseReg(line: &str) -> (r: Option<Command>)
    ensures
        reg_match(split_ws(line@)) ==> (r matches Some(c) && c@ == (CommandView::Register {
            name: split_ws(line@)[2],
            password: split_ws(line@)[4],
        })),
        !reg_match(split_ws(line@)) ==> r is None,
{
    let toks = tokenize(line);
    if toks.len() > 4 && token_is(&toks[0], "reg") && token_is(&toks[1], "-u") && token_is(
        &toks[3],
        "-p",
    ) {
        Some(Command::Register { name: toks[2].clone(), password: toks[4].clone() })
    } else {
        None
    }
}

#[allow(non_snake_case)]
pub fn parseLogin(line: &str) -> (r: Option<Command>)
    ensures
        login_match(split_ws(line@)) ==> (r matches Some(c) && c@ == (CommandView::Login {
            name: split_ws(line@)[2],
            password: split_ws(line@)[4],
        })),
        !login_match(split_ws(line@)) ==> r is None,
{
    let toks = tokenize(line);
    if toks.len() > 4 && token_is(&toks[0], "login") && token_is(&toks[1], "-u") && token_is(
        &toks[3],
        "-p",
    ) {
        Some(Command::Login { name: toks[2].clone(), password: toks[4].clone() })
    } else {
        None
    }
}

#[allow(non_snake_case)]
pub fn parseText(line: &str) -> (r: Option<Command>)
    ensures
        text_match(split_ws(line@)) ==> (r matches Some(c) && c@ == (CommandView::Text {
            name: split_ws(line@)[2],
            content: split_ws(line@)[3],
        })),
        !text_match(split_ws(line@)) ==> r is None,
{
    let toks = tokenize(line);
    if toks.len() > 3 && token_is(&toks[0], "text") && token_is(&toks[1], "-u") {
        Some(Command::Text { name: toks[2].clone(), content: toks[3].clone() })
    } else {
        None
    }
}

#[allow(non_snake_case)]
pub fn parseQuit(line: &str) -> (r: Option<Command>)
    ensures
        quit_match(split_ws(line@)) ==> r == Some(Command::Quit),
        !quit_match(split_ws(line@)) ==> r is None,
{
    let toks = tokenize(line);
    if toks.len() > 0 && token_is(&toks[0], "quit") {
        Some(Command::Quit)
    } else {
        None
    }
}

/// Parses one line: the first of the four grammars that matches wins.
#[allow(non_snake_case)]
pub fn parseCommand(cmd: &str) -> (r: Option<Command>)
    ensures
        r matches Some(c) ==> parse_spec(split_ws(cmd@)) == Some(c@),
        r is None ==> parse_spec(split_ws(cmd@)) is None,
{
    match parseReg(cmd) {
        Some(c) => Some(c),
        None => match parseLogin(cmd) {
            Some(c) => Some(c),
            None => match parseText(cmd) {
                Some(c) => Some(c),
                None => parseQuit(cmd),
            },
        },
    }
}

} // verus!
