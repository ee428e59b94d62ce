use crate::text::{is_white_space, white_space};
use vstd::prelude::*;

verus! {

/// A command word with its arguments, which are text or nested commands.
#[derive(Debug)]
pub struct CommandNode {
    pub name: String,
    pub args: Vec<Arg>,
}

/// An argument: a nested command or plain text.
#[derive(Debug)]
pub enum Arg {
    Command(CommandNode),
    Text(String),
}

/// Why a command line could not be read.
#[derive(Debug)]
pub enum ParseError {
    MismatchedParentheses,
    UnexpectedEndOfInput,
    NoCommandFound,
    General(String),
}

/// A token of a command line, and whether it was written in double quotes.
#[derive(Debug, Clone)]
pub struct Token {
    pub text: String,
    pub is_quoted: bool,
}

/// The text and quotedness of each token.
pub open spec fn tokens_view(v: Seq<Token>) -> Seq<(Seq<char>, bool)> {
    v.map_values(|t: Token| (t.text@, t.is_quoted))
}

/// What the tokenizer is in the middle of.
pub enum LexMode {
    /// Between tokens.
    Between,
    /// Reading an unquoted word.
    Word,
    /// Inside double quotes.
    Quoted,
}

/// The tokenizer's state after a prefix of the input: the finished tokens,
/// the mode, and the characters of the token being read.
pub struct LexState {
    pub toks: Seq<(Seq<char>, bool)>,
    pub mode: LexMode,
    pub cur: Seq<char>,
}

/// Whether a character ends an unquoted word.
pub open spec fn ends_word(c: char) -> bool {
    is_white_space(c) || c == '(' || c == ')' || c == '"'
}

/// A quoted token keeps its quotes.
pub open spec fn quoted_text(inner: Seq<char>) -> Seq<char> {
    seq!['"'] + inner + seq!['"']
}

/// How one more character moves the tokenizer. White space separates
/// tokens, each parenthesis is a token of its own, double quotes enclose a
/// token that may hold anything but a double quote, and any other run of
/// characters is a word.
pub open spec fn lex_step(st: LexState, c: char) -> LexState {
    match st.mode {
        LexMode::Between => if is_white_space(c) {
            st
        } else if c == '(' || c == ')' {
            LexState { toks: st.toks.push((seq![c], false)), ..st }
        } else if c == '"' {
            LexState { mode: LexMode::Quoted, cur: Seq::empty(), ..st }
        } else {
            LexState { mode: LexMode::Word, cur: seq![c], ..st }
        },
        LexMode::Word => if is_white_space(c) {
            LexState { toks: st.toks.push((st.cur, false)), mode: LexMode::Between, cur: Seq::empty() }
        } else if c == '(' || c == ')' {
            LexState {
                toks: st.toks.push((st.cur, false)).push((seq![c], false)),
                mode: LexMode::Between,
                cur: Seq::empty(),
            }
        } else if c == '"' {
            LexState { toks: st.toks.push((st.cur, false)), mode: LexMode::Quoted, cur: Seq::empty() }
        } else {
            LexState { cur: st.cur.push(c), ..st }
        },
        LexMode::Quoted => if c == '"' {
            LexState {
                toks: st.toks.push((quoted_text(st.cur), true)),
                mode: LexMode::Between,
                cur: Seq::empty(),
            }
        } else {
            LexState { cur: st.cur.push(c), ..st }
        },
    }
}

/// The tokenizer's state after reading all of `s`.
pub open spec fn lex_state(s: Seq<char>) -> LexState
    decreases s.len(),
{
    if s.len() == 0 {
        LexState { toks: Seq::empty(), mode: LexMode::Between, cur: Seq::empty() }
    } else {
        lex_step(lex_state(s.drop_last()), s.last())
    }
}

/// The tokens of a command line, or `None` when a double quote is left open.
pub open spec fn tokenize_spec(s: Seq<char>) -> Option<Seq<(Seq<char>, bool)>> {
    let st = lex_state(s);
    match st.mode {
        LexMode::Between => Some(st.toks),
        LexMode::Word => Some(st.toks.push((st.cur, false))),
        LexMode::Quoted => None,
    }
}

fn token(text: String, is_quoted: bool) -> (r: Token)
    ensures
        r.text == text,
        r.is_quoted == is_quoted,
{
    Token { text, is_quoted }
}

/// Splits a command line into tokens. Fails when a double quote is not
/// closed.
pub fn tokenize(input: &str) -> (r: Result<Vec<Token>, ParseError>)
    ensures
        match tokenize_spec(input@) {
            Some(toks) => r is Ok && tokens_view(r->Ok_0@) == toks,
            None => r is Err && r->Err_0 is General && r->Err_0->General_0@
                == "Unclosed double quote"@,
        },
{
    let n = input.unicode_len();
    let mut result: Vec<Token> = Vec::new();
    let mut mode = LexMode::Between;
    let mut cur = String::new();
    let mut i: usize = 0;
    assert(input@.subrange(0, 0) =~= Seq::<char>::empty());
    while i < n
        invariant
            n == input@.len(),
            0 <= i <= n,
            ({
                let st = lex_state(input@.subrange(0, i as int));
                &&& tokens_view(result@) == st.toks
                &&& mode == st.mode
                &&& cur@ == st.cur
            }),
        decreases n - i,
    {
        let c = input.get_char(i);
        let one = input.substring_char(i, i + 1);
        assert(one@ =~= seq![c]);
        let ghost pre = input@.subrange(0, i as int);
        let ghost next = input@.subrange(0, i + 1);
        assert(next.drop_last() =~= pre);
        assert(next.last() == c);
        let ghost before = result@;
        let ghost cur0 = cur@;
        match mode {
            LexMode::Between => {
                if white_space(c) {
                } else if c == '(' || c == ')' {
                    result.push(token(String::from_str(one), false));
                    assert(tokens_view(result@) =~= tokens_view(before).push((seq![c], false)));
                } else if c == '"' {
                    mode = LexMode::Quoted;
                    cur = String::new();
                } else {
                    mode = LexMode::Word;
                    cur = String::from_str(one);
                }
            },
            LexMode::Word => {
                if white_space(c) || c == '(' || c == ')' || c == '"' {
                    let word = cur;
                    result.push(token(word, false));
                    assert(tokens_view(result@) =~= tokens_view(before).push((cur0, false)));
                    cur = String::new();
                    if c == '(' || c == ')' {
                        let ghost mid = result@;
                        result.push(token(String::from_str(one), false));
                        assert(tokens_view(result@) =~= tokens_view(mid).push((seq![c], false)));
                        mode = LexMode::Between;
                    } else if c == '"' {
                        mode = LexMode::Quoted;
                    } else {
                        mode = LexMode::Between;
                    }
                } else {
                    cur.append(one);
                }
            },
            LexMode::Quoted => {
                if c == '"' {
                    let text = String::from_str("\"").concat(cur.as_str()).concat("\"");
                    proof {
                        reveal_strlit("\"");
                    }
                    assert(text@ =~= quoted_text(cur0));
                    result.push(token(text, true));
                    assert(tokens_view(result@) =~= tokens_view(before).push(
                        (quoted_text(cur0), true),
                    ));
                    cur = String::new();
                    mode = LexMode::Between;
                } else {
                    cur.append(one);
                }
            },
        }
        i = i + 1;
    }
    assert(input@.subrange(0, n as int) =~= input@);
    match mode {
        LexMode::Between => Ok(result),
        LexMode::Word => {
            let ghost before = result@;
            let ghost cur0 = cur@;
            result.push(token(cur, false));
            assert(tokens_view(result@) =~= tokens_view(before).push((cur0, false)));
            Ok(result)
        },
        LexMode::Quoted => Err(ParseError::General(String::from_str("Unclosed double quote"))),
    }
}

} // verus!

verus! {

/// A parsed command as mathematical text.
pub struct NodeSpec {
    pub name: Seq<char>,
    pub args: Seq<ArgSpec>,
}

/// A parsed argument as mathematical text.
pub enum ArgSpec {
    Command(NodeSpec),
    Text(Seq<char>),
}

/// The text of a parsed command.
pub open spec fn node_view(n: CommandNode) -> NodeSpec
    decreases n,
{
    NodeSpec { name: n.name@, args: args_view(n.args@) }
}

/// The text of a list of arguments.
pub open spec fn args_view(a: Seq<Arg>) -> Seq<ArgSpec>
    decreases a,
{
    if a.len() == 0 {
        Seq::empty()
    } else {
        args_view(a.drop_last()).push(arg_view(a.last()))
    }
}

/// The text of an argument.
pub open spec fn arg_view(a: Arg) -> ArgSpec
    decreases a,
{
    match a {
        Arg::Command(c) => ArgSpec::Command(node_view(c)),
        Arg::Text(t) => ArgSpec::Text(t@),
    }
}

} // verus!

verus! {

/// A kind of failure of the command grammar.
pub enum GrammarError {
    Mismatched,
    EndOfInput,
    NoCommand,
}

/// The error value of a kind of grammar failure.
pub open spec fn grammar_error(k: GrammarError) -> ParseError {
    match k {
        GrammarError::Mismatched => ParseError::MismatchedParentheses,
        GrammarError::EndOfInput => ParseError::UnexpectedEndOfInput,
        GrammarError::NoCommand => ParseError::NoCommandFound,
    }
}

/// Whether a token is an unquoted opening parenthesis.
pub open spec fn is_open(t: (Seq<char>, bool)) -> bool {
    t.0 == seq!['('] && !t.1
}

/// Whether a token is an unquoted closing parenthesis.
pub open spec fn is_close(t: (Seq<char>, bool)) -> bool {
    t.0 == seq![')'] && !t.1
}

/// Whether a token is an unquoted command word.
pub open spec fn is_command(t: (Seq<char>, bool), cmds: Seq<Seq<char>>) -> bool {
    !t.1 && cmds.contains(t.0)
}

/// Reading one command at `pos`: either a parenthesized command, or a
/// command word followed by its arguments. Gives the result and the position
/// after what was read.
pub open spec fn parse_rec_spec(t: Seq<(Seq<char>, bool)>, pos: int, cmds: Seq<Seq<char>>) -> (
    Result<NodeSpec, GrammarError>,
    int,
)
    decreases t.len() - pos, 1int,
{
    if pos < 0 || pos >= t.len() {
        (Err(GrammarError::EndOfInput), pos)
    } else if is_open(t[pos]) {
        let (r, p) = parse_rec_spec(t, pos + 1, cmds);
        match r {
            Err(e) => (Err(e), p),
            Ok(c) => if p < 0 || p >= t.len() || !is_close(t[p]) {
                (Err(GrammarError::Mismatched), p)
            } else {
                (Ok(c), p + 1)
            },
        }
    } else if !is_command(t[pos], cmds) {
        (Err(GrammarError::NoCommand), pos)
    } else {
        parse_args_spec(t, pos + 1, cmds, NodeSpec { name: t[pos].0, args: Seq::empty() })
    }
}

/// Reading the arguments of `node` from `pos` until a closing parenthesis
/// or the end: a parenthesized command, a command word with its own
/// arguments, or text.
pub open spec fn parse_args_spec(
    t: Seq<(Seq<char>, bool)>,
    pos: int,
    cmds: Seq<Seq<char>>,
    node: NodeSpec,
) -> (Result<NodeSpec, GrammarError>, int)
    decreases t.len() - pos, 0int,
{
    if pos < 0 || pos >= t.len() || is_close(t[pos]) {
        (Ok(node), pos)
    } else if is_open(t[pos]) {
        let (r, p) = parse_rec_spec(t, pos + 1, cmds);
        match r {
            Err(e) => (Err(e), p),
            Ok(c) => if p < 0 || p >= t.len() || !is_close(t[p]) {
                (Err(GrammarError::Mismatched), p)
            } else if p + 1 <= pos {
                (Err(GrammarError::Mismatched), p)
            } else {
                parse_args_spec(
                    t,
                    p + 1,
                    cmds,
                    NodeSpec { args: node.args.push(ArgSpec::Command(c)), ..node },
                )
            },
        }
    } else if is_command(t[pos], cmds) {
        let (r, p) = parse_args_spec(
            t,
            pos + 1,
            cmds,
            NodeSpec { name: t[pos].0, args: Seq::empty() },
        );
        match r {
            Err(e) => (Err(e), p),
            Ok(c) => if p <= pos || p > t.len() {
                (Err(GrammarError::Mismatched), p)
            } else {
                parse_args_spec(
                    t,
                    p,
                    cmds,
                    NodeSpec { args: node.args.push(ArgSpec::Command(c)), ..node },
                )
            },
        }
    } else {
        parse_args_spec(
            t,
            pos + 1,
            cmds,
            NodeSpec { args: node.args.push(ArgSpec::Text(t[pos].0)), ..node },
        )
    }
}

} // verus!

verus! {

/// Whether an exec result is what the grammar gives.
pub open spec fn result_matches(
    r: Result<CommandNode, ParseError>,
    s: Result<NodeSpec, GrammarError>,
) -> bool {
    match s {
        Ok(n) => r is Ok && node_view(r->Ok_0) == n,
        Err(k) => r == Err::<CommandNode, ParseError>(grammar_error(k)),
    }
}

/// Whether a token is the given character, unquoted.
fn is_bare_char(t: &Token, c: char) -> (r: bool)
    ensures
        r == (t.text@ == seq![c] && !t.is_quoted),
{
    if t.is_quoted {
        return false;
    }
    let s = t.text.as_str();
    if s.unicode_len() != 1 {
        return false;
    }
    let first = s.get_char(0);
    if first == c {
        assert(s@ =~= seq![c]);
        true
    } else {
        false
    }
}

/// Whether a word is one of the recognized commands.
pub fn is_recognized_command(txt: &str, command_list: &Vec<String>) -> (r: bool)
    ensures
        r == crate::text::strings_view(command_list@).contains(txt@),
{
    let t = String::from_str(txt);
    let mut k: usize = 0;
    while k < command_list.len()
        invariant
            0 <= k <= command_list@.len(),
            t@ == txt@,
            forall|j: int| 0 <= j < k ==> command_list@[j]@ != txt@,
        decreases command_list@.len() - k,
    {
        if command_list[k] == t {
            assert(crate::text::strings_view(command_list@)[k as int] == txt@);
            return true;
        }
        k = k + 1;
    }
    assert forall|j: int| 0 <= j < command_list@.len() implies crate::text::strings_view(
        command_list@,
    )[j] != txt@ by {
        assert(crate::text::strings_view(command_list@)[j] == command_list@[j]@);
    }
    false
}

/// Checks that a token list starts with an unquoted recognized command.
pub fn verify_command(tokens: &[Token], command_list: &Vec<String>) -> (r: Result<(), ParseError>)
    ensures
        tokens@.len() == 0 ==> r == Err::<(), ParseError>(ParseError::UnexpectedEndOfInput),
        tokens@.len() > 0 ==> if is_command(
            tokens_view(tokens@)[0],
            crate::text::strings_view(command_list@),
        ) {
            r == Ok::<(), ParseError>(())
        } else {
            r == Err::<(), ParseError>(ParseError::NoCommandFound)
        },
{
    if tokens.len() == 0 {
        return Err(ParseError::UnexpectedEndOfInput);
    }
    if tokens[0].is_quoted || !is_recognized_command(tokens[0].text.as_str(), command_list) {
        return Err(ParseError::NoCommandFound);
    }
    Ok(())
}

proof fn lemma_args_view_push(a: Seq<Arg>, x: Arg)
    ensures
        args_view(a.push(x)) == args_view(a).push(arg_view(x)),
{
    assert(a.push(x).drop_last() =~= a);
}

fn parse_rec(tokens: &[Token], pos: usize, command_list: &Vec<String>) -> (r: (
    Result<CommandNode, ParseError>,
    usize,
))
    requires
        pos <= tokens@.len(),
    ensures
        ({
            let s = parse_rec_spec(
                tokens_view(tokens@),
                pos as int,
                crate::text::strings_view(command_list@),
            );
            &&& r.1 as int == s.1
            &&& pos <= r.1 <= tokens@.len()
            &&& result_matches(r.0, s.0)
        }),
    decreases tokens@.len() - pos, 1int,
{
    let ghost t = tokens_view(tokens@);
    let ghost c = crate::text::strings_view(command_list@);
    if pos >= tokens.len() {
        return (Err(ParseError::UnexpectedEndOfInput), pos);
    }
    assert(t[pos as int] == (tokens@[pos as int].text@, tokens@[pos as int].is_quoted));
    if is_bare_char(&tokens[pos], '(') {
        let (r, q) = parse_rec(tokens, pos + 1, command_list);
        match r {
            Err(e) => (Err(e), q),
            Ok(cmd) => {
                if q >= tokens.len() {
                    return (Err(ParseError::MismatchedParentheses), q);
                }
                assert(t[q as int] == (tokens@[q as int].text@, tokens@[q as int].is_quoted));
                if !is_bare_char(&tokens[q], ')') {
                    return (Err(ParseError::MismatchedParentheses), q);
                }
                (Ok(cmd), q + 1)
            },
        }
    } else if tokens[pos].is_quoted || !is_recognized_command(
        tokens[pos].text.as_str(),
        command_list,
    ) {
        (Err(ParseError::NoCommandFound), pos)
    } else {
        parse_args(tokens, pos + 1, command_list, tokens[pos].text.clone())
    }
}

fn parse_args(tokens: &[Token], pos: usize, command_list: &Vec<String>, name: String) -> (r: (
    Result<CommandNode, ParseError>,
    usize,
))
    requires
        pos <= tokens@.len(),
    ensures
        ({
            let s = parse_args_spec(
                tokens_view(tokens@),
                pos as int,
                crate::text::strings_view(command_list@),
                NodeSpec { name: name@, args: Seq::empty() },
            );
            &&& r.1 as int == s.1
            &&& pos <= r.1 <= tokens@.len()
            &&& result_matches(r.0, s.0)
        }),
    decreases tokens@.len() - pos, 0int,
{
    let ghost t = tokens_view(tokens@);
    let ghost c = crate::text::strings_view(command_list@);
    let ghost start = NodeSpec { name: name@, args: Seq::empty() };
    let mut args: Vec<Arg> = Vec::new();
    let mut p: usize = pos;
    assert(args_view(args@) =~= Seq::<ArgSpec>::empty());
    while p < tokens.len() && !is_bare_char(&tokens[p], ')')
        invariant
            pos <= p <= tokens@.len(),
            t == tokens_view(tokens@),
            c == crate::text::strings_view(command_list@),
            start == (NodeSpec { name: name@, args: Seq::empty() }),
            parse_args_spec(t, pos as int, c, start) == parse_args_spec(
                t,
                p as int,
                c,
                NodeSpec { name: name@, args: args_view(args@) },
            ),
        decreases tokens@.len() - p,
    {
        let ghost node = NodeSpec { name: name@, args: args_view(args@) };
        assert(t[p as int] == (tokens@[p as int].text@, tokens@[p as int].is_quoted));
        if is_bare_char(&tokens[p], '(') {
            let (r, q) = parse_rec(tokens, p + 1, command_list);
            match r {
                Err(e) => {
                    return (Err(e), q);
                },
                Ok(cmd) => {
                    if q >= tokens.len() {
                        return (Err(ParseError::MismatchedParentheses), q);
                    }
                    assert(t[q as int] == (tokens@[q as int].text@, tokens@[q as int].is_quoted));
                    if !is_bare_char(&tokens[q], ')') {
                        return (Err(ParseError::MismatchedParentheses), q);
                    }
                    let ghost cv = node_view(cmd);
                    proof {
                        lemma_args_view_push(args@, Arg::Command(cmd));
                    }
                    args.push(Arg::Command(cmd));
                    assert(NodeSpec { name: name@, args: args_view(args@) } == NodeSpec {
                        args: node.args.push(ArgSpec::Command(cv)),
                        ..node
                    });
                    p = q + 1;
                },
            }
        } else if !tokens[p].is_quoted && is_recognized_command(
            tokens[p].text.as_str(),
            command_list,
        ) {
            let (r, q) = parse_args(tokens, p + 1, command_list, tokens[p].text.clone());
            match r {
                Err(e) => {
                    return (Err(e), q);
                },
                Ok(cmd) => {
                    let ghost cv = node_view(cmd);
                    proof {
                        lemma_args_view_push(args@, Arg::Command(cmd));
                    }
                    args.push(Arg::Command(cmd));
                    assert(NodeSpec { name: name@, args: args_view(args@) } == NodeSpec {
                        args: node.args.push(ArgSpec::Command(cv)),
                        ..node
                    });
                    p = q;
                },
            }
        } else {
            let text = tokens[p].text.clone();
            proof {
                lemma_args_view_push(args@, Arg::Text(text));
            }
            args.push(Arg::Text(text));
            p = p + 1;
        }
    }
    let ghost fin = NodeSpec { name: name@, args: args_view(args@) };
    let node = CommandNode { name, args };
    assert(node_view(node) == fin);
    (Ok(node), p)
}

/// Parses a token list into one command tree; tokens left over after the
/// command are an error.
pub fn parse(tokens: &[Token], command_list: &Vec<String>) -> (r: Result<CommandNode, ParseError>)
    ensures
        ({
            let s = parse_rec_spec(
                tokens_view(tokens@),
                0,
                crate::text::strings_view(command_list@),
            );
            if s.1 < tokens@.len() {
                r is Err && r->Err_0 is General && r->Err_0->General_0@
                    == "Unconsumed tokens remain after parsing"@
            } else {
                result_matches(r, s.0)
            }
        }),
{
    let (tree, p) = parse_rec(tokens, 0, command_list);
    if p < tokens.len() {
        return Err(ParseError::General(String::from_str("Unconsumed tokens remain after parsing")));
    }
    tree
}

} // verus!

verus! {

/// The text of a table from command names to their allowed flags.
pub open spec fn flags_view(v: Seq<(String, Vec<String>)>) -> Seq<(Seq<char>, Seq<Seq<char>>)> {
    v.map_values(|e: (String, Vec<String>)| (e.0@, crate::text::strings_view(e.1@)))
}

/// The flags allowed for a command: those of its first entry in the table.
pub open spec fn lookup_flags(table: Seq<(Seq<char>, Seq<Seq<char>>)>, name: Seq<char>) -> Option<
    Seq<Seq<char>>,
>
    decreases table.len(),
{
    if table.len() == 0 {
        None
    } else if table[0].0 == name {
        Some(table[0].1)
    } else {
        lookup_flags(table.drop_first(), name)
    }
}

/// Whether a text argument of command `name` is a flag it does not allow.
pub open spec fn bad_flag(
    table: Seq<(Seq<char>, Seq<Seq<char>>)>,
    name: Seq<char>,
    text: Seq<char>,
) -> bool {
    crate::text::has_prefix(text, seq!['-']) && !(match lookup_flags(table, name) {
        Some(v) => v.contains(text),
        None => false,
    })
}

/// The first flag, in reading order, used where it is not allowed, with the
/// command it was given to.
pub open spec fn node_flag_error(n: NodeSpec, table: Seq<(Seq<char>, Seq<Seq<char>>)>) -> Option<
    (Seq<char>, Seq<char>),
>
    decreases n,
{
    args_flag_error(n.name, n.args, table)
}

/// The first misplaced flag among the arguments of command `name`.
pub open spec fn args_flag_error(
    name: Seq<char>,
    args: Seq<ArgSpec>,
    table: Seq<(Seq<char>, Seq<Seq<char>>)>,
) -> Option<(Seq<char>, Seq<char>)>
    decreases args,
{
    if args.len() == 0 {
        None
    } else {
        match args[0] {
            ArgSpec::Command(sub) => match node_flag_error(sub, table) {
                Some(e) => Some(e),
                None => args_flag_error(name, args.drop_first(), table),
            },
            ArgSpec::Text(t) => if bad_flag(table, name, t) {
                Some((t, name))
            } else {
                args_flag_error(name, args.drop_first(), table)
            },
        }
    }
}

/// The message of a misplaced flag.
pub open spec fn flag_message(flag: Seq<char>, name: Seq<char>) -> Seq<char> {
    "Flag "@ + flag + " cannot be used as an argument for "@ + name
}

proof fn lemma_args_view_index(a: Seq<Arg>, i: int)
    requires
        0 <= i < a.len(),
    ensures
        args_view(a).len() == a.len(),
        args_view(a)[i] == arg_view(a[i]),
    decreases a.len(),
{
    if i < a.len() - 1 {
        lemma_args_view_index(a.drop_last(), i);
    } else {
        lemma_args_view_len(a.drop_last());
    }
}

proof fn lemma_args_view_len(a: Seq<Arg>)
    ensures
        args_view(a).len() == a.len(),
    decreases a.len(),
{
    if a.len() > 0 {
        lemma_args_view_len(a.drop_last());
    }
}

fn flags_for<'a>(allowed: &'a Vec<(String, Vec<String>)>, name: &String) -> (r: Option<&'a Vec<String>>)
    ensures
        match lookup_flags(flags_view(allowed@), name@) {
            Some(v) => r is Some && crate::text::strings_view(r->0@) == v,
            None => r is None,
        },
{
    let ghost tbl = flags_view(allowed@);
    let mut k: usize = 0;
    assert(tbl.subrange(0, tbl.len() as int) =~= tbl);
    while k < allowed.len()
        invariant
            0 <= k <= allowed@.len(),
            tbl == flags_view(allowed@),
            lookup_flags(tbl, name@) == lookup_flags(tbl.subrange(k as int, tbl.len() as int), name@),
        decreases allowed@.len() - k,
    {
        let ghost rest = tbl.subrange(k as int, tbl.len() as int);
        assert(rest[0] == tbl[k as int]);
        assert(rest.drop_first() =~= tbl.subrange(k + 1, tbl.len() as int));
        if allowed[k].0 == *name {
            return Some(&allowed[k].1);
        }
        k = k + 1;
    }
    None
}

fn contains_string(v: &Vec<String>, s: &String) -> (r: bool)
    ensures
        r == crate::text::strings_view(v@).contains(s@),
{
    let mut k: usize = 0;
    while k < v.len()
        invariant
            0 <= k <= v@.len(),
            forall|j: int| 0 <= j < k ==> v@[j]@ != s@,
        decreases v@.len() - k,
    {
        if v[k] == *s {
            assert(crate::text::strings_view(v@)[k as int] == s@);
            return true;
        }
        k = k + 1;
    }
    assert forall|j: int| 0 <= j < v@.len() implies crate::text::strings_view(v@)[j] != s@ by {
        assert(crate::text::strings_view(v@)[j] == v@[j]@);
    }
    false
}

/// Checks that every flag (a text argument starting with `-`) is one that
/// its command allows, in nested commands too. The first misplaced flag, in
/// reading order, is reported.
pub fn verify_flags(cmd: &CommandNode, allowed_flags: &Vec<(String, Vec<String>)>) -> (r: Result<
    (),
    ParseError,
>)
    ensures
        match node_flag_error(node_view(*cmd), flags_view(allowed_flags@)) {
            None => r is Ok,
            Some((flag, name)) => r is Err && r->Err_0 is General && r->Err_0->General_0@
                == flag_message(flag, name),
        },
    decreases cmd,
{
    let ghost tbl = flags_view(allowed_flags@);
    let ghost av = args_view(cmd.args@);
    proof {
        lemma_args_view_len(cmd.args@);
    }
    let mut i: usize = 0;
    assert(av.subrange(0, av.len() as int) =~= av);
    while i < cmd.args.len()
        invariant
            0 <= i <= cmd.args@.len(),
            av == args_view(cmd.args@),
            av.len() == cmd.args@.len(),
            tbl == flags_view(allowed_flags@),
            node_flag_error(node_view(*cmd), tbl) == args_flag_error(
                cmd.name@,
                av.subrange(i as int, av.len() as int),
                tbl,
            ),
        decreases cmd.args@.len() - i,
    {
        let ghost rest = av.subrange(i as int, av.len() as int);
        proof {
            lemma_args_view_index(cmd.args@, i as int);
        }
        assert(rest[0] == av[i as int]);
        assert(rest.drop_first() =~= av.subrange(i + 1, av.len() as int));
        match &cmd.args[i] {
            Arg::Command(sub) => {
                assert(decreases_to!(*cmd => cmd.args));
                assert(decreases_to!(cmd.args => cmd.args@[i as int]));
                match verify_flags(sub, allowed_flags) {
                    Ok(()) => {},
                    Err(e) => {
                        return Err(e);
                    },
                }
            },
            Arg::Text(text) => {
                if crate::text::starts_with(text.as_str(), "-") {
                    proof {
                        reveal_strlit("-");
                    }
                    assert("-"@ =~= seq!['-']);
                    let ok = match flags_for(allowed_flags, &cmd.name) {
                        Some(v) => contains_string(v, text),
                        None => false,
                    };
                    if !ok {
                        let msg = String::from_str("Flag ").concat(text.as_str()).concat(
                            " cannot be used as an argument for ",
                        ).concat(cmd.name.as_str());
                        return Err(ParseError::General(msg));
                    }
                } else {
                    proof {
                        reveal_strlit("-");
                    }
                    assert("-"@ =~= seq!['-']);
                }
            },
        }
        i = i + 1;
    }
    Ok(())
}

} // verus!
