use vstd::prelude::*;

use vstd::string::*;

use crate::models::channel::Channel;
use crate::models::user::User;
use crate::text::{chars_of, parse_u64, spec_parse_u64, str_eq, string_of, strings_view};

verus! {

/// White space as `char::is_whitespace` has it (the Unicode `White_Space` property).
pub open spec fn is_ws(c: char) -> bool {
    c == '\t' || c == '\n' || c == '\u{0B}' || c == '\u{0C}' || c == '\r' || c == ' '
        || c == '\u{85}' || c == '\u{A0}' || c == '\u{1680}' || ('\u{2000}' <= c && c
        <= '\u{200A}') || c == '\u{2028}' || c == '\u{2029}' || c == '\u{202F}' || c
        == '\u{205F}' || c == '\u{3000}'
}

fn is_ws_exec(c: char) -> (r: bool)
    ensures
        r == is_ws(c),
{
    c == '\t' || c == '\n' || c == '\u{0B}' || c == '\u{0C}' || c == '\r' || c == ' '
        || c == '\u{85}' || c == '\u{A0}' || c == '\u{1680}' || ('\u{2000}' <= c && c
        <= '\u{200A}') || c == '\u{2028}' || c == '\u{2029}' || c == '\u{202F}' || c
        == '\u{205F}' || c == '\u{3000}'
}

/// Words and the word in progress while splitting on white space.
pub struct SplitState {
    pub words: Seq<Seq<char>>,
    pub cur: Seq<char>,
}

pub open spec fn split_run(s: Seq<char>) -> SplitState
    decreases s.len(),
{
    if s.len() == 0 {
        SplitState { words: seq![], cur: seq![] }
    } else {
        let st = split_run(s.drop_last());
        let c = s.last();
        if is_ws(c) {
            if st.cur.len() > 0 {
                SplitState { words: st.words.push(st.cur), cur: seq![] }
            } else {
                st
            }
        } else {
            SplitState { words: st.words, cur: st.cur.push(c) }
        }
    }
}

/// The non-empty runs of non-white-space characters, in order.
pub open spec fn split_ws(s: Seq<char>) -> Seq<Seq<char>> {
    let st = split_run(s);
    if st.cur.len() > 0 {
        st.words.push(st.cur)
    } else {
        st.words
    }
}

/// The tokenizer's state: finished arguments, the argument in progress, the open quote.
pub struct TokState {
    pub args: Seq<Seq<char>>,
    pub cur: Seq<char>,
    pub quote: Option<char>,
}

/// One character of command text. Outside quotes a space or tab ends the argument in
/// progress. A quote character opens a quote (and is kept for now); the same character
/// closes it and drops the first character of the argument in progress (the opening quote
/// when the quote began the argument). Any other character is added.
pub open spec fn tok_step(st: TokState, c: char) -> TokState {
    if (c == ' ' || c == '\t') && st.quote is None {
        if st.cur.len() > 0 {
            TokState { args: st.args.push(st.cur), cur: seq![], quote: None }
        } else {
            st
        }
    } else if c == '\'' || c == '"' {
        if st.quote is None {
            TokState { args: st.args, cur: st.cur.push(c), quote: Some(c) }
        } else if st.quote == Some(c) {
            TokState {
                args: st.args,
                cur: if st.cur.len() > 0 { st.cur.drop_first() } else { st.cur },
                quote: None,
            }
        } else {
            TokState { args: st.args, cur: st.cur.push(c), quote: st.quote }
        }
    } else {
        TokState { args: st.args, cur: st.cur.push(c), quote: st.quote }
    }
}

pub open spec fn tok_run(s: Seq<char>) -> TokState
    decreases s.len(),
{
    if s.len() == 0 {
        TokState { args: seq![], cur: seq![], quote: None }
    } else {
        tok_step(tok_run(s.drop_last()), s.last())
    }
}

/// The arguments of command text: the tokenizer's arguments, then the one in progress; if
/// a quote is still open, that last one is split on white space instead.
pub open spec fn spec_parse_args(s: Seq<char>) -> Seq<Seq<char>> {
    let st = tok_run(s);
    if st.cur.len() > 0 {
        if st.quote is Some {
            st.args + split_ws(st.cur)
        } else {
            st.args.push(st.cur)
        }
    } else {
        st.args
    }
}

/// Splits `v` on white space.
fn split_whitespace(v: &Vec<char>) -> (r: Vec<String>)
    ensures
        strings_view(r@) == split_ws(v@),
{
    let mut words: Vec<String> = Vec::new();
    let mut cur: Vec<char> = Vec::new();
    let mut i: usize = 0;
    while i < v.len()
        invariant
            i <= v@.len(),
            strings_view(words@) == split_run(v@.subrange(0, i as int)).words,
            cur@ == split_run(v@.subrange(0, i as int)).cur,
        decreases v@.len() - i,
    {
        let c = v[i];
        assert(v@.subrange(0, i + 1).drop_last() =~= v@.subrange(0, i as int));
        if is_ws_exec(c) {
            if cur.len() > 0 {
                let w = string_of(&cur, 0, cur.len());
                assert(cur@.subrange(0, cur@.len() as int) =~= cur@);
                words.push(w);
                assert(strings_view(words@) =~= split_run(v@.subrange(0, i as int)).words.push(cur@));
                cur = Vec::new();
            }
        } else {
            cur.push(c);
        }
        i = i + 1;
    }
    assert(v@.subrange(0, v@.len() as int) =~= v@);
    if cur.len() > 0 {
        let w = string_of(&cur, 0, cur.len());
        assert(cur@.subrange(0, cur@.len() as int) =~= cur@);
        words.push(w);
        assert(strings_view(words@) =~= split_run(v@).words.push(cur@));
    }
    words
}

/// Splits command text into arguments: on spaces and tabs, with a quoted run kept together
/// as one argument without its quotes.
pub fn parse_args(input: &str) -> (r: Vec<String>)
    ensures
        strings_view(r@) == spec_parse_args(input@),
{
    let s = chars_of(input);
    let mut args: Vec<String> = Vec::new();
    let mut cur: Vec<char> = Vec::new();
    let mut quote: Option<char> = None;
    let mut i: usize = 0;
    while i < s.len()
        invariant
            i <= s@.len(),
            s@ == input@,
            strings_view(args@) == tok_run(s@.subrange(0, i as int)).args,
            cur@ == tok_run(s@.subrange(0, i as int)).cur,
            quote == tok_run(s@.subrange(0, i as int)).quote,
        decreases s@.len() - i,
    {
        let c = s[i];
        assert(s@.subrange(0, i + 1).drop_last() =~= s@.subrange(0, i as int));
        if (c == ' ' || c == '\t') && quote.is_none() {
            if cur.len() > 0 {
                let w = string_of(&cur, 0, cur.len());
                assert(cur@.subrange(0, cur@.len() as int) =~= cur@);
                let ghost before = strings_view(args@);
                args.push(w);
                assert(strings_view(args@) =~= before.push(cur@));
                cur = Vec::new();
            }
        } else if c == '\'' || c == '"' {
            match quote {
                None => {
                    quote = Some(c);
                    cur.push(c);
                },
                Some(q) => {
                    if q == c {
                        quote = None;
                        if cur.len() > 0 {
                            let ghost old_cur = cur@;
                            cur.remove(0);
                            assert(cur@ =~= old_cur.drop_first());
                        }
                    } else {
                        cur.push(c);
                    }
                },
            }
        } else {
            cur.push(c);
        }
        i = i + 1;
    }
    assert(s@.subrange(0, s@.len() as int) =~= s@);
    if cur.len() > 0 {
        if quote.is_some() {
            let words = split_whitespace(&cur);
            let ghost before = strings_view(args@);
            let mut j: usize = 0;
            while j < words.len()
                invariant
                    j <= words@.len(),
                    strings_view(args@) == before + strings_view(words@).subrange(0, j as int),
                decreases words@.len() - j,
            {
                let ghost prev = strings_view(args@);
                args.push(words[j].clone());
                assert(strings_view(args@) =~= prev.push(words@[j as int]@));
                assert(strings_view(words@).subrange(0, j + 1) =~= strings_view(words@).subrange(0, j as int).push(words@[j as int]@));
                j = j + 1;
            }
            assert(strings_view(words@).subrange(0, words@.len() as int) =~= strings_view(words@));
        } else {
            let w = string_of(&cur, 0, cur.len());
            assert(cur@.subrange(0, cur@.len() as int) =~= cur@);
            let ghost before = strings_view(args@);
            args.push(w);
            assert(strings_view(args@) =~= before.push(cur@));
        }
    }
    args
}

/// The declared type of a command parameter.
#[derive(Debug, Clone, Copy, PartialEq, Eq, Structural)]
pub enum ParamType {
    String,
    Int,
    Bool,
    Channel,
    User,
    /// The rest of the input, one string per token; the last parameter.
    Args,
}

/// Why a command could not be run.
#[derive(Debug, Clone)]
pub enum DescordError {
    /// A required argument is missing; holds the command's name.
    MissingRequiredArgument(String),
    /// An argument does not read as its declared type; holds the command's name.
    InvalidArgument(String),
    /// A channel or user named by a required argument could not be found; holds its id.
    NotFound(String),
}

impl DescordError {
    /// The message shown to the user.
    pub fn message(&self) -> (r: String)
        ensures
            match self {
                DescordError::MissingRequiredArgument(n) => r@ == "Missing required argument for command: "@ + n@,
                DescordError::InvalidArgument(n) => r@ == "Invalid argument for command: "@ + n@,
                DescordError::NotFound(n) => r@ == "Not found: "@ + n@,
            },
    {
        match self {
            DescordError::MissingRequiredArgument(n) => {
                let mut s = String::from_str("Missing required argument for command: ");
                s.append(n.as_str());
                s
            },
            DescordError::InvalidArgument(n) => {
                let mut s = String::from_str("Invalid argument for command: ");
                s.append(n.as_str());
                s
            },
            DescordError::NotFound(n) => {
                let mut s = String::from_str("Not found: ");
                s.append(n.as_str());
                s
            },
        }
    }
}

/// A typed argument handed to a command handler.
#[derive(Debug, Clone)]
pub enum Value {
    String(String),
    Int(i64),
    Bool(bool),
    Channel(Channel),
    User(User),
    Args(Vec<String>),
    StringOption(Option<String>),
    IntOption(Option<i64>),
    BoolOption(Option<bool>),
    ChannelOption(Option<Channel>),
    UserOption(Option<User>),
    /// No value.
    Nothing,
}

/// An argument as read from the input: a value, or the id of a channel or user that is
/// still to be looked up.
#[derive(Debug, Clone)]
pub enum Argument {
    Ready(Value),
    ChannelRef { id: String, optional: bool },
    UserRef { id: String, optional: bool },
}

/// The content of an argument as read from the input.
pub enum ArgView {
    Str(Seq<char>),
    Int(int),
    Bool(bool),
    Rest(Seq<Seq<char>>),
    OptStr(Option<Seq<char>>),
    OptInt(Option<int>),
    OptBool(Option<bool>),
    NoChannel,
    NoUser,
    ChannelRef(Seq<char>, bool),
    UserRef(Seq<char>, bool),
    Other,
}

impl View for Argument {
    type V = ArgView;

    open spec fn view(&self) -> ArgView {
        match self {
            Argument::Ready(Value::String(s)) => ArgView::Str(s@),
            Argument::Ready(Value::Int(n)) => ArgView::Int(*n as int),
            Argument::Ready(Value::Bool(b)) => ArgView::Bool(*b),
            Argument::Ready(Value::Args(v)) => ArgView::Rest(strings_view(v@)),
            Argument::Ready(Value::StringOption(Some(s))) => ArgView::OptStr(Some(s@)),
            Argument::Ready(Value::StringOption(None)) => ArgView::OptStr(None),
            Argument::Ready(Value::IntOption(n)) => ArgView::OptInt(
                match n {
                    Some(n) => Some(*n as int),
                    None => None,
                },
            ),
            Argument::Ready(Value::BoolOption(b)) => ArgView::OptBool(*b),
            Argument::Ready(Value::ChannelOption(None)) => ArgView::NoChannel,
            Argument::Ready(Value::UserOption(None)) => ArgView::NoUser,
            Argument::ChannelRef { id, optional } => ArgView::ChannelRef(id@, *optional),
            Argument::UserRef { id, optional } => ArgView::UserRef(id@, *optional),
            _ => ArgView::Other,
        }
    }
}

/// A signed decimal integer as `i64::from_str` reads it: an optional `+` or `-`, then
/// one or more digits, within the range of `i64`.
pub open spec fn spec_parse_int(s: Seq<char>) -> Option<int> {
    let neg = s.len() > 0 && s[0] == '-';
    let signed = s.len() > 0 && (s[0] == '-' || s[0] == '+');
    let digits = if signed { s.subrange(1, s.len() as int) } else { s };
    match spec_parse_u64(digits) {
        Some(m) => {
            let v = if neg { -(m as int) } else { m as int };
            if i64::MIN <= v <= i64::MAX { Some(v) } else { None }
        },
        None => None,
    }
}

/// `true` or `false`, exactly.
pub open spec fn spec_parse_bool(s: Seq<char>) -> Option<bool> {
    if s == "true"@ {
        Some(true)
    } else if s == "false"@ {
        Some(false)
    } else {
        None
    }
}

/// The id inside a mention such as `<#123>` (with `sigil` `#`) or `<@123>`; other text is
/// taken as the id itself.
pub open spec fn strip_mention(s: Seq<char>, sigil: char) -> Seq<char> {
    if s.len() >= 3 && s[0] == '<' && s[1] == sigil && s.last() == '>' {
        s.subrange(2, s.len() - 1)
    } else {
        s
    }
}

/// Why reading arguments failed.
pub enum ArgErr {
    Missing,
    Invalid,
}

/// Reads the parameter at token position `idx` (tokens from `idx` on are this
/// parameter's). An optional parameter without a token is absent; a required one is missing.
pub open spec fn coerce_one(tokens: Seq<Seq<char>>, idx: int, ty: ParamType, optional: bool) -> Result<ArgView, ArgErr> {
    if 0 <= idx < tokens.len() {
        let t = tokens[idx];
        match ty {
            ParamType::String => Ok(if optional { ArgView::OptStr(Some(t)) } else { ArgView::Str(t) }),
            ParamType::Int => match spec_parse_int(t) {
                Some(n) => Ok(if optional { ArgView::OptInt(Some(n)) } else { ArgView::Int(n) }),
                None => Err(ArgErr::Invalid),
            },
            ParamType::Bool => match spec_parse_bool(t) {
                Some(b) => Ok(if optional { ArgView::OptBool(Some(b)) } else { ArgView::Bool(b) }),
                None => Err(ArgErr::Invalid),
            },
            ParamType::Channel => Ok(ArgView::ChannelRef(strip_mention(t, '#'), optional)),
            ParamType::User => Ok(ArgView::UserRef(strip_mention(t, '@'), optional)),
            ParamType::Args => Ok(ArgView::Rest(tokens.subrange(idx, tokens.len() as int))),
        }
    } else if optional {
        Ok(match ty {
            ParamType::String => ArgView::OptStr(None),
            ParamType::Int => ArgView::OptInt(None),
            ParamType::Bool => ArgView::OptBool(None),
            ParamType::Channel => ArgView::NoChannel,
            ParamType::User => ArgView::NoUser,
            ParamType::Args => ArgView::Rest(seq![]),
        })
    } else {
        Err(ArgErr::Missing)
    }
}

/// Reads the first `k` declared parameters from the tokens from `start` on, in order;
/// the first failure wins.
pub open spec fn coerce_prefix(
    tokens: Seq<Seq<char>>,
    start: int,
    sig: Seq<ParamType>,
    optional: Seq<bool>,
    k: int,
) -> Result<Seq<ArgView>, ArgErr>
    decreases k,
{
    if k <= 0 {
        Ok(seq![])
    } else {
        match coerce_prefix(tokens, start, sig, optional, k - 1) {
            Err(e) => Err(e),
            Ok(s) => match coerce_one(tokens, start + k - 1, sig[k - 1], optional[k - 1]) {
                Err(e) => Err(e),
                Ok(a) => Ok(s.push(a)),
            },
        }
    }
}

pub open spec fn spec_coerce(tokens: Seq<Seq<char>>, start: int, sig: Seq<ParamType>, optional: Seq<bool>) -> Result<Seq<ArgView>, ArgErr> {
    coerce_prefix(tokens, start, sig, optional, sig.len() as int)
}

pub open spec fn args_view(v: Seq<Argument>) -> Seq<ArgView> {
    v.map_values(|a: Argument| a@)
}

/// Reads a signed decimal integer.
pub fn parse_int(s: &str) -> (r: Option<i64>)
    ensures
        r matches Some(n) ==> spec_parse_int(s@) == Some(n as int),
        r is None ==> spec_parse_int(s@) is None,
{
    let v = chars_of(s);
    let n = v.len();
    let neg = n > 0 && v[0] == '-';
    let signed = n > 0 && (v[0] == '-' || v[0] == '+');
    let from: usize = if signed { 1 } else { 0 };
    proof {
        if !signed {
            assert(v@.subrange(0, n as int) =~= v@);
        }
    }
    match parse_u64(&v, from, n) {
        None => None,
        Some(m) => {
            if neg {
                if m <= 9223372036854775807u64 {
                    Some(-(m as i64))
                } else if m == 9223372036854775808u64 {
                    Some(i64::MIN)
                } else {
                    None
                }
            } else {
                if m <= 9223372036854775807u64 {
                    Some(m as i64)
                } else {
                    None
                }
            }
        },
    }
}

/// Reads `true` or `false`.
pub fn parse_bool(s: &str) -> (r: Option<bool>)
    ensures
        r == spec_parse_bool(s@),
{
    if str_eq(s, "true") {
        Some(true)
    } else if str_eq(s, "false") {
        Some(false)
    } else {
        None
    }
}

/// The id in a channel (`<#id>`) or user (`<@id>`) mention.
pub fn mention_id(s: &str, sigil: char) -> (r: String)
    ensures
        r@ == strip_mention(s@, sigil),
{
    let v = chars_of(s);
    let n = v.len();
    if n >= 3 && v[0] == '<' && v[1] == sigil && v[n - 1] == '>' {
        string_of(&v, 2, n - 1)
    } else {
        assert(v@.subrange(0, n as int) =~= v@);
        string_of(&v, 0, n)
    }
}

fn arg_err(e: ArgErr, name: &String) -> (r: DescordError)
    ensures
        match e {
            ArgErr::Missing => r matches DescordError::MissingRequiredArgument(n) && n@ == name@,
            ArgErr::Invalid => r matches DescordError::InvalidArgument(n) && n@ == name@,
        },
{
    match e {
        ArgErr::Missing => DescordError::MissingRequiredArgument(name.clone()),
        ArgErr::Invalid => DescordError::InvalidArgument(name.clone()),
    }
}

/// The error a failed read reports for command `name`.
pub open spec fn err_matches(e: DescordError, k: ArgErr, name: Seq<char>) -> bool {
    match k {
        ArgErr::Missing => e matches DescordError::MissingRequiredArgument(n) && n@ == name,
        ArgErr::Invalid => e matches DescordError::InvalidArgument(n) && n@ == name,
    }
}

fn coerce_at(tokens: &Vec<String>, idx: usize, ty: ParamType, optional: bool) -> (r: Result<Argument, ArgErr>)
    ensures
        match (r, coerce_one(strings_view(tokens@), idx as int, ty, optional)) {
            (Ok(a), Ok(v)) => a@ == v,
            (Err(ArgErr::Missing), Err(ArgErr::Missing)) => true,
            (Err(ArgErr::Invalid), Err(ArgErr::Invalid)) => true,
            _ => false,
        },
{
    let ghost toks = strings_view(tokens@);
    if idx < tokens.len() {
        let t = &tokens[idx];
        assert(toks[idx as int] == t@);
        match ty {
            ParamType::String => Ok(Argument::Ready(
                if optional { Value::StringOption(Some(t.clone())) } else { Value::String(t.clone()) },
            )),
            ParamType::Int => match parse_int(t.as_str()) {
                Some(n) => Ok(Argument::Ready(if optional { Value::IntOption(Some(n)) } else { Value::Int(n) })),
                None => Err(ArgErr::Invalid),
            },
            ParamType::Bool => match parse_bool(t.as_str()) {
                Some(b) => Ok(Argument::Ready(if optional { Value::BoolOption(Some(b)) } else { Value::Bool(b) })),
                None => Err(ArgErr::Invalid),
            },
            ParamType::Channel => Ok(Argument::ChannelRef { id: mention_id(t.as_str(), '#'), optional }),
            ParamType::User => Ok(Argument::UserRef { id: mention_id(t.as_str(), '@'), optional }),
            ParamType::Args => {
                let mut rest: Vec<String> = Vec::new();
                let mut j = idx;
                while j < tokens.len()
                    invariant
                        idx <= j <= tokens@.len(),
                        toks == strings_view(tokens@),
                        strings_view(rest@) == toks.subrange(idx as int, j as int),
                    decreases tokens@.len() - j,
                {
                    let ghost prev = strings_view(rest@);
                    rest.push(tokens[j].clone());
                    assert(strings_view(rest@) =~= prev.push(toks[j as int]));
                    assert(toks.subrange(idx as int, j + 1) =~= toks.subrange(idx as int, j as int).push(toks[j as int]));
                    j = j + 1;
                }
                Ok(Argument::Ready(Value::Args(rest)))
            },
        }
    } else if optional {
        Ok(match ty {
            ParamType::String => Argument::Ready(Value::StringOption(None)),
            ParamType::Int => Argument::Ready(Value::IntOption(None)),
            ParamType::Bool => Argument::Ready(Value::BoolOption(None)),
            ParamType::Channel => Argument::Ready(Value::ChannelOption(None)),
            ParamType::User => Argument::Ready(Value::UserOption(None)),
            ParamType::Args => {
                let v: Vec<String> = Vec::new();
                assert(strings_view(v@) =~= seq![]);
                Argument::Ready(Value::Args(v))
            },
        })
    } else {
        Err(ArgErr::Missing)
    }
}

/// Reads the declared parameters of command `name` from `tokens`, the first parameter from
/// position `start`: in order, each from its own token, and a trailing `Args` parameter from
/// all the tokens left.
pub fn coerce_args(
    name: &String,
    tokens: &Vec<String>,
    start: usize,
    sig: &Vec<ParamType>,
    optional: &Vec<bool>,
) -> (r: Result<Vec<Argument>, DescordError>)
    requires
        sig@.len() == optional@.len(),
        start + sig@.len() <= usize::MAX,
    ensures
        match (r, spec_coerce(strings_view(tokens@), start as int, sig@, optional@)) {
            (Ok(a), Ok(v)) => args_view(a@) == v,
            (Err(e), Err(k)) => err_matches(e, k, name@),
            _ => false,
        },
{
    let mut out: Vec<Argument> = Vec::new();
    assert(args_view(out@) =~= seq![]);
    let mut k: usize = 0;
    while k < sig.len()
        invariant
            k <= sig@.len() == optional@.len(),
            start + sig@.len() <= usize::MAX,
            coerce_prefix(strings_view(tokens@), start as int, sig@, optional@, k as int) == Ok::<Seq<ArgView>, ArgErr>(args_view(out@)),
        decreases sig@.len() - k,
    {
        match coerce_at(tokens, start + k, sig[k], optional[k]) {
            Ok(a) => {
                let ghost prev = args_view(out@);
                out.push(a);
                assert(args_view(out@) =~= prev.push(a@));
            },
            Err(e) => {
                let ghost kind = e;
                let err = arg_err(e, name);
                proof {
                    lemma_prefix_err_stays(strings_view(tokens@), start as int, sig@, optional@, k as int + 1, sig@.len() as int);
                }
                return Err(err);
            },
        }
        k = k + 1;
    }
    Ok(out)
}

/// Once reading a prefix of the parameters fails, reading a longer prefix fails the same way.
proof fn lemma_prefix_err_stays(
    tokens: Seq<Seq<char>>,
    start: int,
    sig: Seq<ParamType>,
    optional: Seq<bool>,
    k: int,
    m: int,
)
    requires
        1 <= k <= m,
        coerce_prefix(tokens, start, sig, optional, k) is Err,
    ensures
        coerce_prefix(tokens, start, sig, optional, m) == coerce_prefix(tokens, start, sig, optional, k),
    decreases m - k,
{
    if k < m {
        lemma_prefix_err_stays(tokens, start, sig, optional, k, m - 1);
    }
}

/// Completes an argument once its channel or user lookup is done: a found object is handed
/// on; a missing one is absent for an optional parameter and an error for a required one.
pub fn resolve_argument(arg: Argument, channel: Option<Channel>, user: Option<User>) -> (r: Result<Value, DescordError>)
    ensures
        match arg {
            Argument::Ready(v) => r matches Ok(w) && w == v,
            Argument::ChannelRef { id, optional } => match channel {
                Some(c) => r matches Ok(w) && (if optional { w == Value::ChannelOption(Some(c)) } else { w == Value::Channel(c) }),
                None => if optional { r matches Ok(w) && w == Value::ChannelOption(None) } else {
                    r matches Err(DescordError::NotFound(n)) && n@ == id@ },
            },
            Argument::UserRef { id, optional } => match user {
                Some(u) => r matches Ok(w) && (if optional { w == Value::UserOption(Some(u)) } else { w == Value::User(u) }),
                None => if optional { r matches Ok(w) && w == Value::UserOption(None) } else {
                    r matches Err(DescordError::NotFound(n)) && n@ == id@ },
            },
        },
{
    match arg {
        Argument::Ready(v) => Ok(v),
        Argument::ChannelRef { id, optional } => match channel {
            Some(c) => Ok(if optional { Value::ChannelOption(Some(c)) } else { Value::Channel(c) }),
            None => if optional { Ok(Value::ChannelOption(None)) } else { Err(DescordError::NotFound(id)) },
        },
        Argument::UserRef { id, optional } => match user {
            Some(u) => Ok(if optional { Value::UserOption(Some(u)) } else { Value::User(u) }),
            None => if optional { Ok(Value::UserOption(None)) } else { Err(DescordError::NotFound(id)) },
        },
    }
}

} // verus!
