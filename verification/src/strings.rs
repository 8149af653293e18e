//! The characters of the string kinds of the grammar: which characters
//! stand for themselves, which escapes each kind knows, and runs of them.
use vstd::prelude::*;
use crate::base::{errs_within, 
    ErrorKind, ParseError, SpecRes, SpecParser, char_at, is_ascii_alphanumeric,
    is_ascii_alphanumeric_exec, is_hex_digit, is_hex_digit_exec, lit_at, matches_at, many,
    many_from, push_char, lemma_many_from_bounds,
};

verus! {

/// The kinds of strings of the grammar; each has its own characters and escapes.
#[derive(Clone, Copy, Debug, PartialEq, Eq, Structural)]
pub enum StrKind {
    /// A string between double quotes.
    Quoted,
    /// A key of a key-value line.
    Key,
    /// A value of a key-value line, up to the end of the line.
    Value,
    /// A file name (also a file name with a password).
    Filename,
    /// A string between backticks.
    Oneline,
    /// The content of a string between triple backticks.
    Multiline,
    /// A JSON string.
    Json,
}

/// The character that `\c` stands for in a string of kind `k`, if any.
pub open spec fn escape_of(k: StrKind, c: char) -> Option<char> {
    if c == '\\' {
        Some('\\')
    } else if c == 'b' {
        Some('\x08')
    } else if c == 'f' {
        Some('\x0C')
    } else if c == 'n' {
        Some('\n')
    } else if c == 'r' {
        Some('\r')
    } else if c == 't' {
        Some('\t')
    } else {
        match k {
            StrKind::Quoted => if c == '"' { Some('"') } else { None },
            StrKind::Key => if c == '#' || c == ':' { Some(c) } else { None },
            StrKind::Value => if c == '#' { Some('#') } else { None },
            StrKind::Filename => if c == '#' || c == ';' || c == ' ' || c == '{' || c == '}' || c
                == ':' {
                Some(c)
            } else {
                None
            },
            StrKind::Oneline => if c == '#' || c == '`' { Some(c) } else { None },
            StrKind::Multiline => if c == '`' { Some('`') } else { None },
            StrKind::Json => if c == '/' || c == '"' { Some(c) } else { None },
        }
    }
}

pub fn escape_of_exec(k: StrKind, c: char) -> (r: Option<char>)
    ensures
        r == escape_of(k, c),
{
    if c == '\\' {
        Some('\\')
    } else if c == 'b' {
        Some('\x08')
    } else if c == 'f' {
        Some('\x0C')
    } else if c == 'n' {
        Some('\n')
    } else if c == 'r' {
        Some('\r')
    } else if c == 't' {
        Some('\t')
    } else {
        match k {
            StrKind::Quoted => if c == '"' { Some('"') } else { None },
            StrKind::Key => if c == '#' || c == ':' { Some(c) } else { None },
            StrKind::Value => if c == '#' { Some('#') } else { None },
            StrKind::Filename => if c == '#' || c == ';' || c == ' ' || c == '{' || c == '}' || c
                == ':' {
                Some(c)
            } else {
                None
            },
            StrKind::Oneline => if c == '#' || c == '`' { Some(c) } else { None },
            StrKind::Multiline => if c == '`' { Some('`') } else { None },
            StrKind::Json => if c == '/' || c == '"' { Some(c) } else { None },
        }
    }
}

/// Whether `c` stands for itself in a string of kind `k` (a `{` or a
/// backtick that may stand for itself only before certain characters is
/// not counted here).
pub open spec fn plain_char(k: StrKind, c: char) -> bool {
    match k {
        StrKind::Quoted => c != '"' && c != '\\' && c != '{',
        StrKind::Key => is_ascii_alphanumeric(c) || c == '_' || c == '-' || c == '.' || c == '['
            || c == ']' || c == '@' || c == '$',
        StrKind::Value => c != '#' && c != '\n' && c != '\\' && c != '{',
        StrKind::Filename => c != '#' && c != ';' && c != '{' && c != '}' && c != ' ' && c != '\n'
            && c != '\\',
        StrKind::Oneline => c != '#' && c != '\n' && c != '\\' && c != '{' && c != '`',
        StrKind::Multiline => c != '\\' && c != '{' && c != '`',
        StrKind::Json => c != '\\' && c != '"' && c != '{',
    }
}

pub fn plain_char_exec(k: StrKind, c: char) -> (b: bool)
    ensures
        b == plain_char(k, c),
{
    match k {
        StrKind::Quoted => c != '"' && c != '\\' && c != '{',
        StrKind::Key => is_ascii_alphanumeric_exec(c) || c == '_' || c == '-' || c == '.' || c
            == '[' || c == ']' || c == '@' || c == '$',
        StrKind::Value => c != '#' && c != '\n' && c != '\\' && c != '{',
        StrKind::Filename => c != '#' && c != ';' && c != '{' && c != '}' && c != ' ' && c != '\n'
            && c != '\\',
        StrKind::Oneline => c != '#' && c != '\n' && c != '\\' && c != '{' && c != '`',
        StrKind::Multiline => c != '\\' && c != '{' && c != '`',
        StrKind::Json => c != '\\' && c != '"' && c != '{',
    }
}

/// Kinds in which a single `{` (one not followed by another) stands for itself.
pub open spec fn lone_brace_ok(k: StrKind) -> bool {
    k == StrKind::Quoted || k == StrKind::Value || k == StrKind::Oneline || k == StrKind::Multiline
        || k == StrKind::Json
}

pub open spec fn hex_digit_value(c: char) -> int {
    if '0' <= c && c <= '9' {
        c as int - '0' as int
    } else if 'a' <= c && c <= 'f' {
        c as int - 'a' as int + 10
    } else {
        c as int - 'A' as int + 10
    }
}

/// The first position at or after `q` that holds no hex digit.
pub open spec fn hex_run_end(s: Seq<char>, q: int) -> int
    decreases s.len() - q,
{
    if 0 <= q < s.len() && is_hex_digit(s[q]) {
        hex_run_end(s, q + 1)
    } else {
        q
    }
}

/// The number that the hex digits `s[a..b]` write, or a number above
/// `0x10FFFF` when it is larger than that.
pub open spec fn hex_value(s: Seq<char>, a: int, b: int) -> int
    decreases b - a,
{
    if b <= a {
        0
    } else {
        let v = hex_value(s, a, b - 1);
        if v > 0x10FFFF {
            v
        } else {
            v * 16 + hex_digit_value(s[b - 1])
        }
    }
}

/// A Unicode scalar value.
pub open spec fn is_scalar(v: int) -> bool {
    0 <= v <= 0x10FFFF && !(0xD800 <= v <= 0xDFFF)
}

/// The character an escape with code point `v` gives: the replacement
/// character when `v` is no scalar value.
pub open spec fn unicode_char(v: int) -> char {
    if is_scalar(v) {
        v as char
    } else {
        '\u{FFFD}'
    }
}

/// The diagnostics of an escape with code point `v` written at `a..b`.
pub open spec fn unicode_errs(v: int, a: int, b: int) -> Seq<ParseError> {
    if is_scalar(v) {
        Seq::empty()
    } else {
        seq![ParseError { start: a as usize, end: b as usize, kind: ErrorKind::InvalidUnicode }]
    }
}

/// `\u{h...}`: one or more hex digits between braces.
pub open spec fn sp_unicode_escape(s: Seq<char>, p: int) -> SpecRes<char> {
    if matches_at(s, p, seq!['\\', 'u', '{']) {
        let q = p + 3;
        let r = hex_run_end(s, q);
        if r > q && char_at(s, r) == Some('}') {
            let v = hex_value(s, q, r);
            Some((unicode_char(v), r + 1, unicode_errs(v, q, r)))
        } else {
            None
        }
    } else {
        None
    }
}

/// `\uhhhh`: exactly four hex digits, as JSON writes it.
pub open spec fn sp_json_unicode_escape(s: Seq<char>, p: int) -> SpecRes<char> {
    if matches_at(s, p, seq!['\\', 'u']) && hex_run_end(s, p + 2) >= p + 6 {
        let v = hex_value(s, p + 2, p + 6);
        Some((unicode_char(v), p + 6, unicode_errs(v, p + 2, p + 6)))
    } else {
        None
    }
}

/// An escape of a string of kind `k` at `p`.
pub open spec fn sp_escape(k: StrKind, s: Seq<char>, p: int) -> SpecRes<char> {
    if char_at(s, p) == Some('\\') && p + 1 < s.len() && escape_of(k, s[p + 1]) is Some {
        Some((escape_of(k, s[p + 1])->0, p + 2, Seq::empty()))
    } else if k == StrKind::Json {
        sp_json_unicode_escape(s, p)
    } else {
        sp_unicode_escape(s, p)
    }
}

/// One character of the content of a string of kind `k` at `p`.
pub open spec fn sp_str_char(k: StrKind, s: Seq<char>, p: int) -> SpecRes<char> {
    if !(0 <= p < s.len()) {
        None
    } else if s[p] == '\\' {
        sp_escape(k, s, p)
    } else if plain_char(k, s[p]) {
        Some((s[p], p + 1, Seq::empty()))
    } else if s[p] == '{' && lone_brace_ok(k) && char_at(s, p + 1) != Some('{') {
        Some(('{', p + 1, Seq::empty()))
    } else if s[p] == '`' && k == StrKind::Multiline && !matches_at(s, p + 1, seq!['`', '`']) {
        Some(('`', p + 1, Seq::empty()))
    } else {
        None
    }
}

pub open spec fn str_char_rule(k: StrKind) -> SpecParser<char> {
    |s: Seq<char>, p: int| sp_str_char(k, s, p)
}

/// One or more characters of the content of a string of kind `k`.
pub open spec fn sp_str_run(k: StrKind, s: Seq<char>, p: int) -> SpecRes<Seq<char>> {
    let (cs, q, e) = many(str_char_rule(k), s, p);
    if cs.len() >= 1 {
        Some((cs, q, e))
    } else {
        None
    }
}

/// `char::from_u32`: the character with code point `v`, if `v` is a
/// Unicode scalar value; the contract says that it returns a character
/// exactly on those values, and then the one with that code point.
#[verifier::external_body]
fn char_from_u32(v: u32) -> (r: Option<char>)
    ensures
        r is Some <==> is_scalar(v as int),
        r matches Some(c) ==> c == v as char,
{
    char::from_u32(v)
}

fn hex_digit_value_exec(c: char) -> (v: u32)
    requires
        is_hex_digit(c),
    ensures
        v == hex_digit_value(c),
        v < 16,
{
    if '0' <= c && c <= '9' {
        (c as u32) - ('0' as u32)
    } else if 'a' <= c && c <= 'f' {
        (c as u32) - ('a' as u32) + 10
    } else {
        (c as u32) - ('A' as u32) + 10
    }
}

fn hex_run_end_exec(s: &Vec<char>, q: usize) -> (r: usize)
    requires
        q <= s@.len(),
    ensures
        r == hex_run_end(s@, q as int),
        q <= r <= s@.len(),
        forall|i: int| q <= i < r ==> is_hex_digit(#[trigger] s@[i]),
{
    let mut r = q;
    while r < s.len() && is_hex_digit_exec(s[r])
        invariant
            q <= r <= s@.len(),
            hex_run_end(s@, r as int) == hex_run_end(s@, q as int),
            forall|i: int| q <= i < r ==> is_hex_digit(#[trigger] s@[i]),
        decreases s@.len() - r,
    {
        r = r + 1;
    }
    r
}

proof fn lemma_hex_value_bound(s: Seq<char>, a: int, b: int)
    requires
        forall|i: int| a <= i < b ==> is_hex_digit(#[trigger] s[i]),
    ensures
        0 <= hex_value(s, a, b) <= 0x10FFFF * 16 + 15,
    decreases b - a,
{
    if b > a {
        lemma_hex_value_bound(s, a, b - 1);
    }
}

fn hex_value_exec(s: &Vec<char>, a: usize, b: usize) -> (v: u32)
    requires
        a <= b <= s@.len(),
        forall|i: int| a <= i < b ==> is_hex_digit(#[trigger] s@[i]),
    ensures
        v == hex_value(s@, a as int, b as int),
{
    let mut v: u32 = 0;
    let mut i = a;
    while i < b
        invariant
            a <= i <= b <= s@.len(),
            forall|j: int| a <= j < b ==> is_hex_digit(#[trigger] s@[j]),
            v == hex_value(s@, a as int, i as int),
        decreases b - i,
    {
        proof {
            lemma_hex_value_bound(s@, a as int, i as int);
        }
        if v <= 0x10FFFF {
            let d = hex_digit_value_exec(s[i]);
            v = v * 16 + d;
        }
        i = i + 1;
    }
    v
}

fn unicode_result(v: u32, a: usize, b: usize, end: usize) -> (r: (char, usize, Vec<ParseError>))
    ensures
        r.0 == unicode_char(v as int),
        r.1 == end,
        r.2@ == unicode_errs(v as int, a as int, b as int),
{
    match char_from_u32(v) {
        Some(c) => (c, end, Vec::new()),
        None => {
            let mut e = Vec::new();
            e.push(ParseError { start: a, end: b, kind: ErrorKind::InvalidUnicode });
            assert(e@ =~= unicode_errs(v as int, a as int, b as int));
            ('\u{FFFD}', end, e)
        },
    }
}

pub fn parse_unicode_escape(s: &Vec<char>, p: usize) -> (r: Option<(char, usize, Vec<ParseError>)>)
    requires
        p <= s@.len(),
    ensures
        res_char(r) == sp_unicode_escape(s@, p as int),
        r matches Some((_, q, _)) ==> p < q <= s@.len(),
        r matches Some((_, q, e)) ==> errs_within(e@, p as int, q as int),
{
    let len = s.len();
    proof {
        reveal_strlit("\\u{");
        assert("\\u{"@ =~= seq!['\\', 'u', '{']);
    }
    if !lit_at(s, p, "\\u{") {
        return None;
    }
    let q = p + 3;
    let r = hex_run_end_exec(s, q);
    if r > q && r < s.len() && s[r] == '}' {
        let v = hex_value_exec(s, q, r);
        Some(unicode_result(v, q, r, r + 1))
    } else {
        None
    }
}

pub fn parse_json_unicode_escape(s: &Vec<char>, p: usize) -> (r: Option<
    (char, usize, Vec<ParseError>),
>)
    requires
        p <= s@.len(),
    ensures
        res_char(r) == sp_json_unicode_escape(s@, p as int),
        r matches Some((_, q, _)) ==> p < q <= s@.len(),
        r matches Some((_, q, e)) ==> errs_within(e@, p as int, q as int),
{
    let len = s.len();
    proof {
        reveal_strlit("\\u");
        assert("\\u"@ =~= seq!['\\', 'u']);
    }
    if !lit_at(s, p, "\\u") {
        return None;
    }
    let r = hex_run_end_exec(s, p + 2);
    if r - p >= 6 {
        let v = hex_value_exec(s, p + 2, p + 6);
        Some(unicode_result(v, p + 2, p + 6, p + 6))
    } else {
        None
    }
}

/// The view of a result whose value is a character.
pub open spec fn res_char(r: Option<(char, usize, Vec<ParseError>)>) -> SpecRes<char> {
    match r {
        Some((c, q, e)) => Some((c, q as int, e@)),
        None => None,
    }
}

/// The view of a result whose value is a `String`.
pub open spec fn res_string(r: Option<(String, usize, Vec<ParseError>)>) -> SpecRes<Seq<char>> {
    match r {
        Some((c, q, e)) => Some((c@, q as int, e@)),
        None => None,
    }
}

pub fn parse_escape(k: StrKind, s: &Vec<char>, p: usize) -> (r: Option<
    (char, usize, Vec<ParseError>),
>)
    requires
        p <= s@.len(),
    ensures
        res_char(r) == sp_escape(k, s@, p as int),
        r matches Some((_, q, _)) ==> p < q <= s@.len(),
        r matches Some((_, q, e)) ==> errs_within(e@, p as int, q as int),
{
    if p < s.len() && s[p] == '\\' && p + 1 < s.len() {
        if let Some(c) = escape_of_exec(k, s[p + 1]) {
            return Some((c, p + 2, Vec::new()));
        }
    }
    match k {
        StrKind::Json => parse_json_unicode_escape(s, p),
        _ => parse_unicode_escape(s, p),
    }
}

pub fn parse_str_char(k: StrKind, s: &Vec<char>, p: usize) -> (r: Option<
    (char, usize, Vec<ParseError>),
>)
    requires
        p <= s@.len(),
    ensures
        res_char(r) == sp_str_char(k, s@, p as int),
        r matches Some((_, q, _)) ==> p < q <= s@.len(),
        r matches Some((_, q, e)) ==> errs_within(e@, p as int, q as int),
{
    if p >= s.len() {
        return None;
    }
    let c = s[p];
    if c == '\\' {
        return parse_escape(k, s, p);
    }
    if plain_char_exec(k, c) {
        return Some((c, p + 1, Vec::new()));
    }
    let brace_ok = match k {
        StrKind::Quoted | StrKind::Value | StrKind::Oneline | StrKind::Multiline | StrKind::Json => true,
        _ => false,
    };
    if c == '{' && brace_ok && !(p + 1 < s.len() && s[p + 1] == '{') {
        return Some(('{', p + 1, Vec::new()));
    }
    proof {
        reveal_strlit("``");
        assert("``"@ =~= seq!['`', '`']);
    }
    if c == '`' && k == StrKind::Multiline && !lit_at(s, p + 1, "``") {
        return Some(('`', p + 1, Vec::new()));
    }
    None
}

pub fn parse_str_run(k: StrKind, s: &Vec<char>, p: usize) -> (r: Option<
    (String, usize, Vec<ParseError>),
>)
    requires
        p <= s@.len(),
    ensures
        res_string(r) == sp_str_run(k, s@, p as int),
        r matches Some((_, q, _)) ==> p < q <= s@.len(),
        r matches Some((_, q, e)) ==> errs_within(e@, p as int, q as int),
{
    let mut out = String::new();
    let mut errs: Vec<ParseError> = Vec::new();
    let mut q = p;
    let mut n: usize = 0;
    loop
        invariant
            p <= q <= s@.len(),
            many_from(str_char_rule(k), s@, q as int, out@, errs@) == many(
                str_char_rule(k),
                s@,
                p as int,
            ),
            out@.len() == n,
            n <= q - p,
            errs_within(errs@, p as int, q as int),
        ensures
            p <= q <= s@.len(),
            many(str_char_rule(k), s@, p as int) == (out@, q as int, errs@),
            out@.len() == n,
            n <= q - p,
            errs_within(errs@, p as int, q as int),
        decreases s@.len() - q,
    {
        match parse_str_char(k, s, q) {
            Some((c, q2, mut e)) => {
                push_char(&mut out, c);
                errs.append(&mut e);
                q = q2;
                n = n + 1;
            },
            None => {
                break ;
            },
        }
    }
    if n == 0 {
        None
    } else {
        Some((out, q, errs))
    }
}

} // verus!
