//! Shared pieces of every parser: the text as characters, diagnostics, the
//! shape of a parse result, and the repetition that the grammar uses.
use vstd::prelude::*;

verus! {

/// What went wrong at a span of the document.
#[derive(Clone, Copy, Debug, PartialEq, Eq, Hash, Structural)]
pub enum ErrorKind {
    /// A `\u{...}` escape names no Unicode scalar value.
    InvalidUnicode,
    /// A method holds a character that is not an ASCII capital letter.
    InvalidMethodChar(char),
    MissingUrl,
    UnknownHttpVersion,
    StatusTooLarge,
    StatusNotANumber,
    MissingStatus,
    UnexpectedPredicateValue,
    IntegerTooLarge,
    BasicAuthMultipleUsers,
    /// The first word of a multiline string header is neither a type nor an attribute.
    UnknownMultilineTypeOrAttribute,
    /// A multiline string type stands among the attributes.
    MultilineTypeAmongAttributes,
    UnknownMultilineAttribute,
    /// A line that no entry could be read from; it was skipped.
    UnexpectedInput,
    /// Reading stopped where something else was expected.
    Expected(Expectation),
}

/// What a reader expected where it stopped.
#[derive(Clone, Copy, Debug, PartialEq, Eq, Hash, Structural)]
pub enum Expectation {
    /// The end of the text.
    EndOfInput,
    /// A digit.
    Digit,
    /// A key-value pair of a JSON object.
    JsonKeyValue,
    /// A JSON value.
    JsonValue,
    /// A comma, or the closing bracket given.
    CommaOr(char),
}

/// A diagnostic: its kind and the span of characters it covers.
#[derive(Clone, Copy, Debug, PartialEq, Eq, Hash, Structural)]
pub struct ParseError {
    pub start: usize,
    pub end: usize,
    pub kind: ErrorKind,
}

/// What a parser gives back at a position: the value, the position after
/// it, and the diagnostics it raised; `None` when it does not match there.
pub type SpecRes<V> = Option<(V, int, Seq<ParseError>)>;

/// A parser, as a mathematical function of the text and a position.
pub type SpecParser<V> = spec_fn(Seq<char>, int) -> SpecRes<V>;

pub open spec fn res_view<V: View>(r: Option<(V, usize, Vec<ParseError>)>) -> SpecRes<V::V> {
    match r {
        Some((v, q, e)) => Some((v@, q as int, e@)),
        None => None,
    }
}

/// Zero or more matches of `p`, greedily, from `q`, each of which must
/// move forward; `acc` and `errs` hold what earlier matches gave.
pub open spec fn many_from<V>(
    p: SpecParser<V>,
    s: Seq<char>,
    q: int,
    acc: Seq<V>,
    errs: Seq<ParseError>,
) -> (Seq<V>, int, Seq<ParseError>)
    decreases s.len() - q,
{
    match p(s, q) {
        Some((v, q2, e)) => if q < q2 <= s.len() {
            many_from(p, s, q2, acc.push(v), errs + e)
        } else {
            (acc, q, errs)
        },
        None => (acc, q, errs),
    }
}

/// Zero or more matches of `p` from `q`.
pub open spec fn many<V>(p: SpecParser<V>, s: Seq<char>, q: int) -> (Seq<V>, int, Seq<ParseError>) {
    many_from(p, s, q, Seq::empty(), Seq::empty())
}

pub proof fn lemma_many_from_bounds<V>(
    p: SpecParser<V>,
    s: Seq<char>,
    q: int,
    acc: Seq<V>,
    errs: Seq<ParseError>,
)
    ensures
        many_from(p, s, q, acc, errs).1 >= q,
        q <= s.len() ==> many_from(p, s, q, acc, errs).1 <= s.len(),
        many_from(p, s, q, acc, errs).0.len() >= acc.len(),
        many_from(p, s, q, acc, errs).0.len() == acc.len() ==> many_from(p, s, q, acc, errs).1
            == q,
    decreases s.len() - q,
{
    match p(s, q) {
        Some((v, q2, e)) => if q < q2 <= s.len() {
            lemma_many_from_bounds(p, s, q2, acc.push(v), errs + e);
        },
        None => {},
    }
}

/// Every diagnostic of `e` covers text between the positions `a` and `b`.
pub open spec fn errs_within(e: Seq<ParseError>, a: int, b: int) -> bool {
    forall|i: int| 0 <= i < e.len() ==> a <= #[trigger] e[i].start <= e[i].end <= b
}

/// The diagnostics of two pieces of text read one after the other lie
/// within both.
pub proof fn lemma_errs_append(
    e1: Seq<ParseError>,
    e2: Seq<ParseError>,
    a: int,
    b: int,
    c: int,
    d: int,
)
    requires
        errs_within(e1, a, b),
        errs_within(e2, c, d),
        a <= c,
        b <= d,
    ensures
        errs_within(e1 + e2, a, d),
{
    assert forall|i: int| 0 <= i < (e1 + e2).len() implies a <= #[trigger] (e1 + e2)[i].start
        <= (e1 + e2)[i].end <= d by {
        if i < e1.len() {
            assert((e1 + e2)[i] == e1[i]);
        } else {
            assert((e1 + e2)[i] == e2[i - e1.len()]);
        }
    }
}

/// The text `w` stands at position `p` of `s`.
pub open spec fn matches_at(s: Seq<char>, p: int, w: Seq<char>) -> bool {
    0 <= p && p + w.len() <= s.len() && s.subrange(p, p + w.len()) == w
}

/// The character at `p`, if there is one.
pub open spec fn char_at(s: Seq<char>, p: int) -> Option<char> {
    if 0 <= p < s.len() {
        Some(s[p])
    } else {
        None
    }
}

pub open spec fn is_sp(c: char) -> bool {
    c == ' ' || c == '\t'
}

pub open spec fn is_digit(c: char) -> bool {
    '0' <= c && c <= '9'
}

pub open spec fn is_hex_digit(c: char) -> bool {
    ('0' <= c && c <= '9') || ('a' <= c && c <= 'f') || ('A' <= c && c <= 'F')
}

pub open spec fn is_ascii_alpha(c: char) -> bool {
    ('a' <= c && c <= 'z') || ('A' <= c && c <= 'Z')
}

pub open spec fn is_ascii_alphanumeric(c: char) -> bool {
    is_ascii_alpha(c) || is_digit(c)
}

pub fn is_sp_exec(c: char) -> (b: bool)
    ensures
        b == is_sp(c),
{
    c == ' ' || c == '\t'
}

pub fn is_digit_exec(c: char) -> (b: bool)
    ensures
        b == is_digit(c),
{
    '0' <= c && c <= '9'
}

pub fn is_hex_digit_exec(c: char) -> (b: bool)
    ensures
        b == is_hex_digit(c),
{
    ('0' <= c && c <= '9') || ('a' <= c && c <= 'f') || ('A' <= c && c <= 'F')
}

pub fn is_ascii_alpha_exec(c: char) -> (b: bool)
    ensures
        b == is_ascii_alpha(c),
{
    ('a' <= c && c <= 'z') || ('A' <= c && c <= 'Z')
}

pub fn is_ascii_alphanumeric_exec(c: char) -> (b: bool)
    ensures
        b == is_ascii_alphanumeric(c),
{
    is_ascii_alpha_exec(c) || is_digit_exec(c)
}

/// `String::push`: appends the character `c` at the end of `s`; the
/// contract says that the text grows by exactly that character.
#[verifier::external_body]
pub(crate) fn push_char(s: &mut String, c: char)
    ensures
        final(s)@ == old(s)@.push(c),
{
    s.push(c);
}

/// The characters of a text, in order.
pub fn to_chars(s: &str) -> (r: Vec<char>)
    ensures
        r@ == s@,
{
    let mut v: Vec<char> = Vec::new();
    for c in it: s.chars()
        invariant
            v@ == it.seq().take(it.index() as int),
            it.seq() == s@,
    {
        v.push(c);
    }
    v
}

/// The characters `s[from..to]` as a `String`.
pub fn string_of(s: &Vec<char>, from: usize, to: usize) -> (r: String)
    requires
        from <= to <= s@.len(),
    ensures
        r@ == s@.subrange(from as int, to as int),
{
    let mut r = String::new();
    let mut i = from;
    while i < to
        invariant
            from <= i <= to <= s@.len(),
            r@ == s@.subrange(from as int, i as int),
        decreases to - i,
    {
        push_char(&mut r, s[i]);
        i = i + 1;
        assert(r@ =~= s@.subrange(from as int, i as int));
    }
    r
}

/// The characters of a literal as a `String`.
pub fn string_from(w: &str) -> (r: String)
    ensures
        r@ == w@,
{
    String::from_str(w)
}

/// Whether the text `w` stands at position `p` of `s`.
pub fn lit_at(s: &Vec<char>, p: usize, w: &str) -> (b: bool)
    ensures
        b == matches_at(s@, p as int, w@),
{
    let n = w.unicode_len();
    if p > s.len() || n > s.len() - p {
        return false;
    }
    let mut i: usize = 0;
    while i < n
        invariant
            n == w@.len(),
            p + n <= s.len(),
            i <= n,
            forall|j: int| 0 <= j < i ==> s@[p + j] == w@[j],
        decreases n - i,
    {
        if s[p + i] != w.get_char(i) {
            assert(s@.subrange(p as int, p + n)[i as int] != w@[i as int]);
            return false;
        }
        i = i + 1;
    }
    assert(s@.subrange(p as int, p + n) =~= w@);
    true
}

/// The length of a literal, in characters.
pub fn lit_len(w: &str) -> (n: usize)
    ensures
        n == w@.len(),
{
    w.unicode_len()
}

/// The position after the spaces and tabs that start at `p`.
pub open spec fn skip_sp(s: Seq<char>, p: int) -> int
    decreases s.len() - p,
{
    if 0 <= p < s.len() && is_sp(s[p]) {
        skip_sp(s, p + 1)
    } else {
        p
    }
}

pub proof fn lemma_skip_sp(s: Seq<char>, p: int)
    requires
        0 <= p <= s.len(),
    ensures
        p <= skip_sp(s, p) <= s.len(),
        forall|i: int| p <= i < skip_sp(s, p) ==> is_sp(#[trigger] s[i]),
        skip_sp(s, p) < s.len() ==> !is_sp(s[skip_sp(s, p)]),
    decreases s.len() - p,
{
    if p < s.len() && is_sp(s[p]) {
        lemma_skip_sp(s, p + 1);
    }
}

pub fn skip_sp_exec(s: &Vec<char>, p: usize) -> (q: usize)
    requires
        p <= s@.len(),
    ensures
        q == skip_sp(s@, p as int),
        p <= q <= s@.len(),
{
    let mut q = p;
    while q < s.len() && is_sp_exec(s[q])
        invariant
            p <= q <= s@.len(),
            skip_sp(s@, q as int) == skip_sp(s@, p as int),
        decreases s@.len() - q,
    {
        q = q + 1;
    }
    q
}

/// The first position at or after `q` whose character does not satisfy `f`.
pub open spec fn run_end(s: Seq<char>, q: int, f: spec_fn(char) -> bool) -> int
    decreases s.len() - q,
{
    if 0 <= q < s.len() && f(s[q]) {
        run_end(s, q + 1, f)
    } else {
        q
    }
}

pub proof fn lemma_run_end(s: Seq<char>, q: int, f: spec_fn(char) -> bool)
    requires
        0 <= q <= s.len(),
    ensures
        q <= run_end(s, q, f) <= s.len(),
        forall|i: int| q <= i < run_end(s, q, f) ==> f(#[trigger] s[i]),
        run_end(s, q, f) < s.len() ==> !f(s[run_end(s, q, f)]),
    decreases s.len() - q,
{
    if q < s.len() && f(s[q]) {
        lemma_run_end(s, q + 1, f);
    }
}

/// `run_end`, computed; `f` decides what `g` states.
pub fn run_end_exec<F: Fn(char) -> bool>(
    s: &Vec<char>,
    q: usize,
    f: F,
    Ghost(g): Ghost<spec_fn(char) -> bool>,
) -> (r: usize)
    requires
        q <= s@.len(),
        forall|c: char| f.requires((c,)),
        forall|c: char, b: bool| f.ensures((c,), b) ==> b == g(c),
    ensures
        r == run_end(s@, q as int, g),
        q <= r <= s@.len(),
{
    let mut r = q;
    while r < s.len() && f(s[r])
        invariant
            q <= r <= s@.len(),
            run_end(s@, r as int, g) == run_end(s@, q as int, g),
            forall|c: char| f.requires((c,)),
            forall|c: char, b: bool| f.ensures((c,), b) ==> b == g(c),
        decreases s@.len() - r,
    {
        r = r + 1;
    }
    r
}

/// The position after the text `w` when it stands at `p`.
pub open spec fn lit_end(s: Seq<char>, p: int, w: Seq<char>) -> Option<int> {
    if matches_at(s, p, w) {
        Some(p + w.len())
    } else {
        None
    }
}

pub fn lit_end_exec(s: &Vec<char>, p: usize, w: &str) -> (r: Option<usize>)
    ensures
        r matches Some(q) ==> lit_end(s@, p as int, w@) == Some(q as int) && q <= s@.len(),
        r is None ==> lit_end(s@, p as int, w@) is None,
{
    let len = s.len();
    if lit_at(s, p, w) {
        let n = lit_len(w);
        assert(p + n <= len);
        Some(p + n)
    } else {
        None
    }
}

/// The number that the decimal digits `s[a..b]` write.
pub open spec fn dec_value(s: Seq<char>, a: int, b: int) -> int
    decreases b - a,
{
    if b <= a {
        0
    } else {
        dec_value(s, a, b - 1) * 10 + (s[b - 1] as int - '0' as int)
    }
}

pub proof fn lemma_dec_value_mono(s: Seq<char>, a: int, i: int, b: int)
    requires
        a <= i <= b,
        forall|j: int| a <= j < b ==> is_digit(#[trigger] s[j]),
    ensures
        0 <= dec_value(s, a, i) <= dec_value(s, a, b),
    decreases b - i,
{
    if i < b {
        lemma_dec_value_mono(s, a, i, b - 1);
        lemma_dec_value_nonneg(s, a, b - 1);
    } else {
        lemma_dec_value_nonneg(s, a, b);
    }
}

pub proof fn lemma_dec_value_nonneg(s: Seq<char>, a: int, b: int)
    requires
        forall|j: int| a <= j < b ==> is_digit(#[trigger] s[j]),
    ensures
        0 <= dec_value(s, a, b),
    decreases b - a,
{
    if b > a {
        lemma_dec_value_nonneg(s, a, b - 1);
    }
}

/// The number the digits `s[a..b]` write, when it fits in a `u64`.
pub fn decimal_u64(s: &Vec<char>, a: usize, b: usize) -> (r: Option<u64>)
    requires
        a <= b <= s@.len(),
        forall|j: int| a <= j < b ==> is_digit(#[trigger] s@[j]),
    ensures
        r matches Some(v) ==> v == dec_value(s@, a as int, b as int),
        r is None <==> dec_value(s@, a as int, b as int) > u64::MAX,
{
    let mut v: u64 = 0;
    let mut i = a;
    while i < b
        invariant
            a <= i <= b <= s@.len(),
            forall|j: int| a <= j < b ==> is_digit(#[trigger] s@[j]),
            v == dec_value(s@, a as int, i as int),
        decreases b - i,
    {
        let d = (s[i] as u32 - '0' as u32) as u64;
        match v.checked_mul(10) {
            Some(m) => match m.checked_add(d) {
                Some(n) => {
                    v = n;
                },
                None => {
                    proof {
                        lemma_dec_value_mono(s@, a as int, (i + 1) as int, b as int);
                    }
                    return None;
                },
            },
            None => {
                proof {
                    lemma_dec_value_mono(s@, a as int, (i + 1) as int, b as int);
                    lemma_dec_value_nonneg(s@, a as int, i as int);
                }
                return None;
            },
        }
        i = i + 1;
    }
    Some(v)
}


/// A failure reported at position `x`: over the character there, or empty
/// at the end of the text.
pub open spec fn point_error(s: Seq<char>, x: int) -> ParseError {
    if x < s.len() {
        ParseError { start: x as usize, end: (x + 1) as usize, kind: ErrorKind::UnexpectedInput }
    } else {
        ParseError { start: x as usize, end: x as usize, kind: ErrorKind::UnexpectedInput }
    }
}

pub fn point_error_exec(s: &Vec<char>, x: usize) -> (r: ParseError)
    requires
        x <= s@.len(),
    ensures
        r == point_error(s@, x as int),
        x <= r.start <= r.end <= s@.len(),
{
    if x < s.len() {
        ParseError { start: x, end: x + 1, kind: ErrorKind::UnexpectedInput }
    } else {
        ParseError { start: x, end: x, kind: ErrorKind::UnexpectedInput }
    }
}

pub open spec fn hex_digit_pred() -> spec_fn(char) -> bool {
    |c: char| is_hex_digit(c)
}

/// The characters of a variable name inside a template.
pub open spec fn name_char_pred() -> spec_fn(char) -> bool {
    |c: char| is_ascii_alphanumeric(c) || c == '_' || c == '-'
}

/// Where a string whose characters stop at `q` fails: at a backslash that
/// starts no escape, the character after it (after `\u`, the one that is
/// not `{`, and inside `\u{...}` the first that is not a hex digit); at a
/// `{{` that starts no template, after the name it holds, else after the
/// spaces it holds, else at its second brace; anywhere else at `q`
/// itself, where the closing delimiter is missing.
pub open spec fn string_failure(s: Seq<char>, q: int) -> int {
    if char_at(s, q) == Some('{') && char_at(s, q + 1) == Some('{') {
        let w = skip_sp(s, q + 2);
        let v = run_end(s, w, name_char_pred());
        if v > w {
            skip_sp(s, v)
        } else if w > q + 2 {
            w
        } else {
            q + 1
        }
    } else if char_at(s, q) == Some('\\') {
        if char_at(s, q + 1) == Some('u') {
            if char_at(s, q + 2) == Some('{') {
                run_end(s, q + 3, hex_digit_pred())
            } else {
                q + 2
            }
        } else {
            q + 1
        }
    } else {
        q
    }
}

pub fn string_failure_exec(s: &Vec<char>, q: usize) -> (r: usize)
    requires
        q <= s@.len(),
    ensures
        r == string_failure(s@, q as int),
        q <= r <= s@.len(),
{
    if q < s.len() && q + 1 < s.len() && s[q] == '{' && s[q + 1] == '{' {
        let w = skip_sp_exec(s, q + 2);
        let v = run_end_exec(
            s,
            w,
            (|c: char| -> (b: bool)
                ensures
                    b == (is_ascii_alphanumeric(c) || c == '_' || c == '-'),
                { is_ascii_alphanumeric_exec(c) || c == '_' || c == '-' }),
            Ghost(name_char_pred()),
        );
        return if v > w {
            skip_sp_exec(s, v)
        } else if w > q + 2 {
            w
        } else {
            q + 1
        };
    }
    if q < s.len() && s[q] == '\\' {
        if q + 1 < s.len() && s[q + 1] == 'u' {
            if q + 2 < s.len() && s[q + 2] == '{' {
                run_end_exec(
                    s,
                    q + 3,
                    (|c: char| -> (b: bool)
                        ensures
                            b == is_hex_digit(c),
                        { is_hex_digit_exec(c) }),
                    Ghost(hex_digit_pred()),
                )
            } else {
                q + 2
            }
        } else {
            q + 1
        }
    } else {
        q
    }
}


/// A failure of kind `k` at position `x`: over the character there, or
/// empty at the end of the text.
pub open spec fn point_with(s: Seq<char>, x: int, k: ErrorKind) -> ParseError {
    if x < s.len() {
        ParseError { start: x as usize, end: (x + 1) as usize, kind: k }
    } else {
        ParseError { start: x as usize, end: x as usize, kind: k }
    }
}

pub fn point_with_exec(s: &Vec<char>, x: usize, k: ErrorKind) -> (r: ParseError)
    requires
        x <= s@.len(),
    ensures
        r == point_with(s@, x as int, k),
        x <= r.start <= r.end <= s@.len(),
{
    if x < s.len() {
        ParseError { start: x, end: x + 1, kind: k }
    } else {
        ParseError { start: x, end: x, kind: k }
    }
}

/// The diagnostic for a text that was to be read whole but whose reading
/// stopped at `q`: after a decimal point that follows a digit and precedes
/// none, a digit is expected after the point; where a string's reading
/// fails further on (see `string_failure`), there; else the end of the
/// text is expected at `q`.
pub open spec fn end_failure(s: Seq<char>, q: int) -> ParseError {
    if char_at(s, q) == Some('.') && 0 < q && is_digit(s[q - 1]) && !(char_at(s, q + 1) matches Some(
        c,
    ) && is_digit(c)) {
        point_with(s, q + 1, ErrorKind::Expected(Expectation::Digit))
    } else if string_failure(s, q) != q {
        point_error(s, string_failure(s, q))
    } else {
        point_with(s, q, ErrorKind::Expected(Expectation::EndOfInput))
    }
}

pub fn end_failure_exec(s: &Vec<char>, q: usize) -> (r: ParseError)
    requires
        q <= s@.len(),
    ensures
        r == end_failure(s@, q as int),
        q <= r.start <= r.end <= s@.len(),
{
    if q < s.len() && s[q] == '.' && 0 < q && is_digit_exec(s[q - 1]) && !(q + 1 < s.len()
        && is_digit_exec(s[q + 1])) {
        point_with_exec(s, q + 1, ErrorKind::Expected(Expectation::Digit))
    } else {
        let x = string_failure_exec(s, q);
        if x != q {
            point_error_exec(s, x)
        } else {
            point_with_exec(s, q, ErrorKind::Expected(Expectation::EndOfInput))
        }
    }
}


/// A whole text read by a parser that read `r.0` from its start up to
/// `r.1`, raising `r.2`: the value when the reading covers the text; else
/// none, and the diagnostics with one more where reading the rest fails
/// (see `end_failure`).
pub fn read_whole<T>(s: &Vec<char>, r: (T, usize, Vec<ParseError>)) -> (w: (
    Option<T>,
    Vec<ParseError>,
))
    requires
        r.1 <= s@.len(),
    ensures
        r.1 == s@.len() ==> w.0 == Some(r.0) && w.1@ == r.2@,
        r.1 < s@.len() ==> w.0 is None && w.1@ == r.2@.push(end_failure(s@, r.1 as int)),
{
    let (v, q, mut e) = r;
    if q == s.len() {
        (Some(v), e)
    } else {
        e.push(end_failure_exec(s, q));
        (None, e)
    }
}


/// A run of characters that `f` accepts, from `q` to `e`, followed by one
/// it refuses or by the end of the text, ends at `e`.
pub proof fn lemma_run_end_at(s: Seq<char>, q: int, f: spec_fn(char) -> bool, e: int)
    requires
        0 <= q <= e <= s.len(),
        forall|i: int| q <= i < e ==> f(#[trigger] s[i]),
        e == s.len() || !f(s[e]),
    ensures
        run_end(s, q, f) == e,
    decreases e - q,
{
    if q < e {
        lemma_run_end_at(s, q + 1, f, e);
    }
}

} // verus!
