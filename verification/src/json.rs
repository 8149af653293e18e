//! JSON values, whose strings may hold templates and whose values may be
//! templates, with the recovery that reads past a broken value, a missing
//! comma or a missing closing bracket.
use vstd::prelude::*;
use crate::base::{errs_within, lemma_errs_append, lemma_run_end_at, matches_at, Expectation, point_with, point_with_exec,
    ErrorKind, ParseError, SpecRes, char_at, is_digit, lit_end, lit_end_exec, run_end,
    run_end_exec, string_of,
};
use crate::http_status::{one_err, one_err_exec};
use crate::method::{parse_method_line_strict, sp_method_line_strict};
use crate::model::{SpecInterpolatedString, SpecJson, SpecJsonMember};
use crate::strings::StrKind;
use crate::template::{
    digit_pred, int_end, int_end_exec, lemma_istr_view, parse_parts, template_at, res_istr,
    sp_parts_from, sp_template,
};
use crate::types::{
    InterpolatedString, Json, JsonKeyValue, lemma_seq_view_empty, lemma_seq_view_push, seq_view,
};

verus! {

broadcast use lemma_seq_view_push, lemma_seq_view_empty;

/// Unicode white space (the characters for which `char::is_whitespace` holds).
pub open spec fn is_ws(c: char) -> bool {
    ('\t' <= c && c <= '\r') || c == ' ' || c == '\u{85}' || c == '\u{A0}' || c == '\u{1680}'
        || ('\u{2000}' <= c && c <= '\u{200A}') || c == '\u{2028}' || c == '\u{2029}' || c
        == '\u{202F}' || c == '\u{205F}' || c == '\u{3000}'
}

pub fn is_ws_exec(c: char) -> (b: bool)
    ensures
        b == is_ws(c),
{
    ('\t' <= c && c <= '\r') || c == ' ' || c == '\u{85}' || c == '\u{A0}' || c == '\u{1680}'
        || ('\u{2000}' <= c && c <= '\u{200A}') || c == '\u{2028}' || c == '\u{2029}' || c
        == '\u{202F}' || c == '\u{205F}' || c == '\u{3000}'
}

pub open spec fn ws_pred() -> spec_fn(char) -> bool {
    |c: char| is_ws(c)
}

/// The position after the white space at `p`.
pub open spec fn ws_end(s: Seq<char>, p: int) -> int {
    run_end(s, p, ws_pred())
}

pub fn ws_end_exec(s: &Vec<char>, p: usize) -> (q: usize)
    requires
        p <= s@.len(),
    ensures
        q == ws_end(s@, p as int),
        p <= q <= s@.len(),
{
    run_end_exec(
        s,
        p,
        (|c: char| -> (b: bool)
            ensures
                b == is_ws(c),
            { is_ws_exec(c) }),
        Ghost(ws_pred()),
    )
}

/// `"`, zero or more runs of JSON string characters or templates, `"`.
pub open spec fn sp_json_string(s: Seq<char>, p: int) -> SpecRes<SpecInterpolatedString> {
    if char_at(s, p) == Some('"') {
        let (parts, q, e) = sp_parts_from(StrKind::Json, s, p + 1, Seq::empty(), Seq::empty());
        if char_at(s, q) == Some('"') {
            Some((SpecInterpolatedString { parts }, q + 1, e))
        } else {
            None
        }
    } else {
        None
    }
}

/// The end of a JSON number at `p`: `-`, an integer, a fraction and an
/// exponent, the first and the last two optional.
pub open spec fn json_number_end(s: Seq<char>, p: int) -> Option<int> {
    let q = if char_at(s, p) == Some('-') {
        p + 1
    } else {
        p
    };
    let e = int_end(s, q);
    if e == q {
        None
    } else {
        let f = if char_at(s, e) == Some('.') && run_end(s, e + 1, digit_pred()) > e + 1 {
            run_end(s, e + 1, digit_pred())
        } else {
            e
        };
        let x = if char_at(s, f) == Some('e') || char_at(s, f) == Some('E') {
            let g = if char_at(s, f + 1) == Some('+') || char_at(s, f + 1) == Some('-') {
                f + 2
            } else {
                f + 1
            };
            if run_end(s, g, digit_pred()) > g {
                run_end(s, g, digit_pred())
            } else {
                f
            }
        } else {
            f
        };
        Some(x)
    }
}

/// One or more spaces, a strict method line: where a skip over broken JSON
/// stops, since the next request starts there.
pub open spec fn request_starts(s: Seq<char>, q: int) -> bool {
    sp_method_line_strict(s, q) is Some
}

/// An error over the text `s[a..b]` that was skipped to recover.
pub open spec fn skipped(a: int, b: int) -> Seq<ParseError> {
    one_err(a, b, ErrorKind::UnexpectedInput)
}

/// The closing bracket of an opening one.
pub open spec fn closer_of(c: char) -> char {
    if c == '[' {
        ']'
    } else {
        '}'
    }
}

/// The end of balanced brackets from `i`, where `stack` holds the closing
/// brackets still awaited, innermost last; none when a bracket closes
/// out of turn or the text ends first.
pub open spec fn nested_scan(s: Seq<char>, i: int, stack: Seq<char>) -> Option<int>
    decreases s.len() - i,
{
    if !(0 <= i < s.len()) || stack.len() == 0 {
        None
    } else if s[i] == stack.last() {
        if stack.len() == 1 {
            Some(i + 1)
        } else {
            nested_scan(s, i + 1, stack.drop_last())
        }
    } else if s[i] == '[' || s[i] == '{' {
        nested_scan(s, i + 1, stack.push(closer_of(s[i])))
    } else if s[i] == ']' || s[i] == '}' {
        None
    } else {
        nested_scan(s, i + 1, stack)
    }
}

/// The end of a balanced block that opens with `open` at `q`.
pub open spec fn nested_end(s: Seq<char>, q: int, open: char) -> Option<int> {
    if char_at(s, q) == Some(open) {
        nested_scan(s, q + 1, seq![closer_of(open)])
    } else {
        None
    }
}

/// A comma between white space: the position after it.
pub open spec fn sep_plain(s: Seq<char>, q: int) -> Option<int> {
    let q1 = ws_end(s, q);
    if char_at(s, q1) == Some(',') {
        Some(ws_end(s, q1 + 1))
    } else {
        None
    }
}

/// Recovery of a missing comma: skip one character at a time and look for
/// the comma again, until a comma, the closing bracket `c`, the next request
/// or the end of the text.
pub open spec fn sep_skip(s: Seq<char>, start: int, cur: int, c: char) -> Option<
    (int, Seq<ParseError>),
>
    decreases s.len() - cur,
{
    if !(0 <= cur < s.len()) || s[cur] == ',' || s[cur] == c || request_starts(s, cur) {
        None
    } else {
        match sep_plain(s, cur + 1) {
            Some(q2) => Some((q2, skipped(start, cur + 1))),
            None => sep_skip(s, start, cur + 1, c),
        }
    }
}

/// The comma between two items of a list closed by `c`, with its recovery.
pub open spec fn sep_recovering(s: Seq<char>, q: int, c: char) -> Option<(int, Seq<ParseError>)> {
    match sep_plain(s, q) {
        Some(q2) => Some((q2, Seq::empty())),
        None => sep_skip(s, q, q, c),
    }
}

/// Where a list that cannot be closed is reported: after a comma that no
/// item follows, at the character where the item should stand; else at the
/// first character that is neither a comma nor the closing bracket. The
/// span is that character (empty at the end of the text); `limit` is the
/// closing bracket found, or the end of the text.
pub open spec fn close_failure(s: Seq<char>, start: int, limit: int, c: char) -> Seq<
    ParseError,
> {
    let (x, k) = match sep_plain(s, start) {
        Some(q2) => if start <= q2 <= limit {
            (q2, if c == '}' { Expectation::JsonKeyValue } else { Expectation::JsonValue })
        } else {
            (start, Expectation::CommaOr(c))
        },
        None => (start, Expectation::CommaOr(c)),
    };
    if x < s.len() {
        one_err(x, x + 1, ErrorKind::Expected(k))
    } else {
        one_err(x, x, ErrorKind::Expected(k))
    }
}

/// Recovery of a missing closing bracket `c`: skip one character at a
/// time and look for it again (the end of the text also closes), until
/// the next request or the end of the text.
pub open spec fn close_skip(s: Seq<char>, start: int, cur: int, c: char) -> Option<
    (int, Seq<ParseError>),
>
    decreases s.len() - cur,
{
    if !(0 <= cur < s.len()) || request_starts(s, cur) {
        None
    } else if char_at(s, cur + 1) == Some(c) {
        Some((cur + 2, close_failure(s, start, cur + 1, c)))
    } else if cur + 1 == s.len() {
        Some((cur + 1, skipped(cur + 1, cur + 1) + close_failure(s, start, cur + 1, c)))
    } else {
        close_skip(s, start, cur + 1, c)
    }
}

/// The closing bracket `c` at `q`, with its recovery.
pub open spec fn close_recovering(s: Seq<char>, q: int, c: char) -> Option<
    (int, Seq<ParseError>),
> {
    if char_at(s, q) == Some(c) {
        Some((q + 1, Seq::empty()))
    } else if q == s.len() {
        Some((q, skipped(q, q)))
    } else {
        close_skip(s, q, q, c)
    }
}

/// Whether a skip over a broken JSON value stops at `cur`: at a comma, a
/// closing bracket, or the next request.
pub open spec fn value_skip_stops(s: Seq<char>, cur: int) -> bool {
    s[cur] == ',' || s[cur] == ']' || s[cur] == '}' || request_starts(s, cur)
}

/// A JSON value after white space, recovering from a broken one.
pub open spec fn sp_json_value(s: Seq<char>, p: int) -> SpecRes<SpecJson>
    decreases s.len() - p, 6nat,
{
    let q = ws_end(s, p);
    if !(0 <= p <= q <= s.len()) {
        None
    } else {
        json_recovering(s, q)
    }
}

/// A value at `q`; else the first value after one or more skipped
/// characters, reported over them.
pub open spec fn json_recovering(s: Seq<char>, q: int) -> SpecRes<SpecJson>
    decreases s.len() - q, 5nat,
{
    match json_retried(s, q) {
        Some(r) => Some(r),
        None => json_skip(s, q, q),
    }
}

pub open spec fn json_skip(s: Seq<char>, start: int, cur: int) -> SpecRes<SpecJson>
    decreases s.len() - cur, 4nat,
{
    if !(0 <= cur < s.len()) || value_skip_stops(s, cur) {
        None
    } else {
        match json_retried(s, cur + 1) {
            Some((v, q, e)) => Some((v, q, e + skipped(start, cur + 1))),
            None => json_skip(s, start, cur + 1),
        }
    }
}

/// A value; else a balanced `{...}` or `[...]` block, kept as an invalid
/// value and reported.
pub open spec fn json_retried(s: Seq<char>, q: int) -> SpecRes<SpecJson>
    decreases s.len() - q, 3nat,
{
    match json_core(s, q) {
        Some(r) => Some(r),
        None => match nested_end(s, q, '{') {
            Some(e) => Some((SpecJson::Invalid, e, skipped(q, e))),
            None => match nested_end(s, q, '[') {
                Some(e) => Some((SpecJson::Invalid, e, skipped(q, e))),
                None => None,
            },
        },
    }
}

/// A template, `null`, `true`, `false`, a number, a string, an array, an
/// object: the first that matches at `q`.
pub open spec fn json_core(s: Seq<char>, q: int) -> SpecRes<SpecJson>
    decreases s.len() - q, 2nat,
{
    if !(0 <= q <= s.len()) {
        None
    } else {
        match sp_template(s, q) {
            Some((t, q2, e)) => Some((SpecJson::Template(t), q2, e)),
            None => match lit_end(s, q, "null"@) {
                Some(q2) => Some((SpecJson::Null, q2, Seq::empty())),
                None => match lit_end(s, q, "true"@) {
                    Some(q2) => Some((SpecJson::Bool(true), q2, Seq::empty())),
                    None => match lit_end(s, q, "false"@) {
                        Some(q2) => Some((SpecJson::Bool(false), q2, Seq::empty())),
                        None => match json_number_end(s, q) {
                            Some(q2) => Some((SpecJson::Num(s.subrange(q, q2)), q2, Seq::empty())),
                            None => match sp_json_string(s, q) {
                                Some((v, q2, e)) => Some((SpecJson::InterpolatedString(v), q2, e)),
                                None => match sp_json_array(s, q) {
                                    Some((v, q2, e)) => Some((SpecJson::Array(v), q2, e)),
                                    None => match sp_json_object(s, q) {
                                        Some((v, q2, e)) => Some((SpecJson::Object(v), q2, e)),
                                        None => None,
                                    },
                                },
                            },
                        },
                    },
                },
            },
        }
    }
}

/// `[`, values separated by commas, `]`, with white space between.
pub open spec fn sp_json_array(s: Seq<char>, p: int) -> SpecRes<Seq<SpecJson>>
    decreases s.len() - p, 1nat,
{
    if !(0 <= p < s.len()) || s[p] != '[' {
        None
    } else {
        let (vs, q, e) = json_array_items(s, p);
        match close_recovering(s, ws_end(s, q), ']') {
            Some((q2, e2)) => Some((vs, q2, e + e2)),
            None => None,
        }
    }
}

/// The values of an array whose `[` stands at `p`.
pub open spec fn json_array_items(s: Seq<char>, p: int) -> (Seq<SpecJson>, int, Seq<ParseError>)
    decreases s.len() - p, 0nat,
{
    if !(0 <= p < s.len()) {
        (Seq::empty(), p + 1, Seq::empty())
    } else {
        match sp_json_value(s, p + 1) {
            Some((v, q, e)) => if p < q <= s.len() {
                sp_json_items_rest(s, q, seq![v], e)
            } else {
                (Seq::empty(), p + 1, Seq::empty())
            },
            None => (Seq::empty(), p + 1, Seq::empty()),
        }
    }
}

/// The values after the first: a comma and a value, as long as both are
/// there; a comma that no value follows is left unread.
pub open spec fn sp_json_items_rest(
    s: Seq<char>,
    q: int,
    acc: Seq<SpecJson>,
    errs: Seq<ParseError>,
) -> (Seq<SpecJson>, int, Seq<ParseError>)
    decreases s.len() - q, 0nat,
{
    match sep_recovering(s, q, ']') {
        Some((q2, es)) => if 0 <= q < q2 <= s.len() {
            match sp_json_value(s, q2) {
                Some((v, q3, e)) => if q2 <= q3 <= s.len() {
                    sp_json_items_rest(s, q3, acc.push(v), errs + es + e)
                } else {
                    (acc, q, errs)
                },
                None => (acc, q, errs),
            }
        } else {
            (acc, q, errs)
        },
        None => (acc, q, errs),
    }
}

/// A member: a string, `:`, a value, with white space between.
pub open spec fn sp_json_member(s: Seq<char>, p: int) -> SpecRes<SpecJsonMember>
    decreases s.len() - p, 0nat,
{
    match sp_json_string(s, p) {
        Some((k, q, e1)) => {
            let q1 = ws_end(s, q);
            let q2 = ws_end(s, q1 + 1);
            if p < q1 < q2 <= s.len() && s[q1] == ':' {
                match sp_json_value(s, q2) {
                    Some((v, q3, e2)) => Some((SpecJsonMember { key: k, value: v }, q3, e1 + e2)),
                    None => None,
                }
            } else {
                None
            }
        },
        None => None,
    }
}

/// `{`, members separated by commas, `}`, with white space between.
pub open spec fn sp_json_object(s: Seq<char>, p: int) -> SpecRes<Seq<SpecJsonMember>>
    decreases s.len() - p, 1nat,
{
    if !(0 <= p < s.len()) || s[p] != '{' {
        None
    } else {
        let (ms, q, e) = json_object_members(s, p);
        match close_recovering(s, ws_end(s, q), '}') {
            Some((q2, e2)) => Some((ms, q2, e + e2)),
            None => None,
        }
    }
}

/// The members of an object whose `{` stands at `p`.
pub open spec fn json_object_members(s: Seq<char>, p: int) -> (
    Seq<SpecJsonMember>,
    int,
    Seq<ParseError>,
)
    decreases s.len() - p, 0nat,
{
    let q0 = ws_end(s, p + 1);
    if !(0 <= p < q0 <= s.len()) {
        (Seq::empty(), q0, Seq::empty())
    } else {
        match sp_json_member(s, q0) {
            Some((m, q, e)) => if q0 < q <= s.len() {
                sp_json_members_rest(s, q, seq![m], e)
            } else {
                (Seq::empty(), q0, Seq::empty())
            },
            None => (Seq::empty(), q0, Seq::empty()),
        }
    }
}

/// The members after the first: a comma and a member, as long as both are
/// there; a comma that no member follows is left unread.
pub open spec fn sp_json_members_rest(
    s: Seq<char>,
    q: int,
    acc: Seq<SpecJsonMember>,
    errs: Seq<ParseError>,
) -> (Seq<SpecJsonMember>, int, Seq<ParseError>)
    decreases s.len() - q, 0nat,
{
    match sep_recovering(s, q, '}') {
        Some((q2, es)) => if 0 <= q < q2 <= s.len() {
            match sp_json_member(s, q2) {
                Some((m, q3, e)) => if q2 <= q3 <= s.len() {
                    sp_json_members_rest(s, q3, acc.push(m), errs + es + e)
                } else {
                    (acc, q, errs)
                },
                None => (acc, q, errs),
            }
        } else {
            (acc, q, errs)
        },
        None => (acc, q, errs),
    }
}

// ---------------------------------------------------------------------------

pub open spec fn res_json(r: Option<(Json, usize, Vec<ParseError>)>) -> SpecRes<SpecJson> {
    match r {
        Some((v, q, e)) => Some((v@, q as int, e@)),
        None => None,
    }
}

pub proof fn lemma_array_view(v: Vec<Json>)
    ensures
        (Json::Array(v)).view() == SpecJson::Array(seq_view(v@)),
{
    assert(match (Json::Array(v)).view() {
        SpecJson::Array(a) => a =~= seq_view(v@),
        _ => false,
    });
}

pub proof fn lemma_object_view(v: Vec<JsonKeyValue>)
    ensures
        (Json::Object(v)).view() == SpecJson::Object(seq_view(v@)),
{
    match (Json::Object(v)).view() {
        SpecJson::Object(b) => {
            assert forall|i: int| 0 <= i < v@.len() implies b[i] == seq_view(v@)[i] by {
                assert(b[i] == v@[i]@);
            }
            assert(b =~= seq_view(v@));
        },
        _ => {
            assert(false);
        },
    }
}

pub fn json_string_parser(s: &Vec<char>, p: usize) -> (r: Option<
    (InterpolatedString, usize, Vec<ParseError>),
>)
    requires
        p <= s@.len(),
    ensures
        res_istr(r) == sp_json_string(s@, p as int),
        r matches Some((_, q, _)) ==> p < q <= s@.len(),
        r matches Some((_, q, e)) ==> errs_within(e@, p as int, q as int),
{
    if !(p < s.len() && s[p] == '"') {
        return None;
    }
    let (parts, q, e) = parse_parts(StrKind::Json, s, p + 1);
    if q < s.len() && s[q] == '"' {
        proof {
            lemma_istr_view(parts);
        }
        Some((InterpolatedString { parts }, q + 1, e))
    } else {
        None
    }
}

fn digits_end(s: &Vec<char>, q: usize) -> (d: usize)
    requires
        q <= s@.len(),
    ensures
        d == run_end(s@, q as int, digit_pred()),
        q <= d <= s@.len(),
{
    run_end_exec(
        s,
        q,
        (|c: char| -> (b: bool)
            ensures
                b == is_digit(c),
            { crate::base::is_digit_exec(c) }),
        Ghost(digit_pred()),
    )
}

pub fn json_number_end_exec(s: &Vec<char>, p: usize) -> (r: Option<usize>)
    requires
        p <= s@.len(),
    ensures
        match r {
            Some(q) => json_number_end(s@, p as int) == Some(q as int) && p < q <= s@.len(),
            None => json_number_end(s@, p as int) is None,
        },
{
    let q = if p < s.len() && s[p] == '-' {
        p + 1
    } else {
        p
    };
    let e = int_end_exec(s, q);
    if e == q {
        return None;
    }
    let f = if e < s.len() && s[e] == '.' {
        let d = digits_end(s, e + 1);
        if d > e + 1 {
            d
        } else {
            e
        }
    } else {
        e
    };
    let x = if f < s.len() && (s[f] == 'e' || s[f] == 'E') {
        let g = if f + 1 < s.len() && (s[f + 1] == '+' || s[f + 1] == '-') {
            f + 2
        } else {
            f + 1
        };
        let d = digits_end(s, g);
        if d > g {
            d
        } else {
            f
        }
    } else {
        f
    };
    Some(x)
}

fn request_starts_exec(s: &Vec<char>, q: usize) -> (b: bool)
    requires
        q <= s@.len(),
    ensures
        b == request_starts(s@, q as int),
{
    parse_method_line_strict(s, q).is_some()
}

fn skipped_exec(a: usize, b: usize) -> (r: Vec<ParseError>)
    ensures
        r@ == skipped(a as int, b as int),
        a <= b ==> errs_within(r@, a as int, b as int),
{
    one_err_exec(a, b, ErrorKind::UnexpectedInput)
}

/// The end of a balanced block that opens with `open` at `q`.
pub fn nested_end_exec(s: &Vec<char>, q: usize, open: char) -> (r: Option<usize>)
    requires
        q <= s@.len(),
        open == '[' || open == '{',
    ensures
        match r {
            Some(e) => nested_end(s@, q as int, open) == Some(e as int) && q < e <= s@.len(),
            None => nested_end(s@, q as int, open) is None,
        },
{
    if !(q < s.len() && s[q] == open) {
        return None;
    }
    let mut stack: Vec<char> = Vec::new();
    stack.push(if open == '[' { ']' } else { '}' });
    let mut i = q + 1;
    while i < s.len()
        invariant
            q < i <= s@.len(),
            char_at(s@, q as int) == Some(open),
            stack@.len() > 0,
            nested_scan(s@, i as int, stack@) == nested_scan(s@, q + 1, seq![closer_of(open)]),
        decreases s@.len() - i,
    {
        let c = s[i];
        let top = stack[stack.len() - 1];
        if c == top {
            if stack.len() == 1 {
                return Some(i + 1);
            }
            stack.pop();
        } else if c == '[' || c == '{' {
            stack.push(if c == '[' { ']' } else { '}' });
        } else if c == ']' || c == '}' {
            return None;
        }
        i = i + 1;
    }
    None
}

fn sep_plain_exec(s: &Vec<char>, q: usize) -> (r: Option<usize>)
    requires
        q <= s@.len(),
    ensures
        match r {
            Some(q2) => sep_plain(s@, q as int) == Some(q2 as int) && q < q2 <= s@.len(),
            None => sep_plain(s@, q as int) is None,
        },
{
    let q1 = ws_end_exec(s, q);
    if q1 < s.len() && s[q1] == ',' {
        Some(ws_end_exec(s, q1 + 1))
    } else {
        None
    }
}

fn sep_recovering_exec(s: &Vec<char>, q: usize, c: char) -> (r: Option<(usize, Vec<ParseError>)>)
    requires
        q <= s@.len(),
    ensures
        match r {
            Some((q2, e)) => sep_recovering(s@, q as int, c) == Some((q2 as int, e@)) && q < q2
                <= s@.len(),
            None => sep_recovering(s@, q as int, c) is None,
        },
        r matches Some((q2, e)) ==> errs_within(e@, q as int, q2 as int),
{
    if let Some(q2) = sep_plain_exec(s, q) {
        return Some((q2, Vec::new()));
    }
    let mut cur = q;
    loop
        invariant
            q <= cur <= s@.len(),
            sep_plain(s@, q as int) is None,
            sep_skip(s@, q as int, cur as int, c) == sep_skip(s@, q as int, q as int, c),
        decreases s@.len() - cur,
    {
        if cur >= s.len() || s[cur] == ',' || s[cur] == c || request_starts_exec(s, cur) {
            return None;
        }
        match sep_plain_exec(s, cur + 1) {
            Some(q2) => {
                return Some((q2, skipped_exec(q, cur + 1)));
            },
            None => {
                cur = cur + 1;
            },
        }
    }
}

fn close_failure_exec(s: &Vec<char>, start: usize, limit: usize, c: char) -> (r: Vec<
    ParseError,
>)
    requires
        start <= limit <= s@.len(),
    ensures
        r@ == close_failure(s@, start as int, limit as int, c),
        limit < s@.len() ==> errs_within(r@, start as int, limit + 1),
        limit == s@.len() ==> errs_within(r@, start as int, limit as int),
{
    let (x, k) = match sep_plain_exec(s, start) {
        Some(q2) => if start <= q2 && q2 <= limit {
            (q2, if c == '}' { Expectation::JsonKeyValue } else { Expectation::JsonValue })
        } else {
            (start, Expectation::CommaOr(c))
        },
        None => (start, Expectation::CommaOr(c)),
    };
    if x < s.len() {
        one_err_exec(x, x + 1, ErrorKind::Expected(k))
    } else {
        one_err_exec(x, x, ErrorKind::Expected(k))
    }
}

fn close_recovering_exec(s: &Vec<char>, q: usize, c: char) -> (r: Option<(usize, Vec<ParseError>)>)
    requires
        q <= s@.len(),
    ensures
        match r {
            Some((q2, e)) => close_recovering(s@, q as int, c) == Some((q2 as int, e@)) && q
                <= q2 <= s@.len(),
            None => close_recovering(s@, q as int, c) is None,
        },
        r matches Some((q2, e)) ==> errs_within(e@, q as int, q2 as int),
{
    if q < s.len() && s[q] == c {
        return Some((q + 1, Vec::new()));
    }
    if q == s.len() {
        return Some((q, skipped_exec(q, q)));
    }
    let mut cur = q;
    loop
        invariant
            q <= cur <= s@.len(),
            q < s@.len(),
            char_at(s@, q as int) != Some(c),
            close_skip(s@, q as int, cur as int, c) == close_skip(s@, q as int, q as int, c),
        decreases s@.len() - cur,
    {
        if cur >= s.len() || request_starts_exec(s, cur) {
            return None;
        }
        if cur + 1 < s.len() && s[cur + 1] == c {
            return Some((cur + 2, close_failure_exec(s, q, cur + 1, c)));
        }
        if cur + 1 == s.len() {
            let mut e = skipped_exec(cur + 1, cur + 1);
            let mut e2 = close_failure_exec(s, q, cur + 1, c);
            proof {
                lemma_errs_append(e@, e2@, q as int, cur + 1, q as int, cur + 1);
            }
            e.append(&mut e2);
            return Some((cur + 1, e));
        }
        cur = cur + 1;
    }
}

pub fn json_value_at(s: &Vec<char>, p: usize) -> (r: Option<(Json, usize, Vec<ParseError>)>)
    requires
        p <= s@.len(),
    ensures
        res_json(r) == sp_json_value(s@, p as int),
        r matches Some((_, q, _)) ==> p < q <= s@.len(),
        r matches Some((_, q, e)) ==> errs_within(e@, p as int, q as int),
    decreases s@.len() - p, 6nat,
{
    let q = ws_end_exec(s, p);
    json_recovering_exec(s, q)
}

fn json_recovering_exec(s: &Vec<char>, q: usize) -> (r: Option<(Json, usize, Vec<ParseError>)>)
    requires
        q <= s@.len(),
    ensures
        res_json(r) == json_recovering(s@, q as int),
        r matches Some((_, q2, _)) ==> q < q2 <= s@.len(),
        r matches Some((_, q2, e)) ==> errs_within(e@, q as int, q2 as int),
    decreases s@.len() - q, 5nat,
{
    if let Some(r) = json_retried_exec(s, q) {
        return Some(r);
    }
    let mut cur = q;
    loop
        invariant
            q <= cur <= s@.len(),
            json_retried(s@, q as int) is None,
            json_skip(s@, q as int, cur as int) == json_skip(s@, q as int, q as int),
        decreases s@.len() - cur,
    {
        if cur >= s.len() || s[cur] == ',' || s[cur] == ']' || s[cur] == '}' || request_starts_exec(
            s,
            cur,
        ) {
            return None;
        }
        match json_retried_exec(s, cur + 1) {
            Some((v, q2, mut e)) => {
                let mut e2 = skipped_exec(q, cur + 1);
                e.append(&mut e2);
                return Some((v, q2, e));
            },
            None => {
                cur = cur + 1;
            },
        }
    }
}

fn json_retried_exec(s: &Vec<char>, q: usize) -> (r: Option<(Json, usize, Vec<ParseError>)>)
    requires
        q <= s@.len(),
    ensures
        res_json(r) == json_retried(s@, q as int),
        r matches Some((_, q2, _)) ==> q < q2 <= s@.len(),
        r matches Some((_, q2, e)) ==> errs_within(e@, q as int, q2 as int),
    decreases s@.len() - q, 3nat,
{
    if let Some(r) = json_core_exec(s, q) {
        return Some(r);
    }
    if let Some(e) = nested_end_exec(s, q, '{') {
        return Some((Json::Invalid, e, skipped_exec(q, e)));
    }
    if let Some(e) = nested_end_exec(s, q, '[') {
        return Some((Json::Invalid, e, skipped_exec(q, e)));
    }
    None
}

fn json_core_exec(s: &Vec<char>, q: usize) -> (r: Option<(Json, usize, Vec<ParseError>)>)
    requires
        q <= s@.len(),
    ensures
        res_json(r) == json_core(s@, q as int),
        r matches Some((_, q2, _)) ==> q < q2 <= s@.len(),
        r matches Some((_, q2, e)) ==> errs_within(e@, q as int, q2 as int),
    decreases s@.len() - q, 2nat,
{
    proof {
        reveal_strlit("null");
        reveal_strlit("true");
        reveal_strlit("false");
    }
    if let Some((t, q2, e)) = template_at(s, q) {
        return Some((Json::Template(t), q2, e));
    }
    if let Some(q2) = lit_end_exec(s, q, "null") {
        return Some((Json::Null, q2, Vec::new()));
    }
    if let Some(q2) = lit_end_exec(s, q, "true") {
        return Some((Json::Bool(true), q2, Vec::new()));
    }
    if let Some(q2) = lit_end_exec(s, q, "false") {
        return Some((Json::Bool(false), q2, Vec::new()));
    }
    if let Some(q2) = json_number_end_exec(s, q) {
        return Some((Json::Num(string_of(s, q, q2)), q2, Vec::new()));
    }
    if let Some((v, q2, e)) = json_string_parser(s, q) {
        return Some((Json::InterpolatedString(v), q2, e));
    }
    if let Some((v, q2, e)) = parse_json_array(s, q) {
        proof {
            lemma_array_view(v);
        }
        return Some((Json::Array(v), q2, e));
    }
    if let Some((v, q2, e)) = json_object_parser(s, q) {
        proof {
            lemma_object_view(v);
        }
        return Some((Json::Object(v), q2, e));
    }
    None
}

pub open spec fn res_json_vec(r: Option<(Vec<Json>, usize, Vec<ParseError>)>) -> SpecRes<
    Seq<SpecJson>,
> {
    match r {
        Some((v, q, e)) => Some((seq_view(v@), q as int, e@)),
        None => None,
    }
}

pub fn parse_json_array(s: &Vec<char>, p: usize) -> (r: Option<(Vec<Json>, usize, Vec<ParseError>)>)
    requires
        p <= s@.len(),
    ensures
        res_json_vec(r) == sp_json_array(s@, p as int),
        r matches Some((_, q, _)) ==> p < q <= s@.len(),
        r matches Some((_, q, e)) ==> errs_within(e@, p as int, q as int),
    decreases s@.len() - p, 1nat,
{
    if !(p < s.len() && s[p] == '[') {
        return None;
    }
    let mut items: Vec<Json> = Vec::new();
    let mut errs: Vec<ParseError> = Vec::new();
    let mut q: usize = p + 1;
    if let Some((v, q1, e)) = json_value_at(s, p + 1) {
        items.push(v);
        errs = e;
        q = q1;
        loop
            invariant
                p < q <= s@.len(),
                errs_within(errs@, p as int, q as int),
                sp_json_items_rest(s@, q as int, seq_view(items@), errs@) == json_array_items(
                    s@,
                    p as int,
                ),
            ensures
                p < q <= s@.len(),
                errs_within(errs@, p as int, q as int),
                (seq_view(items@), q as int, errs@) == json_array_items(s@, p as int),
            decreases s@.len() - q,
        {
            match sep_recovering_exec(s, q, ']') {
                None => {
                    break ;
                },
                Some((q2, mut es)) => match json_value_at(s, q2) {
                    None => {
                        break ;
                    },
                    Some((v, q3, mut e)) => {
                        items.push(v);
                        proof {
                            lemma_errs_append(errs@, es@, p as int, q as int, q as int, q2 as int);
                            lemma_errs_append(
                                errs@ + es@,
                                e@,
                                p as int,
                                q2 as int,
                                q2 as int,
                                q3 as int,
                            );
                        }
                        errs.append(&mut es);
                        errs.append(&mut e);
                        q = q3;
                    },
                },
            }
        }
    }
    let q1 = ws_end_exec(s, q);
    match close_recovering_exec(s, q1, ']') {
        Some((q2, mut e2)) => {
            proof {
                lemma_errs_append(errs@, e2@, p as int, q1 as int, q1 as int, q2 as int);
            }
            errs.append(&mut e2);
            Some((items, q2, errs))
        },
        None => None,
    }
}

pub open spec fn res_member(r: Option<(JsonKeyValue, usize, Vec<ParseError>)>) -> SpecRes<
    SpecJsonMember,
> {
    match r {
        Some((v, q, e)) => Some((v@, q as int, e@)),
        None => None,
    }
}

fn parse_json_member(s: &Vec<char>, p: usize) -> (r: Option<(JsonKeyValue, usize, Vec<ParseError>)>)
    requires
        p <= s@.len(),
    ensures
        res_member(r) == sp_json_member(s@, p as int),
        r matches Some((_, q, _)) ==> p < q <= s@.len(),
        r matches Some((_, q, e)) ==> errs_within(e@, p as int, q as int),
    decreases s@.len() - p, 0nat,
{
    match json_string_parser(s, p) {
        Some((k, q, mut e1)) => {
            let q1 = ws_end_exec(s, q);
            if q1 < s.len() && s[q1] == ':' {
                let q2 = ws_end_exec(s, q1 + 1);
                match json_value_at(s, q2) {
                    Some((v, q3, mut e2)) => {
                        e1.append(&mut e2);
                        Some((JsonKeyValue { key: k, value: v }, q3, e1))
                    },
                    None => None,
                }
            } else {
                None
            }
        },
        None => None,
    }
}

pub open spec fn res_members(r: Option<(Vec<JsonKeyValue>, usize, Vec<ParseError>)>) -> SpecRes<
    Seq<SpecJsonMember>,
> {
    match r {
        Some((v, q, e)) => Some((seq_view(v@), q as int, e@)),
        None => None,
    }
}

pub fn json_object_parser(s: &Vec<char>, p: usize) -> (r: Option<
    (Vec<JsonKeyValue>, usize, Vec<ParseError>),
>)
    requires
        p <= s@.len(),
    ensures
        res_members(r) == sp_json_object(s@, p as int),
        r matches Some((_, q, _)) ==> p < q <= s@.len(),
        r matches Some((_, q, e)) ==> errs_within(e@, p as int, q as int),
    decreases s@.len() - p, 1nat,
{
    if !(p < s.len() && s[p] == '{') {
        return None;
    }
    let q0 = ws_end_exec(s, p + 1);
    let mut members: Vec<JsonKeyValue> = Vec::new();
    let mut errs: Vec<ParseError> = Vec::new();
    let mut q: usize = q0;
    if let Some((m, q1, e)) = parse_json_member(s, q0) {
        members.push(m);
        errs = e;
        q = q1;
        loop
            invariant
                p < q0 < q <= s@.len(),
                errs_within(errs@, p as int, q as int),
                q0 == ws_end(s@, p + 1),
                sp_json_members_rest(s@, q as int, seq_view(members@), errs@)
                    == json_object_members(s@, p as int),
            ensures
                p < q <= s@.len(),
                errs_within(errs@, p as int, q as int),
                (seq_view(members@), q as int, errs@) == json_object_members(s@, p as int),
            decreases s@.len() - q,
        {
            match sep_recovering_exec(s, q, '}') {
                None => {
                    break ;
                },
                Some((q2, mut es)) => match parse_json_member(s, q2) {
                    None => {
                        break ;
                    },
                    Some((m, q3, mut e)) => {
                        members.push(m);
                        proof {
                            lemma_errs_append(errs@, es@, p as int, q as int, q as int, q2 as int);
                            lemma_errs_append(
                                errs@ + es@,
                                e@,
                                p as int,
                                q2 as int,
                                q2 as int,
                                q3 as int,
                            );
                        }
                        errs.append(&mut es);
                        errs.append(&mut e);
                        q = q3;
                    },
                },
            }
        }
    }
    let q1 = ws_end_exec(s, q);
    match close_recovering_exec(s, q1, '}') {
        Some((q2, mut e2)) => {
            proof {
                lemma_errs_append(errs@, e2@, p as int, q1 as int, q1 as int, q2 as int);
            }
            errs.append(&mut e2);
            Some((members, q2, errs))
        },
        None => None,
    }
}


/// Where a JSON value at `p` fails to be read: after the white space, where
/// a value was expected.
pub open spec fn json_failure(s: Seq<char>, p: int) -> ParseError {
    point_with(s, ws_end(s, p), ErrorKind::Expected(Expectation::JsonValue))
}

/// A JSON value at `p`, after white space and with its recovery; when
/// there is none, the place where reading it failed.
pub fn json_value_parser(s: &Vec<char>, p: usize) -> (r: Result<
    (Json, usize, Vec<ParseError>),
    ParseError,
>)
    requires
        p <= s@.len(),
    ensures
        match r {
            Ok(x) => res_json(Some(x)) == sp_json_value(s@, p as int) && p < x.1 <= s@.len()
                && errs_within(x.2@, p as int, x.1 as int),
            Err(f) => sp_json_value(s@, p as int) is None && f == json_failure(s@, p as int),
        },
{
    match json_value_at(s, p) {
        Some(x) => Ok(x),
        None => Err(point_with_exec(s, ws_end_exec(s, p), ErrorKind::Expected(Expectation::JsonValue))),
    }
}


/// A JSON number with an exponent is read to the end of the exponent's
/// digits: an optional `-`, an integer, `e` or `E`, an optional `+` or
/// `-`, and one or more digits make one number, which a JSON value read at
/// that place takes whole, with no diagnostic.
pub proof fn lemma_json_exponent(s: Seq<char>, p: int, x: int)
    requires
        0 <= p,
        ({
            let q = if char_at(s, p) == Some('-') {
                p + 1
            } else {
                p
            };
            let e = int_end(s, q);
            let g = if char_at(s, e + 1) == Some('+') || char_at(s, e + 1) == Some('-') {
                e + 2
            } else {
                e + 1
            };
            &&& e > q
            &&& char_at(s, e) == Some('e') || char_at(s, e) == Some('E')
            &&& g < x <= s.len()
            &&& forall|i: int| g <= i < x ==> is_digit(#[trigger] s[i])
            &&& x == s.len() || !is_digit(s[x])
        }),
    ensures
        json_number_end(s, p) == Some(x),
        json_core(s, p) == Some((SpecJson::Num(s.subrange(p, x)), x, Seq::<ParseError>::empty())),
{
    let q = if char_at(s, p) == Some('-') {
        p + 1
    } else {
        p
    };
    let e = int_end(s, q);
    let g = if char_at(s, e + 1) == Some('+') || char_at(s, e + 1) == Some('-') {
        e + 2
    } else {
        e + 1
    };
    lemma_run_end_at(s, g, digit_pred(), x);
    assert(0 <= q < s.len());
    assert(s[p] == '-' || is_digit(s[p]));
    reveal_strlit("null");
    reveal_strlit("true");
    reveal_strlit("false");
    assert forall|w: Seq<char>| w.len() >= 1 && !(w[0] == '-' || is_digit(w[0])) implies !(
    #[trigger] matches_at(s, p, w)) by {
        if matches_at(s, p, w) {
            assert(s.subrange(p, p + w.len())[0] == s[p]);
        }
    }
    assert(!matches_at(s, p, seq!['{', '{']));
    assert(!matches_at(s, p, "null"@));
    assert(!matches_at(s, p, "true"@));
    assert(!matches_at(s, p, "false"@));
}

} // verus!
