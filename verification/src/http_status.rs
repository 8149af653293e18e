//! The first line of a response: an HTTP version and a status.
use vstd::prelude::*;
use crate::base::{errs_within, 
    ErrorKind, ParseError, SpecRes, char_at, dec_value, decimal_u64, is_digit, is_digit_exec,
    lemma_run_end, lit_end, lit_end_exec, matches_at, run_end, run_end_exec, skip_sp,
    skip_sp_exec, string_from, string_of,
};
use crate::model::SpecHttpVersion;
use crate::primitives::{parse_lt, sp_lt};
use crate::template::digit_pred;
use crate::types::{HttpStatus, HttpVersion};

verus! {

/// A version number: digits, optionally `.` and digits; its end, or `q`.
pub open spec fn version_number_end(s: Seq<char>, q: int) -> int {
    let d = run_end(s, q, digit_pred());
    if d > q {
        if char_at(s, d) == Some('.') && run_end(s, d + 1, digit_pred()) > d + 1 {
            run_end(s, d + 1, digit_pred())
        } else {
            d
        }
    } else {
        q
    }
}

/// The version: the four known ones, else `HTTP/` and a version number
/// (reported as unknown), else `HTTP`.
pub open spec fn sp_version(s: Seq<char>, p: int) -> SpecRes<SpecHttpVersion> {
    if matches_at(s, p, "HTTP/1.0"@) {
        Some((SpecHttpVersion::Http1_0, p + "HTTP/1.0"@.len(), Seq::empty()))
    } else if matches_at(s, p, "HTTP/1.1"@) {
        Some((SpecHttpVersion::Http1_1, p + "HTTP/1.1"@.len(), Seq::empty()))
    } else if matches_at(s, p, "HTTP/2"@) {
        Some((SpecHttpVersion::Http2, p + "HTTP/2"@.len(), Seq::empty()))
    } else if matches_at(s, p, "HTTP/3"@) {
        Some((SpecHttpVersion::Http3, p + "HTTP/3"@.len(), Seq::empty()))
    } else if matches_at(s, p, "HTTP/"@) && version_number_end(s, p + "HTTP/"@.len()) > p
        + "HTTP/"@.len() {
        let e = version_number_end(s, p + "HTTP/"@.len());
        Some(
            (
                SpecHttpVersion::HttpUknown(s.subrange(p, e)),
                e,
                seq![
                    ParseError {
                        start: p as usize,
                        end: e as usize,
                        kind: ErrorKind::UnknownHttpVersion,
                    },
                ],
            ),
        )
    } else if matches_at(s, p, "HTTP"@) {
        Some((SpecHttpVersion::Http, p + "HTTP"@.len(), Seq::empty()))
    } else {
        None
    }
}

pub open spec fn status_text_pred() -> spec_fn(char) -> bool {
    |c: char| c != '#' && c != '\n'
}

pub open spec fn one_err(a: int, b: int, k: ErrorKind) -> Seq<ParseError> {
    seq![ParseError { start: a as usize, end: b as usize, kind: k }]
}

/// The status at `q`: digits (a code, or invalid when too large for a
/// `u64`), `*`, or any other text up to a `#` or a newline (missing when
/// empty, else invalid).
pub open spec fn sp_status(s: Seq<char>, q: int) -> (HttpStatus, int, Seq<ParseError>) {
    let d = run_end(s, q, digit_pred());
    if d > q {
        if dec_value(s, q, d) <= u64::MAX {
            (HttpStatus::Code(dec_value(s, q, d) as u64), d, Seq::empty())
        } else {
            (HttpStatus::Invalid, d, one_err(q, d, ErrorKind::StatusTooLarge))
        }
    } else if char_at(s, q) == Some('*') {
        (HttpStatus::Any, q + 1, Seq::empty())
    } else {
        let r = run_end(s, q, status_text_pred());
        if r == q {
            (HttpStatus::Missing, q, one_err(q, q, ErrorKind::MissingStatus))
        } else {
            (HttpStatus::Invalid, r, one_err(q, r, ErrorKind::StatusNotANumber))
        }
    }
}

/// A version, then spaces and a status (missing when there are no
/// spaces), then a line terminator.
pub open spec fn sp_status_line(s: Seq<char>, p: int) -> SpecRes<(SpecHttpVersion, HttpStatus)> {
    match sp_version(s, p) {
        Some((v, q, e1)) => {
            let q1 = skip_sp(s, q);
            let (st, q2, e2) = if q1 > q {
                sp_status(s, q1)
            } else {
                (HttpStatus::Missing, q, one_err(q, q, ErrorKind::MissingStatus))
            };
            match sp_lt(s, q2) {
                Some(q3) => Some(((v, st), q3, e1 + e2)),
                None => None,
            }
        },
        None => None,
    }
}

pub open spec fn res_status_line(r: Option<((HttpVersion, HttpStatus), usize, Vec<ParseError>)>) -> SpecRes<
    (SpecHttpVersion, HttpStatus),
> {
    match r {
        Some(((v, st), q, e)) => Some(((v@, st), q as int, e@)),
        None => None,
    }
}

fn digits_end(s: &Vec<char>, q: usize) -> (d: usize)
    requires
        q <= s@.len(),
    ensures
        d == run_end(s@, q as int, digit_pred()),
        q <= d <= s@.len(),
        forall|j: int| q <= j < d ==> is_digit(#[trigger] s@[j]),
{
    let d = run_end_exec(
        s,
        q,
        (|c: char| -> (b: bool)
            ensures
                b == is_digit(c),
            { is_digit_exec(c) }),
        Ghost(digit_pred()),
    );
    proof {
        lemma_run_end(s@, q as int, digit_pred());
    }
    d
}

pub fn one_err_exec(a: usize, b: usize, k: ErrorKind) -> (r: Vec<ParseError>)
    ensures
        r@ == one_err(a as int, b as int, k),
{
    let mut r = Vec::new();
    r.push(ParseError { start: a, end: b, kind: k });
    assert(r@ =~= one_err(a as int, b as int, k));
    r
}

fn version_number_end_exec(s: &Vec<char>, q: usize) -> (e: usize)
    requires
        q <= s@.len(),
    ensures
        e == version_number_end(s@, q as int),
        q <= e <= s@.len(),
{
    let d = digits_end(s, q);
    if d > q {
        if d < s.len() && s[d] == '.' {
            let d2 = digits_end(s, d + 1);
            if d2 > d + 1 {
                return d2;
            }
        }
        d
    } else {
        q
    }
}

pub fn version_parser(s: &Vec<char>, p: usize) -> (r: Option<(HttpVersion, usize, Vec<ParseError>)>)
    requires
        p <= s@.len(),
    ensures
        match r {
            Some((v, q, e)) => sp_version(s@, p as int) == Some((v@, q as int, e@)) && p < q
                <= s@.len(),
            None => sp_version(s@, p as int) is None,
        },
{
    proof {
        reveal_strlit("HTTP/1.0");
        reveal_strlit("HTTP/1.1");
        reveal_strlit("HTTP/2");
        reveal_strlit("HTTP/3");
        reveal_strlit("HTTP/");
    }
    if let Some(q) = lit_end_exec(s, p, "HTTP/1.0") {
        return Some((HttpVersion::Http1_0, q, Vec::new()));
    }
    if let Some(q) = lit_end_exec(s, p, "HTTP/1.1") {
        return Some((HttpVersion::Http1_1, q, Vec::new()));
    }
    if let Some(q) = lit_end_exec(s, p, "HTTP/2") {
        return Some((HttpVersion::Http2, q, Vec::new()));
    }
    if let Some(q) = lit_end_exec(s, p, "HTTP/3") {
        return Some((HttpVersion::Http3, q, Vec::new()));
    }
    if let Some(q) = lit_end_exec(s, p, "HTTP/") {
        let e = version_number_end_exec(s, q);
        if e > q {
            return Some(
                (
                    HttpVersion::HttpUknown(string_of(s, p, e)),
                    e,
                    one_err_exec(p, e, ErrorKind::UnknownHttpVersion),
                ),
            );
        }
    }
    proof {
        reveal_strlit("HTTP");
    }
    if let Some(q) = lit_end_exec(s, p, "HTTP") {
        return Some((HttpVersion::Http, q, Vec::new()));
    }
    None
}

fn parse_status(s: &Vec<char>, q: usize) -> (r: (HttpStatus, usize, Vec<ParseError>))
    requires
        q <= s@.len(),
    ensures
        (r.0, r.1 as int, r.2@) == sp_status(s@, q as int),
        q <= r.1 <= s@.len(),
{
    let d = digits_end(s, q);
    if d > q {
        match decimal_u64(s, q, d) {
            Some(n) => (HttpStatus::Code(n), d, Vec::new()),
            None => (HttpStatus::Invalid, d, one_err_exec(q, d, ErrorKind::StatusTooLarge)),
        }
    } else if q < s.len() && s[q] == '*' {
        (HttpStatus::Any, q + 1, Vec::new())
    } else {
        let r = run_end_exec(
            s,
            q,
            (|c: char| -> (b: bool)
                ensures
                    b == (c != '#' && c != '\n'),
                { c != '#' && c != '\n' }),
            Ghost(status_text_pred()),
        );
        if r == q {
            (HttpStatus::Missing, q, one_err_exec(q, q, ErrorKind::MissingStatus))
        } else {
            (HttpStatus::Invalid, r, one_err_exec(q, r, ErrorKind::StatusNotANumber))
        }
    }
}

pub fn http_status_line_parser(s: &Vec<char>, p: usize) -> (r: Option<
    ((HttpVersion, HttpStatus), usize, Vec<ParseError>),
>)
    requires
        p <= s@.len(),
    ensures
        res_status_line(r) == sp_status_line(s@, p as int),
        r matches Some((_, q, _)) ==> p < q <= s@.len(),
        r matches Some((_, q, e)) ==> errs_within(e@, p as int, q as int),
{
    match version_parser(s, p) {
        Some((v, q, mut e1)) => {
            let q1 = skip_sp_exec(s, q);
            let (st, q2, mut e2) = if q1 > q {
                parse_status(s, q1)
            } else {
                (HttpStatus::Missing, q, one_err_exec(q, q, ErrorKind::MissingStatus))
            };
            match parse_lt(s, q2) {
                Some(q3) => {
                    e1.append(&mut e2);
                    Some(((v, st), q3, e1))
                },
                None => None,
            }
        },
        None => None,
    }
}

/// The text of a version, as the grammar writes it.
pub open spec fn version_text(v: SpecHttpVersion) -> Seq<char> {
    match v {
        SpecHttpVersion::Http1_0 => "HTTP/1.0"@,
        SpecHttpVersion::Http1_1 => "HTTP/1.1"@,
        SpecHttpVersion::Http2 => "HTTP/2"@,
        SpecHttpVersion::Http3 => "HTTP/3"@,
        SpecHttpVersion::Http => "HTTP"@,
        SpecHttpVersion::HttpUknown(t) => t,
    }
}

impl HttpVersion {
    /// The text of the version: the one the grammar writes for a known
    /// version, or the text an unknown version was written with.
    pub fn to_string(&self) -> (r: String)
        ensures
            r@ == version_text(self@),
    {
        match self {
            HttpVersion::Http1_0 => string_from("HTTP/1.0"),
            HttpVersion::Http1_1 => string_from("HTTP/1.1"),
            HttpVersion::Http2 => string_from("HTTP/2"),
            HttpVersion::Http3 => string_from("HTTP/3"),
            HttpVersion::Http => string_from("HTTP"),
            HttpVersion::HttpUknown(t) => t.clone(),
        }
    }
}

/// A version read from a text is written back as the very text it was
/// read from.
pub proof fn lemma_version_text_is_source(s: Seq<char>, p: int)
    ensures
        sp_version(s, p) matches Some((v, q, _)) ==> version_text(v) == s.subrange(p, q),
{
    reveal_strlit("HTTP/1.0");
    reveal_strlit("HTTP/1.1");
    reveal_strlit("HTTP/2");
    reveal_strlit("HTTP/3");
    reveal_strlit("HTTP/");
    reveal_strlit("HTTP");
}

/// The text of each known version reads back as that version, over the
/// whole text and with no diagnostic.
pub proof fn lemma_known_version_round_trip(v: SpecHttpVersion)
    requires
        !(v is HttpUknown),
    ensures
        sp_version(version_text(v), 0) == Some((v, version_text(v).len() as int, Seq::<ParseError>::empty())),
{
    reveal_strlit("HTTP/1.0");
    reveal_strlit("HTTP/1.1");
    reveal_strlit("HTTP/2");
    reveal_strlit("HTTP/3");
    reveal_strlit("HTTP/");
    reveal_strlit("HTTP");
    let t = version_text(v);
    assert(t.subrange(0, t.len() as int) =~= t);
    if v is Http1_1 {
        assert(t.subrange(0, 8)[7] == '1');
    } else if v is Http3 {
        assert(t.subrange(0, 6)[5] == '3');
    }
}

} // verus!
