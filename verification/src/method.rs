//! The first line of a request: a method and a URL.
use vstd::prelude::*;
use crate::base::{errs_within, lemma_errs_append, 
    ErrorKind, ParseError, SpecRes, is_ascii_alpha, is_ascii_alpha_exec, lemma_run_end,
    run_end, run_end_exec, skip_sp, skip_sp_exec, string_of,
};
use crate::key_value::{value_parser, sp_value};
use crate::model::{SpecMethod, SpecUrl};
use crate::primitives::{parse_lt, sp_lt};
use crate::template::{ident_pred, is_ident_char};
use crate::types::{Method, Url};

verus! {

pub open spec fn is_upper(c: char) -> bool {
    'A' <= c && c <= 'Z'
}

pub open spec fn upper_pred() -> spec_fn(char) -> bool {
    |c: char| is_upper(c)
}

/// The diagnostics of a method written at `s[a..b]`: its first character
/// that is not an ASCII capital letter, if any.
pub open spec fn method_errs(s: Seq<char>, a: int, b: int) -> Seq<ParseError> {
    let i = run_end(s, a, upper_pred());
    if i < b {
        seq![
            ParseError {
                start: a as usize,
                end: b as usize,
                kind: ErrorKind::InvalidMethodChar(s[i]),
            },
        ]
    } else {
        Seq::empty()
    }
}

/// The spacing between a method and its URL: spaces, tabs and line breaks,
/// so that the URL may stand on the next line.
pub open spec fn url_spacing(c: char) -> bool {
    c == ' ' || c == '\t' || c == '\n' || c == '\r'
}

pub open spec fn url_spacing_pred() -> spec_fn(char) -> bool {
    |c: char| url_spacing(c)
}

/// The URL after the method, which ends at `q`: spacing and a value, or a
/// missing URL (reported over the spacing read).
pub open spec fn sp_url(s: Seq<char>, q: int) -> (SpecUrl, int, Seq<ParseError>) {
    let q1 = run_end(s, q, url_spacing_pred());
    let missing = |a: int, b: int|
        seq![ParseError { start: a as usize, end: b as usize, kind: ErrorKind::MissingUrl }];
    if q1 > q {
        match sp_value(s, q1) {
            Some((u, q2, e)) => (SpecUrl::Url(u), q2, e),
            None => (SpecUrl::Missing, q1, missing(q, q1)),
        }
    } else {
        (SpecUrl::Missing, q, missing(q, q))
    }
}

/// A method line as a request reads it: spaces, a method (any identifier;
/// one that is not all ASCII capitals is reported), the URL, a line terminator.
pub open spec fn sp_method_line(s: Seq<char>, p: int) -> SpecRes<(SpecMethod, SpecUrl)> {
    let p0 = skip_sp(s, p);
    if 0 <= p0 < s.len() && (is_ascii_alpha(s[p0]) || s[p0] == '_') {
        let e = run_end(s, p0 + 1, ident_pred());
        let (url, q, e2) = sp_url(s, e);
        match sp_lt(s, q) {
            Some(q2) => Some(
                ((SpecMethod { value: s.subrange(p0, e) }, url), q2, method_errs(s, p0, e) + e2),
            ),
            None => None,
        }
    } else {
        None
    }
}

/// The strict form: one or more spaces, ASCII capitals, one or more
/// spaces, a value, a line terminator.
pub open spec fn sp_method_line_strict(s: Seq<char>, p: int) -> SpecRes<(SpecMethod, SpecUrl)> {
    let p0 = skip_sp(s, p);
    let e = run_end(s, p0, upper_pred());
    let q1 = skip_sp(s, e);
    if p0 > p && e > p0 && q1 > e {
        match sp_value(s, q1) {
            Some((u, q2, errs)) => match sp_lt(s, q2) {
                Some(q3) => Some(
                    ((SpecMethod { value: s.subrange(p0, e) }, SpecUrl::Url(u)), q3, errs),
                ),
                None => None,
            },
            None => None,
        }
    } else {
        None
    }
}

pub open spec fn res_method_line(r: Option<((Method, Url), usize, Vec<ParseError>)>) -> SpecRes<
    (SpecMethod, SpecUrl),
> {
    match r {
        Some(((m, u), q, e)) => Some(((m@, u@), q as int, e@)),
        None => None,
    }
}

fn is_upper_exec(c: char) -> (b: bool)
    ensures
        b == is_upper(c),
{
    'A' <= c && c <= 'Z'
}

fn method_errs_exec(s: &Vec<char>, a: usize, b: usize) -> (r: Vec<ParseError>)
    requires
        a <= b <= s@.len(),
    ensures
        r@ == method_errs(s@, a as int, b as int),
        errs_within(r@, a as int, b as int),
{
    let i = run_end_exec(
        s,
        a,
        (|c: char| -> (b: bool)
            ensures
                b == is_upper(c),
            { is_upper_exec(c) }),
        Ghost(upper_pred()),
    );
    if i < b {
        let c = s[i];
        let v = vec![ParseError { start: a, end: b, kind: ErrorKind::InvalidMethodChar(c) }];
        assert(v@ =~= method_errs(s@, a as int, b as int));
        assert(v@[0].start == a);
        v
    } else {
        let v: Vec<ParseError> = Vec::new();
        assert(v@ =~= method_errs(s@, a as int, b as int));
        v
    }
}

fn parse_url(s: &Vec<char>, q: usize) -> (r: (Url, usize, Vec<ParseError>))
    requires
        q <= s@.len(),
    ensures
        (r.0@, r.1 as int, r.2@) == sp_url(s@, q as int),
        q <= r.1 <= s@.len(),
        errs_within(r.2@, q as int, r.1 as int),
{
    let q1 = run_end_exec(
        s,
        q,
        (|c: char| -> (b: bool)
            ensures
                b == url_spacing(c),
            { c == ' ' || c == '\t' || c == '\n' || c == '\r' }),
        Ghost(url_spacing_pred()),
    );
    if q1 > q {
        match value_parser(s, q1) {
            Some((u, q2, e)) => (Url::Url(u), q2, e),
            None => {
                let mut e = Vec::new();
                e.push(ParseError { start: q, end: q1, kind: ErrorKind::MissingUrl });
                (Url::Missing, q1, e)
            },
        }
    } else {
        let mut e = Vec::new();
        e.push(ParseError { start: q, end: q, kind: ErrorKind::MissingUrl });
        (Url::Missing, q, e)
    }
}

pub fn method_line_parser(s: &Vec<char>, p: usize) -> (r: Option<
    ((Method, Url), usize, Vec<ParseError>),
>)
    requires
        p <= s@.len(),
    ensures
        res_method_line(r) == sp_method_line(s@, p as int),
        r matches Some((_, q, _)) ==> p < q <= s@.len(),
        r matches Some((_, q, e)) ==> errs_within(e@, p as int, q as int),
{
    let p0 = skip_sp_exec(s, p);
    if p0 < s.len() && (is_ascii_alpha_exec(s[p0]) || s[p0] == '_') {
        let e = run_end_exec(
            s,
            p0 + 1,
            (|c: char| -> (b: bool)
                ensures
                    b == is_ident_char(c),
                { crate::base::is_ascii_alphanumeric_exec(c) || c == '_' }),
            Ghost(ident_pred()),
        );
        let (url, q, mut e2) = parse_url(s, e);
        match parse_lt(s, q) {
            Some(q2) => {
                let mut errs = method_errs_exec(s, p0, e);
                proof {
                    lemma_errs_append(errs@, e2@, p as int, e as int, e as int, q2 as int);
                }
                errs.append(&mut e2);
                Some(((Method { value: string_of(s, p0, e) }, url), q2, errs))
            },
            None => None,
        }
    } else {
        None
    }
}

pub fn parse_method_line_strict(s: &Vec<char>, p: usize) -> (r: Option<
    ((Method, Url), usize, Vec<ParseError>),
>)
    requires
        p <= s@.len(),
    ensures
        res_method_line(r) == sp_method_line_strict(s@, p as int),
        r matches Some((_, q, _)) ==> p < q <= s@.len(),
        r matches Some((_, q, e)) ==> errs_within(e@, p as int, q as int),
{
    let p0 = skip_sp_exec(s, p);
    let e = run_end_exec(
        s,
        p0,
        (|c: char| -> (b: bool)
            ensures
                b == is_upper(c),
            { is_upper_exec(c) }),
        Ghost(upper_pred()),
    );
    let q1 = skip_sp_exec(s, e);
    if p0 > p && e > p0 && q1 > e {
        match value_parser(s, q1) {
            Some((u, q2, errs)) => match parse_lt(s, q2) {
                Some(q3) => Some(((Method { value: string_of(s, p0, e) }, Url::Url(u)), q3, errs)),
                None => None,
            },
            None => None,
        }
    } else {
        None
    }
}

} // verus!
