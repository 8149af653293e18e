//! Keys, values, `key: value` lines, and the header lines of a request or
//! a response.
use vstd::prelude::*;
use crate::base::{lemma_errs_append, errs_within, ParseError, SpecParser, SpecRes, char_at, many, many_from, skip_sp, skip_sp_exec};
use crate::model::{SpecInterpolatedString, SpecKeyValue};
use crate::primitives::{parse_lt, sp_lt};
use crate::strings::StrKind;
use crate::template::{parse_parts1, res_istr, sp_parts1};
use crate::types::{KeyValue, lemma_seq_view_empty, lemma_seq_view_push, seq_view};

verus! {

broadcast use lemma_seq_view_push, lemma_seq_view_empty;

/// A key: one or more runs of key characters or templates.
pub open spec fn sp_key(s: Seq<char>, p: int) -> SpecRes<SpecInterpolatedString> {
    sp_parts1(StrKind::Key, s, p)
}

/// A value: one or more templates or runs of value characters, up to a
/// `#`, a newline, or a backslash that starts no escape.
pub open spec fn sp_value(s: Seq<char>, p: int) -> SpecRes<SpecInterpolatedString> {
    sp_parts1(StrKind::Value, s, p)
}

/// Spaces, a key, spaces, `:`, spaces, a value.
pub open spec fn sp_key_value(s: Seq<char>, p: int) -> SpecRes<SpecKeyValue> {
    match sp_key(s, skip_sp(s, p)) {
        Some((k, q, e1)) => {
            let q1 = skip_sp(s, q);
            if char_at(s, q1) == Some(':') {
                match sp_value(s, skip_sp(s, q1 + 1)) {
                    Some((v, q2, e2)) => Some((SpecKeyValue { key: k, value: v }, q2, e1 + e2)),
                    None => None,
                }
            } else {
                None
            }
        },
        None => None,
    }
}

/// A key-value line: a key-value, then a line terminator.
pub open spec fn sp_key_value_line(s: Seq<char>, p: int) -> SpecRes<SpecKeyValue> {
    match sp_key_value(s, p) {
        Some((kv, q, e)) => match sp_lt(s, q) {
            Some(q2) => Some((kv, q2, e)),
            None => None,
        },
        None => None,
    }
}

pub open spec fn key_value_line_rule() -> SpecParser<SpecKeyValue> {
    |s: Seq<char>, p: int| sp_key_value_line(s, p)
}

/// Zero or more key-value lines (headers, and the lines of most sections).
pub open spec fn sp_key_value_lines(s: Seq<char>, p: int) -> (
    Seq<SpecKeyValue>,
    int,
    Seq<ParseError>,
) {
    many(key_value_line_rule(), s, p)
}

pub open spec fn res_kv(r: Option<(KeyValue, usize, Vec<ParseError>)>) -> SpecRes<SpecKeyValue> {
    match r {
        Some((v, q, e)) => Some((v@, q as int, e@)),
        None => None,
    }
}

pub fn key_parser(s: &Vec<char>, p: usize) -> (r: Option<
    (crate::types::InterpolatedString, usize, Vec<ParseError>),
>)
    requires
        p <= s@.len(),
    ensures
        res_istr(r) == sp_key(s@, p as int),
        r matches Some((_, q, _)) ==> p < q <= s@.len(),
        r matches Some((_, q, e)) ==> errs_within(e@, p as int, q as int),
{
    parse_parts1(StrKind::Key, s, p)
}

pub fn value_parser(s: &Vec<char>, p: usize) -> (r: Option<
    (crate::types::InterpolatedString, usize, Vec<ParseError>),
>)
    requires
        p <= s@.len(),
    ensures
        res_istr(r) == sp_value(s@, p as int),
        r matches Some((_, q, _)) ==> p < q <= s@.len(),
        r matches Some((_, q, e)) ==> errs_within(e@, p as int, q as int),
{
    parse_parts1(StrKind::Value, s, p)
}

pub fn key_value_parser(s: &Vec<char>, p: usize) -> (r: Option<(KeyValue, usize, Vec<ParseError>)>)
    requires
        p <= s@.len(),
    ensures
        res_kv(r) == sp_key_value(s@, p as int),
        r matches Some((_, q, _)) ==> p < q <= s@.len(),
        r matches Some((_, q, e)) ==> errs_within(e@, p as int, q as int),
{
    let p0 = skip_sp_exec(s, p);
    match key_parser(s, p0) {
        Some((k, q, mut e1)) => {
            let q1 = skip_sp_exec(s, q);
            if q1 < s.len() && s[q1] == ':' {
                let q2 = skip_sp_exec(s, q1 + 1);
                match value_parser(s, q2) {
                    Some((v, q3, mut e2)) => {
                        e1.append(&mut e2);
                        Some((KeyValue { key: k, value: v }, q3, e1))
                    },
                    None => None,
                }
            } else {
                None
            }
        },
        None => None,
    }
}

pub fn header_line_parser(s: &Vec<char>, p: usize) -> (r: Option<
    (KeyValue, usize, Vec<ParseError>),
>)
    requires
        p <= s@.len(),
    ensures
        res_kv(r) == sp_key_value_line(s@, p as int),
        r matches Some((_, q, _)) ==> p < q <= s@.len(),
        r matches Some((_, q, e)) ==> errs_within(e@, p as int, q as int),
{
    match key_value_parser(s, p) {
        Some((kv, q, e)) => match parse_lt(s, q) {
            Some(q2) => Some((kv, q2, e)),
            None => None,
        },
        None => None,
    }
}

/// Zero or more key-value lines from `p`.
pub fn headers_parser(s: &Vec<char>, p: usize) -> (r: (Vec<KeyValue>, usize, Vec<ParseError>))
    requires
        p <= s@.len(),
    ensures
        (seq_view(r.0@), r.1 as int, r.2@) == sp_key_value_lines(s@, p as int),
        p <= r.1 <= s@.len(),
        errs_within(r.2@, p as int, r.1 as int),
{
    let mut v: Vec<KeyValue> = Vec::new();
    let mut errs: Vec<ParseError> = Vec::new();
    let mut q = p;
    loop
        invariant
            p <= q <= s@.len(),
            errs_within(errs@, p as int, q as int),
            many_from(key_value_line_rule(), s@, q as int, seq_view(v@), errs@) == many(
                key_value_line_rule(),
                s@,
                p as int,
            ),
        decreases s@.len() - q,
    {
        match header_line_parser(s, q) {
            Some((kv, q2, mut e)) => {
                v.push(kv);
                proof {
                    lemma_errs_append(errs@, e@, p as int, q as int, q as int, q2 as int);
                }
                errs.append(&mut e);
                q = q2;
            },
            None => {
                return (v, q, errs);
            },
        }
    }
}

} // verus!
