//! The sections of a response: `[Captures]` and `[Asserts]`.
use vstd::prelude::*;
use crate::base::{lemma_errs_append, errs_within, ParseError, SpecParser, SpecRes, char_at, many, many_from, skip_sp, skip_sp_exec};
use crate::key_value::{key_parser, sp_key};
use crate::model::{SpecAssert, SpecCapture, SpecResponseSection};
use crate::predicate::{predicate_parser, sp_predicate};
use crate::primitives::{parse_lt, sp_lt};
use crate::query::{query_parser, sp_query};
use crate::request_section::{parse_section_head, section_head};
use crate::template::{parse_filters, sp_filters};
use crate::types::{
    Assert, AssertsSection, Capture, CapturesSection, ResponseSection, lemma_seq_view_empty,
    lemma_seq_view_push, seq_view,
};

verus! {

broadcast use lemma_seq_view_push, lemma_seq_view_empty;

/// A capture: a key, `:`, a query, spaces, filters, a line terminator.
pub open spec fn sp_capture(s: Seq<char>, p: int) -> SpecRes<SpecCapture> {
    match sp_key(s, skip_sp(s, p)) {
        Some((k, q, e1)) => {
            let q1 = skip_sp(s, q);
            if char_at(s, q1) == Some(':') {
                match sp_query(s, skip_sp(s, q1 + 1)) {
                    Some((qu, q2, e2)) => match sp_filters(s, skip_sp(s, q2)) {
                        Some((fs, q3, e3)) => match sp_lt(s, q3) {
                            Some(q4) => Some(
                                (SpecCapture { key: k, query: qu, filters: fs }, q4, e1 + e2 + e3),
                            ),
                            None => None,
                        },
                        None => None,
                    },
                    None => None,
                }
            } else {
                None
            }
        },
        None => None,
    }
}

/// An assert: spaces, a query, one or more spaces, filters, spaces, a
/// predicate, a line terminator.
pub open spec fn sp_assert(s: Seq<char>, p: int) -> SpecRes<SpecAssert> {
    match sp_query(s, skip_sp(s, p)) {
        Some((qu, q, e1)) => {
            let q1 = skip_sp(s, q);
            if q1 > q {
                match sp_filters(s, q1) {
                    Some((fs, q2, e2)) => match sp_predicate(s, skip_sp(s, q2)) {
                        Some((pr, q3, e3)) => match sp_lt(s, q3) {
                            Some(q4) => Some(
                                (
                                    SpecAssert { query: qu, filters: fs, predicate: pr },
                                    q4,
                                    e1 + e2 + e3,
                                ),
                            ),
                            None => None,
                        },
                        None => None,
                    },
                    None => None,
                }
            } else {
                None
            }
        },
        None => None,
    }
}

pub open spec fn capture_rule() -> SpecParser<SpecCapture> {
    |s: Seq<char>, p: int| sp_capture(s, p)
}

pub open spec fn assert_rule() -> SpecParser<SpecAssert> {
    |s: Seq<char>, p: int| sp_assert(s, p)
}

/// A response section: `[Captures]` and captures, else `[Asserts]` and asserts.
pub open spec fn sp_response_section(s: Seq<char>, p: int) -> SpecRes<SpecResponseSection> {
    match section_head(s, p, "[Captures]"@) {
        Some(q) => {
            let (cs, q2, e) = many(capture_rule(), s, q);
            Some((SpecResponseSection::CapturesSection(cs), q2, e))
        },
        None => match section_head(s, p, "[Asserts]"@) {
            Some(q) => {
                let (as_, q2, e) = many(assert_rule(), s, q);
                Some((SpecResponseSection::AssertsSection(as_), q2, e))
            },
            None => None,
        },
    }
}

pub open spec fn response_section_rule() -> SpecParser<SpecResponseSection> {
    |s: Seq<char>, p: int| sp_response_section(s, p)
}

/// Zero or more response sections.
pub open spec fn sp_response_sections(s: Seq<char>, p: int) -> (
    Seq<SpecResponseSection>,
    int,
    Seq<ParseError>,
) {
    many(response_section_rule(), s, p)
}

// ---------------------------------------------------------------------------

pub fn parse_capture(s: &Vec<char>, p: usize) -> (r: Option<(Capture, usize, Vec<ParseError>)>)
    requires
        p <= s@.len(),
    ensures
        crate::base::res_view(r) == sp_capture(s@, p as int),
        r matches Some((_, q, _)) ==> p < q <= s@.len(),
        r matches Some((_, q, e)) ==> errs_within(e@, p as int, q as int),
{
    let p0 = skip_sp_exec(s, p);
    match key_parser(s, p0) {
        Some((k, q, mut e1)) => {
            let q1 = skip_sp_exec(s, q);
            if !(q1 < s.len() && s[q1] == ':') {
                return None;
            }
            let q2 = skip_sp_exec(s, q1 + 1);
            match query_parser(s, q2) {
                Some((qu, q3, mut e2)) => {
                    let q4 = skip_sp_exec(s, q3);
                    match parse_filters(s, q4) {
                        Some((fs, q5, mut e3)) => match parse_lt(s, q5) {
                            Some(q6) => {
                                e1.append(&mut e2);
                                e1.append(&mut e3);
                                Some((Capture { key: k, query: qu, filters: fs }, q6, e1))
                            },
                            None => None,
                        },
                        None => None,
                    }
                },
                None => None,
            }
        },
        None => None,
    }
}

pub fn parse_assert(s: &Vec<char>, p: usize) -> (r: Option<(Assert, usize, Vec<ParseError>)>)
    requires
        p <= s@.len(),
    ensures
        crate::base::res_view(r) == sp_assert(s@, p as int),
        r matches Some((_, q, _)) ==> p < q <= s@.len(),
        r matches Some((_, q, e)) ==> errs_within(e@, p as int, q as int),
{
    let p0 = skip_sp_exec(s, p);
    match query_parser(s, p0) {
        Some((qu, q, mut e1)) => {
            let q1 = skip_sp_exec(s, q);
            if q1 == q {
                return None;
            }
            match parse_filters(s, q1) {
                Some((fs, q2, mut e2)) => {
                    let q3 = skip_sp_exec(s, q2);
                    match predicate_parser(s, q3) {
                        Some((pr, q4, mut e3)) => match parse_lt(s, q4) {
                            Some(q5) => {
                                e1.append(&mut e2);
                                e1.append(&mut e3);
                                Some((Assert { query: qu, filters: fs, predicate: pr }, q5, e1))
                            },
                            None => None,
                        },
                        None => None,
                    }
                },
                None => None,
            }
        },
        None => None,
    }
}

fn parse_captures(s: &Vec<char>, p: usize) -> (r: (Vec<Capture>, usize, Vec<ParseError>))
    requires
        p <= s@.len(),
    ensures
        (seq_view(r.0@), r.1 as int, r.2@) == many(capture_rule(), s@, p as int),
        p <= r.1 <= s@.len(),
        errs_within(r.2@, p as int, r.1 as int),
{
    let mut v: Vec<Capture> = Vec::new();
    let mut errs: Vec<ParseError> = Vec::new();
    let mut q = p;
    loop
        invariant
            p <= q <= s@.len(),
            errs_within(errs@, p as int, q as int),
            many_from(capture_rule(), s@, q as int, seq_view(v@), errs@) == many(
                capture_rule(),
                s@,
                p as int,
            ),
        decreases s@.len() - q,
    {
        match parse_capture(s, q) {
            Some((c, q2, mut e)) => {
                v.push(c);
                proof {
                    lemma_errs_append(errs@, e@, p as int, q as int, q as int, q2 as int);
                }
                errs.append(&mut e);
                q = q2;
            },
            None => {
                return (v, q, errs);
            },
        }
    }
}

fn parse_asserts(s: &Vec<char>, p: usize) -> (r: (Vec<Assert>, usize, Vec<ParseError>))
    requires
        p <= s@.len(),
    ensures
        (seq_view(r.0@), r.1 as int, r.2@) == many(assert_rule(), s@, p as int),
        p <= r.1 <= s@.len(),
        errs_within(r.2@, p as int, r.1 as int),
{
    let mut v: Vec<Assert> = Vec::new();
    let mut errs: Vec<ParseError> = Vec::new();
    let mut q = p;
    loop
        invariant
            p <= q <= s@.len(),
            errs_within(errs@, p as int, q as int),
            many_from(assert_rule(), s@, q as int, seq_view(v@), errs@) == many(
                assert_rule(),
                s@,
                p as int,
            ),
        decreases s@.len() - q,
    {
        match parse_assert(s, q) {
            Some((a, q2, mut e)) => {
                v.push(a);
                proof {
                    lemma_errs_append(errs@, e@, p as int, q as int, q as int, q2 as int);
                }
                errs.append(&mut e);
                q = q2;
            },
            None => {
                return (v, q, errs);
            },
        }
    }
}

/// The response section at `p`, if one starts there.
pub fn parse_response_section(s: &Vec<char>, p: usize) -> (r: Option<
    (ResponseSection, usize, Vec<ParseError>),
>)
    requires
        p <= s@.len(),
    ensures
        crate::base::res_view(r) == sp_response_section(s@, p as int),
        r matches Some((_, q, _)) ==> p < q <= s@.len(),
        r matches Some((_, q, e)) ==> errs_within(e@, p as int, q as int),
{
    proof {
        reveal_strlit("[Captures]");
        reveal_strlit("[Asserts]");
    }
    if let Some(q) = parse_section_head(s, p, "[Captures]") {
        let (cs, q2, e) = parse_captures(s, q);
        return Some((ResponseSection::CapturesSection(CapturesSection { captures: cs }), q2, e));
    }
    if let Some(q) = parse_section_head(s, p, "[Asserts]") {
        let (as_, q2, e) = parse_asserts(s, q);
        return Some((ResponseSection::AssertsSection(AssertsSection { asserts: as_ }), q2, e));
    }
    None
}

/// Zero or more response sections from `p`.
pub fn response_sections_parser(s: &Vec<char>, p: usize) -> (r: (
    Vec<ResponseSection>,
    usize,
    Vec<ParseError>,
))
    requires
        p <= s@.len(),
    ensures
        (seq_view(r.0@), r.1 as int, r.2@) == sp_response_sections(s@, p as int),
        p <= r.1 <= s@.len(),
        errs_within(r.2@, p as int, r.1 as int),
{
    let mut v: Vec<ResponseSection> = Vec::new();
    let mut errs: Vec<ParseError> = Vec::new();
    let mut q = p;
    loop
        invariant
            p <= q <= s@.len(),
            errs_within(errs@, p as int, q as int),
            many_from(response_section_rule(), s@, q as int, seq_view(v@), errs@) == many(
                response_section_rule(),
                s@,
                p as int,
            ),
        decreases s@.len() - q,
    {
        match parse_response_section(s, q) {
            Some((m, q2, mut e)) => {
                v.push(m);
                proof {
                    lemma_errs_append(errs@, e@, p as int, q as int, q as int, q2 as int);
                }
                errs.append(&mut e);
                q = q2;
            },
            None => {
                return (v, q, errs);
            },
        }
    }
}

} // verus!
