//! Requests, responses, entries, and a whole Hurl document, with the
//! recovery that skips the lines no entry can be read from.
use vstd::prelude::*;
use crate::base::{errs_within, lemma_errs_append, char_at, point_error, point_error_exec, skip_sp,
    skip_sp_exec, string_failure, string_failure_exec, 
    ErrorKind, ParseError, SpecParser, SpecRes, lemma_run_end, many, many_from, run_end,
    run_end_exec, to_chars,
};
use crate::body::{body_parser, sp_body};
use crate::http_status::{http_status_line_parser, sp_status_line};
use crate::key_value::{headers_parser, sp_key_value_lines};
use crate::method::{method_line_parser, sp_method_line};
use crate::model::{SpecBytes, SpecEntry, SpecRequest, SpecResponse};
use crate::strings::StrKind;
use crate::template::{ident_pred, is_ident_char, parse_parts, sp_parts_from};
use crate::primitives::{not_newline, parse_lt, sp_lt};
use crate::request_section::{request_sections_parser, sp_request_sections};
use crate::response_section::{response_sections_parser, sp_response_sections};
use crate::types::{
    Ast, Body, Entry, Request, Response, lemma_seq_view_empty, lemma_seq_view_push, seq_view,
};

verus! {

broadcast use lemma_seq_view_push, lemma_seq_view_empty;

/// An optional body at `q`: the body and the position after it, or nothing.
pub open spec fn sp_opt_body(s: Seq<char>, q: int) -> (Option<SpecBytes>, int, Seq<ParseError>) {
    match sp_body(s, q) {
        Some((b, q2, e)) => (Some(b), q2, e),
        None => (None, q, Seq::empty()),
    }
}

/// A request: a method line, headers, request sections, an optional body.
pub open spec fn sp_request(s: Seq<char>, p: int) -> SpecRes<SpecRequest> {
    match sp_method_line(s, p) {
        Some(((m, u), q, e1)) => {
            let (hs, q2, e2) = sp_key_value_lines(s, q);
            let (rs, q3, e3) = sp_request_sections(s, q2);
            let (b, q4, e4) = sp_opt_body(s, q3);
            Some(
                (
                    SpecRequest {
                        method: m,
                        url: u,
                        headers: hs,
                        request_sections: rs,
                        body: b,
                    },
                    q4,
                    e1 + e2 + e3 + e4,
                ),
            )
        },
        None => None,
    }
}

/// A response: a status line, headers, response sections, an optional body.
pub open spec fn sp_response(s: Seq<char>, p: int) -> SpecRes<SpecResponse> {
    match sp_status_line(s, p) {
        Some(((v, st), q, e1)) => {
            let (hs, q2, e2) = sp_key_value_lines(s, q);
            let (rs, q3, e3) = sp_response_sections(s, q2);
            let (b, q4, e4) = sp_opt_body(s, q3);
            Some(
                (
                    SpecResponse {
                        version: v,
                        status: st,
                        headers: hs,
                        response_sections: rs,
                        body: b,
                    },
                    q4,
                    e1 + e2 + e3 + e4,
                ),
            )
        },
        None => None,
    }
}

/// How far a header line at `q` can be read: after its key and `:`, to
/// where its value's characters stop; else to where its key's characters
/// stop (see `string_failure`).
pub open spec fn key_value_reach(s: Seq<char>, q: int) -> int {
    let p0 = skip_sp(s, q);
    let k = sp_parts_from(StrKind::Key, s, p0, Seq::empty(), Seq::empty()).1;
    let k1 = skip_sp(s, k);
    if k > p0 && char_at(s, k1) == Some(':') {
        string_failure(
            s,
            sp_parts_from(StrKind::Value, s, skip_sp(s, k1 + 1), Seq::empty(), Seq::empty()).1,
        )
    } else {
        string_failure(s, k)
    }
}

/// How far a method at `q` can be read: to the end of the identifier after
/// the spaces.
pub open spec fn method_reach(s: Seq<char>, q: int) -> int {
    run_end(s, skip_sp(s, q), ident_pred())
}

/// Where the text from `start` cannot be read as the next line of an entry:
/// the furthest of where a header line and a method line stop there,
/// reported over that character. `limit` bounds the text at issue.
pub open spec fn line_failure(s: Seq<char>, start: int, limit: int) -> ParseError {
    let a = key_value_reach(s, start);
    let b = method_reach(s, start);
    let x = if a >= b {
        a
    } else {
        b
    };
    if start <= x < limit {
        point_error(s, x)
    } else {
        point_error(s, start)
    }
}

/// An entry: a request, then an optional response.
#[verifier::opaque]
pub open spec fn sp_entry(s: Seq<char>, p: int) -> SpecRes<SpecEntry> {
    match sp_request(s, p) {
        Some((rq, q, e1)) => match sp_response(s, q) {
            Some((rs, q2, e2)) => Some((SpecEntry { request: rq, response: Some(rs) }, q2, e1 + e2)),
            None => Some((SpecEntry { request: rq, response: None }, q, e1)),
        },
        None => None,
    }
}

/// The position after the line that holds `q`, with its newline; none on
/// the last line.
pub open spec fn next_line(s: Seq<char>, q: int) -> Option<int> {
    let r = run_end(s, q, not_newline());
    if r < s.len() {
        Some(r + 1)
    } else {
        None
    }
}

/// Recovery after an entry failed at `start`: skip the line that holds
/// `q` and try an entry on the next one, until one is read or the text
/// ends. The entry read is kept, with an error where the first skipped line
/// cannot be read (see `line_failure`).
pub open spec fn recover_entry(s: Seq<char>, start: int, q: int) -> SpecRes<SpecEntry>
    decreases s.len() - q,
{
    if !(0 <= q < s.len()) {
        None
    } else {
        match next_line(s, q) {
            Some(q2) => if q < q2 <= s.len() {
                match sp_entry(s, q2) {
                    Some((v, q3, e)) => Some(
                        (
                            v,
                            q3,
                            e.push(line_failure(s, start, q2)),
                        ),
                    ),
                    None => recover_entry(s, start, q2),
                }
            } else {
                None
            },
            None => None,
        }
    }
}

/// An entry at `p`, or, when none starts there, the first entry after
/// skipped lines.
pub open spec fn sp_entry_recovering(s: Seq<char>, p: int) -> SpecRes<SpecEntry> {
    match sp_entry(s, p) {
        Some(r) => Some(r),
        None => recover_entry(s, p, p),
    }
}

pub open spec fn entry_rule() -> SpecParser<SpecEntry> {
    |s: Seq<char>, p: int| sp_entry_recovering(s, p)
}

/// The position where the entries of a document start: after a leading
/// line terminator, if there is one.
pub open spec fn entries_start(s: Seq<char>) -> int {
    match sp_lt(s, 0) {
        Some(q) => q,
        None => 0,
    }
}

/// A whole document: an optional line terminator, then entries (with the
/// recovery above) up to the end of the text. When text is left that no
/// entry could be read from, there is no syntax tree, and an error stands
/// where that text cannot be read (see `line_failure`).
pub open spec fn sp_document(s: Seq<char>) -> (Option<Seq<SpecEntry>>, Seq<ParseError>) {
    let (es, q, e) = many(entry_rule(), s, entries_start(s));
    if q == s.len() {
        (Some(es), e)
    } else {
        (
            None,
            e.push(line_failure(s, q, s.len() as int)),
        )
    }
}

// ---------------------------------------------------------------------------

fn parse_opt_body(s: &Vec<char>, q: usize) -> (r: (Option<Body>, usize, Vec<ParseError>))
    requires
        q <= s@.len(),
    ensures
        (crate::model::body_view(r.0), r.1 as int, r.2@) == sp_opt_body(s@, q as int),
        q <= r.1 <= s@.len(),
        errs_within(r.2@, q as int, r.1 as int),
{
    match body_parser(s, q) {
        Some((b, q2, e)) => (Some(b), q2, e),
        None => (None, q, Vec::new()),
    }
}

pub fn request_parser(s: &Vec<char>, p: usize) -> (r: Option<(Request, usize, Vec<ParseError>)>)
    requires
        p <= s@.len(),
    ensures
        crate::base::res_view(r) == sp_request(s@, p as int),
        r matches Some((_, q, _)) ==> p < q <= s@.len(),
        r matches Some((_, q, e)) ==> errs_within(e@, p as int, q as int),
{
    match method_line_parser(s, p) {
        Some(((m, u), q, mut e1)) => {
            let (hs, q2, mut e2) = headers_parser(s, q);
            let (rs, q3, mut e3) = request_sections_parser(s, q2);
            let (b, q4, mut e4) = parse_opt_body(s, q3);
            proof {
                lemma_errs_append(e1@, e2@, p as int, q as int, q as int, q2 as int);
                lemma_errs_append(e1@ + e2@, e3@, p as int, q2 as int, q2 as int, q3 as int);
                lemma_errs_append(
                    e1@ + e2@ + e3@,
                    e4@,
                    p as int,
                    q3 as int,
                    q3 as int,
                    q4 as int,
                );
            }
            e1.append(&mut e2);
            e1.append(&mut e3);
            e1.append(&mut e4);
            Some(
                (
                    Request { method: m, url: u, headers: hs, request_sections: rs, body: b },
                    q4,
                    e1,
                ),
            )
        },
        None => None,
    }
}

pub fn response_parser(s: &Vec<char>, p: usize) -> (r: Option<(Response, usize, Vec<ParseError>)>)
    requires
        p <= s@.len(),
    ensures
        crate::base::res_view(r) == sp_response(s@, p as int),
        r matches Some((_, q, _)) ==> p < q <= s@.len(),
        r matches Some((_, q, e)) ==> errs_within(e@, p as int, q as int),
{
    match http_status_line_parser(s, p) {
        Some(((v, st), q, mut e1)) => {
            let (hs, q2, mut e2) = headers_parser(s, q);
            let (rs, q3, mut e3) = response_sections_parser(s, q2);
            let (b, q4, mut e4) = parse_opt_body(s, q3);
            proof {
                lemma_errs_append(e1@, e2@, p as int, q as int, q as int, q2 as int);
                lemma_errs_append(e1@ + e2@, e3@, p as int, q2 as int, q2 as int, q3 as int);
                lemma_errs_append(
                    e1@ + e2@ + e3@,
                    e4@,
                    p as int,
                    q3 as int,
                    q3 as int,
                    q4 as int,
                );
            }
            e1.append(&mut e2);
            e1.append(&mut e3);
            e1.append(&mut e4);
            Some(
                (
                    Response {
                        version: v,
                        status: st,
                        headers: hs,
                        response_sections: rs,
                        body: b,
                    },
                    q4,
                    e1,
                ),
            )
        },
        None => None,
    }
}

pub fn parse_entry(s: &Vec<char>, p: usize) -> (r: Option<(Entry, usize, Vec<ParseError>)>)
    requires
        p <= s@.len(),
    ensures
        crate::base::res_view(r) == sp_entry(s@, p as int),
        r matches Some((_, q, _)) ==> p < q <= s@.len(),
        r matches Some((_, q, e)) ==> errs_within(e@, p as int, q as int),
{
    proof {
        reveal(sp_entry);
    }
    match request_parser(s, p) {
        Some((rq, q, mut e1)) => match response_parser(s, q) {
            Some((rs, q2, mut e2)) => {
                proof {
                    lemma_errs_append(e1@, e2@, p as int, q as int, q as int, q2 as int);
                }
                e1.append(&mut e2);
                Some((Entry { request: Box::new(rq), response: Some(Box::new(rs)) }, q2, e1))
            },
            None => Some((Entry { request: Box::new(rq), response: None }, q, e1)),
        },
        None => None,
    }
}

fn next_line_exec(s: &Vec<char>, q: usize) -> (r: Option<usize>)
    requires
        q <= s@.len(),
    ensures
        match r {
            Some(q2) => next_line(s@, q as int) == Some(q2 as int) && q < q2 <= s@.len(),
            None => next_line(s@, q as int) is None,
        },
{
    let r = run_end_exec(
        s,
        q,
        (|c: char| -> (b: bool)
            ensures
                b == (c != '\n'),
            { c != '\n' }),
        Ghost(not_newline()),
    );
    if r < s.len() {
        Some(r + 1)
    } else {
        None
    }
}

fn key_value_reach_exec(s: &Vec<char>, q: usize) -> (r: usize)
    requires
        q <= s@.len(),
    ensures
        r == key_value_reach(s@, q as int),
{
    let p0 = skip_sp_exec(s, q);
    let (_, k, _) = parse_parts(StrKind::Key, s, p0);
    let k1 = skip_sp_exec(s, k);
    if k > p0 && k1 < s.len() && s[k1] == ':' {
        let v0 = skip_sp_exec(s, k1 + 1);
        let (_, v, _) = parse_parts(StrKind::Value, s, v0);
        string_failure_exec(s, v)
    } else {
        string_failure_exec(s, k)
    }
}

fn line_failure_exec(s: &Vec<char>, start: usize, limit: usize) -> (r: ParseError)
    requires
        start < limit <= s@.len(),
    ensures
        r == line_failure(s@, start as int, limit as int),
        start <= r.start <= r.end <= limit,
{
    let a = key_value_reach_exec(s, start);
    let p0 = skip_sp_exec(s, start);
    let b = run_end_exec(
        s,
        p0,
        (|c: char| -> (b: bool)
            ensures
                b == is_ident_char(c),
            { crate::base::is_ascii_alphanumeric_exec(c) || c == '_' }),
        Ghost(ident_pred()),
    );
    let x = if a >= b {
        a
    } else {
        b
    };
    if start <= x && x < limit {
        point_error_exec(s, x)
    } else {
        point_error_exec(s, start)
    }
}

/// The entry at `p`, or the first one after the lines skipped from `p`.
pub fn parse_entry_recovering(s: &Vec<char>, p: usize) -> (r: Option<
    (Entry, usize, Vec<ParseError>),
>)
    requires
        p <= s@.len(),
    ensures
        crate::base::res_view(r) == sp_entry_recovering(s@, p as int),
        r matches Some((_, q, _)) ==> p < q <= s@.len(),
        r matches Some((_, q, e)) ==> errs_within(e@, p as int, q as int),
{
    if let Some(r) = parse_entry(s, p) {
        return Some(r);
    }
    let mut q = p;
    loop
        invariant
            p <= q <= s@.len(),
            sp_entry(s@, p as int) is None,
            recover_entry(s@, p as int, q as int) == recover_entry(s@, p as int, p as int),
        decreases s@.len() - q,
    {
        if q >= s.len() {
            return None;
        }
        match next_line_exec(s, q) {
            None => {
                return None;
            },
            Some(q2) => match parse_entry(s, q2) {
                Some((v, q3, mut e)) => {
                    let ghost old_e = e@;
                    e.push(line_failure_exec(s, p, q2));
                    assert(errs_within(e@, p as int, q3 as int)) by {
                        assert forall|i: int| 0 <= i < e@.len() implies p <= #[trigger] e@[i].start
                            <= e@[i].end <= q3 by {
                            if i < e@.len() - 1 {
                                assert(e@[i] == old_e[i]);
                            }
                        }
                    }
                    return Some((v, q3, e));
                },
                None => {
                    q = q2;
                },
            },
        }
    }
}

/// Parses a Hurl document: its syntax tree, when the whole text could be
/// read, and the diagnostics raised on the way.
pub fn parse_ast(document: &str) -> (r: (Option<Ast>, Vec<ParseError>))
    ensures
        (match r.0 {
            Some(a) => Some(a@),
            None => None,
        }, r.1@) == sp_document(document@),
        errs_within(r.1@, 0, document@.len() as int),
{
    let s = to_chars(document);
    let q0 = match parse_lt(&s, 0) {
        Some(q) => q,
        None => 0,
    };
    let mut entries: Vec<Entry> = Vec::new();
    let mut errs: Vec<ParseError> = Vec::new();
    let mut q = q0;
    loop
        invariant
            q0 <= q <= s@.len(),
            q0 == entries_start(s@),
            errs_within(errs@, q0 as int, q as int),
            many_from(entry_rule(), s@, q as int, seq_view(entries@), errs@) == many(
                entry_rule(),
                s@,
                q0 as int,
            ),
        ensures
            q0 <= q <= s@.len(),
            q0 == entries_start(s@),
            errs_within(errs@, q0 as int, q as int),
            many(entry_rule(), s@, q0 as int) == (seq_view(entries@), q as int, errs@),
        decreases s@.len() - q,
    {
        match parse_entry_recovering(&s, q) {
            Some((en, q2, mut e)) => {
                entries.push(en);
                proof {
                    lemma_errs_append(errs@, e@, q0 as int, q as int, q as int, q2 as int);
                }
                errs.append(&mut e);
                q = q2;
            },
            None => {
                break ;
            },
        }
    }
    if q == s.len() {
        (Some(Ast { entries }), errs)
    } else {
        let ghost old_errs = errs@;
        let f = line_failure_exec(&s, q, s.len());
        errs.push(f);
        assert forall|i: int| 0 <= i < errs@.len() implies 0 <= #[trigger] errs@[i].start
            <= errs@[i].end <= s@.len() by {
            if i < errs@.len() - 1 {
                assert(errs@[i] == old_errs[i]);
            }
        }
        (None, errs)
    }
}

} // verus!
