//! The sections of a request: `[BasicAuth]`, `[QueryStringParams]`,
//! `[FormParams]`, `[MultipartFormData]`, `[Cookies]` and `[Options]`.
use vstd::prelude::*;
use crate::base::{lemma_errs_append, errs_within, lemma_run_end, 
    ErrorKind, ParseError, SpecParser, SpecRes, char_at, is_ascii_alphanumeric,
    is_ascii_alphanumeric_exec, lit_end, lit_end_exec, many, many_from, run_end, run_end_exec,
    skip_sp, skip_sp_exec, string_of,
};
use crate::http_status::{one_err, one_err_exec};
use crate::key_value::{
    key_parser, key_value_parser, headers_parser, sp_key, sp_key_value, sp_key_value_lines,
};
use crate::model::{
    SpecFileKeyValue, SpecFileValue, SpecKeyValue, SpecMultipartFormParam, SpecRequestSection,
};
use crate::oneline::{oneline_file_parser, sp_oneline_file};
use crate::options::{options_parser, sp_request_options};
use crate::primitives::{parse_lt, sp_lt};
use crate::types::{
    BasicAuthSection, CookiesSection, FileKeyValue, FileValue, FormParamsSection, KeyValue,
    MultipartFormDataSection, MultipartFormParam, QueryStringParamsSection, RequestOptionsSection,
    RequestSection, lemma_seq_view_empty, lemma_seq_view_push, seq_view,
};

verus! {

broadcast use lemma_seq_view_push, lemma_seq_view_empty;

/// Spaces, the section name `w`, spaces, a line terminator.
pub open spec fn section_head(s: Seq<char>, p: int, w: Seq<char>) -> Option<int> {
    match lit_end(s, skip_sp(s, p), w) {
        Some(q) => sp_lt(s, skip_sp(s, q)),
        None => None,
    }
}

pub open spec fn is_content_type_char(c: char) -> bool {
    is_ascii_alphanumeric(c) || c == '/' || c == '+' || c == '-'
}

pub open spec fn content_type_pred() -> spec_fn(char) -> bool {
    |c: char| is_content_type_char(c)
}

/// An optional content type at `q` (one or more of its characters) and the
/// spaces after it.
pub open spec fn sp_content_type(s: Seq<char>, q: int) -> (Option<Seq<char>>, int) {
    let c = run_end(s, q, content_type_pred());
    if c > q {
        (Some(s.subrange(q, c)), skip_sp(s, c))
    } else {
        (None, q)
    }
}

/// A file parameter: a key, `:`, a `file,...;` value and an optional
/// content type, with spaces between.
pub open spec fn sp_file_param(s: Seq<char>, p: int) -> SpecRes<SpecFileKeyValue> {
    match sp_key(s, skip_sp(s, p)) {
        Some((k, q, e1)) => {
            let q1 = skip_sp(s, q);
            if char_at(s, q1) == Some(':') {
                match sp_oneline_file(s, skip_sp(s, q1 + 1)) {
                    Some((f, q2, e2)) => {
                        let (ct, q3) = sp_content_type(s, skip_sp(s, q2));
                        Some(
                            (
                                SpecFileKeyValue {
                                    key: k,
                                    value: SpecFileValue { filename: f, content_type: ct },
                                },
                                q3,
                                e1 + e2,
                            ),
                        )
                    },
                    None => None,
                }
            } else {
                None
            }
        },
        None => None,
    }
}

/// A file parameter, else a key-value, then a line terminator.
pub open spec fn sp_multipart_param(s: Seq<char>, p: int) -> SpecRes<SpecMultipartFormParam> {
    let r = match sp_file_param(s, p) {
        Some((f, q, e)) => Some((SpecMultipartFormParam::FileParam(f), q, e)),
        None => match sp_key_value(s, p) {
            Some((kv, q, e)) => Some((SpecMultipartFormParam::KeyValueParam(kv), q, e)),
            None => None,
        },
    };
    match r {
        Some((v, q, e)) => match sp_lt(s, q) {
            Some(q2) => Some((v, q2, e)),
            None => None,
        },
        None => None,
    }
}

pub open spec fn multipart_param_rule() -> SpecParser<SpecMultipartFormParam> {
    |s: Seq<char>, p: int| sp_multipart_param(s, p)
}

/// The key-value lines of a section whose head ends at `q`.
pub open spec fn section_lines(s: Seq<char>, q: int) -> (Seq<SpecKeyValue>, int, Seq<ParseError>) {
    sp_key_value_lines(s, q)
}

/// `[BasicAuth]` and its key-values; more than one is reported over them.
pub open spec fn sp_basic_auth_section(s: Seq<char>, p: int) -> SpecRes<SpecRequestSection> {
    match section_head(s, p, "[BasicAuth]"@) {
        Some(q) => {
            let (kvs, q2, e) = section_lines(s, q);
            let e2 = if kvs.len() > 1 {
                e + one_err(q, q2, ErrorKind::BasicAuthMultipleUsers)
            } else {
                e
            };
            Some((SpecRequestSection::BasicAuthSection(kvs), q2, e2))
        },
        None => None,
    }
}

/// The head of a section that has a name and a short alias.
pub open spec fn aliased_head(s: Seq<char>, p: int, w: Seq<char>, alias: Seq<char>) -> Option<
    int,
> {
    if section_head(s, p, w) is Some {
        section_head(s, p, w)
    } else {
        section_head(s, p, alias)
    }
}

/// A request section: the first kind that matches at `p`.
pub open spec fn sp_request_section(s: Seq<char>, p: int) -> SpecRes<SpecRequestSection> {
    if sp_basic_auth_section(s, p) is Some {
        sp_basic_auth_section(s, p)
    } else if aliased_head(s, p, "[QueryStringParams]"@, "[Query]"@) is Some {
        let (kvs, q, e) = section_lines(
            s,
            aliased_head(s, p, "[QueryStringParams]"@, "[Query]"@)->0,
        );
        Some((SpecRequestSection::QueryStringParamsSection(kvs), q, e))
    } else if aliased_head(s, p, "[FormParams]"@, "[Form]"@) is Some {
        let (kvs, q, e) = section_lines(s, aliased_head(s, p, "[FormParams]"@, "[Form]"@)->0);
        Some((SpecRequestSection::FormParamsSection(kvs), q, e))
    } else if aliased_head(s, p, "[MultipartFormData]"@, "[Multipart]"@) is Some {
        let (ps, q, e) = many(
            multipart_param_rule(),
            s,
            aliased_head(s, p, "[MultipartFormData]"@, "[Multipart]"@)->0,
        );
        Some((SpecRequestSection::MultipartFormDataSection(ps), q, e))
    } else if section_head(s, p, "[Cookies]"@) is Some {
        let (kvs, q, e) = section_lines(s, section_head(s, p, "[Cookies]"@)->0);
        Some((SpecRequestSection::CookiesSection(kvs), q, e))
    } else if section_head(s, p, "[Options]"@) is Some {
        let (os, q, e) = sp_request_options(s, section_head(s, p, "[Options]"@)->0);
        Some((SpecRequestSection::OptionsSection(os), q, e))
    } else {
        None
    }
}

pub open spec fn request_section_rule() -> SpecParser<SpecRequestSection> {
    |s: Seq<char>, p: int| sp_request_section(s, p)
}

/// Zero or more request sections.
pub open spec fn sp_request_sections(s: Seq<char>, p: int) -> (
    Seq<SpecRequestSection>,
    int,
    Seq<ParseError>,
) {
    many(request_section_rule(), s, p)
}

// ---------------------------------------------------------------------------

pub fn parse_section_head(s: &Vec<char>, p: usize, w: &str) -> (r: Option<usize>)
    requires
        p <= s@.len(),
        w@.len() > 0,
    ensures
        match r {
            Some(q) => section_head(s@, p as int, w@) == Some(q as int) && p < q <= s@.len(),
            None => section_head(s@, p as int, w@) is None,
        },
{
    let p0 = skip_sp_exec(s, p);
    match lit_end_exec(s, p0, w) {
        Some(q) => parse_lt(s, skip_sp_exec(s, q)),
        None => None,
    }
}

fn parse_aliased_head(s: &Vec<char>, p: usize, w: &str, alias: &str) -> (r: Option<usize>)
    requires
        p <= s@.len(),
        w@.len() > 0,
        alias@.len() > 0,
    ensures
        match r {
            Some(q) => aliased_head(s@, p as int, w@, alias@) == Some(q as int) && p < q
                <= s@.len(),
            None => aliased_head(s@, p as int, w@, alias@) is None,
        },
{
    match parse_section_head(s, p, w) {
        Some(q) => Some(q),
        None => parse_section_head(s, p, alias),
    }
}

fn parse_content_type(s: &Vec<char>, q: usize) -> (r: (Option<String>, usize))
    requires
        q <= s@.len(),
    ensures
        (match r.0 {
            Some(c) => Some(c@),
            None => None,
        }, r.1 as int) == sp_content_type(s@, q as int),
        q <= r.1 <= s@.len(),
{
    let c = run_end_exec(
        s,
        q,
        (|c: char| -> (b: bool)
            ensures
                b == is_content_type_char(c),
            { is_ascii_alphanumeric_exec(c) || c == '/' || c == '+' || c == '-' }),
        Ghost(content_type_pred()),
    );
    if c > q {
        (Some(string_of(s, q, c)), skip_sp_exec(s, c))
    } else {
        (None, q)
    }
}

pub fn file_param_parser(s: &Vec<char>, p: usize) -> (r: Option<
    (FileKeyValue, usize, Vec<ParseError>),
>)
    requires
        p <= s@.len(),
    ensures
        crate::base::res_view(r) == sp_file_param(s@, p as int),
        r matches Some((_, q, _)) ==> p < q <= s@.len(),
        r matches Some((_, q, e)) ==> errs_within(e@, p as int, q as int),
{
    let p0 = skip_sp_exec(s, p);
    match key_parser(s, p0) {
        Some((k, q, mut e1)) => {
            let q1 = skip_sp_exec(s, q);
            if q1 < s.len() && s[q1] == ':' {
                let q2 = skip_sp_exec(s, q1 + 1);
                match oneline_file_parser(s, q2) {
                    Some((f, q3, mut e2)) => {
                        let q4 = skip_sp_exec(s, q3);
                        let (ct, q5) = parse_content_type(s, q4);
                        e1.append(&mut e2);
                        Some(
                            (
                                FileKeyValue {
                                    key: k,
                                    value: FileValue { filename: f, content_type: ct },
                                },
                                q5,
                                e1,
                            ),
                        )
                    },
                    None => None,
                }
            } else {
                None
            }
        },
        None => None,
    }
}

pub fn parse_multipart_param(s: &Vec<char>, p: usize) -> (r: Option<
    (MultipartFormParam, usize, Vec<ParseError>),
>)
    requires
        p <= s@.len(),
    ensures
        crate::base::res_view(r) == sp_multipart_param(s@, p as int),
        r matches Some((_, q, _)) ==> p < q <= s@.len(),
        r matches Some((_, q, e)) ==> errs_within(e@, p as int, q as int),
{
    let r = match file_param_parser(s, p) {
        Some((f, q, e)) => Some((MultipartFormParam::FileParam(f), q, e)),
        None => match key_value_parser(s, p) {
            Some((kv, q, e)) => Some((MultipartFormParam::KeyValueParam(kv), q, e)),
            None => None,
        },
    };
    match r {
        Some((v, q, e)) => match parse_lt(s, q) {
            Some(q2) => Some((v, q2, e)),
            None => None,
        },
        None => None,
    }
}

fn parse_multipart_params(s: &Vec<char>, p: usize) -> (r: (
    Vec<MultipartFormParam>,
    usize,
    Vec<ParseError>,
))
    requires
        p <= s@.len(),
    ensures
        (seq_view(r.0@), r.1 as int, r.2@) == many(multipart_param_rule(), s@, p as int),
        p <= r.1 <= s@.len(),
        errs_within(r.2@, p as int, r.1 as int),
{
    let mut v: Vec<MultipartFormParam> = Vec::new();
    let mut errs: Vec<ParseError> = Vec::new();
    let mut q = p;
    loop
        invariant
            p <= q <= s@.len(),
            errs_within(errs@, p as int, q as int),
            many_from(multipart_param_rule(), s@, q as int, seq_view(v@), errs@) == many(
                multipart_param_rule(),
                s@,
                p as int,
            ),
        decreases s@.len() - q,
    {
        match parse_multipart_param(s, q) {
            Some((m, q2, mut e)) => {
                v.push(m);
                proof {
                    lemma_errs_append(errs@, e@, p as int, q as int, q as int, q2 as int);
                }
                errs.append(&mut e);
                q = q2;
            },
            None => {
                return (v, q, errs);
            },
        }
    }
}

fn parse_basic_auth_section(s: &Vec<char>, p: usize) -> (r: Option<
    (RequestSection, usize, Vec<ParseError>),
>)
    requires
        p <= s@.len(),
    ensures
        crate::base::res_view(r) == sp_basic_auth_section(s@, p as int),
        r matches Some((_, q, _)) ==> p < q <= s@.len(),
        r matches Some((_, q, e)) ==> errs_within(e@, p as int, q as int),
{
    proof {
        reveal_strlit("[BasicAuth]");
    }
    match parse_section_head(s, p, "[BasicAuth]") {
        Some(q) => {
            let (kvs, q2, mut e) = headers_parser(s, q);
            if kvs.len() > 1 {
                let mut e2 = one_err_exec(q, q2, ErrorKind::BasicAuthMultipleUsers);
                e.append(&mut e2);
            }
            Some((RequestSection::BasicAuthSection(BasicAuthSection { key_values: kvs }), q2, e))
        },
        None => None,
    }
}

/// The request section at `p`, if one starts there.
pub fn request_section_parser(s: &Vec<char>, p: usize) -> (r: Option<
    (RequestSection, usize, Vec<ParseError>),
>)
    requires
        p <= s@.len(),
    ensures
        crate::base::res_view(r) == sp_request_section(s@, p as int),
        r matches Some((_, q, _)) ==> p < q <= s@.len(),
        r matches Some((_, q, e)) ==> errs_within(e@, p as int, q as int),
{
    proof {
        reveal_strlit("[QueryStringParams]");
        reveal_strlit("[Query]");
        reveal_strlit("[FormParams]");
        reveal_strlit("[Form]");
        reveal_strlit("[MultipartFormData]");
        reveal_strlit("[Multipart]");
        reveal_strlit("[Cookies]");
        reveal_strlit("[Options]");
    }
    if let Some(r) = parse_basic_auth_section(s, p) {
        return Some(r);
    }
    if let Some(q) = parse_aliased_head(s, p, "[QueryStringParams]", "[Query]") {
        let (kvs, q2, e) = headers_parser(s, q);
        return Some(
            (
                RequestSection::QueryStringParamsSection(QueryStringParamsSection { queries: kvs }),
                q2,
                e,
            ),
        );
    }
    if let Some(q) = parse_aliased_head(s, p, "[FormParams]", "[Form]") {
        let (kvs, q2, e) = headers_parser(s, q);
        return Some((RequestSection::FormParamsSection(FormParamsSection { params: kvs }), q2, e));
    }
    if let Some(q) = parse_aliased_head(s, p, "[MultipartFormData]", "[Multipart]") {
        let (ps, q2, e) = parse_multipart_params(s, q);
        return Some(
            (
                RequestSection::MultipartFormDataSection(MultipartFormDataSection { params: ps }),
                q2,
                e,
            ),
        );
    }
    if let Some(q) = parse_section_head(s, p, "[Cookies]") {
        let (kvs, q2, e) = headers_parser(s, q);
        return Some((RequestSection::CookiesSection(CookiesSection { cookies: kvs }), q2, e));
    }
    if let Some(q) = parse_section_head(s, p, "[Options]") {
        let (os, q2, e) = options_parser(s, q);
        return Some((RequestSection::OptionsSection(RequestOptionsSection { options: os }), q2, e));
    }
    None
}

/// Zero or more request sections from `p`.
pub fn request_sections_parser(s: &Vec<char>, p: usize) -> (r: (
    Vec<RequestSection>,
    usize,
    Vec<ParseError>,
))
    requires
        p <= s@.len(),
    ensures
        (seq_view(r.0@), r.1 as int, r.2@) == sp_request_sections(s@, p as int),
        p <= r.1 <= s@.len(),
        errs_within(r.2@, p as int, r.1 as int),
{
    let mut v: Vec<RequestSection> = Vec::new();
    let mut errs: Vec<ParseError> = Vec::new();
    let mut q = p;
    loop
        invariant
            p <= q <= s@.len(),
            errs_within(errs@, p as int, q as int),
            many_from(request_section_rule(), s@, q as int, seq_view(v@), errs@) == many(
                request_section_rule(),
                s@,
                p as int,
            ),
        decreases s@.len() - q,
    {
        match request_section_parser(s, q) {
            Some((m, q2, mut e)) => {
                v.push(m);
                proof {
                    lemma_errs_append(errs@, e@, p as int, q as int, q as int, q2 as int);
                }
                errs.append(&mut e);
                q = q2;
            },
            None => {
                return (v, q, errs);
            },
        }
    }
}


/// A content type is the whole run of ASCII letters, digits, `/`, `+` and
/// `-` at `q`: every character of it is one of these, and the character
/// after it (if any) is not; when no such character stands at `q`, there
/// is none.
pub proof fn lemma_content_type_run(s: Seq<char>, q: int)
    requires
        0 <= q <= s.len(),
    ensures
        match sp_content_type(s, q).0 {
            Some(t) => t.len() > 0 && q + t.len() <= s.len() && t == s.subrange(q, q + t.len())
                && (forall|i: int|
                0 <= i < t.len() ==> is_ascii_alphanumeric(#[trigger] t[i]) || t[i] == '/' || t[i]
                    == '+' || t[i] == '-') && !(q + t.len() < s.len() && (is_ascii_alphanumeric(
                s[q + t.len()],
            ) || s[q + t.len()] == '/' || s[q + t.len()] == '+' || s[q + t.len()] == '-')),
            None => !(q < s.len() && (is_ascii_alphanumeric(s[q]) || s[q] == '/' || s[q] == '+'
                || s[q] == '-')),
        },
{
    lemma_run_end(s, q, content_type_pred());
    let c = run_end(s, q, content_type_pred());
    if c > q {
        let t = s.subrange(q, c);
        assert forall|i: int| 0 <= i < t.len() implies is_ascii_alphanumeric(#[trigger] t[i])
            || t[i] == '/' || t[i] == '+' || t[i] == '-' by {
            assert(t[i] == s[q + i]);
            assert(content_type_pred()(s[q + i]));
        }
    }
}

} // verus!
