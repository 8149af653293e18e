//! Multiline strings: `` ``` ``, a header line of a type and attributes,
//! the content, `` ``` ``.
use vstd::prelude::*;
use crate::base::{point_error, point_error_exec, string_failure, string_failure_exec, errs_within, lemma_errs_append, 
    ErrorKind, ParseError, SpecRes, char_at, is_ascii_alpha, is_ascii_alpha_exec, lit_end,
    lit_end_exec, matches_at, run_end, run_end_exec, skip_sp, skip_sp_exec, string_of,
};
use crate::model::{SpecMultilineString, SpecMultilineStringAttribute, SpecMultilineStringType};
use crate::primitives::newline_end;
use crate::strings::StrKind;
use crate::template::{ident_pred, is_ident_char, lemma_istr_view, parse_parts, sp_parts_from};
use crate::types::{
    InterpolatedString, MultilineString, MultilineStringAttribute, MultilineStringType,
    lemma_seq_view_empty, lemma_seq_view_push, seq_view,
};

verus! {

broadcast use lemma_seq_view_push, lemma_seq_view_empty;

/// A word of a multiline string header.
#[derive(Clone, Copy, Debug, PartialEq, Eq, Structural)]
pub enum HeaderToken {
    Base64,
    Hex,
    Json,
    Xml,
    Graphql,
    Escape,
    NoVariable,
    Ident,
}

/// The word of a header at `p`: one of the known words (which need not end
/// there), else an identifier.
pub open spec fn sp_header_token(s: Seq<char>, p: int) -> Option<(HeaderToken, int)> {
    if matches_at(s, p, "base64"@) {
        Some((HeaderToken::Base64, p + "base64"@.len()))
    } else if matches_at(s, p, "hex"@) {
        Some((HeaderToken::Hex, p + "hex"@.len()))
    } else if matches_at(s, p, "json"@) {
        Some((HeaderToken::Json, p + "json"@.len()))
    } else if matches_at(s, p, "xml"@) {
        Some((HeaderToken::Xml, p + "xml"@.len()))
    } else if matches_at(s, p, "graphql"@) {
        Some((HeaderToken::Graphql, p + "graphql"@.len()))
    } else if matches_at(s, p, "escape"@) {
        Some((HeaderToken::Escape, p + "escape"@.len()))
    } else if matches_at(s, p, "novariable"@) {
        Some((HeaderToken::NoVariable, p + "novariable"@.len()))
    } else if 0 <= p < s.len() && (is_ascii_alpha(s[p]) || s[p] == '_') {
        Some((HeaderToken::Ident, run_end(s, p + 1, ident_pred())))
    } else {
        None
    }
}

/// Further words after `q`, each after a comma between spaces; a trailing
/// comma is allowed.
pub open spec fn header_tokens_from(
    s: Seq<char>,
    q: int,
    acc: Seq<(HeaderToken, usize, usize)>,
) -> (Seq<(HeaderToken, usize, usize)>, int)
    decreases s.len() - q,
{
    let q1 = skip_sp(s, q);
    if !(q <= q1 <= s.len()) || char_at(s, q1) != Some(',') {
        (acc, q)
    } else {
        let q2 = skip_sp(s, q1 + 1);
        match sp_header_token(s, q2) {
            Some((t, q3)) => if q < q2 < q3 <= s.len() {
                header_tokens_from(s, q3, acc.push((t, q2 as usize, q3 as usize)))
            } else {
                (acc, q2)
            },
            None => if q < q2 <= s.len() {
                (acc, q2)
            } else {
                (acc, q)
            },
        }
    }
}

/// The words of a header, each with its span.
pub open spec fn sp_header_tokens(s: Seq<char>, p: int) -> (Seq<(HeaderToken, usize, usize)>, int) {
    match sp_header_token(s, p) {
        Some((t, q)) => header_tokens_from(s, q, seq![(t, p as usize, q as usize)]),
        None => (Seq::empty(), p),
    }
}

/// Every span lies within the text.
pub open spec fn tokens_in(s: Seq<char>, toks: Seq<(HeaderToken, usize, usize)>) -> bool {
    forall|i: int| 0 <= i < toks.len() ==> #[trigger] toks[i].1 <= toks[i].2 <= s.len()
}

/// Every span lies between the positions `a` and `b`.
pub open spec fn tokens_between(toks: Seq<(HeaderToken, usize, usize)>, a: int, b: int) -> bool {
    forall|i: int| 0 <= i < toks.len() ==> a <= #[trigger] toks[i].1 <= toks[i].2 <= b
}

pub open spec fn span_err(t: (HeaderToken, usize, usize), k: ErrorKind) -> ParseError {
    ParseError { start: t.1, end: t.2, kind: k }
}

/// The attribute a word after the first stands for, and its diagnostics.
pub open spec fn header_attr(s: Seq<char>, t: (HeaderToken, usize, usize)) -> (
    SpecMultilineStringAttribute,
    Seq<ParseError>,
) {
    let text = s.subrange(t.1 as int, t.2 as int);
    match t.0 {
        HeaderToken::Escape => (SpecMultilineStringAttribute::Escape, Seq::empty()),
        HeaderToken::NoVariable => (SpecMultilineStringAttribute::NoVariable, Seq::empty()),
        HeaderToken::Ident => (
            SpecMultilineStringAttribute::Unknown(text),
            seq![span_err(t, ErrorKind::UnknownMultilineAttribute)],
        ),
        _ => (
            SpecMultilineStringAttribute::Unknown(text),
            seq![span_err(t, ErrorKind::MultilineTypeAmongAttributes)],
        ),
    }
}

/// The attributes of the words from index `i` on.
pub open spec fn header_attrs_from(
    s: Seq<char>,
    toks: Seq<(HeaderToken, usize, usize)>,
    i: int,
    acc: Seq<SpecMultilineStringAttribute>,
    errs: Seq<ParseError>,
) -> (Seq<SpecMultilineStringAttribute>, Seq<ParseError>)
    decreases toks.len() - i,
{
    if 0 <= i < toks.len() {
        let (a, e) = header_attr(s, toks[i]);
        header_attrs_from(s, toks, i + 1, acc.push(a), errs + e)
    } else {
        (acc, errs)
    }
}

/// The type that the first word names, how many words that takes, and its
/// diagnostics.
pub open spec fn header_type(s: Seq<char>, t: (HeaderToken, usize, usize)) -> (
    Option<SpecMultilineStringType>,
    int,
    Seq<ParseError>,
) {
    match t.0 {
        HeaderToken::Base64 => (Some(SpecMultilineStringType::Base64), 1, Seq::empty()),
        HeaderToken::Hex => (Some(SpecMultilineStringType::Hex), 1, Seq::empty()),
        HeaderToken::Json => (Some(SpecMultilineStringType::Json), 1, Seq::empty()),
        HeaderToken::Xml => (Some(SpecMultilineStringType::Xml), 1, Seq::empty()),
        HeaderToken::Graphql => (Some(SpecMultilineStringType::Graphql), 1, Seq::empty()),
        HeaderToken::Ident => (
            Some(SpecMultilineStringType::Unknown(s.subrange(t.1 as int, t.2 as int))),
            1,
            seq![span_err(t, ErrorKind::UnknownMultilineTypeOrAttribute)],
        ),
        _ => (None, 0, Seq::empty()),
    }
}

/// The type, attributes and diagnostics of a header.
pub open spec fn header_value(s: Seq<char>, toks: Seq<(HeaderToken, usize, usize)>) -> (
    Option<SpecMultilineStringType>,
    Seq<SpecMultilineStringAttribute>,
    Seq<ParseError>,
) {
    if toks.len() == 0 {
        (None, Seq::empty(), Seq::empty())
    } else {
        let (typ, n, e0) = header_type(s, toks[0]);
        let (attrs, e) = header_attrs_from(s, toks, n, Seq::empty(), e0);
        (typ, attrs, e)
    }
}

/// A header: words separated by commas, then a newline.
pub open spec fn sp_multiline_header(s: Seq<char>, q: int) -> SpecRes<
    (Option<SpecMultilineStringType>, Seq<SpecMultilineStringAttribute>),
> {
    let (toks, q1) = sp_header_tokens(s, q);
    match newline_end(s, q1) {
        Some(q2) => {
            let (typ, attrs, e) = header_value(s, toks);
            Some(((typ, attrs), q2, e))
        },
        None => None,
    }
}

/// `` ``` ``, the header, the content, `` ``` ``.
pub open spec fn sp_multiline_string(s: Seq<char>, p: int) -> SpecRes<SpecMultilineString> {
    match lit_end(s, p, "```"@) {
        Some(q) => match sp_multiline_header(s, q) {
            Some(((typ, attrs), q2, e1)) => {
                let (parts, q3, e2) = sp_parts_from(
                    StrKind::Multiline,
                    s,
                    q2,
                    Seq::empty(),
                    Seq::empty(),
                );
                match lit_end(s, q3, "```"@) {
                    Some(q4) => Some(
                        (
                            SpecMultilineString {
                                typ,
                                attributes: attrs,
                                content: crate::model::SpecInterpolatedString { parts },
                            },
                            q4,
                            e1 + e2,
                        ),
                    ),
                    None => None,
                }
            },
            None => None,
        },
        None => None,
    }
}

fn token_at(s: &Vec<char>, p: usize, w: &str, t: HeaderToken) -> (r: Option<(HeaderToken, usize)>)
    ensures
        match r {
            Some((u, q)) => matches_at(s@, p as int, w@) && u == t && q == p + w@.len() && q
                <= s@.len(),
            None => !matches_at(s@, p as int, w@),
        },
{
    match lit_end_exec(s, p, w) {
        Some(q) => Some((t, q)),
        None => None,
    }
}

pub fn parse_header_token(s: &Vec<char>, p: usize) -> (r: Option<(HeaderToken, usize)>)
    requires
        p <= s@.len(),
    ensures
        r matches Some((t, q)) ==> sp_header_token(s@, p as int) == Some((t, q as int)) && p < q
            <= s@.len(),
        r is None <==> sp_header_token(s@, p as int) is None,
{
    proof {
        reveal_strlit("base64");
        reveal_strlit("hex");
        reveal_strlit("json");
        reveal_strlit("xml");
        reveal_strlit("graphql");
        reveal_strlit("escape");
        reveal_strlit("novariable");
    }
    if let Some(r) = token_at(s, p, "base64", HeaderToken::Base64) {
        return Some(r);
    }
    if let Some(r) = token_at(s, p, "hex", HeaderToken::Hex) {
        return Some(r);
    }
    if let Some(r) = token_at(s, p, "json", HeaderToken::Json) {
        return Some(r);
    }
    if let Some(r) = token_at(s, p, "xml", HeaderToken::Xml) {
        return Some(r);
    }
    if let Some(r) = token_at(s, p, "graphql", HeaderToken::Graphql) {
        return Some(r);
    }
    if let Some(r) = token_at(s, p, "escape", HeaderToken::Escape) {
        return Some(r);
    }
    if let Some(r) = token_at(s, p, "novariable", HeaderToken::NoVariable) {
        return Some(r);
    }
    if p < s.len() && (is_ascii_alpha_exec(s[p]) || s[p] == '_') {
        let e = run_end_exec(
            s,
            p + 1,
            (|c: char| -> (b: bool)
                ensures
                    b == is_ident_char(c),
                { crate::base::is_ascii_alphanumeric_exec(c) || c == '_' }),
            Ghost(ident_pred()),
        );
        return Some((HeaderToken::Ident, e));
    }
    None
}

pub fn parse_header_tokens(s: &Vec<char>, p: usize) -> (r: (Vec<(HeaderToken, usize, usize)>, usize))
    requires
        p <= s@.len(),
    ensures
        (r.0@, r.1 as int) == sp_header_tokens(s@, p as int),
        p <= r.1 <= s@.len(),
        tokens_in(s@, r.0@),
        tokens_between(r.0@, p as int, r.1 as int),
{
    let mut toks: Vec<(HeaderToken, usize, usize)> = Vec::new();
    match parse_header_token(s, p) {
        None => {
            return (toks, p);
        },
        Some((t, q0)) => {
            toks.push((t, p, q0));
            assert(tokens_in(s@, toks@));
            assert(tokens_between(toks@, p as int, q0 as int));
            let mut q = q0;
            loop
                invariant
                    p < q <= s@.len(),
                    header_tokens_from(s@, q as int, toks@) == sp_header_tokens(s@, p as int),
                    tokens_in(s@, toks@),
                    tokens_between(toks@, p as int, q as int),
                decreases s@.len() - q,
            {
                let q1 = skip_sp_exec(s, q);
                if !(q1 < s.len() && s[q1] == ',') {
                    return (toks, q);
                }
                let q2 = skip_sp_exec(s, q1 + 1);
                match parse_header_token(s, q2) {
                    Some((t, q3)) => {
                        let ghost old_toks = toks@;
                        toks.push((t, q2, q3));
                        assert(forall|i: int| 0 <= i < old_toks.len() ==> toks@[i] == old_toks[i]);
                        assert(tokens_in(s@, toks@));
                        assert(tokens_between(toks@, p as int, q3 as int));
                        q = q3;
                    },
                    None => {
                        return (toks, q2);
                    },
                }
            }
        },
    }
}

fn header_attr_exec(s: &Vec<char>, t: (HeaderToken, usize, usize)) -> (r: (
    MultilineStringAttribute,
    Vec<ParseError>,
))
    requires
        t.1 <= t.2 <= s@.len(),
    ensures
        (r.0@, r.1@) == header_attr(s@, t),
{
    let mut e = Vec::new();
    match t.0 {
        HeaderToken::Escape => (MultilineStringAttribute::Escape, e),
        HeaderToken::NoVariable => (MultilineStringAttribute::NoVariable, e),
        HeaderToken::Ident => {
            e.push(ParseError { start: t.1, end: t.2, kind: ErrorKind::UnknownMultilineAttribute });
            assert(e@ =~= seq![span_err(t, ErrorKind::UnknownMultilineAttribute)]);
            (MultilineStringAttribute::Unknown(string_of(s, t.1, t.2)), e)
        },
        _ => {
            e.push(
                ParseError { start: t.1, end: t.2, kind: ErrorKind::MultilineTypeAmongAttributes },
            );
            assert(e@ =~= seq![span_err(t, ErrorKind::MultilineTypeAmongAttributes)]);
            (MultilineStringAttribute::Unknown(string_of(s, t.1, t.2)), e)
        },
    }
}

fn header_value_exec(
    s: &Vec<char>,
    toks: &Vec<(HeaderToken, usize, usize)>,
    Ghost(a): Ghost<int>,
    Ghost(b): Ghost<int>,
) -> (r: (
    Option<MultilineStringType>,
    Vec<MultilineStringAttribute>,
    Vec<ParseError>,
))
    requires
        tokens_in(s@, toks@),
        tokens_between(toks@, a, b),
    ensures
        (
            match r.0 {
                Some(t) => Some(t@),
                None => None,
            },
            seq_view(r.1@),
            r.2@,
        ) == header_value(s@, toks@),
        errs_within(r.2@, a, b),
{
    let mut attrs: Vec<MultilineStringAttribute> = Vec::new();
    let mut errs: Vec<ParseError> = Vec::new();
    if toks.len() == 0 {
        return (None, attrs, errs);
    }
    let t = toks[0];
    let (typ, n): (Option<MultilineStringType>, usize) = match t.0 {
        HeaderToken::Base64 => (Some(MultilineStringType::Base64), 1),
        HeaderToken::Hex => (Some(MultilineStringType::Hex), 1),
        HeaderToken::Json => (Some(MultilineStringType::Json), 1),
        HeaderToken::Xml => (Some(MultilineStringType::Xml), 1),
        HeaderToken::Graphql => (Some(MultilineStringType::Graphql), 1),
        HeaderToken::Ident => {
            errs.push(
                ParseError {
                    start: t.1,
                    end: t.2,
                    kind: ErrorKind::UnknownMultilineTypeOrAttribute,
                },
            );
            (Some(MultilineStringType::Unknown(string_of(s, t.1, t.2))), 1)
        },
        _ => (None, 0),
    };
    assert(errs@ =~= header_type(s@, toks@[0]).2);
    let mut i = n;
    while i < toks.len()
        invariant
            n <= i <= toks@.len(),
            tokens_in(s@, toks@),
            tokens_between(toks@, a, b),
            errs_within(errs@, a, b),
            header_attrs_from(s@, toks@, i as int, seq_view(attrs@), errs@) == header_attrs_from(
                s@,
                toks@,
                n as int,
                Seq::empty(),
                header_type(s@, toks@[0]).2,
            ),
        decreases toks@.len() - i,
    {
        let (attr, mut e) = header_attr_exec(s, toks[i]);
        proof {
            lemma_errs_append(errs@, e@, a, b, a, b);
        }
        attrs.push(attr);
        errs.append(&mut e);
        i = i + 1;
    }
    (typ, attrs, errs)
}

pub open spec fn res_header(
    r: Option<((Option<MultilineStringType>, Vec<MultilineStringAttribute>), usize, Vec<ParseError>)>,
) -> SpecRes<(Option<SpecMultilineStringType>, Seq<SpecMultilineStringAttribute>)> {
    match r {
        Some(((typ, attrs), q, e)) => Some(
            (
                (
                    match typ {
                        Some(t) => Some(t@),
                        None => None,
                    },
                    seq_view(attrs@),
                ),
                q as int,
                e@,
            ),
        ),
        None => None,
    }
}

/// The header of a multiline string at `q`, if one stands there.
pub fn multiline_header_at(s: &Vec<char>, q: usize) -> (r: Option<
    ((Option<MultilineStringType>, Vec<MultilineStringAttribute>), usize, Vec<ParseError>),
>)
    requires
        q <= s@.len(),
    ensures
        res_header(r) == sp_multiline_header(s@, q as int),
        r matches Some((_, q2, _)) ==> q < q2 <= s@.len(),
        r matches Some((_, q2, e)) ==> errs_within(e@, q as int, q2 as int),
{
    proof {
        reveal_strlit("\r\n");
        assert("\r\n"@ =~= seq!['\r', '\n']);
    }
    let (toks, q1) = parse_header_tokens(s, q);
    let q2 = if q1 < s.len() && s[q1] == '\n' {
        q1 + 1
    } else if crate::base::lit_at(s, q1, "\r\n") {
        q1 + 2
    } else {
        return None;
    };
    let (typ, attrs, e) = header_value_exec(s, &toks, Ghost(q as int), Ghost(q1 as int));
    Some(((typ, attrs), q2, e))
}

pub open spec fn res_multiline(r: Option<(MultilineString, usize, Vec<ParseError>)>) -> SpecRes<
    SpecMultilineString,
> {
    match r {
        Some((v, q, e)) => Some((v@, q as int, e@)),
        None => None,
    }
}

/// Where a multiline string at `p` fails to be read: at `p` when no
/// three backticks stand there, where its header fails when it has none
/// (see `multiline_header_failure`), else where its characters stop (see
/// `string_failure`).
pub open spec fn multiline_failure(s: Seq<char>, p: int) -> ParseError {
    match lit_end(s, p, "```"@) {
        None => point_error(s, p),
        Some(q) => match sp_multiline_header(s, q) {
            None => multiline_header_failure(s, q),
            Some((_, q2, _)) => point_error(
                s,
                string_failure(
                    s,
                    sp_parts_from(StrKind::Multiline, s, q2, Seq::empty(), Seq::empty()).1,
                ),
            ),
        },
    }
}

/// A multiline string at `p`; when there is none, the place where reading
/// it failed.
pub fn multiline_string_parser(s: &Vec<char>, p: usize) -> (r: Result<
    (MultilineString, usize, Vec<ParseError>),
    ParseError,
>)
    requires
        p <= s@.len(),
    ensures
        match r {
            Ok((v, q, e)) => sp_multiline_string(s@, p as int) == Some((v@, q as int, e@)) && p < q
                <= s@.len() && errs_within(e@, p as int, q as int),
            Err(f) => sp_multiline_string(s@, p as int) is None && f == multiline_failure(s@, p as int),
        },
{
    proof {
        reveal_strlit("```");
    }
    match multiline_string_at(s, p) {
        Some(x) => Ok(x),
        None => match lit_end_exec(s, p, "```") {
            None => Err(point_error_exec(s, p)),
            Some(q) => match multiline_header_at(s, q) {
                None => {
                    let (_, q1) = parse_header_tokens(s, q);
                    Err(point_error_exec(s, skip_sp_exec(s, q1)))
                },
                Some((_, q2, _)) => {
                    let (_, q3, _) = parse_parts(StrKind::Multiline, s, q2);
                    Err(point_error_exec(s, string_failure_exec(s, q3)))
                },
            },
        },
    }
}

pub fn multiline_string_at(s: &Vec<char>, p: usize) -> (r: Option<
    (MultilineString, usize, Vec<ParseError>),
>)
    requires
        p <= s@.len(),
    ensures
        res_multiline(r) == sp_multiline_string(s@, p as int),
        r matches Some((_, q, _)) ==> p < q <= s@.len(),
        r matches Some((_, q, e)) ==> errs_within(e@, p as int, q as int),
{
    proof {
        reveal_strlit("```");
    }
    let q = match lit_end_exec(s, p, "```") {
        Some(q) => q,
        None => {
            return None;
        },
    };
    let ((typ, attrs), q2, mut e1) = match multiline_header_at(s, q) {
        Some(h) => h,
        None => {
            return None;
        },
    };
    let (parts, q3, mut e2) = parse_parts(StrKind::Multiline, s, q2);
    match lit_end_exec(s, q3, "```") {
        Some(q4) => {
            e1.append(&mut e2);
            proof {
                lemma_istr_view(parts);
            }
            let m = MultilineString {
                string_type: typ,
                attributes: attrs,
                content: InterpolatedString { parts },
            };
            Some((m, q4, e1))
        },
        None => None,
    }
}


/// Where a multiline string header at `q` fails to be read: after its
/// words and the spaces after them, where a comma or a newline was
/// expected.
pub open spec fn multiline_header_failure(s: Seq<char>, q: int) -> ParseError {
    point_error(s, skip_sp(s, sp_header_tokens(s, q).1))
}

/// A multiline string header at `q`; when there is none, the place where
/// reading it failed.
pub fn multiline_string_header_parser(s: &Vec<char>, q: usize) -> (r: Result<
    ((Option<MultilineStringType>, Vec<MultilineStringAttribute>), usize, Vec<ParseError>),
    ParseError,
>)
    requires
        q <= s@.len(),
    ensures
        match r {
            Ok(x) => res_header(Some(x)) == sp_multiline_header(s@, q as int) && q < x.1
                <= s@.len() && errs_within(x.2@, q as int, x.1 as int),
            Err(f) => sp_multiline_header(s@, q as int) is None && f == multiline_header_failure(
                s@,
                q as int,
            ),
        },
{
    match multiline_header_at(s, q) {
        Some(x) => Ok(x),
        None => {
            let (_, q1) = parse_header_tokens(s, q);
            Err(point_error_exec(s, skip_sp_exec(s, q1)))
        },
    }
}

} // verus!
