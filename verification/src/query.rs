//! Queries: what a capture or an assert reads from a response.
use vstd::prelude::*;
use crate::base::{errs_within, ParseError, SpecRes, lit_end, lit_end_exec, matches_at};
use crate::model::SpecQuery;
use crate::oneline::{regex_parser, sp_regex};
use crate::template::{kw_sp, kw_sp_exec, parse_quoted_arg, sp_quoted_arg};
use crate::types::{CertificateFieldSelector, Query};

verus! {

/// The quoted name of a certificate field at `q`, and the position after it.
/// `"Serial-Number"` selects the subject field.
pub open spec fn sp_certificate_field(s: Seq<char>, q: int) -> Option<
    (CertificateFieldSelector, int),
> {
    if lit_end(s, q, "\"Subject\""@) is Some {
        Some((CertificateFieldSelector::Subject, lit_end(s, q, "\"Subject\""@)->0))
    } else if lit_end(s, q, "\"Issuer\""@) is Some {
        Some((CertificateFieldSelector::Issuer, lit_end(s, q, "\"Issuer\""@)->0))
    } else if lit_end(s, q, "\"Start-Date\""@) is Some {
        Some((CertificateFieldSelector::StartDate, lit_end(s, q, "\"Start-Date\""@)->0))
    } else if lit_end(s, q, "\"Expire-Date\""@) is Some {
        Some((CertificateFieldSelector::ExpireDate, lit_end(s, q, "\"Expire-Date\""@)->0))
    } else if lit_end(s, q, "\"Serial-Number\""@) is Some {
        Some((CertificateFieldSelector::Subject, lit_end(s, q, "\"Serial-Number\""@)->0))
    } else {
        None
    }
}

/// A query: the first of these alternatives that matches at `p`.
pub open spec fn sp_query(s: Seq<char>, p: int) -> SpecRes<SpecQuery> {
    if lit_end(s, p, "status"@) is Some {
        Some((SpecQuery::Status, lit_end(s, p, "status"@)->0, Seq::empty()))
    } else if lit_end(s, p, "url"@) is Some {
        Some((SpecQuery::Url, lit_end(s, p, "url"@)->0, Seq::empty()))
    } else if sp_quoted_arg(s, p, "header"@) is Some {
        let (v, q, e) = sp_quoted_arg(s, p, "header"@)->0;
        Some((SpecQuery::Header(v), q, e))
    } else if kw_sp(s, p, "certificate"@) is Some && sp_certificate_field(
        s,
        kw_sp(s, p, "certificate"@)->0,
    ) is Some {
        let (f, q) = sp_certificate_field(s, kw_sp(s, p, "certificate"@)->0)->0;
        Some((SpecQuery::Certificate(f), q, Seq::empty()))
    } else if sp_quoted_arg(s, p, "cookie"@) is Some {
        let (v, q, e) = sp_quoted_arg(s, p, "cookie"@)->0;
        Some((SpecQuery::Cookie(v), q, e))
    } else if lit_end(s, p, "body"@) is Some {
        Some((SpecQuery::Body, lit_end(s, p, "body"@)->0, Seq::empty()))
    } else if sp_quoted_arg(s, p, "xpath"@) is Some {
        let (v, q, e) = sp_quoted_arg(s, p, "xpath"@)->0;
        Some((SpecQuery::Xpath(v), q, e))
    } else if sp_quoted_arg(s, p, "jsonpath"@) is Some {
        let (v, q, e) = sp_quoted_arg(s, p, "jsonpath"@)->0;
        Some((SpecQuery::JsonPath(v), q, e))
    } else if kw_sp(s, p, "regex"@) is Some && sp_regex(s, kw_sp(s, p, "regex"@)->0) is Some {
        let (v, q, e) = sp_regex(s, kw_sp(s, p, "regex"@)->0)->0;
        Some((SpecQuery::Regex(v), q, e))
    } else if sp_quoted_arg(s, p, "variable"@) is Some {
        let (v, q, e) = sp_quoted_arg(s, p, "variable"@)->0;
        Some((SpecQuery::Variable(v), q, e))
    } else if lit_end(s, p, "duration"@) is Some {
        Some((SpecQuery::Duration, lit_end(s, p, "duration"@)->0, Seq::empty()))
    } else if lit_end(s, p, "sha256"@) is Some {
        Some((SpecQuery::Sha256, lit_end(s, p, "sha256"@)->0, Seq::empty()))
    } else if lit_end(s, p, "md5"@) is Some {
        Some((SpecQuery::Md5, lit_end(s, p, "md5"@)->0, Seq::empty()))
    } else if lit_end(s, p, "bytes"@) is Some {
        Some((SpecQuery::Bytes, lit_end(s, p, "bytes"@)->0, Seq::empty()))
    } else {
        None
    }
}

pub open spec fn res_query(r: Option<(Query, usize, Vec<ParseError>)>) -> SpecRes<SpecQuery> {
    match r {
        Some((v, q, e)) => Some((v@, q as int, e@)),
        None => None,
    }
}

fn parse_certificate_field(s: &Vec<char>, q: usize) -> (r: Option<
    (CertificateFieldSelector, usize),
>)
    requires
        q <= s@.len(),
    ensures
        match r {
            Some((f, q2)) => sp_certificate_field(s@, q as int) == Some((f, q2 as int)) && q < q2
                <= s@.len(),
            None => sp_certificate_field(s@, q as int) is None,
        },
{
    proof {
        reveal_strlit("\"Subject\"");
    }
    if let Some(q2) = lit_end_exec(s, q, "\"Subject\"") {
        return Some((CertificateFieldSelector::Subject, q2));
    }
    proof {
        reveal_strlit("\"Issuer\"");
    }
    if let Some(q2) = lit_end_exec(s, q, "\"Issuer\"") {
        return Some((CertificateFieldSelector::Issuer, q2));
    }
    proof {
        reveal_strlit("\"Start-Date\"");
    }
    if let Some(q2) = lit_end_exec(s, q, "\"Start-Date\"") {
        return Some((CertificateFieldSelector::StartDate, q2));
    }
    proof {
        reveal_strlit("\"Expire-Date\"");
    }
    if let Some(q2) = lit_end_exec(s, q, "\"Expire-Date\"") {
        return Some((CertificateFieldSelector::ExpireDate, q2));
    }
    proof {
        reveal_strlit("\"Serial-Number\"");
    }
    if let Some(q2) = lit_end_exec(s, q, "\"Serial-Number\"") {
        return Some((CertificateFieldSelector::Subject, q2));
    }
    None
}

/// The query at `p`, if one starts there.
#[verifier::rlimit(40)]
pub fn query_parser(s: &Vec<char>, p: usize) -> (r: Option<(Query, usize, Vec<ParseError>)>)
    requires
        p <= s@.len(),
    ensures
        res_query(r) == sp_query(s@, p as int),
        r matches Some((_, q, _)) ==> p < q <= s@.len(),
        r matches Some((_, q, e)) ==> errs_within(e@, p as int, q as int),
{
    proof {
        reveal_strlit("status");
        reveal_strlit("url");
        reveal_strlit("body");
        reveal_strlit("duration");
        reveal_strlit("sha256");
        reveal_strlit("md5");
        reveal_strlit("bytes");
    }
    if let Some(q) = lit_end_exec(s, p, "status") {
        return Some((Query::Status, q, Vec::new()));
    }
    if let Some(q) = lit_end_exec(s, p, "url") {
        return Some((Query::Url, q, Vec::new()));
    }
    if let Some((v, q, e)) = parse_quoted_arg(s, p, "header") {
        return Some((Query::Header(v), q, e));
    }
    if let Some(q1) = kw_sp_exec(s, p, "certificate") {
        if let Some((f, q)) = parse_certificate_field(s, q1) {
            return Some((Query::Certificate(f), q, Vec::new()));
        }
    }
    if let Some((v, q, e)) = parse_quoted_arg(s, p, "cookie") {
        return Some((Query::Cookie(v), q, e));
    }
    if let Some(q) = lit_end_exec(s, p, "body") {
        return Some((Query::Body, q, Vec::new()));
    }
    if let Some((v, q, e)) = parse_quoted_arg(s, p, "xpath") {
        return Some((Query::Xpath(v), q, e));
    }
    if let Some((v, q, e)) = parse_quoted_arg(s, p, "jsonpath") {
        return Some((Query::JsonPath(v), q, e));
    }
    if let Some(q1) = kw_sp_exec(s, p, "regex") {
        if let Some((v, q, e)) = regex_parser(s, q1) {
            return Some((Query::Regex(v), q, e));
        }
    }
    if let Some((v, q, e)) = parse_quoted_arg(s, p, "variable") {
        return Some((Query::Variable(v), q, e));
    }
    if let Some(q) = lit_end_exec(s, p, "duration") {
        return Some((Query::Duration, q, Vec::new()));
    }
    if let Some(q) = lit_end_exec(s, p, "sha256") {
        return Some((Query::Sha256, q, Vec::new()));
    }
    if let Some(q) = lit_end_exec(s, p, "md5") {
        return Some((Query::Md5, q, Vec::new()));
    }
    if let Some(q) = lit_end_exec(s, p, "bytes") {
        return Some((Query::Bytes, q, Vec::new()));
    }
    None
}


/// Each quoted certificate field name selects its own field: `"Subject"`
/// the subject, `"Issuer"` the issuer, `"Start-Date"` the start date,
/// `"Expire-Date"` the expiry date, and `"Serial-Number"` the subject; the
/// name is read to its closing quote.
pub proof fn lemma_certificate_fields(s: Seq<char>, q: int)
    requires
        0 <= q,
    ensures
        matches_at(s, q, "\"Subject\""@) ==> sp_certificate_field(s, q) == Some(
            (CertificateFieldSelector::Subject, q + 9),
        ),
        matches_at(s, q, "\"Issuer\""@) ==> sp_certificate_field(s, q) == Some(
            (CertificateFieldSelector::Issuer, q + 8),
        ),
        matches_at(s, q, "\"Start-Date\""@) ==> sp_certificate_field(s, q) == Some(
            (CertificateFieldSelector::StartDate, q + 12),
        ),
        matches_at(s, q, "\"Expire-Date\""@) ==> sp_certificate_field(s, q) == Some(
            (CertificateFieldSelector::ExpireDate, q + 13),
        ),
        matches_at(s, q, "\"Serial-Number\""@) ==> sp_certificate_field(s, q) == Some(
            (CertificateFieldSelector::Subject, q + 15),
        ),
{
    reveal_strlit("\"Subject\"");
    reveal_strlit("\"Issuer\"");
    reveal_strlit("\"Start-Date\"");
    reveal_strlit("\"Expire-Date\"");
    reveal_strlit("\"Serial-Number\"");
    let names = seq![
        "\"Subject\""@,
        "\"Issuer\""@,
        "\"Start-Date\""@,
        "\"Expire-Date\""@,
        "\"Serial-Number\""@,
    ];
    assert forall|i: int, j: int|
        0 <= i < 5 && 0 <= j < 5 && i != j && #[trigger] matches_at(s, q, names[i]) implies !(
        #[trigger] matches_at(s, q, names[j])) by {
        let a = names[i];
        let b = names[j];
        if matches_at(s, q, b) {
            assert(s.subrange(q, q + a.len())[1] == s[q + 1]);
            assert(s.subrange(q, q + b.len())[1] == s[q + 1]);
            assert(s.subrange(q, q + a.len())[2] == s[q + 2]);
            assert(s.subrange(q, q + b.len())[2] == s[q + 2]);
        }
    }
    assert(names[0] == "\"Subject\""@);
    assert(names[1] == "\"Issuer\""@);
    assert(names[2] == "\"Start-Date\""@);
    assert(names[3] == "\"Expire-Date\""@);
    assert(names[4] == "\"Serial-Number\""@);
}

} // verus!
