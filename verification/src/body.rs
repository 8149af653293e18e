//! The body of a request or a response: bytes in one of their forms,
//! then a line terminator.
use vstd::prelude::*;
use crate::base::{errs_within, ParseError, SpecRes};
use crate::json::{json_value_at, sp_json_value};
use crate::model::SpecBytes;
use crate::multiline::{multiline_string_at, sp_multiline_string};
use crate::oneline::{
    oneline_base64_parser, oneline_file_parser, oneline_hex_parser, oneline_string_at,
    sp_oneline_base64, sp_oneline_file, sp_oneline_hex, sp_oneline_string,
};
use crate::primitives::{parse_lt, sp_lt};
use crate::types::{Body, Bytes};

verus! {

/// Bytes: a multiline string, a one-line string, base64, a file, hex, or a
/// JSON value; the first that matches at `p`.
pub open spec fn sp_bytes(s: Seq<char>, p: int) -> SpecRes<SpecBytes> {
    if sp_multiline_string(s, p) is Some {
        let (v, q, e) = sp_multiline_string(s, p)->0;
        Some((SpecBytes::MultilineString(v), q, e))
    } else if sp_oneline_string(s, p) is Some {
        let (v, q, e) = sp_oneline_string(s, p)->0;
        Some((SpecBytes::OneLineString(v), q, e))
    } else if sp_oneline_base64(s, p) is Some {
        let (v, q) = sp_oneline_base64(s, p)->0;
        Some((SpecBytes::OneLineBase64(v), q, Seq::empty()))
    } else if sp_oneline_file(s, p) is Some {
        let (v, q, e) = sp_oneline_file(s, p)->0;
        Some((SpecBytes::OneLineFile(v), q, e))
    } else if sp_oneline_hex(s, p) is Some {
        let (v, q) = sp_oneline_hex(s, p)->0;
        Some((SpecBytes::OneLineHex(v), q, Seq::empty()))
    } else {
        match sp_json_value(s, p) {
            Some((v, q, e)) => Some((SpecBytes::JsonValue(v), q, e)),
            None => None,
        }
    }
}

/// A body: bytes, then a line terminator.
pub open spec fn sp_body(s: Seq<char>, p: int) -> SpecRes<SpecBytes> {
    match sp_bytes(s, p) {
        Some((b, q, e)) => match sp_lt(s, q) {
            Some(q2) => Some((b, q2, e)),
            None => None,
        },
        None => None,
    }
}

pub fn bytes_parser(s: &Vec<char>, p: usize) -> (r: Option<(Bytes, usize, Vec<ParseError>)>)
    requires
        p <= s@.len(),
    ensures
        crate::base::res_view(r) == sp_bytes(s@, p as int),
        r matches Some((_, q, _)) ==> p < q <= s@.len(),
        r matches Some((_, q, e)) ==> errs_within(e@, p as int, q as int),
{
    if let Some((v, q, e)) = multiline_string_at(s, p) {
        return Some((Bytes::MultilineString(v), q, e));
    }
    if let Some((v, q, e)) = oneline_string_at(s, p) {
        return Some((Bytes::OneLineString(v), q, e));
    }
    if let Some((v, q)) = oneline_base64_parser(s, p) {
        return Some((Bytes::OneLineBase64(v), q, Vec::new()));
    }
    if let Some((v, q, e)) = oneline_file_parser(s, p) {
        return Some((Bytes::OneLineFile(v), q, e));
    }
    if let Some((v, q)) = oneline_hex_parser(s, p) {
        return Some((Bytes::OneLineHex(v), q, Vec::new()));
    }
    match json_value_at(s, p) {
        Some((v, q, e)) => Some((Bytes::JsonValue(v), q, e)),
        None => None,
    }
}

/// The body at `p`, if one starts there.
pub fn body_parser(s: &Vec<char>, p: usize) -> (r: Option<(Body, usize, Vec<ParseError>)>)
    requires
        p <= s@.len(),
    ensures
        crate::base::res_view(r) == sp_body(s@, p as int),
        r matches Some((_, q, _)) ==> p < q <= s@.len(),
        r matches Some((_, q, e)) ==> errs_within(e@, p as int, q as int),
{
    match bytes_parser(s, p) {
        Some((b, q, e)) => match parse_lt(s, q) {
            Some(q2) => Some((Body { bytes: b }, q2, e)),
            None => None,
        },
        None => None,
    }
}

} // verus!
