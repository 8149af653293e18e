//! The completion items the language server offers: the section names,
//! the option names, a snippet for each HTTP method, and one for each
//! one-line form of bytes.
use vstd::prelude::*;
use crate::base::{lit_end, skip_sp, string_from};
use crate::base::SpecParser;
use crate::request_section::{section_head, sp_request_section};
use crate::response_section::sp_response_section;
use crate::options::{
    boolean_value_rule, duration_value_rule, filename_rule, integer_value_rule,
    sp_bool_opt, sp_boolean_request_option_a, sp_boolean_request_option_b, sp_duration_opt,
    sp_duration_request_option, sp_filename_opt, sp_filename_request_option, sp_integer_opt,
    sp_integer_request_option, sp_option, sp_request_option, sp_string_opt,
    sp_string_request_option, sp_variable_request_option, string_value_rule,
    variable_definition_rule,
};

verus! {

/// A completion item: a keyword, or a label and the snippet it inserts.
#[derive(Debug, PartialEq, Eq)]
pub enum ImCompleteCompletionItem {
    Keyword(String),
    Snippet(String, String),
}

/// The HTTP methods a request may use.
#[allow(non_camel_case_types)]
#[derive(Clone, Copy, Debug, PartialEq, Eq, Hash)]
pub enum RequestMethods {
    GET,
    HEAD,
    POST,
    PUT,
    DELETE,
    CONNECT,
    OPTIONS,
    TRACE,
    PATCH,
}

pub enum SpecCompletionItem {
    Keyword(Seq<char>),
    Snippet(Seq<char>, Seq<char>),
}

impl View for ImCompleteCompletionItem {
    type V = SpecCompletionItem;

    open spec fn view(&self) -> SpecCompletionItem {
        match self {
            ImCompleteCompletionItem::Keyword(k) => SpecCompletionItem::Keyword(k@),
            ImCompleteCompletionItem::Snippet(l, t) => SpecCompletionItem::Snippet(l@, t@),
        }
    }
}

/// The label an item is shown under.
pub open spec fn label(i: SpecCompletionItem) -> Seq<char> {
    match i {
        SpecCompletionItem::Keyword(k) => k,
        SpecCompletionItem::Snippet(l, _) => l,
    }
}

/// The names of the sections, without their brackets.
pub open spec fn section_keywords() -> Seq<Seq<char>> {
    seq![
        "Asserts"@,
        "Query"@,
        "QueryStringParams"@,
        "BasicAuth"@,
        "Form"@,
        "FormParams"@,
        "Cookies"@,
        "Captures"@,
        "Multipart"@,
        "MultipartFormData"@,
        "Options"@,
    ]
}

/// The names of the options of an `[Options]` section.
pub open spec fn option_names() -> Seq<Seq<char>> {
    seq![
        "aws-sigv4"@,
        "cacert"@,
        "cert"@,
        "key"@,
        "compressed"@,
        "connect-to"@,
        "connect-timeout"@,
        "delay"@,
        "location"@,
        "location-trusted"@,
        "http1.0"@,
        "http1.1"@,
        "http2"@,
        "http3"@,
        "insecure"@,
        "ipv4"@,
        "ipv6"@,
        "limit-rate"@,
        "max-redirs"@,
        "netrc"@,
        "netrc-file"@,
        "netrc-optional"@,
        "output"@,
        "path-as-is"@,
        "proxy"@,
        "repeat"@,
        "resolve"@,
        "retry"@,
        "retry-interval"@,
        "skip"@,
        "unix-socket"@,
        "user"@,
        "variable"@,
        "verbose"@,
        "very-verbose"@,
    ]
}

/// Each HTTP method and the entry its snippet inserts.
pub open spec fn method_snippets() -> Seq<(Seq<char>, Seq<char>)> {
    seq![
        ("GET"@, "GET ${1:{{host\\}\\}}\n$2\nHTTP ${3:200}\n"@),
        ("HEAD"@, "HEAD ${1:{{host\\}\\}}\n$2\nHTTP ${3:200}\n"@),
        ("POST"@, "POST ${1:{{host\\}\\}}\n$2\nHTTP ${3:200}\n"@),
        ("PUT"@, "PUT ${1:{{host\\}\\}}\n$2\nHTTP ${3:200}\n"@),
        ("DELETE"@, "DELETE ${1:{{host\\}\\}}\n$2\nHTTP ${3:200}\n"@),
        ("CONNECT"@, "CONNECT ${1:{{host\\}\\}}\n$2\nHTTP ${3:200}\n"@),
        ("OPTIONS"@, "OPTIONS ${1:{{host\\}\\}}\n$2\nHTTP ${3:200}\n"@),
        ("TRACE"@, "TRACE ${1:{{host\\}\\}}\n$2\nHTTP ${3:200}\n"@),
        ("PATCH"@, "PATCH ${1:{{host\\}\\}}\n$2\nHTTP ${3:200}\n"@),
    ]
}

/// Each one-line form of bytes and the text its snippet inserts.
pub open spec fn byte_snippets() -> Seq<(Seq<char>, Seq<char>)> {
    seq![("base64"@, "base64, $1;"@), ("file"@, "file, $1;"@), ("hex"@, "hex, $1;"@)]
}

pub open spec fn keyword_entry(k: Seq<char>) -> (Seq<char>, SpecCompletionItem) {
    (k, SpecCompletionItem::Keyword(k))
}

pub open spec fn snippet_entry(p: (Seq<char>, Seq<char>)) -> (Seq<char>, SpecCompletionItem) {
    (p.0, SpecCompletionItem::Snippet(p.0, p.1))
}

/// Every completion entry, keyed by its label: the section keywords, the
/// option names, the method snippets, the bytes snippets.
pub open spec fn completion_table() -> Seq<(Seq<char>, SpecCompletionItem)> {
    section_keywords().map_values(|k: Seq<char>| keyword_entry(k)) + option_names().map_values(
        |k: Seq<char>| keyword_entry(k),
    ) + method_snippets().map_values(|p: (Seq<char>, Seq<char>)| snippet_entry(p))
        + byte_snippets().map_values(|p: (Seq<char>, Seq<char>)| snippet_entry(p))
}

/// The entries of a completion list, viewed.
pub open spec fn entries_view(v: Seq<(String, ImCompleteCompletionItem)>) -> Seq<
    (Seq<char>, SpecCompletionItem),
> {
    Seq::new(v.len(), |i: int| (v[i].0@, v[i].1@))
}

fn push_keyword(v: &mut Vec<(String, ImCompleteCompletionItem)>, k: &str)
    ensures
        entries_view(final(v)@) == entries_view(old(v)@).push(keyword_entry(k@)),
{
    v.push((string_from(k), ImCompleteCompletionItem::Keyword(string_from(k))));
    assert(entries_view(v@) =~= entries_view(old(v)@).push(keyword_entry(k@)));
}

fn push_snippet(v: &mut Vec<(String, ImCompleteCompletionItem)>, l: &str, t: &str)
    ensures
        entries_view(final(v)@) == entries_view(old(v)@).push(snippet_entry((l@, t@))),
{
    v.push((string_from(l), ImCompleteCompletionItem::Snippet(string_from(l), string_from(t))));
    assert(entries_view(v@) =~= entries_view(old(v)@).push(snippet_entry((l@, t@))));
}

/// The section keywords.
fn section_entries() -> (r: Vec<(String, ImCompleteCompletionItem)>)
    ensures
        entries_view(r@) == section_keywords().map_values(|k: Seq<char>| keyword_entry(k)),
{
    let mut v: Vec<(String, ImCompleteCompletionItem)> = Vec::new();
    push_keyword(&mut v, "Asserts");
    push_keyword(&mut v, "Query");
    push_keyword(&mut v, "QueryStringParams");
    push_keyword(&mut v, "BasicAuth");
    push_keyword(&mut v, "Form");
    push_keyword(&mut v, "FormParams");
    push_keyword(&mut v, "Cookies");
    push_keyword(&mut v, "Captures");
    push_keyword(&mut v, "Multipart");
    push_keyword(&mut v, "MultipartFormData");
    push_keyword(&mut v, "Options");
    assert(entries_view(v@) =~= section_keywords().map_values(|k: Seq<char>| keyword_entry(k)));
    v
}

/// The option names.
fn option_entries() -> (r: Vec<(String, ImCompleteCompletionItem)>)
    ensures
        entries_view(r@) == option_names().map_values(|k: Seq<char>| keyword_entry(k)),
{
    let mut v: Vec<(String, ImCompleteCompletionItem)> = Vec::new();
    push_keyword(&mut v, "aws-sigv4");
    push_keyword(&mut v, "cacert");
    push_keyword(&mut v, "cert");
    push_keyword(&mut v, "key");
    push_keyword(&mut v, "compressed");
    push_keyword(&mut v, "connect-to");
    push_keyword(&mut v, "connect-timeout");
    push_keyword(&mut v, "delay");
    push_keyword(&mut v, "location");
    push_keyword(&mut v, "location-trusted");
    push_keyword(&mut v, "http1.0");
    push_keyword(&mut v, "http1.1");
    push_keyword(&mut v, "http2");
    push_keyword(&mut v, "http3");
    push_keyword(&mut v, "insecure");
    push_keyword(&mut v, "ipv4");
    push_keyword(&mut v, "ipv6");
    push_keyword(&mut v, "limit-rate");
    push_keyword(&mut v, "max-redirs");
    push_keyword(&mut v, "netrc");
    push_keyword(&mut v, "netrc-file");
    push_keyword(&mut v, "netrc-optional");
    push_keyword(&mut v, "output");
    push_keyword(&mut v, "path-as-is");
    push_keyword(&mut v, "proxy");
    push_keyword(&mut v, "repeat");
    push_keyword(&mut v, "resolve");
    push_keyword(&mut v, "retry");
    push_keyword(&mut v, "retry-interval");
    push_keyword(&mut v, "skip");
    push_keyword(&mut v, "unix-socket");
    push_keyword(&mut v, "user");
    push_keyword(&mut v, "variable");
    push_keyword(&mut v, "verbose");
    push_keyword(&mut v, "very-verbose");
    assert(entries_view(v@) =~= option_names().map_values(|k: Seq<char>| keyword_entry(k)));
    v
}

/// The method snippets.
fn method_entries() -> (r: Vec<(String, ImCompleteCompletionItem)>)
    ensures
        entries_view(r@) == method_snippets().map_values(|p: (Seq<char>, Seq<char>)| snippet_entry(p)),
{
    let mut v: Vec<(String, ImCompleteCompletionItem)> = Vec::new();
    push_snippet(&mut v, "GET", "GET ${1:{{host\\}\\}}\n$2\nHTTP ${3:200}\n");
    push_snippet(&mut v, "HEAD", "HEAD ${1:{{host\\}\\}}\n$2\nHTTP ${3:200}\n");
    push_snippet(&mut v, "POST", "POST ${1:{{host\\}\\}}\n$2\nHTTP ${3:200}\n");
    push_snippet(&mut v, "PUT", "PUT ${1:{{host\\}\\}}\n$2\nHTTP ${3:200}\n");
    push_snippet(&mut v, "DELETE", "DELETE ${1:{{host\\}\\}}\n$2\nHTTP ${3:200}\n");
    push_snippet(&mut v, "CONNECT", "CONNECT ${1:{{host\\}\\}}\n$2\nHTTP ${3:200}\n");
    push_snippet(&mut v, "OPTIONS", "OPTIONS ${1:{{host\\}\\}}\n$2\nHTTP ${3:200}\n");
    push_snippet(&mut v, "TRACE", "TRACE ${1:{{host\\}\\}}\n$2\nHTTP ${3:200}\n");
    push_snippet(&mut v, "PATCH", "PATCH ${1:{{host\\}\\}}\n$2\nHTTP ${3:200}\n");
    assert(entries_view(v@) =~= method_snippets().map_values(|p: (Seq<char>, Seq<char>)| snippet_entry(p)));
    v
}

/// The bytes snippets.
fn byte_entries() -> (r: Vec<(String, ImCompleteCompletionItem)>)
    ensures
        entries_view(r@) == byte_snippets().map_values(|p: (Seq<char>, Seq<char>)| snippet_entry(p)),
{
    let mut v: Vec<(String, ImCompleteCompletionItem)> = Vec::new();
    push_snippet(&mut v, "base64", "base64, $1;");
    push_snippet(&mut v, "file", "file, $1;");
    push_snippet(&mut v, "hex", "hex, $1;");
    assert(entries_view(v@) =~= byte_snippets().map_values(|p: (Seq<char>, Seq<char>)| snippet_entry(p)));
    v
}

proof fn lemma_entries_view_add(a: Seq<(String, ImCompleteCompletionItem)>, b: Seq<(String, ImCompleteCompletionItem)>)
    ensures
        entries_view(a + b) == entries_view(a) + entries_view(b),
{
    assert(entries_view(a + b) =~= entries_view(a) + entries_view(b));
}

/// The completion entries, each keyed by its label.
pub fn completion() -> (r: Vec<(String, ImCompleteCompletionItem)>)
    ensures
        entries_view(r@) == completion_table(),
{
    let mut v = section_entries();
    let mut o = option_entries();
    let mut m = method_entries();
    let mut b = byte_entries();
    proof {
        lemma_entries_view_add(v@, o@);
        lemma_entries_view_add(v@ + o@, m@);
        lemma_entries_view_add(v@ + o@ + m@, b@);
    }
    v.append(&mut o);
    v.append(&mut m);
    v.append(&mut b);
    v
}

/// A completion entry as an editor shows it: its label, the detail shown
/// beside it, the text it inserts, and whether that text is a snippet.
pub struct CompletionEntry {
    pub label: String,
    pub detail: String,
    pub insert_text: String,
    pub is_snippet: bool,
}

/// What an editor is given for an item: a keyword is shown, detailed and
/// inserted as itself; a snippet is shown and detailed by its label and
/// inserts its text.
pub open spec fn entry_of(i: SpecCompletionItem) -> (Seq<char>, Seq<char>, Seq<char>, bool) {
    match i {
        SpecCompletionItem::Keyword(k) => (k, k, k, false),
        SpecCompletionItem::Snippet(l, t) => (l, l, t, true),
    }
}

pub open spec fn entry_view(e: CompletionEntry) -> (Seq<char>, Seq<char>, Seq<char>, bool) {
    (e.label@, e.detail@, e.insert_text@, e.is_snippet)
}

fn entry_from(item: &ImCompleteCompletionItem) -> (r: CompletionEntry)
    ensures
        entry_view(r) == entry_of(item@),
{
    match item {
        ImCompleteCompletionItem::Keyword(k) => CompletionEntry {
            label: k.clone(),
            detail: k.clone(),
            insert_text: k.clone(),
            is_snippet: false,
        },
        ImCompleteCompletionItem::Snippet(l, t) => CompletionEntry {
            label: l.clone(),
            detail: l.clone(),
            insert_text: t.clone(),
            is_snippet: true,
        },
    }
}

/// The completion entries as an editor is given them, in the order of the
/// completion list.
pub fn completion_entries() -> (r: Vec<CompletionEntry>)
    ensures
        r@.len() == completion_table().len(),
        forall|i: int|
            0 <= i < r@.len() ==> entry_view(#[trigger] r@[i]) == entry_of(completion_table()[i].1),
{
    let items = completion();
    let mut r: Vec<CompletionEntry> = Vec::new();
    let mut i: usize = 0;
    while i < items.len()
        invariant
            i <= items@.len(),
            entries_view(items@) == completion_table(),
            r@.len() == i,
            forall|j: int|
                0 <= j < i ==> entry_view(#[trigger] r@[j]) == entry_of(completion_table()[j].1),
        decreases items@.len() - i,
    {
        let e = entry_from(&items[i].1);
        assert(entries_view(items@)[i as int].1 == items@[i as int].1@);
        r.push(e);
        i = i + 1;
    }
    r
}

/// Each entry of the completion list is keyed by the label of its item.
pub proof fn lemma_completion_keys_are_labels(i: int)
    requires
        0 <= i < completion_table().len(),
    ensures
        completion_table()[i].0 == label(completion_table()[i].1),
{
}

/// Where a label stands in the completion list, told by its length, its
/// first character and its last character; -1 when it is not there.
pub open spec fn label_position(w: Seq<char>) -> int {
    let n = w.len();
    let sig = |l: nat, a: char, z: char| n == l && w[0] == a && w[n - 1] == z;
    if sig(7, 'A', 's') {
        0
    } else if sig(5, 'Q', 'y') {
        1
    } else if sig(17, 'Q', 's') {
        2
    } else if sig(9, 'B', 'h') {
        3
    } else if sig(4, 'F', 'm') {
        4
    } else if sig(10, 'F', 's') {
        5
    } else if sig(7, 'C', 's') {
        6
    } else if sig(8, 'C', 's') {
        7
    } else if sig(9, 'M', 't') {
        8
    } else if sig(17, 'M', 'a') {
        9
    } else if sig(7, 'O', 's') {
        10
    } else if sig(9, 'a', '4') {
        11
    } else if sig(6, 'c', 't') {
        12
    } else if sig(4, 'c', 't') {
        13
    } else if sig(3, 'k', 'y') {
        14
    } else if sig(10, 'c', 'd') {
        15
    } else if sig(10, 'c', 'o') {
        16
    } else if sig(15, 'c', 't') {
        17
    } else if sig(5, 'd', 'y') {
        18
    } else if sig(8, 'l', 'n') {
        19
    } else if sig(16, 'l', 'd') {
        20
    } else if sig(7, 'h', '0') {
        21
    } else if sig(7, 'h', '1') {
        22
    } else if sig(5, 'h', '2') {
        23
    } else if sig(5, 'h', '3') {
        24
    } else if sig(8, 'i', 'e') {
        25
    } else if sig(4, 'i', '4') {
        26
    } else if sig(4, 'i', '6') {
        27
    } else if sig(10, 'l', 'e') {
        28
    } else if sig(10, 'm', 's') {
        29
    } else if sig(5, 'n', 'c') {
        30
    } else if sig(10, 'n', 'e') {
        31
    } else if sig(14, 'n', 'l') {
        32
    } else if sig(6, 'o', 't') {
        33
    } else if sig(10, 'p', 's') {
        34
    } else if sig(5, 'p', 'y') {
        35
    } else if sig(6, 'r', 't') {
        36
    } else if sig(7, 'r', 'e') {
        37
    } else if sig(5, 'r', 'y') {
        38
    } else if sig(14, 'r', 'l') {
        39
    } else if sig(4, 's', 'p') {
        40
    } else if sig(11, 'u', 't') {
        41
    } else if sig(4, 'u', 'r') {
        42
    } else if sig(8, 'v', 'e') {
        43
    } else if sig(7, 'v', 'e') {
        44
    } else if sig(12, 'v', 'e') {
        45
    } else if sig(3, 'G', 'T') {
        46
    } else if sig(4, 'H', 'D') {
        47
    } else if sig(4, 'P', 'T') {
        48
    } else if sig(3, 'P', 'T') {
        49
    } else if sig(6, 'D', 'E') {
        50
    } else if sig(7, 'C', 'T') {
        51
    } else if sig(7, 'O', 'S') {
        52
    } else if sig(5, 'T', 'E') {
        53
    } else if sig(5, 'P', 'H') {
        54
    } else if sig(6, 'b', '4') {
        55
    } else if sig(4, 'f', 'e') {
        56
    } else if sig(3, 'h', 'x') {
        57
    } else {
        -1
    }
}

proof fn lemma_section_position(k: int)
    requires
        0 <= k < section_keywords().len(),
    ensures
        label_position(section_keywords()[k]) == k + 0,
{
    if k == 0 {
        reveal_strlit("Asserts");
    } else if k == 1 {
        reveal_strlit("Query");
    } else if k == 2 {
        reveal_strlit("QueryStringParams");
    } else if k == 3 {
        reveal_strlit("BasicAuth");
    } else if k == 4 {
        reveal_strlit("Form");
    } else if k == 5 {
        reveal_strlit("FormParams");
    } else if k == 6 {
        reveal_strlit("Cookies");
    } else if k == 7 {
        reveal_strlit("Captures");
    } else if k == 8 {
        reveal_strlit("Multipart");
    } else if k == 9 {
        reveal_strlit("MultipartFormData");
    } else {
        reveal_strlit("Options");
    }
}

proof fn lemma_option_position(k: int)
    requires
        0 <= k < option_names().len(),
    ensures
        label_position(option_names()[k]) == k + 11,
{
    if k == 0 {
        reveal_strlit("aws-sigv4");
    } else if k == 1 {
        reveal_strlit("cacert");
    } else if k == 2 {
        reveal_strlit("cert");
    } else if k == 3 {
        reveal_strlit("key");
    } else if k == 4 {
        reveal_strlit("compressed");
    } else if k == 5 {
        reveal_strlit("connect-to");
    } else if k == 6 {
        reveal_strlit("connect-timeout");
    } else if k == 7 {
        reveal_strlit("delay");
    } else if k == 8 {
        reveal_strlit("location");
    } else if k == 9 {
        reveal_strlit("location-trusted");
    } else if k == 10 {
        reveal_strlit("http1.0");
    } else if k == 11 {
        reveal_strlit("http1.1");
    } else if k == 12 {
        reveal_strlit("http2");
    } else if k == 13 {
        reveal_strlit("http3");
    } else if k == 14 {
        reveal_strlit("insecure");
    } else if k == 15 {
        reveal_strlit("ipv4");
    } else if k == 16 {
        reveal_strlit("ipv6");
    } else if k == 17 {
        reveal_strlit("limit-rate");
    } else if k == 18 {
        reveal_strlit("max-redirs");
    } else if k == 19 {
        reveal_strlit("netrc");
    } else if k == 20 {
        reveal_strlit("netrc-file");
    } else if k == 21 {
        reveal_strlit("netrc-optional");
    } else if k == 22 {
        reveal_strlit("output");
    } else if k == 23 {
        reveal_strlit("path-as-is");
    } else if k == 24 {
        reveal_strlit("proxy");
    } else if k == 25 {
        reveal_strlit("repeat");
    } else if k == 26 {
        reveal_strlit("resolve");
    } else if k == 27 {
        reveal_strlit("retry");
    } else if k == 28 {
        reveal_strlit("retry-interval");
    } else if k == 29 {
        reveal_strlit("skip");
    } else if k == 30 {
        reveal_strlit("unix-socket");
    } else if k == 31 {
        reveal_strlit("user");
    } else if k == 32 {
        reveal_strlit("variable");
    } else if k == 33 {
        reveal_strlit("verbose");
    } else {
        reveal_strlit("very-verbose");
    }
}

proof fn lemma_method_position(k: int)
    requires
        0 <= k < method_snippets().len(),
    ensures
        label_position(method_snippets()[k].0) == k + 46,
{
    if k == 0 {
        reveal_strlit("GET");
    } else if k == 1 {
        reveal_strlit("HEAD");
    } else if k == 2 {
        reveal_strlit("POST");
    } else if k == 3 {
        reveal_strlit("PUT");
    } else if k == 4 {
        reveal_strlit("DELETE");
    } else if k == 5 {
        reveal_strlit("CONNECT");
    } else if k == 6 {
        reveal_strlit("OPTIONS");
    } else if k == 7 {
        reveal_strlit("TRACE");
    } else {
        reveal_strlit("PATCH");
    }
}

proof fn lemma_byte_position(k: int)
    requires
        0 <= k < byte_snippets().len(),
    ensures
        label_position(byte_snippets()[k].0) == k + 55,
{
    if k == 0 {
        reveal_strlit("base64");
    } else if k == 1 {
        reveal_strlit("file");
    } else {
        reveal_strlit("hex");
    }
}

proof fn lemma_entry_position(k: int)
    requires
        0 <= k < completion_table().len(),
    ensures
        label_position(completion_table()[k].0) == k,
{
    if k < 11 {
        lemma_section_position(k);
        assert(completion_table()[k] == keyword_entry(section_keywords()[k]));
    } else if k < 46 {
        lemma_option_position(k - 11);
        assert(completion_table()[k] == keyword_entry(option_names()[k - 11]));
    } else if k < 55 {
        lemma_method_position(k - 46);
        assert(completion_table()[k] == snippet_entry(method_snippets()[k - 46]));
    } else {
        lemma_byte_position(k - 55);
        assert(completion_table()[k] == snippet_entry(byte_snippets()[k - 55]));
    }
}

/// No label is the key of two entries of the completion list.
pub proof fn lemma_completion_keys_distinct(i: int, j: int)
    requires
        0 <= i < j < completion_table().len(),
    ensures
        completion_table()[i].0 != completion_table()[j].0,
{
    lemma_entry_position(i);
    lemma_entry_position(j);
}

/// The completion list offers the keyword `w`.
pub open spec fn offers_keyword(w: Seq<char>) -> bool {
    completion_table().contains(keyword_entry(w))
}

proof fn lemma_section_offered(k: int)
    requires
        0 <= k < section_keywords().len(),
    ensures
        offers_keyword(section_keywords()[k]),
{
    assert(completion_table()[k] == keyword_entry(section_keywords()[k]));
}

proof fn lemma_option_offered(k: int)
    requires
        0 <= k < option_names().len(),
    ensures
        offers_keyword(option_names()[k]),
{
    assert(completion_table()[11 + k] == keyword_entry(option_names()[k]));
}

proof fn lemma_option_head<V>(s: Seq<char>, p: int, w: Seq<char>, f: SpecParser<V>)
    ensures
        sp_option(s, p, w, f) is Some ==> lit_end(s, skip_sp(s, p), w) is Some,
{
    reveal(sp_option);
}

proof fn lemma_boolean_request_option_a_offered(s: Seq<char>, p: int)
    requires
        sp_boolean_request_option_a(s, p) is Some,
    ensures
        exists|w: Seq<char>| offers_keyword(w) && #[trigger] lit_end(s, skip_sp(s, p), w) is Some,
{
    lemma_option_head(s, p, "compressed"@, boolean_value_rule());
    if sp_bool_opt(s, p, "compressed"@) is Some {
        lemma_option_offered(4);
        assert(lit_end(s, skip_sp(s, p), option_names()[4]) is Some);
    }
    lemma_option_head(s, p, "location-trusted"@, boolean_value_rule());
    if sp_bool_opt(s, p, "location-trusted"@) is Some {
        lemma_option_offered(9);
        assert(lit_end(s, skip_sp(s, p), option_names()[9]) is Some);
    }
    lemma_option_head(s, p, "location"@, boolean_value_rule());
    if sp_bool_opt(s, p, "location"@) is Some {
        lemma_option_offered(8);
        assert(lit_end(s, skip_sp(s, p), option_names()[8]) is Some);
    }
    lemma_option_head(s, p, "http1.0"@, boolean_value_rule());
    if sp_bool_opt(s, p, "http1.0"@) is Some {
        lemma_option_offered(10);
        assert(lit_end(s, skip_sp(s, p), option_names()[10]) is Some);
    }
    lemma_option_head(s, p, "http1.1"@, boolean_value_rule());
    if sp_bool_opt(s, p, "http1.1"@) is Some {
        lemma_option_offered(11);
        assert(lit_end(s, skip_sp(s, p), option_names()[11]) is Some);
    }
    lemma_option_head(s, p, "http2"@, boolean_value_rule());
    if sp_bool_opt(s, p, "http2"@) is Some {
        lemma_option_offered(12);
        assert(lit_end(s, skip_sp(s, p), option_names()[12]) is Some);
    }
    lemma_option_head(s, p, "http3"@, boolean_value_rule());
    if sp_bool_opt(s, p, "http3"@) is Some {
        lemma_option_offered(13);
        assert(lit_end(s, skip_sp(s, p), option_names()[13]) is Some);
    }
    lemma_option_head(s, p, "insecure"@, boolean_value_rule());
    if sp_bool_opt(s, p, "insecure"@) is Some {
        lemma_option_offered(14);
        assert(lit_end(s, skip_sp(s, p), option_names()[14]) is Some);
    }
    lemma_option_head(s, p, "ipv4"@, boolean_value_rule());
    if sp_bool_opt(s, p, "ipv4"@) is Some {
        lemma_option_offered(15);
        assert(lit_end(s, skip_sp(s, p), option_names()[15]) is Some);
    }
    lemma_option_head(s, p, "ipv6"@, boolean_value_rule());
    if sp_bool_opt(s, p, "ipv6"@) is Some {
        lemma_option_offered(16);
        assert(lit_end(s, skip_sp(s, p), option_names()[16]) is Some);
    }
}

proof fn lemma_boolean_request_option_b_offered(s: Seq<char>, p: int)
    requires
        sp_boolean_request_option_b(s, p) is Some,
    ensures
        exists|w: Seq<char>| offers_keyword(w) && #[trigger] lit_end(s, skip_sp(s, p), w) is Some,
{
    lemma_option_head(s, p, "netrc-optional"@, boolean_value_rule());
    if sp_bool_opt(s, p, "netrc-optional"@) is Some {
        lemma_option_offered(21);
        assert(lit_end(s, skip_sp(s, p), option_names()[21]) is Some);
    }
    lemma_option_head(s, p, "netrc"@, boolean_value_rule());
    if sp_bool_opt(s, p, "netrc"@) is Some {
        lemma_option_offered(19);
        assert(lit_end(s, skip_sp(s, p), option_names()[19]) is Some);
    }
    lemma_option_head(s, p, "path-as-is"@, boolean_value_rule());
    if sp_bool_opt(s, p, "path-as-is"@) is Some {
        lemma_option_offered(23);
        assert(lit_end(s, skip_sp(s, p), option_names()[23]) is Some);
    }
    lemma_option_head(s, p, "skip"@, boolean_value_rule());
    if sp_bool_opt(s, p, "skip"@) is Some {
        lemma_option_offered(29);
        assert(lit_end(s, skip_sp(s, p), option_names()[29]) is Some);
    }
    lemma_option_head(s, p, "verbose"@, boolean_value_rule());
    if sp_bool_opt(s, p, "verbose"@) is Some {
        lemma_option_offered(33);
        assert(lit_end(s, skip_sp(s, p), option_names()[33]) is Some);
    }
    lemma_option_head(s, p, "very-verbose"@, boolean_value_rule());
    if sp_bool_opt(s, p, "very-verbose"@) is Some {
        lemma_option_offered(34);
        assert(lit_end(s, skip_sp(s, p), option_names()[34]) is Some);
    }
}

proof fn lemma_duration_request_option_offered(s: Seq<char>, p: int)
    requires
        sp_duration_request_option(s, p) is Some,
    ensures
        exists|w: Seq<char>| offers_keyword(w) && #[trigger] lit_end(s, skip_sp(s, p), w) is Some,
{
    lemma_option_head(s, p, "connect-timeout"@, duration_value_rule());
    if sp_duration_opt(s, p, "connect-timeout"@) is Some {
        lemma_option_offered(6);
        assert(lit_end(s, skip_sp(s, p), option_names()[6]) is Some);
    }
    lemma_option_head(s, p, "delay"@, duration_value_rule());
    if sp_duration_opt(s, p, "delay"@) is Some {
        lemma_option_offered(7);
        assert(lit_end(s, skip_sp(s, p), option_names()[7]) is Some);
    }
    lemma_option_head(s, p, "retry-interval"@, duration_value_rule());
    if sp_duration_opt(s, p, "retry-interval"@) is Some {
        lemma_option_offered(28);
        assert(lit_end(s, skip_sp(s, p), option_names()[28]) is Some);
    }
}

proof fn lemma_integer_request_option_offered(s: Seq<char>, p: int)
    requires
        sp_integer_request_option(s, p) is Some,
    ensures
        exists|w: Seq<char>| offers_keyword(w) && #[trigger] lit_end(s, skip_sp(s, p), w) is Some,
{
    lemma_option_head(s, p, "limit-rate"@, integer_value_rule());
    if sp_integer_opt(s, p, "limit-rate"@) is Some {
        lemma_option_offered(17);
        assert(lit_end(s, skip_sp(s, p), option_names()[17]) is Some);
    }
    lemma_option_head(s, p, "max-redirs"@, integer_value_rule());
    if sp_integer_opt(s, p, "max-redirs"@) is Some {
        lemma_option_offered(18);
        assert(lit_end(s, skip_sp(s, p), option_names()[18]) is Some);
    }
    lemma_option_head(s, p, "repeat"@, integer_value_rule());
    if sp_integer_opt(s, p, "repeat"@) is Some {
        lemma_option_offered(25);
        assert(lit_end(s, skip_sp(s, p), option_names()[25]) is Some);
    }
    lemma_option_head(s, p, "retry"@, integer_value_rule());
    if sp_integer_opt(s, p, "retry"@) is Some {
        lemma_option_offered(27);
        assert(lit_end(s, skip_sp(s, p), option_names()[27]) is Some);
    }
}

proof fn lemma_string_request_option_offered(s: Seq<char>, p: int)
    requires
        sp_string_request_option(s, p) is Some,
    ensures
        exists|w: Seq<char>| offers_keyword(w) && #[trigger] lit_end(s, skip_sp(s, p), w) is Some,
{
    lemma_option_head(s, p, "aws-sigv4"@, string_value_rule());
    if sp_string_opt(s, p, "aws-sigv4"@) is Some {
        lemma_option_offered(0);
        assert(lit_end(s, skip_sp(s, p), option_names()[0]) is Some);
    }
    lemma_option_head(s, p, "connect-to"@, string_value_rule());
    if sp_string_opt(s, p, "connect-to"@) is Some {
        lemma_option_offered(5);
        assert(lit_end(s, skip_sp(s, p), option_names()[5]) is Some);
    }
    lemma_option_head(s, p, "netrc-file"@, string_value_rule());
    if sp_string_opt(s, p, "netrc-file"@) is Some {
        lemma_option_offered(20);
        assert(lit_end(s, skip_sp(s, p), option_names()[20]) is Some);
    }
    lemma_option_head(s, p, "proxy"@, string_value_rule());
    if sp_string_opt(s, p, "proxy"@) is Some {
        lemma_option_offered(24);
        assert(lit_end(s, skip_sp(s, p), option_names()[24]) is Some);
    }
    lemma_option_head(s, p, "resolve"@, string_value_rule());
    if sp_string_opt(s, p, "resolve"@) is Some {
        lemma_option_offered(26);
        assert(lit_end(s, skip_sp(s, p), option_names()[26]) is Some);
    }
    lemma_option_head(s, p, "unix-socket"@, string_value_rule());
    if sp_string_opt(s, p, "unix-socket"@) is Some {
        lemma_option_offered(30);
        assert(lit_end(s, skip_sp(s, p), option_names()[30]) is Some);
    }
    lemma_option_head(s, p, "user"@, string_value_rule());
    if sp_string_opt(s, p, "user"@) is Some {
        lemma_option_offered(31);
        assert(lit_end(s, skip_sp(s, p), option_names()[31]) is Some);
    }
}

proof fn lemma_filename_request_option_offered(s: Seq<char>, p: int)
    requires
        sp_filename_request_option(s, p) is Some,
    ensures
        exists|w: Seq<char>| offers_keyword(w) && #[trigger] lit_end(s, skip_sp(s, p), w) is Some,
{
    lemma_option_head(s, p, "cacert"@, filename_rule());
    if sp_filename_opt(s, p, "cacert"@) is Some {
        lemma_option_offered(1);
        assert(lit_end(s, skip_sp(s, p), option_names()[1]) is Some);
    }
    lemma_option_head(s, p, "key"@, filename_rule());
    if sp_filename_opt(s, p, "key"@) is Some {
        lemma_option_offered(3);
        assert(lit_end(s, skip_sp(s, p), option_names()[3]) is Some);
    }
    lemma_option_head(s, p, "output"@, filename_rule());
    if sp_filename_opt(s, p, "output"@) is Some {
        lemma_option_offered(22);
        assert(lit_end(s, skip_sp(s, p), option_names()[22]) is Some);
    }
    lemma_option_head(s, p, "cert"@, filename_rule());
    if sp_filename_opt(s, p, "cert"@) is Some {
        lemma_option_offered(2);
        assert(lit_end(s, skip_sp(s, p), option_names()[2]) is Some);
    }
}

/// Every option line that the parser reads starts, after its spaces, with
/// an option name that the completion list offers as a keyword.
pub proof fn lemma_parsed_options_are_offered(s: Seq<char>, p: int)
    requires
        sp_request_option(s, p) is Some,
    ensures
        exists|w: Seq<char>| offers_keyword(w) && #[trigger] lit_end(s, skip_sp(s, p), w) is Some,
{
    if sp_boolean_request_option_a(s, p) is Some {
        lemma_boolean_request_option_a_offered(s, p);
    }
    if sp_boolean_request_option_b(s, p) is Some {
        lemma_boolean_request_option_b_offered(s, p);
    }
    if sp_duration_request_option(s, p) is Some {
        lemma_duration_request_option_offered(s, p);
    }
    if sp_integer_request_option(s, p) is Some {
        lemma_integer_request_option_offered(s, p);
    }
    if sp_string_request_option(s, p) is Some {
        lemma_string_request_option_offered(s, p);
    }
    if sp_filename_request_option(s, p) is Some {
        lemma_filename_request_option_offered(s, p);
    }
    lemma_option_head(s, p, "variable"@, variable_definition_rule());
    if sp_variable_request_option(s, p) is Some {
        lemma_option_offered(32);
        assert(lit_end(s, skip_sp(s, p), option_names()[32]) is Some);
    }
}

/// The name of a section between brackets.
pub open spec fn bracketed(w: Seq<char>) -> Seq<char> {
    seq!['['] + w + seq![']']
}

proof fn lemma_bracketed_names()
    ensures
        "[Asserts]"@ == bracketed(section_keywords()[0]),
        "[Query]"@ == bracketed(section_keywords()[1]),
        "[QueryStringParams]"@ == bracketed(section_keywords()[2]),
        "[BasicAuth]"@ == bracketed(section_keywords()[3]),
        "[Form]"@ == bracketed(section_keywords()[4]),
        "[FormParams]"@ == bracketed(section_keywords()[5]),
        "[Cookies]"@ == bracketed(section_keywords()[6]),
        "[Captures]"@ == bracketed(section_keywords()[7]),
        "[Multipart]"@ == bracketed(section_keywords()[8]),
        "[MultipartFormData]"@ == bracketed(section_keywords()[9]),
        "[Options]"@ == bracketed(section_keywords()[10]),
{
    reveal_strlit("[Asserts]");
    reveal_strlit("Asserts");
    assert("[Asserts]"@ =~= bracketed(section_keywords()[0]));
    reveal_strlit("[Query]");
    reveal_strlit("Query");
    assert("[Query]"@ =~= bracketed(section_keywords()[1]));
    reveal_strlit("[QueryStringParams]");
    reveal_strlit("QueryStringParams");
    assert("[QueryStringParams]"@ =~= bracketed(section_keywords()[2]));
    reveal_strlit("[BasicAuth]");
    reveal_strlit("BasicAuth");
    assert("[BasicAuth]"@ =~= bracketed(section_keywords()[3]));
    reveal_strlit("[Form]");
    reveal_strlit("Form");
    assert("[Form]"@ =~= bracketed(section_keywords()[4]));
    reveal_strlit("[FormParams]");
    reveal_strlit("FormParams");
    assert("[FormParams]"@ =~= bracketed(section_keywords()[5]));
    reveal_strlit("[Cookies]");
    reveal_strlit("Cookies");
    assert("[Cookies]"@ =~= bracketed(section_keywords()[6]));
    reveal_strlit("[Captures]");
    reveal_strlit("Captures");
    assert("[Captures]"@ =~= bracketed(section_keywords()[7]));
    reveal_strlit("[Multipart]");
    reveal_strlit("Multipart");
    assert("[Multipart]"@ =~= bracketed(section_keywords()[8]));
    reveal_strlit("[MultipartFormData]");
    reveal_strlit("MultipartFormData");
    assert("[MultipartFormData]"@ =~= bracketed(section_keywords()[9]));
    reveal_strlit("[Options]");
    reveal_strlit("Options");
    assert("[Options]"@ =~= bracketed(section_keywords()[10]));
}

proof fn lemma_head_offered(s: Seq<char>, p: int, k: int)
    requires
        0 <= k < section_keywords().len(),
        section_head(s, p, bracketed(section_keywords()[k])) is Some,
    ensures
        exists|w: Seq<char>|
            offers_keyword(w) && #[trigger] lit_end(s, skip_sp(s, p), bracketed(w)) is Some,
{
    lemma_section_offered(k);
    assert(lit_end(s, skip_sp(s, p), bracketed(section_keywords()[k])) is Some);
}

/// Every request section that the parser reads starts, after its spaces,
/// with the bracketed name of a section that the completion list offers.
pub proof fn lemma_parsed_request_sections_are_offered(s: Seq<char>, p: int)
    requires
        sp_request_section(s, p) is Some,
    ensures
        exists|w: Seq<char>|
            offers_keyword(w) && #[trigger] lit_end(s, skip_sp(s, p), bracketed(w)) is Some,
{
    lemma_bracketed_names();
    if section_head(s, p, "[BasicAuth]"@) is Some {
        lemma_head_offered(s, p, 3);
    }
    if section_head(s, p, "[QueryStringParams]"@) is Some {
        lemma_head_offered(s, p, 2);
    }
    if section_head(s, p, "[Query]"@) is Some {
        lemma_head_offered(s, p, 1);
    }
    if section_head(s, p, "[FormParams]"@) is Some {
        lemma_head_offered(s, p, 5);
    }
    if section_head(s, p, "[Form]"@) is Some {
        lemma_head_offered(s, p, 4);
    }
    if section_head(s, p, "[MultipartFormData]"@) is Some {
        lemma_head_offered(s, p, 9);
    }
    if section_head(s, p, "[Multipart]"@) is Some {
        lemma_head_offered(s, p, 8);
    }
    if section_head(s, p, "[Cookies]"@) is Some {
        lemma_head_offered(s, p, 6);
    }
    if section_head(s, p, "[Options]"@) is Some {
        lemma_head_offered(s, p, 10);
    }
}

/// Every response section that the parser reads starts, after its spaces,
/// with the bracketed name of a section that the completion list offers.
pub proof fn lemma_parsed_response_sections_are_offered(s: Seq<char>, p: int)
    requires
        sp_response_section(s, p) is Some,
    ensures
        exists|w: Seq<char>|
            offers_keyword(w) && #[trigger] lit_end(s, skip_sp(s, p), bracketed(w)) is Some,
{
    lemma_bracketed_names();
    if section_head(s, p, "[Captures]"@) is Some {
        lemma_head_offered(s, p, 7);
    }
    if section_head(s, p, "[Asserts]"@) is Some {
        lemma_head_offered(s, p, 0);
    }
}

} // verus!
