//! The syntax tree of a Hurl document, and its mathematical model.
//!
//! Every executable type has a `Spec...` twin built from `Seq`s in place of
//! `String`s and `Vec`s; the `View` of a value is its twin. The parsers'
//! contracts are stated over the twins.
use vstd::prelude::*;

verus! {

/// The view of every element of a sequence.
pub open spec fn seq_view<T: View>(v: Seq<T>) -> Seq<T::V> {
    Seq::new(v.len(), |i: int| v[i]@)
}

pub broadcast proof fn lemma_seq_view_push<T: View>(v: Seq<T>, x: T)
    ensures
        #[trigger] seq_view(v.push(x)) == seq_view(v).push(x@),
{
    assert(seq_view(v.push(x)) =~= seq_view(v).push(x@));
}

pub broadcast proof fn lemma_seq_view_empty<T: View>(v: Seq<T>)
    requires
        v.len() == 0,
    ensures
        #[trigger] seq_view(v) == Seq::<T::V>::empty(),
{
    assert(seq_view(v) =~= Seq::<T::V>::empty());
}

// ---------------------------------------------------------------------------
// Executable syntax tree
// ---------------------------------------------------------------------------

#[derive(Debug, PartialEq, Eq, Hash)]
pub struct Method {
    pub value: String,
}

#[derive(Debug, PartialEq, Eq, Hash)]
pub enum Url {
    Url(InterpolatedString),
    Invalid,
    Missing,
}

#[derive(Debug, PartialEq, Eq, Hash)]
pub enum ExprValue {
    VariableName(String),
    FunctionName(String),
}

#[derive(Debug, PartialEq, Eq, Hash)]
pub enum FilterFunction {
    Count,
    DaysAfterNow,
    DaysBeforeNow,
    Decode { encoding: InterpolatedString },
    Format { fmt: InterpolatedString },
    HtmlEscape,
    HtmlUnescape,
    JsonPath { expr: InterpolatedString },
    Nth { nth: u64 },
    Regex { value: InterpolatedString },
    Replace { old_value: InterpolatedString, new_value: InterpolatedString },
    Split { sep: InterpolatedString },
    ToDate { fmt: InterpolatedString },
    ToFloat,
    ToInt,
    UrlDecode,
    UrlEncode,
    XPath { expr: InterpolatedString },
}

#[derive(Debug, PartialEq, Eq, Hash)]
pub struct Expr {
    pub variable: ExprValue,
    pub filters: Vec<FilterFunction>,
}

#[derive(Debug, PartialEq, Eq, Hash)]
pub struct Template {
    pub expr: Expr,
}

#[derive(Debug, PartialEq, Eq, Hash)]
pub enum InterpolatedStringPart {
    Str(String),
    Template(Template),
}

#[derive(Debug, PartialEq, Eq, Hash)]
pub struct InterpolatedString {
    pub parts: Vec<InterpolatedStringPart>,
}

#[derive(Debug, PartialEq, Eq, Hash)]
pub struct KeyValue {
    pub key: InterpolatedString,
    pub value: InterpolatedString,
}

#[derive(Debug, PartialEq, Eq, Hash)]
pub struct QueryStringParamsSection {
    pub queries: Vec<KeyValue>,
}

#[derive(Debug, PartialEq, Eq, Hash)]
pub struct FormParamsSection {
    pub params: Vec<KeyValue>,
}

#[derive(Debug, PartialEq, Eq, Hash)]
pub struct FileValue {
    pub filename: InterpolatedString,
    pub content_type: Option<String>,
}

#[derive(Debug, PartialEq, Eq, Hash)]
pub struct FileKeyValue {
    pub key: InterpolatedString,
    pub value: FileValue,
}

#[derive(Debug, PartialEq, Eq, Hash)]
pub enum MultipartFormParam {
    FileParam(FileKeyValue),
    KeyValueParam(KeyValue),
}

#[derive(Debug, PartialEq, Eq, Hash)]
pub struct MultipartFormDataSection {
    pub params: Vec<MultipartFormParam>,
}

#[derive(Debug, PartialEq, Eq, Hash)]
pub struct CookiesSection {
    pub cookies: Vec<KeyValue>,
}

#[derive(Clone, Copy, Debug, PartialEq, Eq, Hash)]
pub enum CertificateFieldSelector {
    Subject,
    Issuer,
    StartDate,
    ExpireDate,
    SerialNumber,
}

#[derive(Debug, PartialEq, Eq, Hash)]
pub enum Query {
    Status,
    Url,
    Header(InterpolatedString),
    Certificate(CertificateFieldSelector),
    Cookie(InterpolatedString),
    Body,
    Xpath(InterpolatedString),
    JsonPath(InterpolatedString),
    Regex(Regex),
    Variable(InterpolatedString),
    Duration,
    Bytes,
    Sha256,
    Md5,
}

#[derive(Debug, PartialEq, Eq, Hash)]
pub struct Capture {
    pub key: InterpolatedString,
    pub query: Query,
    pub filters: Vec<FilterFunction>,
}

#[derive(Debug, PartialEq, Eq, Hash)]
pub struct CapturesSection {
    pub captures: Vec<Capture>,
}

#[derive(Clone, Copy, Debug, PartialEq, Eq, Hash)]
pub enum PredicatePrefixOperator {
    Not,
}

/// A value on the right of a predicate. A decimal number with a fraction is
/// kept as the text it was written with (`Float`), since this library holds
/// no floating-point value.
#[derive(Debug, PartialEq, Eq, Hash)]
pub enum PredicateValue {
    Boolean(bool),
    MultilineString(MultilineString),
    Null,
    Integer(i64),
    Float(String),
    BigInteger(String),
    OneLineString(InterpolatedString),
    OneLineBase64(String),
    OneLineFile(InterpolatedString),
    OneLineHex(String),
    QuotedString(InterpolatedString),
    Template(Template),
    Invalid,
}

#[derive(Debug, PartialEq, Eq, Hash)]
pub enum PredicateFunc {
    Equal { value: PredicateValue },
    NotEqual { value: PredicateValue },
    Greater { value: PredicateValue },
    GreaterOrEqual { value: PredicateValue },
    Less { value: PredicateValue },
    LessOrEqual { value: PredicateValue },
    StartWith { value: PredicateValue },
    EndWith { value: PredicateValue },
    Contain { value: PredicateValue },
    Match { value: PredicateValue },
    Exists,
    IsEmpty,
    Include { value: PredicateValue },
    IsInteger,
    IsFloat,
    IsBoolean,
    IsString,
    IsCollection,
    IsDate,
    IsIsoDate,
}

#[derive(Debug, PartialEq, Eq, Hash)]
pub struct Predicate {
    pub prefix: Option<PredicatePrefixOperator>,
    pub function: PredicateFunc,
}

#[derive(Debug, PartialEq, Eq, Hash)]
pub struct Assert {
    pub query: Query,
    pub filters: Vec<FilterFunction>,
    pub predicate: Predicate,
}

#[derive(Debug, PartialEq, Eq, Hash)]
pub struct AssertsSection {
    pub asserts: Vec<Assert>,
}

#[derive(Debug, PartialEq, Eq, Hash)]
pub struct BasicAuthSection {
    pub key_values: Vec<KeyValue>,
}

#[derive(Debug, PartialEq, Eq, Hash)]
pub enum BooleanOption {
    Literal(bool),
    Template(Template),
}

#[derive(Clone, Copy, Debug, PartialEq, Eq, Hash)]
pub enum DurationUnit {
    Millisecond,
    Second,
    Minute,
}

#[derive(Clone, Copy, Debug, PartialEq, Eq, Hash)]
pub struct Duration {
    pub duration: u64,
    pub unit: Option<DurationUnit>,
}

#[derive(Debug, PartialEq, Eq, Hash)]
pub enum DurationOption {
    Literal(Duration),
    Template(Template),
}

#[derive(Debug, PartialEq, Eq, Hash)]
pub enum IntegerOption {
    Literal(u64),
    Template(Template),
    BigInteger(String),
}

/// The value of a variable option. As for predicates, a decimal number
/// with a fraction is kept as its text (`Float`).
#[derive(Debug, PartialEq, Eq, Hash)]
pub enum VariableValue {
    Null,
    Boolean(bool),
    Integer(i64),
    Float(String),
    BigInteger(String),
    String(InterpolatedString),
    Invalid,
}

#[derive(Debug, PartialEq, Eq, Hash)]
pub struct VariableDefinitionOption {
    pub name: String,
    pub value: VariableValue,
}

#[derive(Debug, PartialEq, Eq, Hash)]
pub enum RequestOption {
    Compressed(BooleanOption),
    Location(BooleanOption),
    LocationTrusted(BooleanOption),
    Http10(BooleanOption),
    Http11(BooleanOption),
    Http2(BooleanOption),
    Http3(BooleanOption),
    Insecure(BooleanOption),
    Ipv4(BooleanOption),
    Ipv6(BooleanOption),
    Netrc(BooleanOption),
    NetrcOptional(BooleanOption),
    PathAsIs(BooleanOption),
    Skip(BooleanOption),
    Verbose(BooleanOption),
    VeryVerbose(BooleanOption),
    ConnectTimeout(DurationOption),
    Delay(DurationOption),
    RetryInterval(DurationOption),
    LimitRate(IntegerOption),
    MaxRedirs(IntegerOption),
    Repeat(IntegerOption),
    Retry(IntegerOption),
    Cacert(InterpolatedString),
    Key(InterpolatedString),
    Output(InterpolatedString),
    Cert(InterpolatedString),
    AwsSigv4(InterpolatedString),
    ConnectTo(InterpolatedString),
    NetrcFile(InterpolatedString),
    Proxy(InterpolatedString),
    Resolve(InterpolatedString),
    UnixSocket(InterpolatedString),
    User(InterpolatedString),
    Variable(VariableDefinitionOption),
}

#[derive(Debug, PartialEq, Eq, Hash)]
pub struct RequestOptionsSection {
    pub options: Vec<RequestOption>,
}

#[derive(Debug, PartialEq, Eq, Hash)]
pub struct UnknownSection {
    pub section_name: String,
    pub lines: Vec<String>,
}

#[derive(Debug, PartialEq, Eq, Hash)]
pub enum RequestSection {
    BasicAuthSection(BasicAuthSection),
    QueryStringParamsSection(QueryStringParamsSection),
    FormParamsSection(FormParamsSection),
    MultipartFormDataSection(MultipartFormDataSection),
    CookiesSection(CookiesSection),
    OptionsSection(RequestOptionsSection),
}

#[derive(Debug, PartialEq, Eq, Hash)]
pub struct Request {
    pub method: Method,
    pub url: Url,
    pub headers: Vec<KeyValue>,
    pub request_sections: Vec<RequestSection>,
    pub body: Option<Body>,
}

#[derive(Debug, PartialEq, Eq, Hash)]
pub enum HttpVersion {
    Http1_0,
    Http1_1,
    Http2,
    Http3,
    Http,
    HttpUknown(String),
}

#[derive(Clone, Copy, Debug, PartialEq, Eq, Hash)]
pub enum HttpStatus {
    Any,
    Code(u64),
    Invalid,
    Missing,
}

#[derive(Debug, PartialEq, Eq, Hash)]
pub enum ResponseSection {
    CapturesSection(CapturesSection),
    AssertsSection(AssertsSection),
}

#[derive(Debug, PartialEq, Eq, Hash)]
pub struct Response {
    pub version: HttpVersion,
    pub status: HttpStatus,
    pub headers: Vec<KeyValue>,
    pub response_sections: Vec<ResponseSection>,
    pub body: Option<Body>,
}

#[derive(Debug, PartialEq, Eq, Hash)]
pub struct Entry {
    pub request: Box<Request>,
    pub response: Option<Box<Response>>,
}

#[derive(Debug, PartialEq, Eq, Hash)]
pub struct Ast {
    pub entries: Vec<Entry>,
}

#[derive(Debug, PartialEq, Eq, Hash)]
pub struct Lt {
    pub comment: Option<String>,
}

#[derive(Debug, PartialEq, Eq, Hash)]
pub enum Bytes {
    JsonValue(Json),
    MultilineString(MultilineString),
    OneLineString(InterpolatedString),
    OneLineBase64(String),
    OneLineFile(InterpolatedString),
    OneLineHex(String),
}

#[derive(Debug, PartialEq, Eq, Hash)]
pub struct Body {
    pub bytes: Bytes,
}

#[derive(Debug, PartialEq, Eq, Hash)]
pub enum MultilineStringType {
    Base64,
    Hex,
    Json,
    Xml,
    Graphql,
    Unknown(String),
}

#[derive(Debug, PartialEq, Eq, Hash)]
pub enum MultilineStringAttribute {
    Escape,
    NoVariable,
    Unknown(String),
}

#[derive(Debug, PartialEq, Eq, Hash)]
pub struct MultilineString {
    pub string_type: Option<MultilineStringType>,
    pub attributes: Vec<MultilineStringAttribute>,
    pub content: InterpolatedString,
}

#[derive(Debug, PartialEq, Eq, Hash)]
pub struct JsonKeyValue {
    pub key: InterpolatedString,
    pub value: Json,
}

#[derive(Debug, PartialEq, Eq, Hash)]
pub enum Json {
    Invalid,
    Object(Vec<JsonKeyValue>),
    Array(Vec<Json>),
    Str(String),
    InterpolatedString(InterpolatedString),
    Num(String),
    Bool(bool),
    Null,
    Template(Template),
}

#[derive(Debug, PartialEq, Eq, Hash)]
pub enum Regex {
    Interpolated(InterpolatedString),
    Literal(String),
}

/// A token of the document for semantic highlighting: where it starts,
/// how long it is, and its kind.
#[derive(Clone, Copy, Debug, PartialEq, Eq, Hash)]
pub struct ImCompleteSemanticToken {
    pub start: usize,
    pub length: usize,
    pub token_type: usize,
}

} // verus!
