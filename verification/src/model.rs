//! The mathematical model of the syntax tree: each executable type of
//! `types` viewed with `Seq` in place of `String` and `Vec`.
use vstd::prelude::*;
use crate::types::{
    Method, Url, ExprValue, FilterFunction, Expr, Template, InterpolatedStringPart, InterpolatedString, KeyValue, QueryStringParamsSection, FormParamsSection, FileValue, FileKeyValue, MultipartFormParam, MultipartFormDataSection, CookiesSection, CertificateFieldSelector, Query, Capture, CapturesSection, PredicatePrefixOperator, PredicateValue, PredicateFunc, Predicate, Assert, AssertsSection, BasicAuthSection, BooleanOption, DurationUnit, Duration, DurationOption, IntegerOption, VariableValue, VariableDefinitionOption, RequestOption, RequestOptionsSection, RequestSection, Request, HttpVersion, HttpStatus, ResponseSection, Response, Entry, Ast, Bytes, Body, MultilineStringType, MultilineStringAttribute, MultilineString, JsonKeyValue, Json, Regex,
    seq_view,
};

verus! {

pub struct SpecMethod {
    pub value: Seq<char>,
}

pub enum SpecUrl {
    Url(SpecInterpolatedString),
    Invalid,
    Missing,
}

pub enum SpecExprValue {
    VariableName(Seq<char>),
    FunctionName(Seq<char>),
}

pub enum SpecFilterFunction {
    Count,
    DaysAfterNow,
    DaysBeforeNow,
    Decode { encoding: SpecInterpolatedString },
    Format { fmt: SpecInterpolatedString },
    HtmlEscape,
    HtmlUnescape,
    JsonPath { expr: SpecInterpolatedString },
    Nth { nth: u64 },
    Regex { value: SpecInterpolatedString },
    Replace { old_value: SpecInterpolatedString, new_value: SpecInterpolatedString },
    Split { sep: SpecInterpolatedString },
    ToDate { fmt: SpecInterpolatedString },
    ToFloat,
    ToInt,
    UrlDecode,
    UrlEncode,
    XPath { expr: SpecInterpolatedString },
}

pub struct SpecExpr {
    pub variable: SpecExprValue,
    pub filters: Seq<SpecFilterFunction>,
}

pub struct SpecTemplate {
    pub expr: SpecExpr,
}

pub enum SpecPart {
    Str(Seq<char>),
    Template(SpecTemplate),
}

pub struct SpecInterpolatedString {
    pub parts: Seq<SpecPart>,
}

pub enum SpecRegex {
    Interpolated(SpecInterpolatedString),
    Literal(Seq<char>),
}

pub struct SpecKeyValue {
    pub key: SpecInterpolatedString,
    pub value: SpecInterpolatedString,
}

pub struct SpecFileValue {
    pub filename: SpecInterpolatedString,
    pub content_type: Option<Seq<char>>,
}

pub struct SpecFileKeyValue {
    pub key: SpecInterpolatedString,
    pub value: SpecFileValue,
}

pub enum SpecMultipartFormParam {
    FileParam(SpecFileKeyValue),
    KeyValueParam(SpecKeyValue),
}

pub enum SpecQuery {
    Status,
    Url,
    Header(SpecInterpolatedString),
    Certificate(CertificateFieldSelector),
    Cookie(SpecInterpolatedString),
    Body,
    Xpath(SpecInterpolatedString),
    JsonPath(SpecInterpolatedString),
    Regex(SpecRegex),
    Variable(SpecInterpolatedString),
    Duration,
    Bytes,
    Sha256,
    Md5,
}

pub struct SpecCapture {
    pub key: SpecInterpolatedString,
    pub query: SpecQuery,
    pub filters: Seq<SpecFilterFunction>,
}

pub enum SpecPredicateValue {
    Boolean(bool),
    MultilineString(SpecMultilineString),
    Null,
    Integer(i64),
    Float(Seq<char>),
    BigInteger(Seq<char>),
    OneLineString(SpecInterpolatedString),
    OneLineBase64(Seq<char>),
    OneLineFile(SpecInterpolatedString),
    OneLineHex(Seq<char>),
    QuotedString(SpecInterpolatedString),
    Template(SpecTemplate),
    Invalid,
}

pub enum SpecPredicateFunc {
    Equal { value: SpecPredicateValue },
    NotEqual { value: SpecPredicateValue },
    Greater { value: SpecPredicateValue },
    GreaterOrEqual { value: SpecPredicateValue },
    Less { value: SpecPredicateValue },
    LessOrEqual { value: SpecPredicateValue },
    StartWith { value: SpecPredicateValue },
    EndWith { value: SpecPredicateValue },
    Contain { value: SpecPredicateValue },
    Match { value: SpecPredicateValue },
    Exists,
    IsEmpty,
    Include { value: SpecPredicateValue },
    IsInteger,
    IsFloat,
    IsBoolean,
    IsString,
    IsCollection,
    IsDate,
    IsIsoDate,
}

pub struct SpecPredicate {
    pub prefix: Option<PredicatePrefixOperator>,
    pub function: SpecPredicateFunc,
}

pub struct SpecAssert {
    pub query: SpecQuery,
    pub filters: Seq<SpecFilterFunction>,
    pub predicate: SpecPredicate,
}

pub enum SpecBooleanOption {
    Literal(bool),
    Template(SpecTemplate),
}

pub enum SpecDurationOption {
    Literal(Duration),
    Template(SpecTemplate),
}

pub enum SpecIntegerOption {
    Literal(u64),
    Template(SpecTemplate),
    BigInteger(Seq<char>),
}

pub enum SpecVariableValue {
    Null,
    Boolean(bool),
    Integer(i64),
    Float(Seq<char>),
    BigInteger(Seq<char>),
    String(SpecInterpolatedString),
    Invalid,
}

pub struct SpecVariableDefinitionOption {
    pub name: Seq<char>,
    pub value: SpecVariableValue,
}

pub enum SpecRequestOption {
    Compressed(SpecBooleanOption),
    Location(SpecBooleanOption),
    LocationTrusted(SpecBooleanOption),
    Http10(SpecBooleanOption),
    Http11(SpecBooleanOption),
    Http2(SpecBooleanOption),
    Http3(SpecBooleanOption),
    Insecure(SpecBooleanOption),
    Ipv4(SpecBooleanOption),
    Ipv6(SpecBooleanOption),
    Netrc(SpecBooleanOption),
    NetrcOptional(SpecBooleanOption),
    PathAsIs(SpecBooleanOption),
    Skip(SpecBooleanOption),
    Verbose(SpecBooleanOption),
    VeryVerbose(SpecBooleanOption),
    ConnectTimeout(SpecDurationOption),
    Delay(SpecDurationOption),
    RetryInterval(SpecDurationOption),
    LimitRate(SpecIntegerOption),
    MaxRedirs(SpecIntegerOption),
    Repeat(SpecIntegerOption),
    Retry(SpecIntegerOption),
    Cacert(SpecInterpolatedString),
    Key(SpecInterpolatedString),
    Output(SpecInterpolatedString),
    Cert(SpecInterpolatedString),
    AwsSigv4(SpecInterpolatedString),
    ConnectTo(SpecInterpolatedString),
    NetrcFile(SpecInterpolatedString),
    Proxy(SpecInterpolatedString),
    Resolve(SpecInterpolatedString),
    UnixSocket(SpecInterpolatedString),
    User(SpecInterpolatedString),
    Variable(SpecVariableDefinitionOption),
}

pub enum SpecRequestSection {
    BasicAuthSection(Seq<SpecKeyValue>),
    QueryStringParamsSection(Seq<SpecKeyValue>),
    FormParamsSection(Seq<SpecKeyValue>),
    MultipartFormDataSection(Seq<SpecMultipartFormParam>),
    CookiesSection(Seq<SpecKeyValue>),
    OptionsSection(Seq<SpecRequestOption>),
}

pub struct SpecRequest {
    pub method: SpecMethod,
    pub url: SpecUrl,
    pub headers: Seq<SpecKeyValue>,
    pub request_sections: Seq<SpecRequestSection>,
    pub body: Option<SpecBytes>,
}

pub enum SpecHttpVersion {
    Http1_0,
    Http1_1,
    Http2,
    Http3,
    Http,
    HttpUknown(Seq<char>),
}

pub enum SpecResponseSection {
    CapturesSection(Seq<SpecCapture>),
    AssertsSection(Seq<SpecAssert>),
}

pub struct SpecResponse {
    pub version: SpecHttpVersion,
    pub status: HttpStatus,
    pub headers: Seq<SpecKeyValue>,
    pub response_sections: Seq<SpecResponseSection>,
    pub body: Option<SpecBytes>,
}

pub struct SpecEntry {
    pub request: SpecRequest,
    pub response: Option<SpecResponse>,
}

pub enum SpecBytes {
    JsonValue(SpecJson),
    MultilineString(SpecMultilineString),
    OneLineString(SpecInterpolatedString),
    OneLineBase64(Seq<char>),
    OneLineFile(SpecInterpolatedString),
    OneLineHex(Seq<char>),
}

pub enum SpecMultilineStringType {
    Base64,
    Hex,
    Json,
    Xml,
    Graphql,
    Unknown(Seq<char>),
}

pub enum SpecMultilineStringAttribute {
    Escape,
    NoVariable,
    Unknown(Seq<char>),
}

pub struct SpecMultilineString {
    pub typ: Option<SpecMultilineStringType>,
    pub attributes: Seq<SpecMultilineStringAttribute>,
    pub content: SpecInterpolatedString,
}

pub struct SpecJsonMember {
    pub key: SpecInterpolatedString,
    pub value: SpecJson,
}

pub enum SpecJson {
    Invalid,
    Object(Seq<SpecJsonMember>),
    Array(Seq<SpecJson>),
    Str(Seq<char>),
    InterpolatedString(SpecInterpolatedString),
    Num(Seq<char>),
    Bool(bool),
    Null,
    Template(SpecTemplate),
}

// ---------------------------------------------------------------------------
// Views
// ---------------------------------------------------------------------------

impl View for Method {
    type V = SpecMethod;

    open spec fn view(&self) -> SpecMethod {
        SpecMethod { value: self.value@ }
    }
}

impl View for Url {
    type V = SpecUrl;

    open spec fn view(&self) -> SpecUrl {
        match self {
            Url::Url(s) => SpecUrl::Url(s@),
            Url::Invalid => SpecUrl::Invalid,
            Url::Missing => SpecUrl::Missing,
        }
    }
}

impl View for ExprValue {
    type V = SpecExprValue;

    open spec fn view(&self) -> SpecExprValue {
        match self {
            ExprValue::VariableName(s) => SpecExprValue::VariableName(s@),
            ExprValue::FunctionName(s) => SpecExprValue::FunctionName(s@),
        }
    }
}

impl View for FilterFunction {
    type V = SpecFilterFunction;

    open spec fn view(&self) -> SpecFilterFunction
        decreases self,
    {
        match self {
            FilterFunction::Count => SpecFilterFunction::Count,
            FilterFunction::DaysAfterNow => SpecFilterFunction::DaysAfterNow,
            FilterFunction::DaysBeforeNow => SpecFilterFunction::DaysBeforeNow,
            FilterFunction::Decode { encoding } => SpecFilterFunction::Decode {
                encoding: encoding.view(),
            },
            FilterFunction::Format { fmt } => SpecFilterFunction::Format { fmt: fmt.view() },
            FilterFunction::HtmlEscape => SpecFilterFunction::HtmlEscape,
            FilterFunction::HtmlUnescape => SpecFilterFunction::HtmlUnescape,
            FilterFunction::JsonPath { expr } => SpecFilterFunction::JsonPath { expr: expr.view() },
            FilterFunction::Nth { nth } => SpecFilterFunction::Nth { nth: *nth },
            FilterFunction::Regex { value } => SpecFilterFunction::Regex { value: value.view() },
            FilterFunction::Replace { old_value, new_value } => SpecFilterFunction::Replace {
                old_value: old_value.view(),
                new_value: new_value.view(),
            },
            FilterFunction::Split { sep } => SpecFilterFunction::Split { sep: sep.view() },
            FilterFunction::ToDate { fmt } => SpecFilterFunction::ToDate { fmt: fmt.view() },
            FilterFunction::ToFloat => SpecFilterFunction::ToFloat,
            FilterFunction::ToInt => SpecFilterFunction::ToInt,
            FilterFunction::UrlDecode => SpecFilterFunction::UrlDecode,
            FilterFunction::UrlEncode => SpecFilterFunction::UrlEncode,
            FilterFunction::XPath { expr } => SpecFilterFunction::XPath { expr: expr.view() },
        }
    }
}

impl View for Expr {
    type V = SpecExpr;

    open spec fn view(&self) -> SpecExpr
        decreases self,
    {
        SpecExpr {
            variable: self.variable@,
            filters: Seq::new(
                self.filters@.len(),
                |i: int|
                    if 0 <= i < self.filters@.len() {
                        self.filters@[i].view()
                    } else {
                        SpecFilterFunction::Count
                    },
            ),
        }
    }
}

impl View for Template {
    type V = SpecTemplate;

    open spec fn view(&self) -> SpecTemplate
        decreases self,
    {
        SpecTemplate { expr: self.expr.view() }
    }
}

impl View for InterpolatedStringPart {
    type V = SpecPart;

    open spec fn view(&self) -> SpecPart
        decreases self,
    {
        match self {
            InterpolatedStringPart::Str(s) => SpecPart::Str(s@),
            InterpolatedStringPart::Template(t) => SpecPart::Template(t.view()),
        }
    }
}

impl View for InterpolatedString {
    type V = SpecInterpolatedString;

    open spec fn view(&self) -> SpecInterpolatedString
        decreases self,
    {
        SpecInterpolatedString {
            parts: Seq::new(
                self.parts@.len(),
                |i: int|
                    if 0 <= i < self.parts@.len() {
                        self.parts@[i].view()
                    } else {
                        SpecPart::Str(Seq::empty())
                    },
            ),
        }
    }
}

impl View for Regex {
    type V = SpecRegex;

    open spec fn view(&self) -> SpecRegex {
        match self {
            Regex::Interpolated(s) => SpecRegex::Interpolated(s@),
            Regex::Literal(s) => SpecRegex::Literal(s@),
        }
    }
}

impl View for KeyValue {
    type V = SpecKeyValue;

    open spec fn view(&self) -> SpecKeyValue {
        SpecKeyValue { key: self.key@, value: self.value@ }
    }
}

impl View for FileValue {
    type V = SpecFileValue;

    open spec fn view(&self) -> SpecFileValue {
        SpecFileValue {
            filename: self.filename@,
            content_type: match &self.content_type {
                Some(c) => Some(c@),
                None => None,
            },
        }
    }
}

impl View for FileKeyValue {
    type V = SpecFileKeyValue;

    open spec fn view(&self) -> SpecFileKeyValue {
        SpecFileKeyValue { key: self.key@, value: self.value@ }
    }
}

impl View for MultipartFormParam {
    type V = SpecMultipartFormParam;

    open spec fn view(&self) -> SpecMultipartFormParam {
        match self {
            MultipartFormParam::FileParam(f) => SpecMultipartFormParam::FileParam(f@),
            MultipartFormParam::KeyValueParam(k) => SpecMultipartFormParam::KeyValueParam(k@),
        }
    }
}

impl View for Query {
    type V = SpecQuery;

    open spec fn view(&self) -> SpecQuery {
        match self {
            Query::Status => SpecQuery::Status,
            Query::Url => SpecQuery::Url,
            Query::Header(s) => SpecQuery::Header(s@),
            Query::Certificate(c) => SpecQuery::Certificate(*c),
            Query::Cookie(s) => SpecQuery::Cookie(s@),
            Query::Body => SpecQuery::Body,
            Query::Xpath(s) => SpecQuery::Xpath(s@),
            Query::JsonPath(s) => SpecQuery::JsonPath(s@),
            Query::Regex(r) => SpecQuery::Regex(r@),
            Query::Variable(s) => SpecQuery::Variable(s@),
            Query::Duration => SpecQuery::Duration,
            Query::Bytes => SpecQuery::Bytes,
            Query::Sha256 => SpecQuery::Sha256,
            Query::Md5 => SpecQuery::Md5,
        }
    }
}

impl View for Capture {
    type V = SpecCapture;

    open spec fn view(&self) -> SpecCapture {
        SpecCapture { key: self.key@, query: self.query@, filters: seq_view(self.filters@) }
    }
}

impl View for MultilineStringType {
    type V = SpecMultilineStringType;

    open spec fn view(&self) -> SpecMultilineStringType {
        match self {
            MultilineStringType::Base64 => SpecMultilineStringType::Base64,
            MultilineStringType::Hex => SpecMultilineStringType::Hex,
            MultilineStringType::Json => SpecMultilineStringType::Json,
            MultilineStringType::Xml => SpecMultilineStringType::Xml,
            MultilineStringType::Graphql => SpecMultilineStringType::Graphql,
            MultilineStringType::Unknown(s) => SpecMultilineStringType::Unknown(s@),
        }
    }
}

impl View for MultilineStringAttribute {
    type V = SpecMultilineStringAttribute;

    open spec fn view(&self) -> SpecMultilineStringAttribute {
        match self {
            MultilineStringAttribute::Escape => SpecMultilineStringAttribute::Escape,
            MultilineStringAttribute::NoVariable => SpecMultilineStringAttribute::NoVariable,
            MultilineStringAttribute::Unknown(s) => SpecMultilineStringAttribute::Unknown(s@),
        }
    }
}

impl View for MultilineString {
    type V = SpecMultilineString;

    open spec fn view(&self) -> SpecMultilineString {
        SpecMultilineString {
            typ: match &self.string_type {
                Some(t) => Some(t@),
                None => None,
            },
            attributes: seq_view(self.attributes@),
            content: self.content@,
        }
    }
}

impl View for PredicateValue {
    type V = SpecPredicateValue;

    open spec fn view(&self) -> SpecPredicateValue {
        match self {
            PredicateValue::Boolean(b) => SpecPredicateValue::Boolean(*b),
            PredicateValue::MultilineString(m) => SpecPredicateValue::MultilineString(m@),
            PredicateValue::Null => SpecPredicateValue::Null,
            PredicateValue::Integer(n) => SpecPredicateValue::Integer(*n),
            PredicateValue::Float(s) => SpecPredicateValue::Float(s@),
            PredicateValue::BigInteger(s) => SpecPredicateValue::BigInteger(s@),
            PredicateValue::OneLineString(s) => SpecPredicateValue::OneLineString(s@),
            PredicateValue::OneLineBase64(s) => SpecPredicateValue::OneLineBase64(s@),
            PredicateValue::OneLineFile(s) => SpecPredicateValue::OneLineFile(s@),
            PredicateValue::OneLineHex(s) => SpecPredicateValue::OneLineHex(s@),
            PredicateValue::QuotedString(s) => SpecPredicateValue::QuotedString(s@),
            PredicateValue::Template(t) => SpecPredicateValue::Template(t@),
            PredicateValue::Invalid => SpecPredicateValue::Invalid,
        }
    }
}

impl View for PredicateFunc {
    type V = SpecPredicateFunc;

    open spec fn view(&self) -> SpecPredicateFunc {
        match self {
            PredicateFunc::Equal { value } => SpecPredicateFunc::Equal { value: value@ },
            PredicateFunc::NotEqual { value } => SpecPredicateFunc::NotEqual { value: value@ },
            PredicateFunc::Greater { value } => SpecPredicateFunc::Greater { value: value@ },
            PredicateFunc::GreaterOrEqual { value } => SpecPredicateFunc::GreaterOrEqual {
                value: value@,
            },
            PredicateFunc::Less { value } => SpecPredicateFunc::Less { value: value@ },
            PredicateFunc::LessOrEqual { value } => SpecPredicateFunc::LessOrEqual {
                value: value@,
            },
            PredicateFunc::StartWith { value } => SpecPredicateFunc::StartWith { value: value@ },
            PredicateFunc::EndWith { value } => SpecPredicateFunc::EndWith { value: value@ },
            PredicateFunc::Contain { value } => SpecPredicateFunc::Contain { value: value@ },
            PredicateFunc::Match { value } => SpecPredicateFunc::Match { value: value@ },
            PredicateFunc::Exists => SpecPredicateFunc::Exists,
            PredicateFunc::IsEmpty => SpecPredicateFunc::IsEmpty,
            PredicateFunc::Include { value } => SpecPredicateFunc::Include { value: value@ },
            PredicateFunc::IsInteger => SpecPredicateFunc::IsInteger,
            PredicateFunc::IsFloat => SpecPredicateFunc::IsFloat,
            PredicateFunc::IsBoolean => SpecPredicateFunc::IsBoolean,
            PredicateFunc::IsString => SpecPredicateFunc::IsString,
            PredicateFunc::IsCollection => SpecPredicateFunc::IsCollection,
            PredicateFunc::IsDate => SpecPredicateFunc::IsDate,
            PredicateFunc::IsIsoDate => SpecPredicateFunc::IsIsoDate,
        }
    }
}

impl View for Predicate {
    type V = SpecPredicate;

    open spec fn view(&self) -> SpecPredicate {
        SpecPredicate { prefix: self.prefix, function: self.function@ }
    }
}

impl View for Assert {
    type V = SpecAssert;

    open spec fn view(&self) -> SpecAssert {
        SpecAssert {
            query: self.query@,
            filters: seq_view(self.filters@),
            predicate: self.predicate@,
        }
    }
}

impl View for BooleanOption {
    type V = SpecBooleanOption;

    open spec fn view(&self) -> SpecBooleanOption {
        match self {
            BooleanOption::Literal(b) => SpecBooleanOption::Literal(*b),
            BooleanOption::Template(t) => SpecBooleanOption::Template(t@),
        }
    }
}

impl View for DurationOption {
    type V = SpecDurationOption;

    open spec fn view(&self) -> SpecDurationOption {
        match self {
            DurationOption::Literal(d) => SpecDurationOption::Literal(*d),
            DurationOption::Template(t) => SpecDurationOption::Template(t@),
        }
    }
}

impl View for IntegerOption {
    type V = SpecIntegerOption;

    open spec fn view(&self) -> SpecIntegerOption {
        match self {
            IntegerOption::Literal(n) => SpecIntegerOption::Literal(*n),
            IntegerOption::Template(t) => SpecIntegerOption::Template(t@),
            IntegerOption::BigInteger(s) => SpecIntegerOption::BigInteger(s@),
        }
    }
}

impl View for VariableValue {
    type V = SpecVariableValue;

    open spec fn view(&self) -> SpecVariableValue {
        match self {
            VariableValue::Null => SpecVariableValue::Null,
            VariableValue::Boolean(b) => SpecVariableValue::Boolean(*b),
            VariableValue::Integer(n) => SpecVariableValue::Integer(*n),
            VariableValue::Float(s) => SpecVariableValue::Float(s@),
            VariableValue::BigInteger(s) => SpecVariableValue::BigInteger(s@),
            VariableValue::String(s) => SpecVariableValue::String(s@),
            VariableValue::Invalid => SpecVariableValue::Invalid,
        }
    }
}

impl View for VariableDefinitionOption {
    type V = SpecVariableDefinitionOption;

    open spec fn view(&self) -> SpecVariableDefinitionOption {
        SpecVariableDefinitionOption { name: self.name@, value: self.value@ }
    }
}

impl View for RequestOption {
    type V = SpecRequestOption;

    open spec fn view(&self) -> SpecRequestOption {
        match self {
            RequestOption::Compressed(o) => SpecRequestOption::Compressed(o@),
            RequestOption::Location(o) => SpecRequestOption::Location(o@),
            RequestOption::LocationTrusted(o) => SpecRequestOption::LocationTrusted(o@),
            RequestOption::Http10(o) => SpecRequestOption::Http10(o@),
            RequestOption::Http11(o) => SpecRequestOption::Http11(o@),
            RequestOption::Http2(o) => SpecRequestOption::Http2(o@),
            RequestOption::Http3(o) => SpecRequestOption::Http3(o@),
            RequestOption::Insecure(o) => SpecRequestOption::Insecure(o@),
            RequestOption::Ipv4(o) => SpecRequestOption::Ipv4(o@),
            RequestOption::Ipv6(o) => SpecRequestOption::Ipv6(o@),
            RequestOption::Netrc(o) => SpecRequestOption::Netrc(o@),
            RequestOption::NetrcOptional(o) => SpecRequestOption::NetrcOptional(o@),
            RequestOption::PathAsIs(o) => SpecRequestOption::PathAsIs(o@),
            RequestOption::Skip(o) => SpecRequestOption::Skip(o@),
            RequestOption::Verbose(o) => SpecRequestOption::Verbose(o@),
            RequestOption::VeryVerbose(o) => SpecRequestOption::VeryVerbose(o@),
            RequestOption::ConnectTimeout(o) => SpecRequestOption::ConnectTimeout(o@),
            RequestOption::Delay(o) => SpecRequestOption::Delay(o@),
            RequestOption::RetryInterval(o) => SpecRequestOption::RetryInterval(o@),
            RequestOption::LimitRate(o) => SpecRequestOption::LimitRate(o@),
            RequestOption::MaxRedirs(o) => SpecRequestOption::MaxRedirs(o@),
            RequestOption::Repeat(o) => SpecRequestOption::Repeat(o@),
            RequestOption::Retry(o) => SpecRequestOption::Retry(o@),
            RequestOption::Cacert(s) => SpecRequestOption::Cacert(s@),
            RequestOption::Key(s) => SpecRequestOption::Key(s@),
            RequestOption::Output(s) => SpecRequestOption::Output(s@),
            RequestOption::Cert(s) => SpecRequestOption::Cert(s@),
            RequestOption::AwsSigv4(s) => SpecRequestOption::AwsSigv4(s@),
            RequestOption::ConnectTo(s) => SpecRequestOption::ConnectTo(s@),
            RequestOption::NetrcFile(s) => SpecRequestOption::NetrcFile(s@),
            RequestOption::Proxy(s) => SpecRequestOption::Proxy(s@),
            RequestOption::Resolve(s) => SpecRequestOption::Resolve(s@),
            RequestOption::UnixSocket(s) => SpecRequestOption::UnixSocket(s@),
            RequestOption::User(s) => SpecRequestOption::User(s@),
            RequestOption::Variable(v) => SpecRequestOption::Variable(v@),
        }
    }
}

impl View for RequestSection {
    type V = SpecRequestSection;

    open spec fn view(&self) -> SpecRequestSection {
        match self {
            RequestSection::BasicAuthSection(s) => SpecRequestSection::BasicAuthSection(
                seq_view(s.key_values@),
            ),
            RequestSection::QueryStringParamsSection(s) =>
                SpecRequestSection::QueryStringParamsSection(seq_view(s.queries@)),
            RequestSection::FormParamsSection(s) => SpecRequestSection::FormParamsSection(
                seq_view(s.params@),
            ),
            RequestSection::MultipartFormDataSection(s) =>
                SpecRequestSection::MultipartFormDataSection(seq_view(s.params@)),
            RequestSection::CookiesSection(s) => SpecRequestSection::CookiesSection(
                seq_view(s.cookies@),
            ),
            RequestSection::OptionsSection(s) => SpecRequestSection::OptionsSection(
                seq_view(s.options@),
            ),
        }
    }
}

impl View for Bytes {
    type V = SpecBytes;

    open spec fn view(&self) -> SpecBytes {
        match self {
            Bytes::JsonValue(j) => SpecBytes::JsonValue(j@),
            Bytes::MultilineString(m) => SpecBytes::MultilineString(m@),
            Bytes::OneLineString(s) => SpecBytes::OneLineString(s@),
            Bytes::OneLineBase64(s) => SpecBytes::OneLineBase64(s@),
            Bytes::OneLineFile(s) => SpecBytes::OneLineFile(s@),
            Bytes::OneLineHex(s) => SpecBytes::OneLineHex(s@),
        }
    }
}

impl View for Body {
    type V = SpecBytes;

    open spec fn view(&self) -> SpecBytes {
        self.bytes@
    }
}

pub open spec fn body_view(b: Option<Body>) -> Option<SpecBytes> {
    match b {
        Some(b) => Some(b@),
        None => None,
    }
}

impl View for Request {
    type V = SpecRequest;

    open spec fn view(&self) -> SpecRequest {
        SpecRequest {
            method: self.method@,
            url: self.url@,
            headers: seq_view(self.headers@),
            request_sections: seq_view(self.request_sections@),
            body: body_view(self.body),
        }
    }
}

impl View for HttpVersion {
    type V = SpecHttpVersion;

    open spec fn view(&self) -> SpecHttpVersion {
        match self {
            HttpVersion::Http1_0 => SpecHttpVersion::Http1_0,
            HttpVersion::Http1_1 => SpecHttpVersion::Http1_1,
            HttpVersion::Http2 => SpecHttpVersion::Http2,
            HttpVersion::Http3 => SpecHttpVersion::Http3,
            HttpVersion::Http => SpecHttpVersion::Http,
            HttpVersion::HttpUknown(s) => SpecHttpVersion::HttpUknown(s@),
        }
    }
}

impl View for ResponseSection {
    type V = SpecResponseSection;

    open spec fn view(&self) -> SpecResponseSection {
        match self {
            ResponseSection::CapturesSection(s) => SpecResponseSection::CapturesSection(
                seq_view(s.captures@),
            ),
            ResponseSection::AssertsSection(s) => SpecResponseSection::AssertsSection(
                seq_view(s.asserts@),
            ),
        }
    }
}

impl View for Response {
    type V = SpecResponse;

    open spec fn view(&self) -> SpecResponse {
        SpecResponse {
            version: self.version@,
            status: self.status,
            headers: seq_view(self.headers@),
            response_sections: seq_view(self.response_sections@),
            body: body_view(self.body),
        }
    }
}

impl View for Entry {
    type V = SpecEntry;

    open spec fn view(&self) -> SpecEntry {
        SpecEntry {
            request: (*self.request)@,
            response: match &self.response {
                Some(r) => Some((**r)@),
                None => None,
            },
        }
    }
}

impl View for Ast {
    type V = Seq<SpecEntry>;

    open spec fn view(&self) -> Seq<SpecEntry> {
        seq_view(self.entries@)
    }
}

impl View for JsonKeyValue {
    type V = SpecJsonMember;

    open spec fn view(&self) -> SpecJsonMember {
        SpecJsonMember { key: self.key@, value: self.value.view() }
    }
}

impl View for Json {
    type V = SpecJson;

    open spec fn view(&self) -> SpecJson
        decreases self,
    {
        match self {
            Json::Invalid => SpecJson::Invalid,
            Json::Object(v) => SpecJson::Object(
                Seq::new(
                    v@.len(),
                    |i: int|
                        if 0 <= i < v@.len() {
                            SpecJsonMember { key: v@[i].key@, value: v@[i].value.view() }
                        } else {
                            SpecJsonMember {
                                key: SpecInterpolatedString { parts: Seq::empty() },
                                value: SpecJson::Null,
                            }
                        },
                ),
            ),
            Json::Array(v) => SpecJson::Array(
                Seq::new(
                    v@.len(),
                    |i: int|
                        if 0 <= i < v@.len() {
                            v@[i].view()
                        } else {
                            SpecJson::Null
                        },
                ),
            ),
            Json::Str(s) => SpecJson::Str(s@),
            Json::InterpolatedString(s) => SpecJson::InterpolatedString(s@),
            Json::Num(s) => SpecJson::Num(s@),
            Json::Bool(b) => SpecJson::Bool(*b),
            Json::Null => SpecJson::Null,
            Json::Template(t) => SpecJson::Template(t.view()),
        }
    }
}

} // verus!
