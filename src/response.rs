//! The response: one value per outgoing message that carries the outcome,
//! the payload and the headers, up to the final encoding.

use vstd::prelude::*;
use vstd::string::*;
use vstd::utf8::encode_utf8;
use crate::code::{ResponseCode, StatusCode};
use crate::encode::{
    csv_outcome, form_outcome, jsonlines_outcome, msgpack_outcome, plain_text, plain_text_of, to_csv,
    to_form, to_jsonlines, to_msgpack,
};
use crate::error::Error;
use crate::json::{json_quoted, quote};
use crate::text::{
    before_char, decimal_string, decimal_text, ends_with, has_prefix, has_suffix, hex_string,
    hex_text, join, join_strings, starts_with, strings_view, take_before, uuid_string, uuid_text,
};
use crate::timing::{
    elapsed_micros, opt_view, server_timing_text, MetricModel, ServerTiming, TimingMetric,
};
use crate::trace::{tracestate_text, traceparent_text, TraceContext, TraceModel, FLAG_SAMPLED};
use crate::validation::{failure_map_text, Validation};

verus! {

/// The encoder that turns the payload into the body, when one is chosen.
#[derive(Clone, Copy, Debug, PartialEq, Eq, Structural)]
pub enum DataTransformer {
    Json,
    JsonLines,
    MsgPack,
    Csv,
    Form,
}

/// The outcome: a success with its message, or a failure with its detail.
enum Outcome {
    Success(Option<String>),
    Failure(Option<String>),
}

/// The payload: nothing, pre-serialized JSON, or a structured JSON value,
/// both held as compact JSON text.
enum Payload {
    Empty,
    Raw(String),
    Structured(String),
}

/// What the process hosting a request gives its response.
pub trait RequestContext {
    spec fn spec_start_time(&self) -> std::time::Instant;

    spec fn spec_request_id(&self) -> u128;

    spec fn spec_instance(&self) -> Seq<char>;

    /// When the request started.
    fn start_time(&self) -> (r: std::time::Instant)
        ensures
            r == self.spec_start_time(),
    ;

    /// The request's identifier (zero for none).
    fn request_id(&self) -> (r: u128)
        ensures
            r == self.spec_request_id(),
    ;

    /// A URI reference for this occurrence of the request.
    fn instance(&self) -> (r: String)
        ensures
            r@ == self.spec_instance(),
    ;

    /// A trace context for the response, continuing the caller's trace where there is one.
    fn new_trace_context(&self) -> TraceContext;
}

/// A request context held as plain values: the trace it continues is
/// `trace_id` below the span `parent_id`.
pub struct RequestInfo {
    pub start_time: std::time::Instant,
    pub request_id: u128,
    pub instance: String,
    pub trace_id: u128,
    pub parent_id: u64,
}

impl RequestContext for RequestInfo {
    open spec fn spec_start_time(&self) -> std::time::Instant {
        self.start_time
    }

    open spec fn spec_request_id(&self) -> u128 {
        self.request_id
    }

    open spec fn spec_instance(&self) -> Seq<char> {
        self.instance@
    }

    fn start_time(&self) -> (r: std::time::Instant) {
        self.start_time
    }

    fn request_id(&self) -> (r: u128) {
        self.request_id
    }

    fn instance(&self) -> (r: String) {
        self.instance.clone()
    }

    /// A sampled context in the same trace, below the caller's span, with a fresh span id.
    fn new_trace_context(&self) -> TraceContext {
        let fresh = TraceContext::new();
        TraceContext::with_parent(self.trace_id, self.parent_id, fresh.span_id(), FLAG_SAMPLED)
    }
}

/// Where a finished response reports its status and duration.
pub trait MetricsSink {
    /// The reports received so far, in order: status code and microseconds.
    spec fn recorded(&self) -> Seq<(u16, u64)>;

    /// One response with `status_code` finished after `duration_micros`.
    fn record_response(&mut self, status_code: u16, duration_micros: u64)
        ensures
            final(self).recorded() == old(self).recorded().push((status_code, duration_micros)),
    ;
}

/// A sink that keeps every report in memory.
pub struct RecordingSink {
    records: Vec<(u16, u64)>,
}

impl RecordingSink {
    /// A sink with no reports.
    pub fn new() -> (r: Self)
        ensures
            r.recorded() == Seq::<(u16, u64)>::empty(),
    {
        RecordingSink { records: Vec::new() }
    }

    /// The reports received so far.
    pub fn records(&self) -> (r: &[(u16, u64)])
        ensures
            r@ == self.recorded(),
    {
        self.records.as_slice()
    }
}

impl MetricsSink for RecordingSink {
    closed spec fn recorded(&self) -> Seq<(u16, u64)> {
        self.records@
    }

    fn record_response(&mut self, status_code: u16, duration_micros: u64) {
        self.records.push((status_code, duration_micros));
    }
}

/// An HTTP response under construction.
pub struct Response {
    type_uri: Option<String>,
    title: Option<String>,
    status_code: u16,
    error_code: Option<String>,
    outcome: Outcome,
    instance: Option<String>,
    start_time: std::time::Instant,
    request_id: u128,
    payload: Payload,
    data_transformer: Option<DataTransformer>,
    content_type: Option<String>,
    trace_context: Option<TraceContext>,
    server_timing: ServerTiming,
    headers: Vec<(&'static str, String)>,
}

/// What a response holds. `message` and `detail` come from one outcome, and
/// `data` (pre-serialized) and `json_data` (structured) from one payload.
pub ghost struct ResponseModel {
    pub type_uri: Option<Seq<char>>,
    pub title: Option<Seq<char>>,
    pub status_code: u16,
    pub error_code: Option<Seq<char>>,
    pub success: bool,
    pub start_time: std::time::Instant,
    pub message: Option<Seq<char>>,
    pub detail: Option<Seq<char>>,
    pub instance: Option<Seq<char>>,
    pub request_id: u128,
    pub data: Option<Seq<char>>,
    pub json_data: Option<Seq<char>>,
    pub transformer: Option<DataTransformer>,
    pub content_type: Option<Seq<char>>,
    pub trace: Option<TraceModel>,
    pub server_timing: Seq<MetricModel>,
    pub headers: Seq<(Seq<char>, Seq<char>)>,
}

/// The views of a header list.
pub open spec fn headers_view(h: Seq<(&'static str, String)>) -> Seq<(Seq<char>, Seq<char>)> {
    h.map_values(|p: (&'static str, String)| (p.0@, p.1@))
}

/// A response started at `start` with no code applied yet: every optional part absent.
pub open spec fn blank_model(start: std::time::Instant) -> ResponseModel {
    ResponseModel {
        start_time: start,
        type_uri: None,
        title: None,
        status_code: 0,
        error_code: None,
        success: false,
        message: None,
        detail: None,
        instance: None,
        request_id: 0,
        data: None,
        json_data: None,
        transformer: None,
        content_type: None,
        trace: None,
        server_timing: seq![],
        headers: seq![],
    }
}

/// `m` with the code applied: its number, success, texts, and its default
/// message as the message of a success or the detail of a failure.
pub open spec fn with_code<S: ResponseCode>(m: ResponseModel, code: S) -> ResponseModel {
    ResponseModel {
        type_uri: code.spec_type_uri(),
        title: code.spec_title(),
        status_code: code.spec_status_code(),
        error_code: code.spec_error_code(),
        success: code.spec_is_success(),
        message: if code.spec_is_success() { code.spec_message() } else { None },
        detail: if code.spec_is_success() { None } else { code.spec_message() },
        ..m
    }
}

/// `m` with `text` as its message when it is a success, else as its detail.
pub open spec fn with_text(m: ResponseModel, text: Seq<char>) -> ResponseModel {
    if m.success {
        ResponseModel { message: Some(text), detail: None, ..m }
    } else {
        ResponseModel { message: None, detail: Some(text), ..m }
    }
}

/// `m` with a structured payload given as JSON text; `null` stands for none.
pub open spec fn with_json_text(m: ResponseModel, text: Seq<char>) -> ResponseModel {
    ResponseModel {
        data: None,
        json_data: if text == "null"@ { None } else { Some(text) },
        ..m
    }
}

/// The content type sent: the one set, else JSON for a success and
/// problem+JSON for a failure.
pub open spec fn effective_content_type(m: ResponseModel) -> Seq<char> {
    match m.content_type {
        Some(ct) => ct,
        None => if m.success {
            "application/json; charset=utf-8"@
        } else {
            "application/problem+json; charset=utf-8"@
        },
    }
}

impl View for Response {
    type V = ResponseModel;

    closed spec fn view(&self) -> ResponseModel {
        ResponseModel {
            type_uri: opt_view(self.type_uri),
            title: opt_view(self.title),
            status_code: self.status_code,
            error_code: opt_view(self.error_code),
            success: self.outcome is Success,
            start_time: self.start_time,
            message: match self.outcome {
                Outcome::Success(m) => opt_view(m),
                Outcome::Failure(_) => None,
            },
            detail: match self.outcome {
                Outcome::Success(_) => None,
                Outcome::Failure(d) => opt_view(d),
            },
            instance: opt_view(self.instance),
            request_id: self.request_id,
            data: match self.payload {
                Payload::Raw(t) => Some(t@),
                _ => None,
            },
            json_data: match self.payload {
                Payload::Structured(t) => Some(t@),
                _ => None,
            },
            transformer: self.data_transformer,
            content_type: opt_view(self.content_type),
            trace: match self.trace_context {
                Some(t) => Some(t@),
                None => None,
            },
            server_timing: self.server_timing@,
            headers: headers_view(self.headers@),
        }
    }
}

fn outcome_of<S: ResponseCode>(code: &S) -> (r: Outcome)
    ensures
        (r is Success) == code.spec_is_success(),
        match r {
            Outcome::Success(m) => opt_view(m) == code.spec_message(),
            Outcome::Failure(d) => opt_view(d) == code.spec_message(),
        },
{
    if code.is_success() {
        Outcome::Success(code.message())
    } else {
        Outcome::Failure(code.message())
    }
}

impl Response {
    /// A response for `code`, started now, with no request context.
    pub fn new<S: ResponseCode>(code: S) -> (r: Self)
        ensures
            r@ == with_code(blank_model(r@.start_time), code),
    {
        let r = Response {
            type_uri: code.type_uri(),
            title: code.title(),
            status_code: code.status_code(),
            error_code: code.error_code(),
            outcome: outcome_of(&code),
            instance: None,
            start_time: std::time::Instant::now(),
            request_id: 0,
            payload: Payload::Empty,
            data_transformer: None,
            content_type: None,
            trace_context: None,
            server_timing: ServerTiming::new(),
            headers: Vec::new(),
        };
        assert(headers_view(r.headers@) =~= seq![]);
        assert(r@ =~= with_code(blank_model(r.start_time), code));
        r
    }

    /// A response for `code` within a request: the start time and request id
    /// come from the context, a failure names the context's instance, and a
    /// trace context is attached.
    pub fn with_context<S: ResponseCode, C: RequestContext>(code: S, ctx: &C) -> (r: Self)
        ensures
            r@ == (ResponseModel {
                instance: if code.spec_is_success() { None } else { Some(ctx.spec_instance()) },
                request_id: ctx.spec_request_id(),
                trace: r@.trace,
                ..with_code(blank_model(ctx.spec_start_time()), code)
            }),
            r@.trace is Some,
    {
        let mut r = Self::new(code);
        r.instance = if r.is_success() {
            None
        } else {
            Some(ctx.instance())
        };
        r.start_time = ctx.start_time();
        r.request_id = ctx.request_id();
        r.trace_context = Some(ctx.new_trace_context());
        r
    }

    /// Takes the start time, request id and a trace context from the request
    /// context; a failure also takes its instance.
    pub fn context<C: RequestContext>(self, ctx: &C) -> (r: Self)
        ensures
            r@ == (ResponseModel {
                instance: if self@.success { None } else { Some(ctx.spec_instance()) },
                request_id: ctx.spec_request_id(),
                start_time: ctx.spec_start_time(),
                trace: r@.trace,
                ..self@
            }),
            r@.trace is Some,
    {
        let mut r = self;
        r.instance = if r.is_success() {
            None
        } else {
            Some(ctx.instance())
        };
        r.start_time = ctx.start_time();
        r.request_id = ctx.request_id();
        r.trace_context = Some(ctx.new_trace_context());
        r
    }

    /// Applies another code: number, success and texts, with the code's
    /// default message. Payload, headers and trace state stay.
    pub fn set_code<S: ResponseCode>(&mut self, code: S)
        ensures
            final(self)@ == with_code(old(self)@, code),
    {
        self.type_uri = code.type_uri();
        self.title = code.title();
        self.status_code = code.status_code();
        self.error_code = code.error_code();
        self.outcome = outcome_of(&code);
    }

    /// Sets the URI reference of this occurrence of the problem.
    pub fn set_instance(&mut self, instance: String)
        ensures
            final(self)@ == (ResponseModel { instance: Some(instance@), ..old(self)@ }),
    {
        self.instance = Some(instance);
    }

    /// Sets the message of a success, or the detail of a failure.
    pub fn set_message(&mut self, message: String)
        ensures
            final(self)@ == with_text(old(self)@, message@),
    {
        self.outcome = match self.outcome {
            Outcome::Success(_) => Outcome::Success(Some(message)),
            Outcome::Failure(_) => Outcome::Failure(Some(message)),
        };
    }

    /// Sets an error's message as the message of a success, or the detail of a
    /// failure; the success flag stays as it is.
    pub fn set_error_message(&mut self, error: Error)
        ensures
            final(self)@ == with_text(old(self)@, error@),
    {
        let text = String::from_str(error.message());
        self.set_message(text);
    }

    /// Sets the pre-serialized payload. A failed serialization leaves the
    /// payload as it was and becomes the message or detail instead.
    pub fn set_data(&mut self, serialized: Result<String, Error>)
        ensures
            match serialized {
                Ok(t) => final(self)@ == (ResponseModel {
                    data: Some(t@),
                    json_data: None,
                    ..old(self)@
                }),
                Err(e) => final(self)@ == with_text(old(self)@, e@),
            },
    {
        match serialized {
            Ok(t) => {
                self.payload = Payload::Raw(t);
            },
            Err(e) => self.set_error_message(e),
        }
    }

    /// Sets the structured payload from its compact JSON text (`null` for none).
    pub fn set_json_data(&mut self, data: String)
        ensures
            final(self)@ == with_json_text(old(self)@, data@),
    {
        if data == String::from_str("null") {
            self.payload = Payload::Empty;
        } else {
            self.payload = Payload::Structured(data);
        }
    }

    /// Sets the failures of a validation as the pre-serialized payload: a JSON
    /// object from each failed field to its message.
    pub fn set_validation_data(&mut self, validation: Validation)
        ensures
            final(self)@ == (ResponseModel {
                data: Some(failure_map_text(validation@)),
                json_data: None,
                ..old(self)@
            }),
    {
        let text = validation.into_map_text();
        self.payload = Payload::Raw(text);
    }

    /// Chooses the encoder of the body.
    pub fn set_data_transformer(&mut self, transformer: DataTransformer)
        ensures
            final(self)@ == (ResponseModel { transformer: Some(transformer), ..old(self)@ }),
    {
        self.data_transformer = Some(transformer);
    }

    /// Sets the content type, overriding the default.
    pub fn set_content_type(&mut self, content_type: String)
        ensures
            final(self)@ == (ResponseModel { content_type: Some(content_type@), ..old(self)@ }),
    {
        self.content_type = Some(content_type);
    }

    /// Sets the request id (zero for none).
    pub fn set_request_id(&mut self, request_id: u128)
        ensures
            final(self)@ == (ResponseModel { request_id, ..old(self)@ }),
    {
        self.request_id = request_id;
    }

    /// Attaches or removes the trace context.
    pub fn set_trace_context(&mut self, trace_context: Option<TraceContext>)
        ensures
            final(self)@ == (ResponseModel {
                trace: match trace_context {
                    Some(t) => Some(t@),
                    None => None,
                },
                ..old(self)@
            }),
    {
        self.trace_context = trace_context;
    }

    /// Sets the instant that the response time is measured from.
    pub fn set_start_time(&mut self, start_time: std::time::Instant)
        ensures
            final(self)@ == (ResponseModel { start_time, ..old(self)@ }),
    {
        self.start_time = start_time;
    }

    /// Appends a server-timing entry.
    pub fn record_server_timing(
        &mut self,
        name: String,
        description: Option<String>,
        duration_micros: Option<u64>,
    )
        ensures
            final(self)@ == (ResponseModel {
                server_timing: old(self)@.server_timing.push(
                    MetricModel { name: name@, description: opt_view(description), duration_micros },
                ),
                ..old(self)@
            }),
    {
        let metric = TimingMetric::new(name, description, duration_micros);
        self.server_timing.push(metric);
    }

    /// Appends a custom header; names may repeat.
    pub fn insert_header(&mut self, name: &'static str, value: String)
        ensures
            final(self)@ == (ResponseModel {
                headers: old(self)@.headers.push((name@, value@)),
                ..old(self)@
            }),
    {
        self.headers.push((name, value));
        assert(headers_view(self.headers@) =~= headers_view(old(self).headers@).push((name@, value@)));
    }

    /// The status code.
    pub fn status_code(&self) -> (r: u16)
        ensures
            r == self@.status_code,
    {
        self.status_code
    }

    /// Whether the response is a success.
    pub fn is_success(&self) -> (r: bool)
        ensures
            r == self@.success,
    {
        match self.outcome {
            Outcome::Success(_) => true,
            Outcome::Failure(_) => false,
        }
    }

    /// Whether the response belongs to a request: a trace context is attached
    /// and the request id is not zero.
    pub fn has_context(&self) -> (r: bool)
        ensures
            r == (self@.trace is Some && self@.request_id != 0),
    {
        self.trace_context.is_some() && self.request_id != 0
    }

    /// The detail of a failure or the message of a success.
    pub fn message(&self) -> (r: Option<&str>)
        ensures
            match r {
                Some(s) => self@.detail == Some(s@) || (self@.detail is None && self@.message == Some(s@)),
                None => self@.detail is None && self@.message is None,
            },
    {
        match &self.outcome {
            Outcome::Success(Some(m)) => Some(m.as_str()),
            Outcome::Failure(Some(d)) => Some(d.as_str()),
            _ => None,
        }
    }

    /// The request id (zero for none).
    pub fn request_id(&self) -> (r: u128)
        ensures
            r == self@.request_id,
    {
        self.request_id
    }

    /// The trace id of the attached context, or zero.
    pub fn trace_id(&self) -> (r: u128)
        ensures
            r == match self@.trace {
                Some(t) => t.trace_id,
                None => 0,
            },
    {
        match &self.trace_context {
            Some(t) => t.trace_id(),
            None => 0,
        }
    }

    /// The content type that the body is sent with.
    pub fn content_type(&self) -> (r: &str)
        ensures
            r@ == effective_content_type(self@),
    {
        match &self.content_type {
            Some(ct) => ct.as_str(),
            None => if self.is_success() {
                "application/json; charset=utf-8"
            } else {
                "application/problem+json; charset=utf-8"
            },
        }
    }

    /// The custom headers, in insertion order.
    pub fn headers(&self) -> (r: &[(&'static str, String)])
        ensures
            headers_view(r@) == self@.headers,
    {
        self.headers.as_slice()
    }

    /// The value of the first custom header named `name`.
    pub fn get_header(&self, name: &str) -> (r: Option<&str>)
        ensures
            match r {
                Some(v) => exists|i: int|
                    0 <= i < self@.headers.len() && self@.headers[i] == (name@, v@) && forall|j: int|
                        0 <= j < i ==> self@.headers[j].0 != name@,
                None => forall|j: int| 0 <= j < self@.headers.len() ==> self@.headers[j].0 != name@,
            },
    {
        let wanted = String::from_str(name);
        let mut i: usize = 0;
        while i < self.headers.len()
            invariant
                i <= self.headers@.len(),
                wanted@ == name@,
                forall|j: int| 0 <= j < i ==> self@.headers[j].0 != name@,
            decreases self.headers@.len() - i,
        {
            assert(self@.headers[i as int] == (self.headers@[i as int].0@, self.headers@[i as int].1@));
            if String::from_str(self.headers[i].0) == wanted {
                return Some(self.headers[i].1.as_str());
            }
            i += 1;
        }
        None
    }

    /// The server-timing header value.
    pub fn server_timing(&self) -> (r: String)
        ensures
            r@ == crate::timing::server_timing_text(self@.server_timing),
    {
        self.server_timing.render()
    }
}

} // verus!

verus! {

/// How the body is produced.
#[derive(Clone, Copy, Debug, PartialEq, Eq, Structural)]
pub enum Encoding {
    /// The chosen encoder, on the payload (`null` when there is none).
    Transform(DataTransformer),
    /// The whole response as a JSON object.
    Envelope,
    Csv,
    JsonLines,
    MsgPack,
    /// A JSON string as itself, any other payload as its JSON text.
    PlainText,
    /// No body.
    Empty,
}

/// The vendor key under which a synthesized trace records its span.
pub const VENDOR_KEY: &'static str = "zino";

/// The payload's JSON text: the pre-serialized one, else the structured one.
pub open spec fn source_text(m: ResponseModel) -> Option<Seq<char>> {
    match m.data {
        Some(d) => Some(d),
        None => m.json_data,
    }
}

/// What an encoder is handed: the payload's text, or `null` when there is none.
pub open spec fn transformer_input(m: ResponseModel) -> Seq<char> {
    match source_text(m) {
        Some(t) => t,
        None => "null"@,
    }
}

/// A JSON media type: `application/json`, or `application/*+json`, parameters aside.
pub open spec fn is_json_media(ct: Seq<char>) -> bool {
    let e = before_char(ct, ';');
    e == "application/json"@ || (starts_with(e, "application/"@) && ends_with(e, "+json"@))
}

/// The choice of body encoding, in order of priority.
pub open spec fn encoding_of(m: ResponseModel) -> Encoding {
    match m.transformer {
        Some(t) => Encoding::Transform(t),
        None => {
            let ct = effective_content_type(m);
            if is_json_media(ct) {
                Encoding::Envelope
            } else if source_text(m) is None {
                Encoding::Empty
            } else if starts_with(ct, "text/csv"@) {
                Encoding::Csv
            } else if starts_with(ct, "application/jsonlines"@) {
                Encoding::JsonLines
            } else if starts_with(ct, "application/msgpack"@) {
                Encoding::MsgPack
            } else {
                Encoding::PlainText
            }
        },
    }
}

/// An envelope member holding a JSON string, present only with a value.
pub open spec fn str_member(key: Seq<char>, v: Option<Seq<char>>) -> Seq<Seq<char>> {
    match v {
        Some(s) => seq![key + json_quoted(s)],
        None => seq![],
    }
}

/// An envelope member holding JSON text as it is, present only with a value.
pub open spec fn raw_member(key: Seq<char>, v: Option<Seq<char>>) -> Seq<Seq<char>> {
    match v {
        Some(s) => seq![key + s],
        None => seq![],
    }
}

/// The members of the JSON envelope, in order; absent parts and a zero
/// request id are left out.
pub open spec fn envelope_members(m: ResponseModel) -> Seq<Seq<char>> {
    str_member("\"type\":"@, m.type_uri) + str_member("\"title\":"@, m.title) + seq![
        "\"status\":"@ + decimal_text(m.status_code as nat),
    ] + str_member("\"error\":"@, m.error_code) + str_member("\"detail\":"@, m.detail) + str_member(
        "\"instance\":"@,
        m.instance,
    ) + seq!["\"success\":"@ + (if m.success { "true"@ } else { "false"@ })] + str_member(
        "\"message\":"@,
        m.message,
    ) + (if m.request_id != 0 {
        seq!["\"request_id\":\""@ + uuid_text(m.request_id as nat) + "\""@]
    } else {
        seq![]
    }) + raw_member("\"data\":"@, m.data) + raw_member("\"data\":"@, m.json_data)
}

/// The response as one compact JSON object.
pub open spec fn envelope_text(m: ResponseModel) -> Seq<char> {
    "{"@ + join(envelope_members(m), ","@) + "}"@
}

/// A trace context made up for a response that has none: no parent, sampled,
/// and its own span id in hexadecimal under the vendor key.
pub open spec fn synthesized_trace(t: TraceModel) -> bool {
    t.parent_id is None && t.trace_flags == FLAG_SAMPLED && t.trace_state == seq![
        (VENDOR_KEY@, hex_text(t.span_id as nat)),
    ]
}

/// The `total` entry for a response that took `d` microseconds.
pub open spec fn total_metric(d: u64) -> MetricModel {
    MetricModel { name: "total"@, description: None, duration_micros: Some(d) }
}

/// The headers of a finalized response: the custom ones, the request id when
/// there is one, the trace pair, and the server timing with its `total` entry.
pub open spec fn finalized_headers(
    m: ResponseModel,
    traceparent: Seq<char>,
    tracestate: Seq<char>,
    d: u64,
) -> Seq<(Seq<char>, Seq<char>)> {
    m.headers + (if m.request_id != 0 {
        seq![("x-request-id"@, uuid_text(m.request_id as nat))]
    } else {
        seq![]
    }) + seq![
        ("traceparent"@, traceparent),
        ("tracestate"@, tracestate),
        ("server-timing"@, server_timing_text(m.server_timing.push(total_metric(d)))),
    ]
}

/// Whether a content type is a JSON media type.
pub fn is_json_content_type(ct: &str) -> (r: bool)
    ensures
        r == is_json_media(ct@),
{
    let e = take_before(ct, ';');
    String::from_str(e) == String::from_str("application/json") || (has_prefix(e, "application/")
        && has_suffix(e, "+json"))
}

fn push_str_member(members: &mut Vec<String>, key: &str, v: &Option<String>)
    ensures
        strings_view(final(members)@) == strings_view(old(members)@) + str_member(key@, opt_view(*v)),
{
    match v {
        Some(s) => {
            let mut e = String::from_str(key);
            e.append(quote(s.as_str()).as_str());
            members.push(e);
        },
        None => {},
    }
    assert(strings_view(members@) =~= strings_view(old(members)@) + str_member(key@, opt_view(*v)));
}

fn push_raw_member(members: &mut Vec<String>, key: &str, v: Option<&String>)
    ensures
        strings_view(final(members)@) == strings_view(old(members)@) + raw_member(
            key@,
            match v {
                Some(s) => Some(s@),
                None => None,
            },
        ),
{
    match v {
        Some(s) => {
            let mut e = String::from_str(key);
            e.append(s.as_str());
            members.push(e);
        },
        None => {},
    }
    assert(strings_view(members@) =~= strings_view(old(members)@) + raw_member(
        key@,
        match v {
            Some(s) => Some(s@),
            None => None,
        },
    ));
}

fn push_member(members: &mut Vec<String>, e: String)
    ensures
        strings_view(final(members)@) == strings_view(old(members)@) + seq![e@],
{
    members.push(e);
    assert(strings_view(members@) =~= strings_view(old(members)@) + seq![e@]);
}

impl Response {
    /// Sets a structured payload with the JSON encoder.
    pub fn set_json_response(&mut self, data: String)
        ensures
            final(self)@ == (ResponseModel {
                    transformer: Some(DataTransformer::Json),
                    ..with_json_text(old(self)@, data@)
                }),
    {
        self.set_json_data(data);
        self.set_data_transformer(DataTransformer::Json);
    }

    /// Sets a structured payload sent as form data.
    pub fn set_form_response(&mut self, data: String)
        ensures
            final(self)@ == (ResponseModel {
                    transformer: Some(DataTransformer::Form),
                    content_type: Some("application/x-www-form-urlencoded"@),
                    ..with_json_text(old(self)@, data@)
                }),
    {
        self.set_json_data(data);
        self.set_content_type(String::from_str("application/x-www-form-urlencoded"));
        self.set_data_transformer(DataTransformer::Form);
    }

    /// Sets a structured payload sent as JSON Lines.
    pub fn set_jsonlines_response(&mut self, data: String)
        ensures
            final(self)@ == (ResponseModel {
                    transformer: Some(DataTransformer::JsonLines),
                    content_type: Some("application/jsonlines; charset=utf-8"@),
                    ..with_json_text(old(self)@, data@)
                }),
    {
        self.set_json_data(data);
        self.set_content_type(String::from_str("application/jsonlines; charset=utf-8"));
        self.set_data_transformer(DataTransformer::JsonLines);
    }

    /// Sets a structured payload sent as MessagePack.
    pub fn set_msgpack_response(&mut self, data: String)
        ensures
            final(self)@ == (ResponseModel {
                    transformer: Some(DataTransformer::MsgPack),
                    content_type: Some("application/msgpack"@),
                    ..with_json_text(old(self)@, data@)
                }),
    {
        self.set_json_data(data);
        self.set_content_type(String::from_str("application/msgpack"));
        self.set_data_transformer(DataTransformer::MsgPack);
    }

    /// Sets a structured payload sent as CSV.
    pub fn set_csv_response(&mut self, data: String)
        ensures
            final(self)@ == (ResponseModel {
                    transformer: Some(DataTransformer::Csv),
                    content_type: Some("text/csv; charset=utf-8"@),
                    ..with_json_text(old(self)@, data@)
                }),
    {
        self.set_json_data(data);
        self.set_content_type(String::from_str("text/csv; charset=utf-8"));
        self.set_data_transformer(DataTransformer::Csv);
    }

    /// The payload's JSON text, or `null`.
    fn source(&self) -> (r: &str)
        ensures
            r@ == transformer_input(self@),
    {
        match &self.payload {
            Payload::Raw(t) => t.as_str(),
            Payload::Structured(t) => t.as_str(),
            Payload::Empty => "null",
        }
    }

    /// How the body will be produced.
    pub fn encoding(&self) -> (r: Encoding)
        ensures
            r == encoding_of(self@),
    {
        match self.data_transformer {
            Some(t) => Encoding::Transform(t),
            None => {
                let ct = self.content_type();
                if is_json_content_type(ct) {
                    Encoding::Envelope
                } else if matches!(self.payload, Payload::Empty) {
                    Encoding::Empty
                } else if has_prefix(ct, "text/csv") {
                    Encoding::Csv
                } else if has_prefix(ct, "application/jsonlines") {
                    Encoding::JsonLines
                } else if has_prefix(ct, "application/msgpack") {
                    Encoding::MsgPack
                } else {
                    Encoding::PlainText
                }
            },
        }
    }

    /// The JSON envelope text of the response.
    pub fn envelope(&self) -> (r: String)
        ensures
            r@ == envelope_text(self@),
    {
        let ghost m = self@;
        let mut members: Vec<String> = Vec::new();
        assert(strings_view(members@) =~= seq![]);
        push_str_member(&mut members, "\"type\":", &self.type_uri);
        push_str_member(&mut members, "\"title\":", &self.title);
        let mut status = String::from_str("\"status\":");
        status.append(decimal_string(self.status_code as u128).as_str());
        push_member(&mut members, status);
        push_str_member(&mut members, "\"error\":", &self.error_code);
        let (message, detail): (Option<String>, Option<String>) = match &self.outcome {
            Outcome::Success(m) => (m.clone(), None),
            Outcome::Failure(d) => (None, d.clone()),
        };
        push_str_member(&mut members, "\"detail\":", &detail);
        push_str_member(&mut members, "\"instance\":", &self.instance);
        let mut success = String::from_str("\"success\":");
        if self.is_success() {
            success.append("true");
        } else {
            success.append("false");
        }
        push_member(&mut members, success);
        push_str_member(&mut members, "\"message\":", &message);
        if self.request_id != 0 {
            let mut id = String::from_str("\"request_id\":\"");
            id.append(uuid_string(self.request_id).as_str());
            id.append("\"");
            push_member(&mut members, id);
        }
        let raw = match &self.payload {
            Payload::Raw(t) => Some(t),
            _ => None,
        };
        push_raw_member(&mut members, "\"data\":", raw);
        let structured = match &self.payload {
            Payload::Structured(t) => Some(t),
            _ => None,
        };
        push_raw_member(&mut members, "\"data\":", structured);
        assert(strings_view(members@) =~= envelope_members(m));
        let mut s = String::from_str("{");
        s.append(join_strings(&members, ",").as_str());
        s.append("}");
        s
    }

    /// Encodes the body. An encoder's failure is returned, not hidden.
    pub fn read_bytes(&self) -> (r: Result<Vec<u8>, Error>)
        ensures
            match encoding_of(self@) {
                Encoding::Envelope => r is Ok && r->Ok_0@ == encode_utf8(envelope_text(self@)),
                Encoding::Empty => r is Ok && r->Ok_0@ == Seq::<u8>::empty(),
                Encoding::PlainText => r is Ok && r->Ok_0@ == encode_utf8(
                    plain_text_of(transformer_input(self@)),
                ),
                Encoding::Transform(DataTransformer::Json) => r is Ok && r->Ok_0@ == encode_utf8(
                    transformer_input(self@),
                ),
                Encoding::Transform(DataTransformer::JsonLines) | Encoding::JsonLines => jsonlines_outcome(
                    transformer_input(self@),
                    r,
                ),
                Encoding::Transform(DataTransformer::Csv) | Encoding::Csv => csv_outcome(
                    transformer_input(self@),
                    r,
                ),
                Encoding::Transform(DataTransformer::MsgPack) | Encoding::MsgPack => msgpack_outcome(
                    transformer_input(self@),
                    r,
                ),
                Encoding::Transform(DataTransformer::Form) => form_outcome(transformer_input(self@), r),
            },
    {
        let src = self.source();
        match self.encoding() {
            Encoding::Transform(DataTransformer::Json) => Ok(src.as_bytes_vec()),
            Encoding::Transform(DataTransformer::JsonLines) => to_jsonlines(src),
            Encoding::Transform(DataTransformer::MsgPack) => to_msgpack(src),
            Encoding::Transform(DataTransformer::Csv) => to_csv(src),
            Encoding::Transform(DataTransformer::Form) => to_form(src),
            Encoding::Envelope => Ok(self.envelope().as_str().as_bytes_vec()),
            Encoding::Csv => to_csv(src),
            Encoding::JsonLines => to_jsonlines(src),
            Encoding::MsgPack => to_msgpack(src),
            Encoding::PlainText => Ok(plain_text(src)),
            Encoding::Empty => Ok(Vec::new()),
        }
    }

    /// The `(traceparent, tracestate)` pair: from the attached context, or
    /// from a fresh one that names its span under the vendor key.
    pub fn trace_context(&self) -> (r: (String, String))
        ensures
            match self@.trace {
                Some(t) => r.0@ == traceparent_text(t) && r.1@ == tracestate_text(t.trace_state),
                None => exists|t: TraceModel|
                    synthesized_trace(t) && r.0@ == traceparent_text(t) && r.1@ == tracestate_text(
                        t.trace_state,
                    ),
            },
    {
        match &self.trace_context {
            Some(t) => (t.traceparent(), t.tracestate()),
            None => {
                let mut t = TraceContext::new();
                let span = t.span_id();
                t.push_state(String::from_str(VENDOR_KEY), hex_string(span as u128));
                assert(t@.trace_state =~= seq![(VENDOR_KEY@, hex_text(t@.span_id as nat))]);
                assert(synthesized_trace(t@));
                (t.traceparent(), t.tracestate())
            },
        }
    }

    /// The time since the start, in microseconds; reports the status and the
    /// duration to the metrics sink.
    pub fn response_time<M: MetricsSink>(&self, sink: &mut M) -> (r: u64)
        ensures
            final(sink).recorded() == old(sink).recorded().push((self@.status_code, r)),
    {
        let duration = elapsed_micros(&self.start_time);
        sink.record_response(self.status_code, duration);
        duration
    }

    /// Consumes the response and gives its headers, with the request id, the
    /// trace pair and the server timing, which ends with a `total` entry for the
    /// response time.
    pub fn finalize<M: MetricsSink>(self, sink: &mut M) -> (r: Vec<(&'static str, String)>)
        ensures
            exists|traceparent: Seq<char>, tracestate: Seq<char>, d: u64|
                {
                    &&& headers_view(r@) == #[trigger] finalized_headers(self@, traceparent, tracestate, d)
                    &&& match self@.trace {
                        Some(t) => traceparent == traceparent_text(t) && tracestate
                            == tracestate_text(t.trace_state),
                        None => exists|t: TraceModel|
                            synthesized_trace(t) && traceparent == traceparent_text(t)
                                && tracestate == tracestate_text(t.trace_state),
                    }
                    &&& final(sink).recorded() == old(sink).recorded().push((self@.status_code, d))
                },
    {
        let ghost m = self@;
        let mut res = self;
        if res.request_id != 0 {
            let id = uuid_string(res.request_id);
            res.insert_header("x-request-id", id);
        }
        let (traceparent, tracestate) = res.trace_context();
        let ghost tp = traceparent@;
        let ghost ts = tracestate@;
        res.insert_header("traceparent", traceparent);
        res.insert_header("tracestate", tracestate);
        let d = res.response_time(sink);
        res.record_server_timing(String::from_str("total"), None, Some(d));
        let timing = res.server_timing();
        res.insert_header("server-timing", timing);
        proof {
            reveal_strlit("total");
        }
        assert(res@.server_timing == m.server_timing.push(total_metric(d)));
        assert(headers_view(res.headers@) =~= finalized_headers(m, tp, ts, d));
        res.headers
    }

    /// The response for a validation: a plain success when nothing failed,
    /// else a bad request whose payload maps each failed field to its message.
    pub fn from_validation(validation: Validation) -> (r: Self)
        ensures
            validation@.len() == 0 ==> r@ == with_code(blank_model(r@.start_time), StatusCode { code: 200 }),
            validation@.len() != 0 ==> r@ == (ResponseModel {
                data: Some(failure_map_text(validation@)),
                ..with_code(blank_model(r@.start_time), StatusCode { code: 400 })
            }),
    {
        if validation.is_success() {
            Self::new(StatusCode { code: 200 })
        } else {
            let mut res = Self::new(StatusCode { code: 400 });
            res.set_validation_data(validation);
            res
        }
    }
}

/// The status, content type and body of the message sent: the response's own
/// when its body encoded, else an internal error in plain text carrying the
/// error's message.
pub fn http_parts(status_code: u16, content_type: &str, body: Result<Vec<u8>, Error>) -> (r: (
    u16,
    String,
    Vec<u8>,
))
    ensures
        match body {
            Ok(b) => r.0 == status_code && r.1@ == content_type@ && r.2@ == b@,
            Err(e) => r.0 == 500 && r.1@ == "text/plain; charset=utf-8"@ && r.2@ == encode_utf8(e@),
        },
{
    match body {
        Ok(b) => (status_code, String::from_str(content_type), b),
        Err(e) => (500, String::from_str("text/plain; charset=utf-8"), e.message().as_bytes_vec()),
    }
}

impl Default for Response {
    /// A plain success.
    fn default() -> (r: Self)
        ensures
            r@ == with_code(blank_model(r@.start_time), StatusCode { code: 200 }),
    {
        Self::new(StatusCode { code: 200 })
    }
}

} // verus!

verus! {

/// A response never holds both a message and a detail: a message only on a
/// success, a detail only on a failure.
pub proof fn lemma_outcome_exclusive(r: &Response)
    ensures
        !(r@.message is Some && r@.detail is Some),
        r@.message is Some ==> r@.success,
        r@.detail is Some ==> !r@.success,
{
}

/// Applying a code that has a default text leaves exactly one of message and
/// detail set, the one that matches the code's success.
pub proof fn lemma_code_sets_one_text<S: ResponseCode>(m: ResponseModel, code: S)
    requires
        code.spec_message() is Some,
    ensures
        with_code(m, code).message is Some <==> with_code(m, code).success,
        with_code(m, code).detail is Some <==> !with_code(m, code).success,
{
}

/// Setting a message leaves exactly one of message and detail set, the one
/// that matches the unchanged success flag.
pub proof fn lemma_text_sets_one(m: ResponseModel, text: Seq<char>)
    ensures
        with_text(m, text).success == m.success,
        with_text(m, text).message is Some <==> m.success,
        with_text(m, text).detail is Some <==> !m.success,
{
}

/// A response never holds both a pre-serialized and a structured payload.
pub proof fn lemma_payload_exclusive(r: &Response)
    ensures
        !(r@.data is Some && r@.json_data is Some),
{
}

/// The content type is a function of the response: two readings agree, and
/// equal the override when one is set, else the default for the outcome.
pub proof fn lemma_content_type_stable(r: &Response, first: Seq<char>, second: Seq<char>)
    requires
        first == effective_content_type(r@),
        second == effective_content_type(r@),
    ensures
        first == second,
        r@.content_type is Some ==> first == r@.content_type->0,
        r@.content_type is None && r@.success ==> first == "application/json; charset=utf-8"@,
        r@.content_type is None && !r@.success ==> first
            == "application/problem+json; charset=utf-8"@,
{
}

/// The server-timing value of a finalized response ends with its `total` entry.
pub proof fn lemma_total_entry_last(ms: Seq<MetricModel>, d: u64)
    ensures
        ends_with(
            server_timing_text(ms.push(total_metric(d))),
            crate::timing::metric_text(total_metric(d)),
        ),
{
    let all = ms.push(total_metric(d));
    assert(all.last() == total_metric(d));
    assert(all.drop_last() =~= ms);
    let text = server_timing_text(all);
    let tail = crate::timing::metric_text(total_metric(d));
    if ms.len() == 0 {
        assert(text.skip(text.len() - tail.len()) =~= tail);
    } else {
        assert(text == server_timing_text(ms) + seq![',', ' '] + tail);
        assert(text.skip(text.len() - tail.len()) =~= tail);
    }
}

/// Without an encoder and without a content type of its own, a response is
/// sent as its JSON envelope, success or failure.
pub proof fn lemma_default_encoding_is_envelope(m: ResponseModel)
    requires
        m.transformer is None,
        m.content_type is None,
    ensures
        encoding_of(m) == Encoding::Envelope,
{
    reveal_strlit("application/json; charset=utf-8");
    reveal_strlit("application/problem+json; charset=utf-8");
    reveal_strlit("application/json");
    reveal_strlit("application/");
    reveal_strlit("+json");
    reveal_with_fuel(crate::text::index_from, 26);
    let ok = "application/json; charset=utf-8"@;
    let problem = "application/problem+json; charset=utf-8"@;
    assert(crate::text::index_from(ok, ';', 0) == 16);
    assert(before_char(ok, ';') =~= "application/json"@);
    assert(crate::text::index_from(problem, ';', 0) == 24);
    let e = before_char(problem, ';');
    assert(e.take(12) =~= "application/"@);
    assert(e.skip(e.len() - 5) =~= "+json"@);
}

/// A JSON response is encoded by the JSON encoder, on exactly the JSON text
/// that its payload was set from.
pub proof fn lemma_json_response_body(m: ResponseModel, text: Seq<char>)
    ensures
        ({
            let r = ResponseModel {
                transformer: Some(DataTransformer::Json),
                ..with_json_text(m, text)
            };
            encoding_of(r) == Encoding::Transform(DataTransformer::Json) && transformer_input(r)
                == text
        }),
{
}

/// A response made by `new` has no request context.
pub proof fn lemma_new_has_no_context<S: ResponseCode>(code: S, start: std::time::Instant)
    ensures
        !(with_code(blank_model(start), code).trace is Some && with_code(
            blank_model(start),
            code,
        ).request_id != 0),
{
}

} // verus!
