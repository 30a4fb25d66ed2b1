//! The question-answering gateway: its settings, the request that carries a
//! question to the configured endpoint, and the reading of what comes back.
//!
//! The library builds the request and reads the reply; sending is left to its
//! caller.

use crate::payment::{clone_opt, opt_view};
use crate::text::{chars_of, find, find_from, string_of};
use vstd::prelude::*;
use vstd::string::{StrSliceExecFns, StringExecFns};
use vstd::utf8::{decode_utf8, encode_utf8, valid_utf8};

verus! {

/// The most bytes that a reply of the gateway may have.
pub const MAX_RESPONSE_BYTES: u64 = 128 * 1024;

/// The cycles attached to one request to the gateway.
pub const REQUEST_CYCLES: u128 = 20_000_000_000;

/// The double quote, as a text of one character.
pub open spec fn quote() -> Seq<char> {
    seq!['"']
}

/// `s` with a backslash put before every double quote.
pub open spec fn escape_quotes(s: Seq<char>) -> Seq<char>
    decreases s.len(),
{
    if s.len() == 0 {
        s
    } else if s.last() == '"' {
        escape_quotes(s.drop_last()).push('\\').push('"')
    } else {
        escape_quotes(s.drop_last()).push(s.last())
    }
}

/// The JSON object that carries `question` to the gateway.
pub open spec fn question_body(question: Seq<char>) -> Seq<char> {
    "{\"question\":\""@ + escape_quotes(question) + "\"}"@
}

/// `s` with every carriage return that a line feed follows taken out.
pub open spec fn unix_newlines(s: Seq<char>) -> Seq<char>
    decreases s.len(),
{
    if s.len() == 0 {
        s
    } else if s.len() >= 2 && s[s.len() - 2] == '\r' && s.last() == '\n' {
        unix_newlines(s.take(s.len() - 2)).push('\n')
    } else {
        unix_newlines(s.drop_last()).push(s.last())
    }
}

/// The answer in a reply: after the first `"choices"`, then the first
/// `"message"` from there, then the first `"content"` from there, the text
/// between the next double quote and the one after it (or the end of the
/// reply). None where a key or the opening quote is missing or the text is
/// empty.
pub open spec fn answer_in(body: Seq<char>) -> Option<Seq<char>> {
    match find(body, "\"choices\""@, 0) {
        None => None,
        Some(choices) => match find(body, "\"message\""@, choices) {
            None => None,
            Some(message) => match find(body, "\"content\""@, message) {
                None => None,
                Some(content) => match find(body, quote(), content + "\"content\""@.len()) {
                    None => None,
                    Some(opening) => {
                        let start = opening + 1;
                        let end = match find(body, quote(), start) {
                            Some(closing) => closing,
                            None => body.len() as int,
                        };
                        if start == end {
                            None
                        } else {
                            Some(body.subrange(start, end))
                        }
                    },
                },
            },
        },
    }
}

/// What is handed on of a reply: the answer in it, or all of it where no
/// answer is found, with Unix line ends.
pub open spec fn reply_text(body: Seq<char>) -> Seq<char> {
    unix_newlines(
        match answer_in(body) {
            Some(answer) => answer,
            None => body,
        },
    )
}

/// The text that `String::from_utf8_lossy` makes of `bytes`.
pub uninterp spec fn utf8_lossy(bytes: Seq<u8>) -> Seq<char>;

/// `String::from_utf8_lossy`: the bytes as text, each invalid sequence
/// replaced; valid UTF-8 is decoded as it stands.
#[verifier::external_body]
fn lossy_text(bytes: &[u8]) -> (text: String)
    ensures
        text@ == utf8_lossy(bytes@),
        valid_utf8(bytes@) ==> text@ == decode_utf8(bytes@),
{
    String::from_utf8_lossy(bytes).into_owned()
}

/// Extracts the answer from a reply of the gateway.
pub fn extract_answer(body: &str) -> (answer: Option<String>)
    ensures
        opt_view(answer) == answer_in(body@),
{
    let text = chars_of(body);
    let len = text.len();
    let choices = match find_from(&text, &chars_of("\"choices\""), 0) {
        Some(i) => i,
        None => {
            return None;
        },
    };
    let message = match find_from(&text, &chars_of("\"message\""), choices) {
        Some(i) => i,
        None => {
            return None;
        },
    };
    let key = chars_of("\"content\"");
    let content = match find_from(&text, &key, message) {
        Some(i) => i,
        None => {
            return None;
        },
    };
    let mut mark: Vec<char> = Vec::new();
    mark.push('"');
    let opening = match find_from(&text, &mark, content + key.len()) {
        Some(i) => i,
        None => {
            return None;
        },
    };
    let start = opening + 1;
    let end = match find_from(&text, &mark, start) {
        Some(i) => i,
        None => len,
    };
    if start == end {
        None
    } else {
        Some(string_of(&text, start, end))
    }
}

/// `s` with Unix line ends.
pub fn to_unix_newlines(s: &str) -> (out: String)
    ensures
        out@ == unix_newlines(s@),
{
    let text = chars_of(s);
    let mut out = String::new();
    let mut i: usize = 0;
    while i < text.len()
        invariant
            i <= text.len(),
            text@ == s@,
            out@ == unix_newlines(text@.take(i as int)),
            0 < i < text.len() ==> !(text@[i - 1] == '\r' && text@[i as int] == '\n'),
        decreases text.len() - i,
    {
        if text[i] == '\r' && i + 1 < text.len() && text[i + 1] == '\n' {
            assert(text@.take(i + 2).take(i as int) =~= text@.take(i as int));
            out.push('\n');
            i += 2;
        } else {
            assert(text@.take(i + 1).drop_last() =~= text@.take(i as int));
            out.push(text[i]);
            i += 1;
        }
    }
    assert(text@.take(i as int) =~= text@);
    out
}

/// What is handed on of a reply, given as text.
pub fn transform_text(body: &str) -> (out: String)
    ensures
        out@ == reply_text(body@),
{
    match extract_answer(body) {
        Some(answer) => to_unix_newlines(answer.as_str()),
        None => to_unix_newlines(body),
    }
}

/// What is handed on of a reply, bytes to bytes: the reply is read as UTF-8,
/// invalid sequences replaced.
pub fn transform(body: &[u8]) -> (out: Vec<u8>)
    ensures
        out@ == encode_utf8(reply_text(utf8_lossy(body@))),
{
    let text = lossy_text(body);
    let content = transform_text(text.as_str());
    content.as_str().as_bytes_vec()
}

/// The answer to give when the request to the gateway failed with the
/// rejection `code` and the message `message`.
pub open spec fn error_text(code: Seq<char>, message: Seq<char>) -> Seq<char> {
    "[gateway] https error: "@ + code + ": "@ + message
}

/// The answer to the one who asked, from the outcome of the request: the body
/// of the reply read as UTF-8, or the failure with its code and message.
pub open spec fn answer_text(outcome: Result<Vec<u8>, (String, String)>) -> Seq<char> {
    match outcome {
        Ok(body) => utf8_lossy(body@),
        Err((code, message)) => error_text(code@, message@),
    }
}

/// The answer to the one who asked, once the request has come back or failed.
pub fn gateway_reply(outcome: Result<Vec<u8>, (String, String)>) -> (answer: String)
    ensures
        answer@ == answer_text(outcome),
{
    match outcome {
        Ok(body) => lossy_text(body.as_slice()),
        Err((code, message)) => gateway_error(code.as_str(), message.as_str()),
    }
}

/// The answer to give when the request to the gateway failed.
pub fn gateway_error(code: &str, message: &str) -> (answer: String)
    ensures
        answer@ == error_text(code@, message@),
{
    let mut answer = "[gateway] https error: ".to_owned();
    answer.append(code);
    answer.append(": ");
    answer.append(message);
    answer
}

/// The greeting of the service.
pub fn greet() -> (greeting: String)
    ensures
        greeting@ == "AI agent ready (Cloudflare gateway supported)"@,
{
    "AI agent ready (Cloudflare gateway supported)".to_owned()
}

/// One POST request to the gateway: where to send it, its one header, its
/// body, the limits on the reply, and the query that is to read the reply.
#[derive(Debug, PartialEq, Eq)]
pub struct GatewayRequest {
    pub url: String,
    pub header_name: String,
    pub header_value: String,
    pub body: String,
    pub max_response_bytes: u64,
    pub cycles: u128,
    pub transform: String,
}

/// A request to the gateway, as mathematical values.
pub struct Request {
    pub url: Seq<char>,
    pub header_name: Seq<char>,
    pub header_value: Seq<char>,
    pub body: Seq<char>,
    pub max_response_bytes: nat,
    pub cycles: nat,
    pub transform: Seq<char>,
}

impl View for GatewayRequest {
    type V = Request;

    open spec fn view(&self) -> Request {
        Request {
            url: self.url@,
            header_name: self.header_name@,
            header_value: self.header_value@,
            body: self.body@,
            max_response_bytes: self.max_response_bytes as nat,
            cycles: self.cycles as nat,
            transform: self.transform@,
        }
    }
}

/// What is to be done about a question.
#[derive(Debug, PartialEq, Eq)]
pub enum AskStep {
    /// No request is made, and this is the answer.
    Reply(String),
    /// This request is to be sent.
    Post(GatewayRequest),
}

/// A step for a question, as mathematical values.
pub enum Ask {
    Reply(Seq<char>),
    Post(Request),
}

impl View for AskStep {
    type V = Ask;

    open spec fn view(&self) -> Ask {
        match self {
            AskStep::Reply(answer) => Ask::Reply(answer@),
            AskStep::Post(request) => Ask::Post(request@),
        }
    }
}

/// The settings of the gateway, as mathematical values.
pub struct Settings {
    pub api_key: Option<Seq<char>>,
    pub gateway_url: Option<Seq<char>>,
}

/// The settings of the gateway: an API key and the address of the endpoint,
/// each set or not.
pub struct GatewayConfig {
    api_key: Option<String>,
    gateway_url: Option<String>,
}

impl View for GatewayConfig {
    type V = Settings;

    closed spec fn view(&self) -> Settings {
        Settings { api_key: opt_view(self.api_key), gateway_url: opt_view(self.gateway_url) }
    }
}

/// The step for `question` under `settings`: without an endpoint an answer
/// that says so; with one, a request to it that carries the question.
pub open spec fn ask_step(settings: Settings, question: Seq<char>) -> Ask {
    match settings.gateway_url {
        None => Ask::Reply(
            "Gateway not configured. Call this canister via a Cloudflare Worker gateway or use the frontend browser gateway."@,
        ),
        Some(url) => Ask::Post(
            Request {
                url,
                header_name: "Content-Type"@,
                header_value: "application/json"@,
                body: question_body(question),
                max_response_bytes: MAX_RESPONSE_BYTES as nat,
                cycles: REQUEST_CYCLES as nat,
                transform: "transform"@,
            },
        ),
    }
}

impl GatewayConfig {
    /// Settings with nothing set.
    pub fn new() -> (config: GatewayConfig)
        ensures
            config@ == (Settings { api_key: None, gateway_url: None }),
    {
        GatewayConfig { api_key: None, gateway_url: None }
    }

    /// Settings as they were saved.
    pub fn restore(api_key: Option<String>, gateway_url: Option<String>) -> (config:
        GatewayConfig)
        ensures
            config@ == (Settings {
                api_key: opt_view(api_key),
                gateway_url: opt_view(gateway_url),
            }),
    {
        GatewayConfig { api_key, gateway_url }
    }

    /// The settings to save: the API key, then the address.
    pub fn saved(&self) -> (parts: (Option<String>, Option<String>))
        ensures
            opt_view(parts.0) == self@.api_key,
            opt_view(parts.1) == self@.gateway_url,
    {
        (clone_opt(&self.api_key), clone_opt(&self.gateway_url))
    }

    /// Sets the API key.
    pub fn set_api_key(&mut self, key: String) -> (done: String)
        ensures
            done@ == "ok"@,
            final(self)@ == (Settings { api_key: Some(key@), ..old(self)@ }),
    {
        self.api_key = Some(key);
        "ok".to_owned()
    }

    /// Whether an API key is set.
    pub fn has_api_key(&self) -> (has: bool)
        ensures
            has == self@.api_key is Some,
    {
        self.api_key.is_some()
    }

    /// Sets the address of the gateway.
    pub fn set_gateway_url(&mut self, url: String) -> (done: String)
        ensures
            done@ == "ok"@,
            final(self)@ == (Settings { gateway_url: Some(url@), ..old(self)@ }),
    {
        self.gateway_url = Some(url);
        "ok".to_owned()
    }

    /// Forgets the address of the gateway.
    pub fn clear_gateway_url(&mut self) -> (done: String)
        ensures
            done@ == "ok"@,
            final(self)@ == (Settings { gateway_url: None, ..old(self)@ }),
    {
        self.gateway_url = None;
        "ok".to_owned()
    }

    /// The address of the gateway, if one is set.
    pub fn get_gateway_url(&self) -> (url: Option<String>)
        ensures
            opt_view(url) == self@.gateway_url,
    {
        clone_opt(&self.gateway_url)
    }

    /// Decides what to do about `question`: the request to send to the
    /// gateway, or, where no gateway is set, the answer that says so. The
    /// upstream service is never called directly.
    pub fn ask_deepseek(&self, question: &str) -> (step: AskStep)
        ensures
            step@ == ask_step(self@, question@),
    {
        match &self.gateway_url {
            None => AskStep::Reply(
                "Gateway not configured. Call this canister via a Cloudflare Worker gateway or use the frontend browser gateway.".to_owned(),
            ),
            Some(url) => AskStep::Post(
                GatewayRequest {
                    url: url.clone(),
                    header_name: "Content-Type".to_owned(),
                    header_value: "application/json".to_owned(),
                    body: build_question_body(question),
                    max_response_bytes: MAX_RESPONSE_BYTES,
                    cycles: REQUEST_CYCLES,
                    transform: "transform".to_owned(),
                },
            ),
        }
    }
}

/// The JSON object that carries `question`.
pub fn build_question_body(question: &str) -> (body: String)
    ensures
        body@ == question_body(question@),
{
    let text = chars_of(question);
    let mut body = "{\"question\":\"".to_owned();
    let ghost head = body@;
    let mut i: usize = 0;
    while i < text.len()
        invariant
            i <= text.len(),
            body@ == head + escape_quotes(text@.take(i as int)),
        decreases text.len() - i,
    {
        assert(text@.take(i + 1).drop_last() =~= text@.take(i as int));
        if text[i] == '"' {
            body.push('\\');
            body.push('"');
        } else {
            body.push(text[i]);
        }
        i += 1;
    }
    assert(text@.take(i as int) =~= text@);
    body.append("\"}");
    body
}

} // verus!
