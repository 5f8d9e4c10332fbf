//! HTTP client for an externally running `llama-server` (OpenAI-compatible API).

use vstd::prelude::*;

use crate::client::{encode_b64, InferenceRequest, InferenceResponse};
use crate::error::{prefixed, VisionError};
use crate::text::{chars_of, string_from_range};
use crate::trusted::{base64_spec, json_pointer_str, json_str_at, new_http_client};

verus! {

/// How long an idle pooled connection is kept, in seconds.
pub const POOL_IDLE_TIMEOUT_SECS: u64 = 30;

/// Where an OpenAI-style error body holds its message (a JSON pointer).
pub const ERROR_MESSAGE_POINTER: &'static str = "/error/message";

/// A `llama-server` address with the HTTP connection pool used to reach it.
#[derive(Debug)]
pub struct ServerClient {
    base_url: String,
    http: reqwest::Client,
}

/// `s` without its trailing `'/'` characters.
pub open spec fn trim_slashes(s: Seq<char>) -> Seq<char>
    decreases s.len(),
{
    if s.len() > 0 && s.last() == '/' {
        trim_slashes(s.drop_last())
    } else {
        s
    }
}

/// The first `n` characters of `s`, or all of them when it is shorter
/// (`s.chars().take(n)`).
pub open spec fn first_chars(s: Seq<char>, n: nat) -> Seq<char> {
    if s.len() <= n {
        s
    } else {
        s.take(n as int)
    }
}

/// The first `n` characters of `s`.
pub fn take_chars(s: &str, n: usize) -> (r: String)
    ensures
        r@ == first_chars(s@, n as nat),
{
    let v = chars_of(s);
    let k = if v.len() <= n {
        v.len()
    } else {
        n
    };
    let r = string_from_range(&v, 0, k);
    assert(r@ =~= first_chars(s@, n as nat));
    r
}

/// `s` without its trailing `'/'` characters.
pub fn trim_trailing_slashes(s: &str) -> (r: String)
    ensures
        r@ == trim_slashes(s@),
{
    let v = chars_of(s);
    let mut j = v.len();
    assert(v@.take(j as int) =~= v@);
    while j > 0 && v[j - 1] == '/'
        invariant
            j <= v@.len(),
            v@ == s@,
            trim_slashes(s@) == trim_slashes(v@.take(j as int)),
        decreases j,
    {
        assert(v@.take(j as int).drop_last() =~= v@.take(j - 1));
        j = j - 1;
    }
    let r = string_from_range(&v, 0, j);
    assert(r@ =~= v@.take(j as int));
    r
}

/// One part of a chat message.
#[derive(Debug, Clone)]
pub enum MessagePart {
    Text { text: String },
    ImageUrl { image_url: ImageUrl },
}

/// An image passed by URL (here a `data:` URL).
#[derive(Debug, Clone)]
pub struct ImageUrl {
    pub url: String,
}

/// One chat message.
#[derive(Debug, Clone)]
pub struct ChatMessage {
    pub role: String,
    pub content: Vec<MessagePart>,
}

/// Body of `POST /v1/chat/completions`.
#[derive(Debug, Clone)]
pub struct ChatRequest {
    pub model: String,
    pub messages: Vec<ChatMessage>,
    /// Sampling temperature, as the bit pattern of an `f32`.
    pub temperature_bits: u32,
    pub max_tokens: u32,
    pub stream: bool,
}

/// The message part of a choice in the server's reply.
#[derive(Debug, Clone)]
pub struct ChoiceMessage {
    pub content: String,
}

/// One choice in the server's reply.
#[derive(Debug, Clone)]
pub struct Choice {
    pub message: ChoiceMessage,
}

/// Token usage in the server's reply.
#[derive(Debug, Clone)]
pub struct Usage {
    pub completion_tokens: u32,
}

/// The server's reply to a chat completion.
#[derive(Debug, Clone)]
pub struct ChatResponse {
    pub model: Option<String>,
    pub choices: Vec<Choice>,
    pub usage: Option<Usage>,
}

/// What came back over HTTP: whether the status is a success, the status as
/// `reqwest::StatusCode` displays it, and the body text.
#[derive(Debug, Clone)]
pub struct HttpReply {
    pub success: bool,
    pub status: String,
    pub body: String,
}

/// A request that failed before a body was read, with the HTTP error's text.
#[derive(Debug, Clone)]
pub enum TransportFailure {
    /// Sending the request failed.
    Request(String),
    /// Reading the body failed.
    ReadBody(String),
}

/// A `data:` URL holding a PNG image.
pub open spec fn data_url(image: Seq<u8>) -> Seq<char> {
    "data:image/png;base64,"@ + base64_spec(image)
}

/// Whether `p` is a text part holding `t`.
pub open spec fn is_text_part(p: MessagePart, t: Seq<char>) -> bool {
    p matches MessagePart::Text { text } && text@ == t
}

/// Whether `p` is an image part holding `image` as a data URL.
pub open spec fn is_image_part(p: MessagePart, image: Seq<u8>) -> bool {
    p matches MessagePart::ImageUrl { image_url } && image_url.url@ == data_url(image)
}

/// The body sent for `req`: model `vision`, one `user` message holding the prompt
/// and the image (then the second image, when there is one), not streamed.
pub open spec fn chat_request_for(c: ChatRequest, req: InferenceRequest) -> bool {
    &&& c.model@ == "vision"@
    &&& c.temperature_bits == req.temperature_bits
    &&& c.max_tokens == req.max_tokens
    &&& !c.stream
    &&& c.messages@.len() == 1
    &&& c.messages@[0].role@ == "user"@
    &&& c.messages@[0].content@.len() == if req.image_b is Some {
        3int
    } else {
        2int
    }
    &&& is_text_part(c.messages@[0].content@[0], req.prompt@)
    &&& is_image_part(c.messages@[0].content@[1], req.image@)
    &&& (req.image_b matches Some(b) ==> is_image_part(c.messages@[0].content@[2], b@))
}

/// How a completion exchange ends: the response's view (text, tokens, time, model)
/// or the text of the `Analysis` error.
pub open spec fn reply_outcome(
    sent: Result<HttpReply, TransportFailure>,
    parsed: Result<ChatResponse, String>,
    elapsed_ms: u64,
) -> Result<(Seq<char>, u32, u64, Seq<char>), Seq<char>> {
    match sent {
        Err(TransportFailure::Request(m)) => Err("server request: "@ + m@),
        Err(TransportFailure::ReadBody(m)) => Err("server read body: "@ + m@),
        Ok(reply) => if !reply.success {
            let snippet = match json_pointer_str(reply.body@, ERROR_MESSAGE_POINTER@) {
                Some(m) => m,
                None => first_chars(reply.body@, 200),
            };
            Err("server http "@ + reply.status@ + ": "@ + snippet)
        } else {
            match parsed {
                Err(e) => Err(
                    "server parse: "@ + e@ + "; body: "@ + first_chars(reply.body@, 200),
                ),
                Ok(p) => if p.choices@.len() == 0 {
                    Err("server returned no choices"@)
                } else {
                    Ok(
                        (
                            p.choices@[0].message.content@,
                            match p.usage {
                                Some(u) => u.completion_tokens,
                                None => 0u32,
                            },
                            elapsed_ms,
                            match p.model {
                                Some(m) => m@,
                                None => "unknown"@,
                            },
                        ),
                    )
                },
            }
        },
    }
}

/// How a health check ends: `Ok` or the text of the `BackendUnavailable` error.
pub open spec fn health_outcome(sent: Result<(bool, String), String>) -> Result<(), Seq<char>> {
    match sent {
        Err(m) => Err("health: "@ + m@),
        Ok((success, status)) => if success {
            Ok(())
        } else {
            Err("health http "@ + status@)
        },
    }
}

fn image_part(image: &[u8]) -> (p: MessagePart)
    requires
        image@.len() <= usize::MAX / 2,
    ensures
        is_image_part(p, image@),
{
    let b = encode_b64(image);
    let url = prefixed("data:image/png;base64,", b.as_str(), "");
    proof {
        reveal_strlit("");
        assert(url@ =~= data_url(image@));
    }
    MessagePart::ImageUrl { image_url: ImageUrl { url } }
}

impl ServerClient {
    /// A client for the server at `base_url`, with trailing slashes removed, and a
    /// connection pool that keeps idle connections for `POOL_IDLE_TIMEOUT_SECS`.
    /// Building the pool fails when the TLS backend cannot start; that comes back
    /// as an `Http` error.
    pub fn new(base_url: &str) -> (r: Result<Self, VisionError>)
        ensures
            (match r {
                Ok(c) => c.base_url_view() == trim_slashes(base_url@),
                Err(e) => e is Http,
            }),
    {
        let url = trim_trailing_slashes(base_url);
        match new_http_client(POOL_IDLE_TIMEOUT_SECS) {
            Ok(http) => Ok(ServerClient { base_url: url, http }),
            Err(e) => Err(VisionError::Http(e)),
        }
    }

    /// The server address, without trailing slashes.
    pub closed spec fn base_url_view(&self) -> Seq<char> {
        self.base_url@
    }

    /// The server address, without trailing slashes.
    pub fn base_url(&self) -> (r: &str)
        ensures
            r@ == self.base_url_view(),
    {
        self.base_url.as_str()
    }

    /// The HTTP connection pool the client holds.
    pub closed spec fn http_pool(&self) -> reqwest::Client {
        self.http
    }

    /// The HTTP connection pool.
    pub fn http(&self) -> (r: &reqwest::Client)
        ensures
            *r == self.http_pool(),
    {
        &self.http
    }

    /// `{base}/health`.
    pub fn health_url(&self) -> (r: String)
        ensures
            r@ == self.base_url_view() + "/health"@,
    {
        let mut r = self.base_url.clone();
        r.append("/health");
        r
    }

    /// `{base}/v1/chat/completions`.
    pub fn completions_url(&self) -> (r: String)
        ensures
            r@ == self.base_url_view() + "/v1/chat/completions"@,
    {
        let mut r = self.base_url.clone();
        r.append("/v1/chat/completions");
        r
    }

    /// The address a quick probe asks: `base_url` without trailing slashes, then `/health`.
    pub fn probe_url(base_url: &str) -> (r: String)
        ensures
            r@ == trim_slashes(base_url@) + "/health"@,
    {
        let mut r = trim_trailing_slashes(base_url);
        r.append("/health");
        r
    }

    /// The chat-completion body for `req`.
    pub fn chat_request(req: &InferenceRequest) -> (c: ChatRequest)
        requires
            req.image@.len() <= usize::MAX / 2,
            req.image_b matches Some(b) ==> b@.len() <= usize::MAX / 2,
        ensures
            chat_request_for(c, *req),
    {
        let mut parts: Vec<MessagePart> = Vec::new();
        parts.push(MessagePart::Text { text: req.prompt.clone() });
        parts.push(image_part(req.image.as_slice()));
        match &req.image_b {
            Some(b) => {
                parts.push(image_part(b.as_slice()));
            },
            None => {},
        }
        let mut messages: Vec<ChatMessage> = Vec::new();
        messages.push(ChatMessage { role: String::from_str("user"), content: parts });
        ChatRequest {
            model: String::from_str("vision"),
            messages,
            temperature_bits: req.temperature_bits,
            max_tokens: req.max_tokens,
            stream: false,
        }
    }

    /// The result of a health check, given how the `GET /health` went: `Ok` with
    /// whether the status is a success and the status text, or the error's text.
    pub fn health_result(sent: &Result<(bool, String), String>) -> (r: Result<(), VisionError>)
        ensures
            (match health_outcome(*sent) {
                Ok(()) => r is Ok,
                Err(m) => r matches Err(VisionError::BackendUnavailable(t)) && t@ == m,
            }),
    {
        proof {
            reveal_strlit("");
        }
        match sent {
            Err(m) => Err(VisionError::BackendUnavailable(prefixed("health: ", m.as_str(), ""))),
            Ok((success, status)) => {
                if *success {
                    Ok(())
                } else {
                    Err(
                        VisionError::BackendUnavailable(
                            prefixed("health http ", status.as_str(), ""),
                        ),
                    )
                }
            },
        }
    }

    /// The result of a chat completion, given how the exchange went, the body
    /// parsed as a `ChatResponse` (or the parse error's text), and the time taken.
    pub fn interpret_reply(
        sent: Result<HttpReply, TransportFailure>,
        parsed: Result<ChatResponse, String>,
        elapsed_ms: u64,
    ) -> (r: Result<InferenceResponse, VisionError>)
        ensures
            (match reply_outcome(sent, parsed, elapsed_ms) {
                Ok((text, tokens, time_ms, model)) => r matches Ok(resp) && resp.text@ == text
                    && resp.tokens == tokens && resp.time_ms == time_ms && resp.model@ == model,
                Err(m) => r matches Err(VisionError::Analysis(t)) && t@ == m,
            }),
    {
        proof {
            reveal_strlit("");
        }
        match sent {
            Err(TransportFailure::Request(m)) => Err(
                VisionError::Analysis(prefixed("server request: ", m.as_str(), "")),
            ),
            Err(TransportFailure::ReadBody(m)) => Err(
                VisionError::Analysis(prefixed("server read body: ", m.as_str(), "")),
            ),
            Ok(reply) => {
                if !reply.success {
                    let snippet = match json_str_at(reply.body.as_str(), ERROR_MESSAGE_POINTER) {
                        Some(m) => m,
                        None => take_chars(reply.body.as_str(), 200),
                    };
                    let mut t = prefixed("server http ", reply.status.as_str(), ": ");
                    t.append(snippet.as_str());
                    return Err(VisionError::Analysis(t));
                }
                match parsed {
                    Err(e) => {
                        let mut t = prefixed("server parse: ", e.as_str(), "; body: ");
                        let snippet = take_chars(reply.body.as_str(), 200);
                        t.append(snippet.as_str());
                        Err(VisionError::Analysis(t))
                    },
                    Ok(p) => {
                        if p.choices.len() == 0 {
                            return Err(
                                VisionError::Analysis(String::from_str("server returned no choices")),
                            );
                        }
                        let tokens = match &p.usage {
                            Some(u) => u.completion_tokens,
                            None => 0,
                        };
                        let model = match &p.model {
                            Some(m) => m.clone(),
                            None => String::from_str("unknown"),
                        };
                        let text = p.choices[0].message.content.clone();
                        Ok(InferenceResponse { text, tokens, time_ms: elapsed_ms, model })
                    },
                }
            },
        }
    }
}


/// Trimming slashes keeps a prefix of the address, leaves no trailing slash, and
/// changes nothing when done twice.
pub proof fn law_base_url_trim(s: Seq<char>)
    ensures
        trim_slashes(s).len() <= s.len(),
        trim_slashes(s) == s.take(trim_slashes(s).len() as int),
        trim_slashes(s).len() == 0 || trim_slashes(s).last() != '/',
        trim_slashes(trim_slashes(s)) == trim_slashes(s),
    decreases s.len(),
{
    if s.len() > 0 && s.last() == '/' {
        law_base_url_trim(s.drop_last());
        let t = trim_slashes(s.drop_last());
        assert(s.drop_last().take(t.len() as int) =~= s.take(t.len() as int));
    } else {
        assert(s.take(s.len() as int) =~= s);
    }
}

/// The body sent to the server carries the request unchanged: the user's sampling
/// temperature and token limit, the prompt as the first part of one `user`
/// message, then each image as a PNG data URL in order, for the model `vision`,
/// without streaming.
pub proof fn law_chat_request_carries_request(c: ChatRequest, req: InferenceRequest)
    requires
        chat_request_for(c, req),
    ensures
        c.temperature_bits == req.temperature_bits,
        c.max_tokens == req.max_tokens,
        !c.stream,
        c.model@ == "vision"@,
        c.messages@.len() == 1,
        c.messages@[0].role@ == "user"@,
        c.messages@[0].content@.len() == 2 + (if req.image_b is Some { 1int } else { 0int }),
        c.messages@[0].content@[0] matches MessagePart::Text { text } && text@ == req.prompt@,
        c.messages@[0].content@[1] matches MessagePart::ImageUrl { image_url } && image_url.url@
            == "data:image/png;base64,"@ + base64_spec(req.image@),
        req.image_b is Some ==> (c.messages@[0].content@[2] matches MessagePart::ImageUrl {
            image_url,
        } && image_url.url@ == "data:image/png;base64,"@ + base64_spec(req.image_b->0@)),
{
}

/// A successful reply gives the first choice's text, the completion tokens (0
/// when not reported), the time taken and the reported model (`unknown` when not
/// reported); a reply without choices, a body that does not parse, an error status
/// and a failed exchange are analysis errors.
pub proof fn law_reply_outcome(
    sent: Result<HttpReply, TransportFailure>,
    parsed: Result<ChatResponse, String>,
    elapsed_ms: u64,
)
    ensures
        ({
            let o = reply_outcome(sent, parsed, elapsed_ms);
            let ok_reply = sent is Ok && sent->Ok_0.success;
            &&& (ok_reply && parsed is Ok && parsed->Ok_0.choices@.len() > 0) ==> (o is Ok
                && o->Ok_0 == (
                parsed->Ok_0.choices@[0].message.content@,
                match parsed->Ok_0.usage {
                    Some(u) => u.completion_tokens,
                    None => 0u32,
                },
                elapsed_ms,
                match parsed->Ok_0.model {
                    Some(m) => m@,
                    None => "unknown"@,
                },
            ))
            &&& (ok_reply && parsed is Ok && parsed->Ok_0.choices@.len() == 0) ==> o is Err
            &&& (ok_reply && parsed is Err) ==> o is Err
            &&& (sent is Ok && !sent->Ok_0.success) ==> o is Err
            &&& sent is Err ==> o is Err
        }),
{
}

} // verus!
