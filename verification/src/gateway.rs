//! The generation gateway: what is asked of the text-generation service and
//! how its answer is read.
//!
//! The library neither opens a connection nor waits for one. It builds the
//! request that a transport sends, and reads the bytes that came back.

use vstd::prelude::*;
use vstd::string::StringExecFns;

verus! {

/// `serde_json::Value`, a parsed JSON document. Opaque here: the contracts
/// speak of it through [`json_strings`].
#[verifier::external_type_specification]
#[verifier::external_body]
pub struct ExJsonValue(serde_json::Value);

/// `serde_json::Error`, the reason a parse failed. Never inspected.
#[verifier::external_type_specification]
#[verifier::external_body]
pub struct ExJsonError(serde_json::Error);

/// The strings held in a JSON value: each chain of object keys that leads
/// from the value itself to a JSON string is mapped to that string. A value
/// that is itself a string holds it under the empty chain.
pub uninterp spec fn json_strings(value: serde_json::Value) -> Map<Seq<Seq<char>>, Seq<char>>;

/// The strings held in the JSON document that `bytes` spell, or `None` where
/// `bytes` are not one JSON document.
pub uninterp spec fn json_document(bytes: Seq<u8>) -> Option<Map<Seq<Seq<char>>, Seq<char>>>;

/// The strings that `strings` holds below the object key `key`.
pub open spec fn strings_under(strings: Map<Seq<Seq<char>>, Seq<char>>, key: Seq<char>) -> Map<
    Seq<Seq<char>>,
    Seq<char>,
> {
    Map::new(
        |chain: Seq<Seq<char>>| strings.contains_key(seq![key] + chain),
        |chain: Seq<Seq<char>>| strings[seq![key] + chain],
    )
}

/// The string that a value itself is, if it is one.
pub open spec fn own_string(strings: Map<Seq<Seq<char>>, Seq<char>>) -> Option<Seq<char>> {
    if strings.contains_key(Seq::empty()) {
        Some(strings[Seq::empty()])
    } else {
        None
    }
}

/// `serde_json::from_slice` at type `Value`. Trusted: it succeeds exactly on
/// the byte strings that are one JSON document, and the value it returns
/// holds the strings of that document. The same bytes always parse alike.
#[verifier::external_body]
fn parse_document(bytes: &[u8]) -> (r: Result<serde_json::Value, serde_json::Error>)
    ensures
        r is Ok <==> json_document(bytes@) is Some,
        r matches Ok(value) ==> json_document(bytes@) == Some(json_strings(value)),
{
    serde_json::from_slice::<serde_json::Value>(bytes)
}

/// Indexing a `serde_json::Value` by a string key. Trusted: for an object
/// that has the key the result is that member; for anything else it is JSON
/// `null`, which holds no string. So the result holds exactly what the value
/// holds below the key.
#[verifier::external_body]
fn member<'a>(value: &'a serde_json::Value, key: &str) -> (r: &'a serde_json::Value)
    ensures
        json_strings(*r) == strings_under(json_strings(*value), key@),
{
    &value[key]
}

/// `serde_json::Value::as_str`. Trusted: it returns the string where the
/// value is a JSON string, and `None` for every other value.
#[verifier::external_body]
fn as_text<'a>(value: &'a serde_json::Value) -> (r: Option<&'a str>)
    ensures
        match r {
            Some(text) => own_string(json_strings(*value)) == Some(text@),
            None => own_string(json_strings(*value)) is None,
        },
{
    value.as_str()
}

/// Why the gateway gave no reply.
#[derive(Clone, Copy, Debug, PartialEq, Eq, Structural)]
pub enum GatewayError {
    /// The service could not be reached.
    Unavailable,
    /// The service answered with something that is not JSON.
    Protocol,
}

/// What the service said.
#[derive(Debug, PartialEq, Eq)]
pub enum GatewayReply {
    /// The reply text.
    Text(String),
    /// A well-formed answer that carries no reply text.
    Missing,
}

pub enum GatewayReplyView {
    Text(Seq<char>),
    Missing,
}

impl View for GatewayReply {
    type V = GatewayReplyView;

    open spec fn view(&self) -> GatewayReplyView {
        match self {
            GatewayReply::Text(text) => GatewayReplyView::Text(text@),
            GatewayReply::Missing => GatewayReplyView::Missing,
        }
    }
}

/// The text that stands for a missing reply.
pub open spec fn sentinel() -> Seq<char> {
    "AI Error"@
}

impl GatewayReplyView {
    /// The text the relay records and returns for this reply: a missing
    /// reply degrades to the sentinel.
    pub open spec fn text(self) -> Seq<char> {
        match self {
            GatewayReplyView::Text(text) => text,
            GatewayReplyView::Missing => sentinel(),
        }
    }

    /// The reply that an answer with this content field carries.
    pub open spec fn of_content(content: Option<Seq<char>>) -> GatewayReplyView {
        match content {
            Some(text) => GatewayReplyView::Text(text),
            None => GatewayReplyView::Missing,
        }
    }
}

impl GatewayReply {
    /// The reply that an answer with this content field carries.
    pub fn of_content(content: Option<&str>) -> (reply: GatewayReply)
        ensures
            reply@ == GatewayReplyView::of_content(
                match content {
                    Some(text) => Some(text@),
                    None => None,
                },
            ),
    {
        match content {
            Some(text) => GatewayReply::Text(text.to_owned()),
            None => GatewayReply::Missing,
        }
    }

    /// The text the relay records and returns for this reply.
    pub fn into_text(self) -> (text: String)
        ensures
            text@ == self@.text(),
    {
        match self {
            GatewayReply::Text(text) => text,
            GatewayReply::Missing => "AI Error".to_owned(),
        }
    }
}

/// The chain of keys under which an answer carries its reply text.
pub open spec fn reply_path() -> Seq<Seq<char>> {
    seq!["message"@, "content"@]
}

/// What an answer's body means.
pub open spec fn body_meaning(body: Seq<u8>) -> Result<GatewayReplyView, GatewayError> {
    match json_document(body) {
        None => Err(GatewayError::Protocol),
        Some(strings) => if strings.contains_key(reply_path()) {
            Ok(GatewayReplyView::Text(strings[reply_path()]))
        } else {
            Ok(GatewayReplyView::Missing)
        },
    }
}

/// What a transport's result means: `None` stands for a service that could
/// not be reached.
pub open spec fn response_meaning(response: Option<Seq<u8>>) -> Result<
    GatewayReplyView,
    GatewayError,
> {
    match response {
        None => Err(GatewayError::Unavailable),
        Some(body) => body_meaning(body),
    }
}

/// View of a gateway result.
pub open spec fn outcome_view(outcome: Result<GatewayReply, GatewayError>) -> Result<
    GatewayReplyView,
    GatewayError,
> {
    match outcome {
        Ok(reply) => Ok(reply@),
        Err(e) => Err(e),
    }
}

/// Reads the body of an answer: the reply text is the string under
/// `message.content`; a document without one is a missing reply, and bytes
/// that are no JSON document are a protocol error.
pub fn read_body(body: &[u8]) -> (r: Result<GatewayReply, GatewayError>)
    ensures
        outcome_view(r) == body_meaning(body@),
{
    match parse_document(body) {
        Err(_) => Err(GatewayError::Protocol),
        Ok(document) => {
            let message = member(&document, "message");
            let content = member(message, "content");
            let text = as_text(content);
            proof {
                let strings = json_strings(document);
                let empty = Seq::<Seq<char>>::empty();
                assert(seq!["message"@] + seq!["content"@] =~= reply_path());
                assert(json_strings(*content).contains_key(empty) == strings.contains_key(
                    reply_path(),
                ));
            }
            Ok(GatewayReply::of_content(text))
        },
    }
}

/// Reads what a transport brought back.
pub fn read_response(response: Option<Vec<u8>>) -> (r: Result<GatewayReply, GatewayError>)
    ensures
        outcome_view(r) == response_meaning(
            match response {
                Some(body) => Some(body@),
                None => None,
            },
        ),
{
    match response {
        None => Err(GatewayError::Unavailable),
        Some(body) => read_body(body.as_slice()),
    }
}

/// Where the generation service listens.
pub const ENDPOINT: &'static str = "http://localhost:11434/api/generate";

/// The model that answers for every agent.
pub const MODEL: &'static str = "qwen2.5-coder";

/// The model that answers for every agent.
pub open spec fn model_name() -> Seq<char> {
    MODEL@
}

/// How an agent's profile appears in a prompt.
pub open spec fn profile_rendering(profile: Option<Seq<char>>) -> Seq<char> {
    match profile {
        Some(text) => "Some("@ + text + ")"@,
        None => "None"@,
    }
}

/// The prompt for one turn: the agent's profile, then the human's text.
pub open spec fn prompt_text(profile: Option<Seq<char>>, input: Seq<char>) -> Seq<char> {
    "AI Profile: "@ + profile_rendering(profile) + "\nTopic: "@ + input
}

/// What is asked of the service.
#[derive(Debug, PartialEq, Eq)]
pub struct GenerationRequest {
    pub model: String,
    pub prompt: String,
}

pub struct GenerationRequestView {
    pub model: Seq<char>,
    pub prompt: Seq<char>,
}

impl View for GenerationRequest {
    type V = GenerationRequestView;

    open spec fn view(&self) -> GenerationRequestView {
        GenerationRequestView { model: self.model@, prompt: self.prompt@ }
    }
}

impl GenerationRequestView {
    /// The request for one turn.
    pub open spec fn for_turn(profile: Option<Seq<char>>, input: Seq<char>) -> Self {
        GenerationRequestView { model: model_name(), prompt: prompt_text(profile, input) }
    }
}

/// Builds the prompt for one turn.
pub fn build_prompt(profile: &Option<String>, input: &str) -> (prompt: String)
    ensures
        prompt@ == prompt_text(crate::models::text_of(*profile), input@),
{
    let mut prompt = String::from_str("AI Profile: ");
    match profile {
        Some(text) => {
            prompt.append("Some(");
            prompt.append(text.as_str());
            prompt.append(")");
        },
        None => {
            prompt.append("None");
        },
    }
    prompt.append("\nTopic: ");
    prompt.append(input);
    prompt
}

impl GenerationRequest {
    /// The request that asks for the answer of an agent with the given
    /// profile to `input`.
    pub fn for_turn(profile: &Option<String>, input: &str) -> (request: GenerationRequest)
        ensures
            request@ == GenerationRequestView::for_turn(
                crate::models::text_of(*profile),
                input@,
            ),
    {
        GenerationRequest {
            model: MODEL.to_owned(),
            prompt: build_prompt(profile, input),
        }
    }
}

} // verus!
