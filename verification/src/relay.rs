//! The conversation relay.
//!
//! One turn takes a bearer token and a text. The relay resolves the caller,
//! records the text, lets only humans go on, selects an agent, asks the
//! gateway for the agent's answer, records the answer and returns it. Each
//! step can end the turn, and nothing that was recorded is taken back.
//!
//! The relay itself touches neither store nor network. It is a machine: it
//! names the next thing to do, and is told how that went.

use crate::gateway::{
    outcome_view, GatewayError, GatewayReply, GatewayReplyView, GenerationRequest,
    GenerationRequestView,
};
use crate::models::{views, NewMessage, NewMessageView, User, UserView};
use crate::response::{ApiResponse, InternalError};
use crate::selector::{draw_position, select_at, selected};
use vstd::prelude::*;

verus! {

/// How a turn ended.
#[derive(Debug, PartialEq, Eq)]
pub enum RelayResult {
    /// The agent's answer.
    Success(String),
    /// The token is absent or is no user's live token.
    InvalidSession,
    /// The caller is no human: agents cannot start a conversation.
    RoleNotPermitted,
    /// No agent is registered.
    NoResponderAvailable,
    /// A store failed.
    StorageUnavailable,
    /// The generation service could not be reached.
    GatewayUnavailable,
    /// The generation service answered with something unreadable.
    GatewayProtocolError,
}

pub enum RelayResultView {
    Success(Seq<char>),
    InvalidSession,
    RoleNotPermitted,
    NoResponderAvailable,
    StorageUnavailable,
    GatewayUnavailable,
    GatewayProtocolError,
}

impl View for RelayResult {
    type V = RelayResultView;

    open spec fn view(&self) -> RelayResultView {
        match self {
            RelayResult::Success(reply) => RelayResultView::Success(reply@),
            RelayResult::InvalidSession => RelayResultView::InvalidSession,
            RelayResult::RoleNotPermitted => RelayResultView::RoleNotPermitted,
            RelayResult::NoResponderAvailable => RelayResultView::NoResponderAvailable,
            RelayResult::StorageUnavailable => RelayResultView::StorageUnavailable,
            RelayResult::GatewayUnavailable => RelayResultView::GatewayUnavailable,
            RelayResult::GatewayProtocolError => RelayResultView::GatewayProtocolError,
        }
    }
}

/// What the relay is waiting for.
#[derive(Debug, PartialEq, Eq)]
pub enum RelayState {
    /// The lookup of the caller.
    AwaitingCaller { text: String },
    /// The recording of the caller's text.
    AwaitingInbound { human: bool, text: String },
    /// The list of agents.
    AwaitingAgents { text: String },
    /// The gateway's answer for the selected agent.
    AwaitingReply { agent: i32 },
    /// The recording of the agent's answer.
    AwaitingOutbound { reply: String },
    /// Nothing: the turn is over.
    Finished,
}

pub enum RelayStateView {
    AwaitingCaller { text: Seq<char> },
    AwaitingInbound { human: bool, text: Seq<char> },
    AwaitingAgents { text: Seq<char> },
    AwaitingReply { agent: i32 },
    AwaitingOutbound { reply: Seq<char> },
    Finished,
}

impl View for RelayState {
    type V = RelayStateView;

    open spec fn view(&self) -> RelayStateView {
        match self {
            RelayState::AwaitingCaller { text } => RelayStateView::AwaitingCaller { text: text@ },
            RelayState::AwaitingInbound { human, text } => RelayStateView::AwaitingInbound {
                human: *human,
                text: text@,
            },
            RelayState::AwaitingAgents { text } => RelayStateView::AwaitingAgents { text: text@ },
            RelayState::AwaitingReply { agent } => RelayStateView::AwaitingReply { agent: *agent },
            RelayState::AwaitingOutbound { reply } => RelayStateView::AwaitingOutbound {
                reply: reply@,
            },
            RelayState::Finished => RelayStateView::Finished,
        }
    }
}

/// What the relay asks to be done.
#[derive(Debug, PartialEq, Eq)]
pub enum RelayAction {
    /// Look up the user whose live token this is.
    FindCaller { token: String },
    /// Record this message.
    Append(NewMessage),
    /// Load every agent.
    LoadAgents,
    /// Ask the generation service.
    Generate(GenerationRequest),
    /// Nothing more: the turn ended so.
    Finish(RelayResult),
}

pub enum RelayActionView {
    FindCaller { token: Seq<char> },
    Append(NewMessageView),
    LoadAgents,
    Generate(GenerationRequestView),
    Finish(RelayResultView),
}

impl View for RelayAction {
    type V = RelayActionView;

    open spec fn view(&self) -> RelayActionView {
        match self {
            RelayAction::FindCaller { token } => RelayActionView::FindCaller { token: token@ },
            RelayAction::Append(entry) => RelayActionView::Append(entry@),
            RelayAction::LoadAgents => RelayActionView::LoadAgents,
            RelayAction::Generate(request) => RelayActionView::Generate(request@),
            RelayAction::Finish(result) => RelayActionView::Finish(result@),
        }
    }
}

/// How the thing that the relay asked for went.
#[derive(Debug, PartialEq, Eq)]
pub enum RelayEvent {
    /// The lookup found this user, or none.
    Caller(Option<User>),
    /// The message was recorded, or the store failed.
    Stored(bool),
    /// These are the agents, or the store failed.
    Agents(Option<Vec<User>>),
    /// The gateway's result.
    Reply(Result<GatewayReply, GatewayError>),
}

pub enum RelayEventView {
    Caller(Option<UserView>),
    Stored(bool),
    Agents(Option<Seq<UserView>>),
    Reply(Result<GatewayReplyView, GatewayError>),
}

impl View for RelayEvent {
    type V = RelayEventView;

    open spec fn view(&self) -> RelayEventView {
        match self {
            RelayEvent::Caller(found) => RelayEventView::Caller(
                match found {
                    Some(user) => Some(user@),
                    None => None,
                },
            ),
            RelayEvent::Stored(stored) => RelayEventView::Stored(*stored),
            RelayEvent::Agents(loaded) => RelayEventView::Agents(
                match loaded {
                    Some(agents) => Some(views(agents@)),
                    None => None,
                },
            ),
            RelayEvent::Reply(outcome) => RelayEventView::Reply(outcome_view(*outcome)),
        }
    }
}

/// A finished turn.
pub open spec fn finished(result: RelayResultView) -> (RelayStateView, RelayActionView) {
    (RelayStateView::Finished, RelayActionView::Finish(result))
}

/// The first step of a turn: an absent token ends it, any other is looked up.
pub open spec fn opening(bearer: Option<Seq<char>>, text: Seq<char>) -> (
    RelayStateView,
    RelayActionView,
) {
    match bearer {
        None => finished(RelayResultView::InvalidSession),
        Some(token) => (
            RelayStateView::AwaitingCaller { text },
            RelayActionView::FindCaller { token },
        ),
    }
}

/// The relay's transitions. `None` where the event is not the one that the
/// state waits for. `draw` matters only where an agent is selected.
pub open spec fn transition(state: RelayStateView, event: RelayEventView, draw: nat) -> Option<
    (RelayStateView, RelayActionView),
> {
    match (state, event) {
        (RelayStateView::AwaitingCaller { text }, RelayEventView::Caller(found)) => Some(
            match found {
                None => finished(RelayResultView::InvalidSession),
                Some(caller) => (
                    RelayStateView::AwaitingInbound { human: caller.is_human(), text },
                    RelayActionView::Append(NewMessageView::written(caller.id, text)),
                ),
            },
        ),
        (RelayStateView::AwaitingInbound { human, text }, RelayEventView::Stored(stored)) => Some(
            if !stored {
                finished(RelayResultView::StorageUnavailable)
            } else if !human {
                finished(RelayResultView::RoleNotPermitted)
            } else {
                (RelayStateView::AwaitingAgents { text }, RelayActionView::LoadAgents)
            },
        ),
        (RelayStateView::AwaitingAgents { text }, RelayEventView::Agents(loaded)) => Some(
            match loaded {
                None => finished(RelayResultView::StorageUnavailable),
                Some(agents) => match selected(agents, draw) {
                    None => finished(RelayResultView::NoResponderAvailable),
                    Some(agent) => (
                        RelayStateView::AwaitingReply { agent: agent.id },
                        RelayActionView::Generate(
                            GenerationRequestView::for_turn(agent.ai_profile, text),
                        ),
                    ),
                },
            },
        ),
        (RelayStateView::AwaitingReply { agent }, RelayEventView::Reply(outcome)) => Some(
            match outcome {
                Err(GatewayError::Unavailable) => finished(RelayResultView::GatewayUnavailable),
                Err(GatewayError::Protocol) => finished(RelayResultView::GatewayProtocolError),
                Ok(reply) => (
                    RelayStateView::AwaitingOutbound { reply: reply.text() },
                    RelayActionView::Append(NewMessageView::written(agent, reply.text())),
                ),
            },
        ),
        (RelayStateView::AwaitingOutbound { reply }, RelayEventView::Stored(stored)) => Some(
            if stored {
                finished(RelayResultView::Success(reply))
            } else {
                finished(RelayResultView::StorageUnavailable)
            },
        ),
        _ => None,
    }
}

/// View of a step.
pub open spec fn step_view(step: Option<(RelayState, RelayAction)>) -> Option<
    (RelayStateView, RelayActionView),
> {
    match step {
        Some((state, action)) => Some((state@, action@)),
        None => None,
    }
}

/// Opens a turn.
pub fn begin(bearer: Option<&str>, text: &str) -> (step: (RelayState, RelayAction))
    ensures
        (step.0@, step.1@) == opening(
            match bearer {
                Some(token) => Some(token@),
                None => None,
            },
            text@,
        ),
{
    match bearer {
        None => (RelayState::Finished, RelayAction::Finish(RelayResult::InvalidSession)),
        Some(token) => (
            RelayState::AwaitingCaller { text: text.to_owned() },
            RelayAction::FindCaller { token: token.to_owned() },
        ),
    }
}

/// Takes one step, with the draw given. `None`, and nothing else, where the
/// event is not the one that the state waits for.
pub fn advance(state: RelayState, event: RelayEvent, draw: usize) -> (step: Option<
    (RelayState, RelayAction),
>)
    ensures
        step_view(step) == transition(state@, event@, draw as nat),
{
    match (state, event) {
        (RelayState::AwaitingCaller { text }, RelayEvent::Caller(found)) => Some(
            match found {
                None => (RelayState::Finished, RelayAction::Finish(RelayResult::InvalidSession)),
                Some(caller) => {
                    let entry = NewMessage::written(caller.id, text.as_str());
                    (
                        RelayState::AwaitingInbound { human: caller.is_human(), text },
                        RelayAction::Append(entry),
                    )
                },
            },
        ),
        (RelayState::AwaitingInbound { human, text }, RelayEvent::Stored(stored)) => Some(
            if !stored {
                (RelayState::Finished, RelayAction::Finish(RelayResult::StorageUnavailable))
            } else if !human {
                (RelayState::Finished, RelayAction::Finish(RelayResult::RoleNotPermitted))
            } else {
                (RelayState::AwaitingAgents { text }, RelayAction::LoadAgents)
            },
        ),
        (RelayState::AwaitingAgents { text }, RelayEvent::Agents(loaded)) => Some(
            match loaded {
                None => (
                    RelayState::Finished,
                    RelayAction::Finish(RelayResult::StorageUnavailable),
                ),
                Some(agents) => match select_at(&agents, draw) {
                    Err(_) => (
                        RelayState::Finished,
                        RelayAction::Finish(RelayResult::NoResponderAvailable),
                    ),
                    Ok(agent) => (
                        RelayState::AwaitingReply { agent: agent.id },
                        RelayAction::Generate(
                            GenerationRequest::for_turn(&agent.ai_profile, text.as_str()),
                        ),
                    ),
                },
            },
        ),
        (RelayState::AwaitingReply { agent }, RelayEvent::Reply(outcome)) => Some(
            match outcome {
                Err(GatewayError::Unavailable) => (
                    RelayState::Finished,
                    RelayAction::Finish(RelayResult::GatewayUnavailable),
                ),
                Err(GatewayError::Protocol) => (
                    RelayState::Finished,
                    RelayAction::Finish(RelayResult::GatewayProtocolError),
                ),
                Ok(reply) => {
                    let text = reply.into_text();
                    let entry = NewMessage::written(agent, text.as_str());
                    (RelayState::AwaitingOutbound { reply: text }, RelayAction::Append(entry))
                },
            },
        ),
        (RelayState::AwaitingOutbound { reply }, RelayEvent::Stored(stored)) => Some(
            if stored {
                (RelayState::Finished, RelayAction::Finish(RelayResult::Success(reply)))
            } else {
                (RelayState::Finished, RelayAction::Finish(RelayResult::StorageUnavailable))
            },
        ),
        _ => None,
    }
}

/// Takes one step. Where an agent is to be selected, one is drawn at random,
/// each with the same chance.
pub fn step(state: RelayState, event: RelayEvent) -> (step: Option<(RelayState, RelayAction)>)
    ensures
        exists|draw: nat| step_view(step) == transition(state@, event@, draw),
        step is Some <==> transition(state@, event@, 0) is Some,
{
    let count = match &event {
        RelayEvent::Agents(Some(agents)) => agents.len(),
        _ => 0,
    };
    let draw = match draw_position(count) {
        Some(position) => position,
        None => 0,
    };
    advance(state, event, draw)
}

/// The reason given to an unknown caller.
pub open spec fn invalid_session_reason() -> Seq<char> {
    "Invalid session token"@
}

/// The reason given to a caller who is no human.
pub open spec fn role_reason() -> Seq<char> {
    "AI users cannot start a conversation."@
}

/// The reason given where no agent is registered.
pub open spec fn no_responder_reason() -> Seq<char> {
    "No AI users available"@
}

/// Whether `response` is what a transport answers for `result`: the reply on
/// success, a refusal with its reason for the three negative outcomes, and
/// an internal error for a failure of storage or of the gateway.
pub open spec fn answers(
    response: Result<ApiResponse<String>, InternalError>,
    result: RelayResultView,
) -> bool {
    match result {
        RelayResultView::Success(reply) => response is Ok && response.unwrap().success
            && response.unwrap().message is None && crate::models::text_of(response.unwrap().data)
            == Some(reply),
        RelayResultView::InvalidSession => response is Ok && response.unwrap().is_refusal(
            invalid_session_reason(),
        ),
        RelayResultView::RoleNotPermitted => response is Ok && response.unwrap().is_refusal(
            role_reason(),
        ),
        RelayResultView::NoResponderAvailable => response is Ok && response.unwrap().is_refusal(
            no_responder_reason(),
        ),
        RelayResultView::StorageUnavailable => response is Err,
        RelayResultView::GatewayUnavailable => response is Err,
        RelayResultView::GatewayProtocolError => response is Err,
    }
}

/// Turns the end of a turn into the answer for the caller.
pub fn respond(result: RelayResult) -> (response: Result<ApiResponse<String>, InternalError>)
    ensures
        answers(response, result@),
{
    match result {
        RelayResult::Success(reply) => Ok(ApiResponse::success(reply)),
        RelayResult::InvalidSession => Ok(ApiResponse::failure("Invalid session token")),
        RelayResult::RoleNotPermitted => Ok(
            ApiResponse::failure("AI users cannot start a conversation."),
        ),
        RelayResult::NoResponderAvailable => Ok(ApiResponse::failure("No AI users available")),
        RelayResult::StorageUnavailable => Err(InternalError),
        RelayResult::GatewayUnavailable => Err(InternalError),
        RelayResult::GatewayProtocolError => Err(InternalError),
    }
}

} // verus!
