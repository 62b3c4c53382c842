//! The three operations, run against the identity store and the message log.
//!
//! Each is the decision logic of `accounts` or `relay` with every store
//! access carried out at once, so that its contract tells the whole story of
//! a request: the answer, and what the stores hold afterwards.

use crate::accounts::{
    account, bad_credential_reason, bad_credential_response, logged_in_response, plan_login,
    plan_login_with, plan_registration, plan_registration_with, registered_response, shows,
    user_not_found_reason, user_not_found_response, username_taken_reason,
    username_taken_response, LoginPlan, Registration,
};
use crate::credentials::{accepts, TOKEN_LENGTH};
use crate::gateway::{outcome_view, GatewayError, GatewayReply, GatewayReplyView};
use crate::identity::{
    agents_of, token_holder, user_named, username_taken, with_token, IdentityStore,
};
use crate::message_log::MessageLog;
use crate::models::{
    text_of, LoginInput, MessagePayload, MessageView, NewMessageView, RegisterInput, User,
    UserRecord, UserView,
};
use crate::relay::{
    advance, answers, begin, respond, transition, RelayAction, RelayEvent, RelayResult,
    RelayResultView, RelayState,
};
use crate::response::{ApiResponse, InternalError};
use crate::selector::{draw_position, selected};
use vstd::pervasive::unreached;
use vstd::prelude::*;

verus! {

/// Carries out a decided registration.
fn apply_registration(store: &mut IdentityStore, plan: Registration, now: i64) -> (r: Result<
    ApiResponse<UserRecord>,
    InternalError,
>)
    requires
        old(store).wf(),
        plan matches Registration::Create(request) ==> !username_taken(
            old(store)@,
            request@.username,
        ),
    ensures
        final(store).wf(),
        match plan {
            Registration::Refused => {
                &&& r is Ok
                &&& r.unwrap().is_refusal(username_taken_reason())
                &&& final(store).same_as(old(store))
            },
            Registration::Failed => r is Err && final(store).same_as(old(store)),
            Registration::Create(request) => if old(store).is_full() {
                r is Err && final(store).same_as(old(store))
            } else {
                let created = request@.stored(old(store).next_id(), now);
                &&& r is Ok
                &&& shows(r.unwrap(), created.record())
                &&& final(store).extends(old(store), created)
            },
        },
{
    match plan {
        Registration::Refused => Ok(username_taken_response()),
        Registration::Failed => Err(InternalError),
        Registration::Create(request) => match store.create(request, now) {
            Ok(user) => Ok(registered_response(&user)),
            Err(_) => Err(InternalError),
        },
    }
}

/// Registers a user, with the credential given: `hash` is the password's
/// hash, or `None` where none could be made.
///
/// A taken name is refused. Without a hash, or in a store that is full, the
/// registration fails. Otherwise the user is created with the next id and
/// without a session, and the answer shows the record without the
/// credential. Unless a user is created nothing changes.
pub fn register_with(
    store: &mut IdentityStore,
    input: RegisterInput,
    now: i64,
    hash: Option<String>,
) -> (r: Result<ApiResponse<UserRecord>, InternalError>)
    requires
        old(store).wf(),
    ensures
        final(store).wf(),
        if username_taken(old(store)@, input.username@) {
            &&& r is Ok
            &&& r.unwrap().is_refusal(username_taken_reason())
            &&& final(store).same_as(old(store))
        } else if hash is None || old(store).is_full() {
            r is Err && final(store).same_as(old(store))
        } else {
            let created = account(
                input.username@,
                input.user_type@,
                text_of(input.ai_profile),
                hash.unwrap()@,
            ).stored(old(store).next_id(), now);
            &&& r is Ok
            &&& shows(r.unwrap(), created.record())
            &&& final(store).extends(old(store), created)
        },
{
    let taken = store.find_by_username(input.username.as_str()).is_some();
    let plan = plan_registration_with(taken, input, hash);
    apply_registration(store, plan, now)
}

/// Registers a user. The password is hashed here, with a random salt, and
/// only where the name is free.
///
/// A taken name is refused. Otherwise the registration either fails and
/// changes nothing, as it always does in a store that is full, or creates
/// the user with the next id, without a session and with a credential that
/// accepts the password, and shows the record without the credential.
pub fn register(store: &mut IdentityStore, input: RegisterInput, now: i64) -> (r: Result<
    ApiResponse<UserRecord>,
    InternalError,
>)
    requires
        old(store).wf(),
    ensures
        final(store).wf(),
        !username_taken(old(store)@, input.username@) && old(store).is_full() ==> r is Err,
        if username_taken(old(store)@, input.username@) {
            &&& r is Ok
            &&& r.unwrap().is_refusal(username_taken_reason())
            &&& final(store).same_as(old(store))
        } else if r is Err {
            final(store).same_as(old(store))
        } else {
            let created = final(store)@.last();
            &&& final(store).extends(old(store), created)
            &&& accepts(input.password@, created.password_hash)
            &&& created == account(
                input.username@,
                input.user_type@,
                text_of(input.ai_profile),
                created.password_hash,
            ).stored(old(store).next_id(), now)
            &&& shows(r.unwrap(), created.record())
        },
{
    let plan = plan_registration(store.find_by_username(input.username.as_str()), input);
    apply_registration(store, plan, now)
}

/// Whether the answer `response` and the users `after` are what a login
/// under `username` leaves of the users `before`, where `accepted` tells
/// whether the password was accepted and `token` is the token at hand.
///
/// An unknown name is refused, and so is a password that was not accepted;
/// the users are then unchanged. Otherwise the user with that name holds
/// `token`, no other field and no other user has changed, and the answer
/// shows the user's record with `token` in it.
pub open spec fn login_outcome(
    before: Seq<UserView>,
    username: Seq<char>,
    accepted: bool,
    token: Seq<char>,
    response: ApiResponse<UserRecord>,
    after: Seq<UserView>,
) -> bool {
    match user_named(before, username) {
        None => response.is_refusal(user_not_found_reason()) && after == before,
        Some(user) => if accepted {
            &&& shows(response, user.holding(token).record())
            &&& after == with_token(before, user.id, token)
        } else {
            response.is_refusal(bad_credential_reason()) && after == before
        },
    }
}

/// The session token that an answer shows, or the empty text where it shows
/// none.
pub open spec fn shown_token(response: ApiResponse<UserRecord>) -> Seq<char> {
    match response.data {
        Some(record) => match record@.session_token {
            Some(token) => token,
            None => Seq::empty(),
        },
        None => Seq::empty(),
    }
}

/// Carries out a decided login.
fn apply_login(store: &mut IdentityStore, found: Option<User>, plan: LoginPlan) -> (r: Result<
    ApiResponse<UserRecord>,
    InternalError,
>)
    requires
        old(store).wf(),
        plan is Issue ==> found is Some && plan->id == found.unwrap().id,
    ensures
        final(store).wf(),
        final(store).next_id() == old(store).next_id(),
        r is Ok,
        match plan {
            LoginPlan::UnknownUser => {
                &&& r.unwrap().is_refusal(user_not_found_reason())
                &&& final(store)@ == old(store)@
            },
            LoginPlan::BadCredential => {
                &&& r.unwrap().is_refusal(bad_credential_reason())
                &&& final(store)@ == old(store)@
            },
            LoginPlan::Issue { id, token } => {
                &&& shows(r.unwrap(), found.unwrap()@.holding(token@).record())
                &&& final(store)@ == with_token(old(store)@, id, token@)
            },
        },
{
    match plan {
        LoginPlan::UnknownUser => Ok(user_not_found_response()),
        LoginPlan::BadCredential => Ok(bad_credential_response()),
        LoginPlan::Issue { id, token } => {
            let response = match &found {
                Some(user) => logged_in_response(user, token.as_str()),
                None => unreached(),
            };
            store.assign_session_token(id, token);
            Ok(response)
        },
    }
}

/// Copies the user found, if any.
fn owned(found: Option<&User>) -> (r: Option<User>)
    ensures
        match found {
            Some(user) => r == Some(*user),
            None => r is None,
        },
{
    match found {
        Some(user) => Some(user.clone()),
        None => None,
    }
}

/// Logs a user in, with the verdict on the password and the token given.
///
/// An unknown name is refused, and so is a password that was not accepted;
/// nothing changes then. Otherwise `token` becomes the user's live token,
/// whatever the token was before, and the answer shows the record with the
/// new token. No other user is touched.
pub fn login_with(
    store: &mut IdentityStore,
    input: &LoginInput,
    accepted: bool,
    token: String,
) -> (r: Result<ApiResponse<UserRecord>, InternalError>)
    requires
        old(store).wf(),
    ensures
        final(store).wf(),
        final(store).next_id() == old(store).next_id(),
        r is Ok,
        login_outcome(
            old(store)@,
            input.username@,
            accepted,
            token@,
            r.unwrap(),
            final(store)@,
        ),
{
    let found = owned(store.find_by_username(input.username.as_str()));
    let plan = plan_login_with(found.as_ref(), accepted, token);
    apply_login(store, found, plan)
}

/// Whether the user under `username` has a credential that accepts
/// `password`.
pub open spec fn credential_accepts(
    users: Seq<UserView>,
    username: Seq<char>,
    password: Seq<char>,
) -> bool {
    user_named(users, username) matches Some(user) && accepts(password, user.password_hash)
}

/// Logs a user in. The password is checked against the stored credential,
/// and a fresh random token is issued where it is accepted.
///
/// An unknown name is refused, and so is a password that the credential
/// does not accept; nothing changes then. Otherwise a new token of
/// `TOKEN_LENGTH` characters becomes the user's live token, whatever the
/// token was before, and the answer shows the record with the new token.
pub fn login(store: &mut IdentityStore, input: &LoginInput) -> (r: Result<
    ApiResponse<UserRecord>,
    InternalError,
>)
    requires
        old(store).wf(),
    ensures
        final(store).wf(),
        final(store).next_id() == old(store).next_id(),
        r is Ok,
        login_outcome(
            old(store)@,
            input.username@,
            credential_accepts(old(store)@, input.username@, input.password@),
            shown_token(r.unwrap()),
            r.unwrap(),
            final(store)@,
        ),
        credential_accepts(old(store)@, input.username@, input.password@) ==> shown_token(
            r.unwrap(),
        ).len() == TOKEN_LENGTH,
{
    let found = owned(store.find_by_username(input.username.as_str()));
    let plan = plan_login(found.as_ref(), input);
    apply_login(store, found, plan)
}

/// What a turn comes to: how it ends and which messages it records, in
/// order.
pub struct Turn {
    pub result: RelayResultView,
    pub entries: Seq<NewMessageView>,
}

/// The whole of a turn, as a function of what it meets.
///
/// `users` are the registered users, `room` is the number of messages that
/// the log can still take, `draw` selects the agent and `gateway` is what
/// the generation service answers.
pub open spec fn turn(
    users: Seq<UserView>,
    room: int,
    bearer: Option<Seq<char>>,
    text: Seq<char>,
    draw: nat,
    gateway: Result<GatewayReplyView, GatewayError>,
) -> Turn {
    let caller = match bearer {
        Some(token) => token_holder(users, token),
        None => None,
    };
    match caller {
        None => Turn { result: RelayResultView::InvalidSession, entries: seq![] },
        Some(caller) => {
            let inbound = NewMessageView::written(caller.id, text);
            if room < 1 {
                Turn { result: RelayResultView::StorageUnavailable, entries: seq![] }
            } else if !caller.is_human() {
                Turn { result: RelayResultView::RoleNotPermitted, entries: seq![inbound] }
            } else {
                match selected(agents_of(users), draw) {
                    None => Turn {
                        result: RelayResultView::NoResponderAvailable,
                        entries: seq![inbound],
                    },
                    Some(agent) => match gateway {
                        Err(GatewayError::Unavailable) => Turn {
                            result: RelayResultView::GatewayUnavailable,
                            entries: seq![inbound],
                        },
                        Err(GatewayError::Protocol) => Turn {
                            result: RelayResultView::GatewayProtocolError,
                            entries: seq![inbound],
                        },
                        Ok(reply) => if room < 2 {
                            Turn {
                                result: RelayResultView::StorageUnavailable,
                                entries: seq![inbound],
                            }
                        } else {
                            Turn {
                                result: RelayResultView::Success(reply.text()),
                                entries: seq![
                                    inbound,
                                    NewMessageView::written(agent.id, reply.text()),
                                ],
                            }
                        },
                    },
                }
            }
        },
    }
}

/// The messages that a log makes of `entries`, the first with the id
/// `first_id`, all at the time `now`.
pub open spec fn recorded(entries: Seq<NewMessageView>, first_id: i32, now: i64) -> Seq<
    MessageView,
> {
    Seq::new(entries.len(), |i: int| entries[i].stored((first_id + i) as i32, now))
}

/// View of an optional string slice.
pub open spec fn slice_view(s: Option<&str>) -> Option<Seq<char>> {
    match s {
        Some(t) => Some(t@),
        None => None,
    }
}

/// The step that follows an event which the state waits for.
fn next(state: RelayState, event: RelayEvent, draw: usize) -> (step: (RelayState, RelayAction))
    requires
        transition(state@, event@, draw as nat) is Some,
    ensures
        Some((step.0@, step.1@)) == transition(state@, event@, draw as nat),
{
    match advance(state, event, draw) {
        Some(step) => step,
        None => unreached(),
    }
}

/// Runs one turn of the relay against the stores, with the draw and the
/// gateway's answer given.
///
/// The result and the messages recorded are those of [`turn`]: the users
/// are never changed, and the log only grows, by the caller's text and, on
/// success, the agent's answer.
pub fn handle(
    ids: &IdentityStore,
    log: &mut MessageLog,
    bearer: Option<&str>,
    text: &str,
    now: i64,
    draw: usize,
    gateway: Result<GatewayReply, GatewayError>,
) -> (result: RelayResult)
    requires
        old(log).wf(),
    ensures
        final(log).wf(),
        ({
            let t = turn(
                ids@,
                i32::MAX - old(log).next_id(),
                slice_view(bearer),
                text@,
                draw as nat,
                outcome_view(gateway),
            );
            &&& result@ == t.result
            &&& final(log)@ == old(log)@ + recorded(t.entries, old(log).next_id(), now)
            &&& final(log).next_id() == old(log).next_id() + t.entries.len()
        }),
{
    let (state, action) = begin(bearer, text);
    let token = match action {
        RelayAction::FindCaller { token } => token,
        RelayAction::Finish(result) => return result,
        _ => unreached(),
    };
    let found = owned(ids.find_by_session_token(token.as_str()));
    let (state, action) = next(state, RelayEvent::Caller(found), draw);
    let entry = match action {
        RelayAction::Append(entry) => entry,
        RelayAction::Finish(result) => return result,
        _ => unreached(),
    };
    let stored = log.insert(entry, now).is_ok();
    let (state, action) = next(state, RelayEvent::Stored(stored), draw);
    match action {
        RelayAction::LoadAgents => {},
        RelayAction::Finish(result) => return result,
        _ => unreached(),
    }
    let (state, action) = next(state, RelayEvent::Agents(Some(ids.agents())), draw);
    match action {
        RelayAction::Generate(_) => {},
        RelayAction::Finish(result) => return result,
        _ => unreached(),
    }
    let (state, action) = next(state, RelayEvent::Reply(gateway), draw);
    let entry = match action {
        RelayAction::Append(entry) => entry,
        RelayAction::Finish(result) => return result,
        _ => unreached(),
    };
    let stored = log.insert(entry, now).is_ok();
    let (_, action) = next(state, RelayEvent::Stored(stored), draw);
    match action {
        RelayAction::Finish(result) => result,
        _ => unreached(),
    }
}

/// Handles one conversation request against the stores, with the gateway's
/// answer given. The agent is drawn at random among those registered, each
/// with the same chance.
///
/// For some draw, the answer is that of [`turn`] and the log grows by the
/// messages of that turn. With at most one agent registered the draw does
/// not matter.
pub fn conversation_handler(
    ids: &IdentityStore,
    log: &mut MessageLog,
    bearer: Option<&str>,
    payload: &MessagePayload,
    now: i64,
    gateway: Result<GatewayReply, GatewayError>,
) -> (response: Result<ApiResponse<String>, InternalError>)
    requires
        old(log).wf(),
    ensures
        final(log).wf(),
        exists|draw: nat|
            {
                let t = #[trigger] turn(
                    ids@,
                    i32::MAX - old(log).next_id(),
                    slice_view(bearer),
                    payload.content@,
                    draw,
                    outcome_view(gateway),
                );
                &&& answers(response, t.result)
                &&& final(log)@ == old(log)@ + recorded(t.entries, old(log).next_id(), now)
                &&& final(log).next_id() == old(log).next_id() + t.entries.len()
            },
{
    let draw = match draw_position(ids.agents().len()) {
        Some(position) => position,
        None => 0,
    };
    let result = handle(ids, log, bearer, payload.content.as_str(), now, draw, gateway);
    respond(result)
}

} // verus!
