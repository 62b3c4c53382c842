//! What the operations guarantee together, proved from their contracts.
//!
//! The statements are over the views of the stores and over the functions
//! that the contracts of `handlers` are written in, so each of them holds of
//! every run of those operations.

use crate::accounts::{account, login_plan, LoginPlanView};
use crate::credentials::accepts;
use crate::gateway::{GatewayError, GatewayReplyView};
use crate::handlers::{credential_accepts, login_outcome, recorded, shown_token, turn};
use crate::identity::{
    agents_of, consistent, first_holding, first_named, token_holder, token_live, tokens_distinct,
    user_named, username_taken, with_token,
};
use crate::message_log::ordered;
use crate::models::{
    agent_type, human_type, MessageView, NewMessageView, UserRecord, UserView,
};
use crate::relay::RelayResultView;
use crate::response::ApiResponse;
use crate::selector::selected;
use vstd::prelude::*;

verus! {

/// The two user types are different: no user is both a human and an agent.
pub proof fn lemma_roles_differ()
    ensures
        human_type() != agent_type(),
{
    reveal_strlit("real");
    reveal_strlit("ai");
    assert(agent_type().len() == 2);
}

/// A token that is no user's live token has no holder.
pub proof fn lemma_dead_token_has_no_holder(users: Seq<UserView>, token: Seq<char>)
    requires
        !token_live(users, token),
    ensures
        token_holder(users, token) is None,
{
}

/// The holder of a token is a registered user whose live token it is.
pub proof fn lemma_holder_is_registered(users: Seq<UserView>, token: Seq<char>) -> (i: int)
    requires
        token_holder(users, token) is Some,
    ensures
        0 <= i < users.len(),
        users[i] == token_holder(users, token).unwrap(),
        users[i].session_token == Some(token),
{
    choose|i: int| first_holding(users, token, i)
}

/// The user found under a name is a registered user with that name.
pub proof fn lemma_named_is_registered(users: Seq<UserView>, name: Seq<char>) -> (i: int)
    requires
        user_named(users, name) is Some,
    ensures
        first_named(users, name, i),
        users[i] == user_named(users, name).unwrap(),
{
    choose|i: int| first_named(users, name, i)
}

/// Registering, then logging in with the same name and password, succeeds.
///
/// Let a registration with a free name create a user whose credential
/// accepts the password, as `register` does. Then the store stays
/// consistent, the lookup by that name finds the new user, and the user's
/// credential accepts the password, so that `login` issues a token, which
/// has `TOKEN_LENGTH` characters and so is never empty. Whatever token is
/// issued, the answer is a success that shows it, and the new user holds
/// it.
pub proof fn lemma_register_then_login(
    users: Seq<UserView>,
    next_id: i32,
    username: Seq<char>,
    password: Seq<char>,
    user_type: Seq<char>,
    ai_profile: Option<Seq<char>>,
    hash: Seq<char>,
    now: i64,
    token: Seq<char>,
    response: ApiResponse<UserRecord>,
    later: Seq<UserView>,
)
    requires
        consistent(users, next_id),
        next_id < i32::MAX,
        !username_taken(users, username),
        accepts(password, hash),
        login_outcome(
            users.push(account(username, user_type, ai_profile, hash).stored(next_id, now)),
            username,
            true,
            token,
            response,
            later,
        ),
    ensures
        ({
            let created = account(username, user_type, ai_profile, hash).stored(next_id, now);
            let after = users.push(created);
            &&& consistent(after, (next_id + 1) as i32)
            &&& user_named(after, username) == Some(created)
            &&& credential_accepts(after, username, password)
            &&& login_plan(user_named(after, username), true, token) == (LoginPlanView::Issue {
                id: next_id,
                token,
            })
            &&& response.success
            &&& shown_token(response) == token
            &&& later == after.update(after.len() - 1, created.holding(token))
            &&& user_named(later, username) == Some(created.holding(token))
        }),
{
    assert(first_named(later, username, users.len() as int));
}

/// Registration keeps live tokens distinct: a new user has no session.
pub proof fn lemma_registration_keeps_tokens_distinct(
    users: Seq<UserView>,
    next_id: i32,
    username: Seq<char>,
    user_type: Seq<char>,
    ai_profile: Option<Seq<char>>,
    hash: Seq<char>,
    now: i64,
)
    requires
        tokens_distinct(users),
    ensures
        tokens_distinct(
            users.push(account(username, user_type, ai_profile, hash).stored(next_id, now)),
        ),
{
}

/// Issuing a token that is nobody's live token keeps live tokens distinct.
pub proof fn lemma_fresh_token_keeps_tokens_distinct(
    users: Seq<UserView>,
    next_id: i32,
    id: i32,
    token: Seq<char>,
)
    requires
        consistent(users, next_id),
        tokens_distinct(users),
        !token_live(users, token),
    ensures
        tokens_distinct(with_token(users, id, token)),
        consistent(with_token(users, id, token), next_id),
{
}

/// A second login replaces the first token.
///
/// Let a registered user log in twice with an accepted password, first
/// with a token that was nobody's live token and then with a different
/// one. Both logins succeed and show their tokens, which differ. After the
/// first the user holds the first token. After the second the user holds
/// the second, the first token has no holder, and a turn that presents the
/// first token ends as an invalid session and records nothing.
pub proof fn lemma_second_login_replaces_first_token(
    users: Seq<UserView>,
    next_id: i32,
    username: Seq<char>,
    first: Seq<char>,
    second: Seq<char>,
    first_response: ApiResponse<UserRecord>,
    once: Seq<UserView>,
    second_response: ApiResponse<UserRecord>,
    twice: Seq<UserView>,
    room: int,
    text: Seq<char>,
    draw: nat,
    gateway: Result<GatewayReplyView, GatewayError>,
)
    requires
        consistent(users, next_id),
        user_named(users, username) is Some,
        !token_live(users, first),
        first != second,
        login_outcome(users, username, true, first, first_response, once),
        login_outcome(once, username, true, second, second_response, twice),
    ensures
        first_response.success,
        second_response.success,
        shown_token(first_response) == first,
        shown_token(second_response) == second,
        shown_token(second_response) != shown_token(first_response),
        ({
            let user = user_named(users, username).unwrap();
            &&& consistent(once, next_id)
            &&& consistent(twice, next_id)
            &&& user_named(once, username) == Some(user.holding(first))
            &&& token_holder(once, first) == Some(user.holding(first))
            &&& user_named(twice, username) == Some(user.holding(second))
            &&& token_holder(twice, first) is None
            &&& turn(twice, room, Some(first), text, draw, gateway).result
                == RelayResultView::InvalidSession
            &&& turn(twice, room, Some(first), text, draw, gateway).entries
                == Seq::<NewMessageView>::empty()
        }),
{
    let k = lemma_named_is_registered(users, username);
    assert(first_named(twice, username, k));
    assert(first_holding(once, first, k));
    lemma_dead_token_has_no_holder(twice, first);
}

/// A turn without a token, or with one that is no user's live token, ends
/// as an invalid session and records nothing.
pub proof fn lemma_unknown_token_is_invalid_session(
    users: Seq<UserView>,
    room: int,
    bearer: Option<Seq<char>>,
    text: Seq<char>,
    draw: nat,
    gateway: Result<GatewayReplyView, GatewayError>,
)
    requires
        bearer matches Some(token) ==> !token_live(users, token),
    ensures
        turn(users, room, bearer, text, draw, gateway).result == RelayResultView::InvalidSession,
        turn(users, room, bearer, text, draw, gateway).entries == Seq::<NewMessageView>::empty(),
{
    if let Some(token) = bearer {
        lemma_dead_token_has_no_holder(users, token);
    }
}

/// Every agent among the users is a registered user who is an agent.
pub proof fn lemma_agents_are_registered(users: Seq<UserView>, i: int) -> (k: int)
    requires
        0 <= i < agents_of(users).len(),
    ensures
        0 <= k < users.len(),
        users[k] == agents_of(users)[i],
        users[k].is_agent(),
{
    let is_agent = |u: UserView| u.is_agent();
    users.lemma_filter_pred(is_agent, i);
    let agent = agents_of(users)[i];
    users.lemma_filter_contains_rev(is_agent, agent);
    users.lemma_contains_to_index(agent)
}

/// A turn by a human records the human's text exactly once, however the
/// turn ends.
///
/// Where the log can take one more message, the first message recorded is
/// the caller's text, written by the caller. At most one more follows, and
/// that one is written by another user.
pub proof fn lemma_human_text_recorded_once(
    users: Seq<UserView>,
    next_id: i32,
    room: int,
    token: Seq<char>,
    text: Seq<char>,
    draw: nat,
    gateway: Result<GatewayReplyView, GatewayError>,
)
    requires
        consistent(users, next_id),
        token_holder(users, token) is Some,
        token_holder(users, token).unwrap().is_human(),
        room >= 1,
    ensures
        ({
            let caller = token_holder(users, token).unwrap();
            let entries = turn(users, room, Some(token), text, draw, gateway).entries;
            &&& 1 <= entries.len() <= 2
            &&& entries[0] == NewMessageView::written(caller.id, text)
            &&& entries.len() == 2 ==> entries[1].user_id != Some(caller.id)
        }),
{
    if turn(users, room, Some(token), text, draw, gateway).entries.len() == 2 {
        lemma_agents_are_registered(users, (draw % agents_of(users).len()) as int);
        lemma_roles_differ();
    }
}

/// A turn by an agent records the text and ends there: agents cannot start
/// a conversation, and neither selection nor generation has any part in
/// the turn.
pub proof fn lemma_agent_cannot_initiate(
    users: Seq<UserView>,
    room: int,
    token: Seq<char>,
    text: Seq<char>,
    draw: nat,
    gateway: Result<GatewayReplyView, GatewayError>,
)
    requires
        token_holder(users, token) is Some,
        token_holder(users, token).unwrap().is_agent(),
        room >= 1,
    ensures
        ({
            let caller = token_holder(users, token).unwrap();
            let t = turn(users, room, Some(token), text, draw, gateway);
            &&& t.result == RelayResultView::RoleNotPermitted
            &&& t.entries == seq![NewMessageView::written(caller.id, text)]
            &&& forall|other_draw: nat, other_gateway: Result<GatewayReplyView, GatewayError>|
                #[trigger] turn(users, room, Some(token), text, other_draw, other_gateway) == t
        }),
{
    lemma_roles_differ();
}

/// With no agent registered, a turn by a human records the text and ends
/// for want of a responder.
pub proof fn lemma_no_agent_no_responder(
    users: Seq<UserView>,
    room: int,
    token: Seq<char>,
    text: Seq<char>,
    draw: nat,
    gateway: Result<GatewayReplyView, GatewayError>,
)
    requires
        token_holder(users, token) is Some,
        token_holder(users, token).unwrap().is_human(),
        agents_of(users).len() == 0,
        room >= 1,
    ensures
        ({
            let caller = token_holder(users, token).unwrap();
            let t = turn(users, room, Some(token), text, draw, gateway);
            &&& t.result == RelayResultView::NoResponderAvailable
            &&& t.entries == seq![NewMessageView::written(caller.id, text)]
        }),
{
}

/// With exactly one agent registered, every draw selects that agent, and
/// so the turn is the same whatever is drawn.
pub proof fn lemma_single_agent_is_selected(
    users: Seq<UserView>,
    room: int,
    bearer: Option<Seq<char>>,
    text: Seq<char>,
    draw: nat,
    other_draw: nat,
    gateway: Result<GatewayReplyView, GatewayError>,
)
    requires
        agents_of(users).len() == 1,
    ensures
        selected(agents_of(users), draw) == Some(agents_of(users)[0]),
        turn(users, room, bearer, text, draw, gateway) == turn(
            users,
            room,
            bearer,
            text,
            other_draw,
            gateway,
        ),
{
}

/// A turn that succeeds returns the gateway's reply and records two
/// messages: the caller's text, written by the caller, and the reply,
/// written by the selected agent.
pub proof fn lemma_success_records_both(
    users: Seq<UserView>,
    room: int,
    token: Seq<char>,
    text: Seq<char>,
    draw: nat,
    reply: GatewayReplyView,
)
    requires
        token_holder(users, token) is Some,
        token_holder(users, token).unwrap().is_human(),
        agents_of(users).len() > 0,
        room >= 2,
    ensures
        ({
            let caller = token_holder(users, token).unwrap();
            let agent = selected(agents_of(users), draw).unwrap();
            let t = turn(users, room, Some(token), text, draw, Ok(reply));
            &&& t.result == RelayResultView::Success(reply.text())
            &&& t.entries == seq![
                NewMessageView::written(caller.id, text),
                NewMessageView::written(agent.id, reply.text()),
            ]
        }),
{
}

/// What the log takes it keeps: after a text is appended, the last message
/// carries that text unchanged under the author's id, and every earlier
/// message is as it was.
pub proof fn lemma_appended_text_is_kept(
    log: Seq<MessageView>,
    next_id: i32,
    author: i32,
    text: Seq<char>,
    now: i64,
)
    requires
        ordered(log, next_id),
        next_id < i32::MAX,
    ensures
        ({
            let after = log + recorded(seq![NewMessageView::written(author, text)], next_id, now);
            &&& after == log.push(NewMessageView::written(author, text).stored(next_id, now))
            &&& ordered(after, (next_id + 1) as i32)
            &&& after.len() == log.len() + 1
            &&& after.last().content == Some(text)
            &&& after.last().user_id == Some(author)
            &&& forall|i: int| 0 <= i < log.len() ==> after[i] == log[i]
        }),
{
}

} // verus!
