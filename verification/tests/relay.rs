use chat_relay::gateway::{GatewayError, GatewayReply, GenerationRequest};
use chat_relay::handlers::{conversation_handler, handle, login_with, register_with};
use chat_relay::identity::IdentityStore;
use chat_relay::message_log::MessageLog;
use chat_relay::models::{LoginInput, MessagePayload, NewMessage, RegisterInput, User};
use chat_relay::relay::{
    advance, begin, respond, step, RelayAction, RelayEvent, RelayResult, RelayState,
};
use chat_relay::response::InternalError;

fn add(store: &mut IdentityStore, name: &str, user_type: &str, profile: Option<&str>) {
    let input = RegisterInput {
        username: name.to_string(),
        password: "pw".to_string(),
        user_type: user_type.to_string(),
        ai_profile: profile.map(|p| p.to_string()),
    };
    assert!(register_with(store, input, 1, Some("h".to_string())).unwrap().success);
}

fn sign_in(store: &mut IdentityStore, name: &str, token: &str) {
    let input = LoginInput { username: name.to_string(), password: "pw".to_string() };
    assert!(login_with(store, &input, true, token.to_string()).unwrap().success);
}

fn pong() -> Result<GatewayReply, GatewayError> {
    Ok(GatewayReply::Text("pong".to_string()))
}

fn texts(log: &MessageLog) -> Vec<(Option<i32>, Option<String>)> {
    (0..log.len()).map(|i| {
        let m = log.get(i).unwrap();
        (m.user_id, m.content.clone())
    }).collect()
}

#[test]
fn ping_is_answered_with_pong() {
    let mut ids = IdentityStore::new();
    add(&mut ids, "helen", "real", None);
    add(&mut ids, "muse", "ai", Some("{\"tone\":\"dry\"}"));
    sign_in(&mut ids, "helen", "valid-token");
    let mut log = MessageLog::new();
    let result = handle(&ids, &mut log, Some("valid-token"), "ping", 77, 0, pong());
    assert_eq!(result, RelayResult::Success("pong".to_string()));
    assert_eq!(log.len(), 2);
    let first = log.get(0).unwrap();
    assert_eq!(first.id, 1);
    assert_eq!(first.user_id, Some(1));
    assert_eq!(first.content, Some("ping".to_string()));
    assert_eq!(first.image_url, None);
    assert_eq!(first.created_at, 77);
    let second = log.get(1).unwrap();
    assert_eq!(second.id, 2);
    assert_eq!(second.user_id, Some(2));
    assert_eq!(second.content, Some("pong".to_string()));
    assert_eq!(second.image_url, None);
    assert_eq!(second.created_at, 77);
}

#[test]
fn conversation_handler_answers_with_the_reply() {
    let mut ids = IdentityStore::new();
    add(&mut ids, "helen", "real", None);
    add(&mut ids, "muse", "ai", None);
    sign_in(&mut ids, "helen", "valid-token");
    let mut log = MessageLog::new();
    let payload = MessagePayload { content: "ping".to_string() };
    let response =
        conversation_handler(&ids, &mut log, Some("valid-token"), &payload, 5, pong()).unwrap();
    assert!(response.success);
    assert_eq!(response.data, Some("pong".to_string()));
    assert_eq!(response.message, None);
    assert_eq!(
        texts(&log),
        vec![(Some(1), Some("ping".to_string())), (Some(2), Some("pong".to_string()))]
    );
}

#[test]
fn unknown_or_absent_token_is_an_invalid_session() {
    let mut ids = IdentityStore::new();
    add(&mut ids, "helen", "real", None);
    add(&mut ids, "muse", "ai", None);
    sign_in(&mut ids, "helen", "valid-token");
    let mut log = MessageLog::new();
    for bearer in [None, Some("nope"), Some(""), Some("valid-token "), Some("VALID-TOKEN")] {
        let result = handle(&ids, &mut log, bearer, "ping", 1, 0, pong());
        assert_eq!(result, RelayResult::InvalidSession);
        assert_eq!(log.len(), 0);
    }
    let payload = MessagePayload { content: "ping".to_string() };
    let response = conversation_handler(&ids, &mut log, None, &payload, 1, pong()).unwrap();
    assert!(!response.success);
    assert_eq!(response.data, None);
    assert_eq!(response.message, Some("Invalid session token".to_string()));
    assert_eq!(log.len(), 0);
}

#[test]
fn replaced_token_is_an_invalid_session() {
    let mut ids = IdentityStore::new();
    add(&mut ids, "helen", "real", None);
    add(&mut ids, "muse", "ai", None);
    sign_in(&mut ids, "helen", "first");
    sign_in(&mut ids, "helen", "second");
    let mut log = MessageLog::new();
    assert_eq!(
        handle(&ids, &mut log, Some("first"), "ping", 1, 0, pong()),
        RelayResult::InvalidSession
    );
    assert_eq!(log.len(), 0);
    assert_eq!(
        handle(&ids, &mut log, Some("second"), "ping", 1, 0, pong()),
        RelayResult::Success("pong".to_string())
    );
}

#[test]
fn human_text_is_recorded_once_whatever_follows() {
    let outcomes: Vec<(Result<GatewayReply, GatewayError>, RelayResult, usize)> = vec![
        (Err(GatewayError::Unavailable), RelayResult::GatewayUnavailable, 1),
        (Err(GatewayError::Protocol), RelayResult::GatewayProtocolError, 1),
        (Ok(GatewayReply::Missing), RelayResult::Success("AI Error".to_string()), 2),
        (pong(), RelayResult::Success("pong".to_string()), 2),
        (Ok(GatewayReply::Text("ping".to_string())), RelayResult::Success("ping".to_string()), 2),
    ];
    for (gateway, expected, recorded) in outcomes {
        let mut ids = IdentityStore::new();
        add(&mut ids, "helen", "real", None);
        add(&mut ids, "muse", "ai", None);
        sign_in(&mut ids, "helen", "t");
        let mut log = MessageLog::new();
        assert_eq!(handle(&ids, &mut log, Some("t"), "ping", 1, 0, gateway), expected);
        assert_eq!(log.len(), recorded);
        let by_caller = texts(&log)
            .into_iter()
            .filter(|(author, text)| *author == Some(1) && text.as_deref() == Some("ping"))
            .count();
        assert_eq!(by_caller, 1);
        assert_eq!(log.get(0).unwrap().user_id, Some(1));
    }
}

#[test]
fn missing_reply_is_recorded_as_the_sentinel() {
    let mut ids = IdentityStore::new();
    add(&mut ids, "helen", "real", None);
    add(&mut ids, "muse", "ai", None);
    sign_in(&mut ids, "helen", "t");
    let mut log = MessageLog::new();
    let result = handle(&ids, &mut log, Some("t"), "ping", 1, 0, Ok(GatewayReply::Missing));
    assert_eq!(result, RelayResult::Success("AI Error".to_string()));
    assert_eq!(
        texts(&log),
        vec![(Some(1), Some("ping".to_string())), (Some(2), Some("AI Error".to_string()))]
    );
}

#[test]
fn agent_cannot_start_a_conversation() {
    let mut ids = IdentityStore::new();
    add(&mut ids, "muse", "ai", None);
    add(&mut ids, "echo", "ai", None);
    sign_in(&mut ids, "muse", "agent-token");
    let mut log = MessageLog::new();
    let result = handle(&ids, &mut log, Some("agent-token"), "hello", 1, 1, pong());
    assert_eq!(result, RelayResult::RoleNotPermitted);
    assert_eq!(texts(&log), vec![(Some(1), Some("hello".to_string()))]);
    let payload = MessagePayload { content: "again".to_string() };
    let response =
        conversation_handler(&ids, &mut log, Some("agent-token"), &payload, 1, pong()).unwrap();
    assert!(!response.success);
    assert_eq!(response.message, Some("AI users cannot start a conversation.".to_string()));
    assert_eq!(log.len(), 2);
}

#[test]
fn neither_human_nor_agent_cannot_start_a_conversation() {
    let mut ids = IdentityStore::new();
    add(&mut ids, "odd", "moderator", None);
    add(&mut ids, "muse", "ai", None);
    sign_in(&mut ids, "odd", "t");
    let mut log = MessageLog::new();
    assert_eq!(
        handle(&ids, &mut log, Some("t"), "hello", 1, 0, pong()),
        RelayResult::RoleNotPermitted
    );
    assert_eq!(log.len(), 1);
}

#[test]
fn without_agents_there_is_no_responder() {
    let mut ids = IdentityStore::new();
    add(&mut ids, "helen", "real", None);
    add(&mut ids, "hugo", "real", None);
    sign_in(&mut ids, "helen", "t");
    let mut log = MessageLog::new();
    let result = handle(&ids, &mut log, Some("t"), "anyone?", 1, 3, pong());
    assert_eq!(result, RelayResult::NoResponderAvailable);
    assert_eq!(texts(&log), vec![(Some(1), Some("anyone?".to_string()))]);
    let payload = MessagePayload { content: "hello?".to_string() };
    let response = conversation_handler(&ids, &mut log, Some("t"), &payload, 1, pong()).unwrap();
    assert!(!response.success);
    assert_eq!(response.data, None);
    assert_eq!(response.message, Some("No AI users available".to_string()));
}

#[test]
fn single_agent_answers_every_turn() {
    let mut ids = IdentityStore::new();
    add(&mut ids, "helen", "real", None);
    add(&mut ids, "hugo", "real", None);
    add(&mut ids, "muse", "ai", None);
    sign_in(&mut ids, "helen", "t");
    let mut log = MessageLog::new();
    for draw in [0usize, 1, 2, 99, usize::MAX] {
        let before = log.len();
        handle(&ids, &mut log, Some("t"), "ping", 1, draw, pong());
        assert_eq!(log.get(before + 1).unwrap().user_id, Some(3));
    }
    let payload = MessagePayload { content: "ping".to_string() };
    for _ in 0..20 {
        let before = log.len();
        conversation_handler(&ids, &mut log, Some("t"), &payload, 1, pong()).unwrap();
        assert_eq!(log.get(before + 1).unwrap().user_id, Some(3));
    }
}

#[test]
fn draw_picks_among_several_agents() {
    let mut ids = IdentityStore::new();
    add(&mut ids, "helen", "real", None);
    add(&mut ids, "a", "ai", None);
    add(&mut ids, "b", "ai", None);
    add(&mut ids, "c", "ai", None);
    sign_in(&mut ids, "helen", "t");
    let mut log = MessageLog::new();
    for (draw, agent) in [(0usize, 2), (1, 3), (2, 4), (3, 2), (4, 3)] {
        let before = log.len();
        handle(&ids, &mut log, Some("t"), "ping", 1, draw, pong());
        assert_eq!(log.get(before + 1).unwrap().user_id, Some(agent));
    }
    let payload = MessagePayload { content: "ping".to_string() };
    for _ in 0..50 {
        let before = log.len();
        conversation_handler(&ids, &mut log, Some("t"), &payload, 1, pong()).unwrap();
        let author = log.get(before + 1).unwrap().user_id.unwrap();
        assert!((2..=4).contains(&author));
    }
}

#[test]
fn full_log_fails_the_turn() {
    let mut ids = IdentityStore::new();
    add(&mut ids, "helen", "real", None);
    add(&mut ids, "muse", "ai", None);
    sign_in(&mut ids, "helen", "t");
    let mut full = MessageLog::resuming(i32::MAX).unwrap();
    assert_eq!(
        handle(&ids, &mut full, Some("t"), "ping", 1, 0, pong()),
        RelayResult::StorageUnavailable
    );
    assert_eq!(full.len(), 0);
    let mut nearly = MessageLog::resuming(i32::MAX - 1).unwrap();
    assert_eq!(
        handle(&ids, &mut nearly, Some("t"), "ping", 1, 0, pong()),
        RelayResult::StorageUnavailable
    );
    assert_eq!(texts(&nearly), vec![(Some(1), Some("ping".to_string()))]);
    let payload = MessagePayload { content: "ping".to_string() };
    let response = conversation_handler(&ids, &mut full, Some("t"), &payload, 1, pong());
    assert_eq!(response, Err(InternalError));
}

#[test]
fn gateway_failures_are_internal_errors() {
    let mut ids = IdentityStore::new();
    add(&mut ids, "helen", "real", None);
    add(&mut ids, "muse", "ai", None);
    sign_in(&mut ids, "helen", "t");
    let payload = MessagePayload { content: "ping".to_string() };
    for failure in [GatewayError::Unavailable, GatewayError::Protocol] {
        let mut log = MessageLog::new();
        let response = conversation_handler(&ids, &mut log, Some("t"), &payload, 1, Err(failure));
        assert_eq!(response, Err(InternalError));
        assert_eq!(texts(&log), vec![(Some(1), Some("ping".to_string()))]);
    }
}

#[test]
fn empty_text_is_relayed() {
    let mut ids = IdentityStore::new();
    add(&mut ids, "helen", "real", None);
    add(&mut ids, "muse", "ai", None);
    sign_in(&mut ids, "helen", "t");
    let mut log = MessageLog::new();
    let result = handle(&ids, &mut log, Some("t"), "", 1, 0, Ok(GatewayReply::Text(String::new())));
    assert_eq!(result, RelayResult::Success(String::new()));
    assert_eq!(
        texts(&log),
        vec![(Some(1), Some(String::new())), (Some(2), Some(String::new()))]
    );
}

#[test]
fn answers_for_each_result() {
    let ok = respond(RelayResult::Success("pong".to_string())).unwrap();
    assert!(ok.success);
    assert_eq!(ok.data, Some("pong".to_string()));
    assert_eq!(ok.message, None);
    for (result, reason) in [
        (RelayResult::InvalidSession, "Invalid session token"),
        (RelayResult::RoleNotPermitted, "AI users cannot start a conversation."),
        (RelayResult::NoResponderAvailable, "No AI users available"),
    ] {
        let refusal = respond(result).unwrap();
        assert!(!refusal.success);
        assert_eq!(refusal.data, None);
        assert_eq!(refusal.message, Some(reason.to_string()));
    }
    for result in [
        RelayResult::StorageUnavailable,
        RelayResult::GatewayUnavailable,
        RelayResult::GatewayProtocolError,
    ] {
        assert_eq!(respond(result), Err(InternalError));
    }
}

fn user(id: i32, name: &str, user_type: &str, profile: Option<&str>) -> User {
    User {
        id,
        username: name.to_string(),
        password_hash: "h".to_string(),
        user_type: user_type.to_string(),
        ai_profile: profile.map(|p| p.to_string()),
        created_at: 0,
        session_token: None,
    }
}

#[test]
fn machine_walks_a_whole_turn() {
    let (state, action) = begin(Some("tok"), "ping");
    assert_eq!(state, RelayState::AwaitingCaller { text: "ping".to_string() });
    assert_eq!(action, RelayAction::FindCaller { token: "tok".to_string() });

    let caller = user(5, "helen", "real", None);
    let (state, action) = advance(state, RelayEvent::Caller(Some(caller)), 0).unwrap();
    assert_eq!(state, RelayState::AwaitingInbound { human: true, text: "ping".to_string() });
    assert_eq!(
        action,
        RelayAction::Append(NewMessage {
            user_id: Some(5),
            content: Some("ping".to_string()),
            image_url: None,
        })
    );

    let (state, action) = advance(state, RelayEvent::Stored(true), 0).unwrap();
    assert_eq!(state, RelayState::AwaitingAgents { text: "ping".to_string() });
    assert_eq!(action, RelayAction::LoadAgents);

    let agents = vec![user(8, "a", "ai", Some("A")), user(9, "b", "ai", None)];
    let (state, action) = advance(state, RelayEvent::Agents(Some(agents)), 1).unwrap();
    assert_eq!(state, RelayState::AwaitingReply { agent: 9 });
    assert_eq!(
        action,
        RelayAction::Generate(GenerationRequest {
            model: "qwen2.5-coder".to_string(),
            prompt: "AI Profile: None\nTopic: ping".to_string(),
        })
    );

    let (state, action) = advance(state, RelayEvent::Reply(pong()), 0).unwrap();
    assert_eq!(state, RelayState::AwaitingOutbound { reply: "pong".to_string() });
    assert_eq!(
        action,
        RelayAction::Append(NewMessage {
            user_id: Some(9),
            content: Some("pong".to_string()),
            image_url: None,
        })
    );

    let (state, action) = advance(state, RelayEvent::Stored(true), 0).unwrap();
    assert_eq!(state, RelayState::Finished);
    assert_eq!(action, RelayAction::Finish(RelayResult::Success("pong".to_string())));
    assert_eq!(advance(state, RelayEvent::Stored(true), 0), None);
}

#[test]
fn machine_ends_early() {
    let (state, action) = begin(None, "ping");
    assert_eq!(state, RelayState::Finished);
    assert_eq!(action, RelayAction::Finish(RelayResult::InvalidSession));

    let waiting = || RelayState::AwaitingCaller { text: "ping".to_string() };
    assert_eq!(
        advance(waiting(), RelayEvent::Caller(None), 0),
        Some((RelayState::Finished, RelayAction::Finish(RelayResult::InvalidSession)))
    );

    let inbound = |human| RelayState::AwaitingInbound { human, text: "ping".to_string() };
    assert_eq!(
        advance(inbound(true), RelayEvent::Stored(false), 0),
        Some((RelayState::Finished, RelayAction::Finish(RelayResult::StorageUnavailable)))
    );
    assert_eq!(
        advance(inbound(false), RelayEvent::Stored(false), 0),
        Some((RelayState::Finished, RelayAction::Finish(RelayResult::StorageUnavailable)))
    );
    assert_eq!(
        advance(inbound(false), RelayEvent::Stored(true), 0),
        Some((RelayState::Finished, RelayAction::Finish(RelayResult::RoleNotPermitted)))
    );

    let agents = || RelayState::AwaitingAgents { text: "ping".to_string() };
    assert_eq!(
        advance(agents(), RelayEvent::Agents(None), 0),
        Some((RelayState::Finished, RelayAction::Finish(RelayResult::StorageUnavailable)))
    );
    assert_eq!(
        advance(agents(), RelayEvent::Agents(Some(Vec::new())), 4),
        Some((RelayState::Finished, RelayAction::Finish(RelayResult::NoResponderAvailable)))
    );

    let reply = || RelayState::AwaitingReply { agent: 3 };
    assert_eq!(
        advance(reply(), RelayEvent::Reply(Err(GatewayError::Unavailable)), 0),
        Some((RelayState::Finished, RelayAction::Finish(RelayResult::GatewayUnavailable)))
    );
    assert_eq!(
        advance(reply(), RelayEvent::Reply(Err(GatewayError::Protocol)), 0),
        Some((RelayState::Finished, RelayAction::Finish(RelayResult::GatewayProtocolError)))
    );
    assert_eq!(
        advance(reply(), RelayEvent::Reply(Ok(GatewayReply::Missing)), 0),
        Some((
            RelayState::AwaitingOutbound { reply: "AI Error".to_string() },
            RelayAction::Append(NewMessage {
                user_id: Some(3),
                content: Some("AI Error".to_string()),
                image_url: None,
            })
        ))
    );

    let outbound = || RelayState::AwaitingOutbound { reply: "pong".to_string() };
    assert_eq!(
        advance(outbound(), RelayEvent::Stored(false), 0),
        Some((RelayState::Finished, RelayAction::Finish(RelayResult::StorageUnavailable)))
    );
}

#[test]
fn machine_takes_only_the_event_it_waits_for() {
    let waiting = || RelayState::AwaitingCaller { text: "ping".to_string() };
    assert_eq!(advance(waiting(), RelayEvent::Stored(true), 0), None);
    assert_eq!(advance(waiting(), RelayEvent::Agents(None), 0), None);
    assert_eq!(advance(waiting(), RelayEvent::Reply(pong()), 0), None);
    let inbound = || RelayState::AwaitingInbound { human: true, text: "ping".to_string() };
    assert_eq!(advance(inbound(), RelayEvent::Caller(None), 0), None);
    let agents = || RelayState::AwaitingAgents { text: "ping".to_string() };
    assert_eq!(advance(agents(), RelayEvent::Stored(true), 0), None);
    let reply = || RelayState::AwaitingReply { agent: 3 };
    assert_eq!(advance(reply(), RelayEvent::Stored(true), 0), None);
    let outbound = || RelayState::AwaitingOutbound { reply: "pong".to_string() };
    assert_eq!(advance(outbound(), RelayEvent::Reply(pong()), 0), None);
    assert_eq!(advance(RelayState::Finished, RelayEvent::Caller(None), 0), None);
    assert_eq!(step(RelayState::Finished, RelayEvent::Stored(true)), None);
    assert_eq!(step(waiting(), RelayEvent::Stored(true)), None);
}

#[test]
fn step_draws_one_of_the_agents() {
    for _ in 0..50 {
        let agents = vec![user(8, "a", "ai", None), user(9, "b", "ai", None)];
        let state = RelayState::AwaitingAgents { text: "ping".to_string() };
        match step(state, RelayEvent::Agents(Some(agents))) {
            Some((RelayState::AwaitingReply { agent }, RelayAction::Generate(request))) => {
                assert!(agent == 8 || agent == 9);
                assert_eq!(request.prompt, "AI Profile: None\nTopic: ping");
            }
            other => panic!("unexpected step {:?}", other),
        }
    }
    let state = RelayState::AwaitingAgents { text: "ping".to_string() };
    assert_eq!(
        step(state, RelayEvent::Agents(Some(vec![user(8, "a", "ai", Some("P"))]))),
        Some((
            RelayState::AwaitingReply { agent: 8 },
            RelayAction::Generate(GenerationRequest {
                model: "qwen2.5-coder".to_string(),
                prompt: "AI Profile: Some(P)\nTopic: ping".to_string(),
            })
        ))
    );
    let state = RelayState::AwaitingAgents { text: "ping".to_string() };
    assert_eq!(
        step(state, RelayEvent::Agents(Some(Vec::new()))),
        Some((RelayState::Finished, RelayAction::Finish(RelayResult::NoResponderAvailable)))
    );
    assert_eq!(
        step(RelayState::AwaitingCaller { text: "t".to_string() }, RelayEvent::Caller(None)),
        Some((RelayState::Finished, RelayAction::Finish(RelayResult::InvalidSession)))
    );
}
