//! The records the relay works on, and their mathematical views.

use vstd::prelude::*;

verus! {

/// The `user_type` of a user who may start a conversation.
pub const HUMAN_TYPE: &'static str = "real";

/// The `user_type` of a user who only answers.
pub const AGENT_TYPE: &'static str = "ai";

/// The `user_type` of a user who may start a conversation.
pub open spec fn human_type() -> Seq<char> {
    HUMAN_TYPE@
}

/// The `user_type` of a user who only answers.
pub open spec fn agent_type() -> Seq<char> {
    AGENT_TYPE@
}

/// View of an optional string.
pub open spec fn text_of(s: Option<String>) -> Option<Seq<char>> {
    match s {
        Some(t) => Some(t@),
        None => None,
    }
}

/// An identity record.
#[derive(Debug, PartialEq, Eq)]
pub struct User {
    pub id: i32,
    pub username: String,
    pub password_hash: String,
    pub user_type: String,
    /// The agent profile as JSON text; only meaningful for agents.
    pub ai_profile: Option<String>,
    /// Microseconds since the Unix epoch.
    pub created_at: i64,
    pub session_token: Option<String>,
}

/// What a `User` holds, as plain mathematical values.
pub struct UserView {
    pub id: i32,
    pub username: Seq<char>,
    pub password_hash: Seq<char>,
    pub user_type: Seq<char>,
    pub ai_profile: Option<Seq<char>>,
    pub created_at: i64,
    pub session_token: Option<Seq<char>>,
}

impl UserView {
    pub open spec fn is_human(self) -> bool {
        self.user_type == human_type()
    }

    pub open spec fn is_agent(self) -> bool {
        self.user_type == agent_type()
    }
}

impl View for User {
    type V = UserView;

    open spec fn view(&self) -> UserView {
        UserView {
            id: self.id,
            username: self.username@,
            password_hash: self.password_hash@,
            user_type: self.user_type@,
            ai_profile: text_of(self.ai_profile),
            created_at: self.created_at,
            session_token: text_of(self.session_token),
        }
    }
}

/// Copies an optional string.
pub fn copy_text(s: &Option<String>) -> (r: Option<String>)
    ensures
        r == *s,
{
    match s {
        Some(t) => Some(t.clone()),
        None => None,
    }
}

/// The views of a sequence of users.
pub open spec fn views(users: Seq<User>) -> Seq<UserView> {
    users.map_values(|u: User| u@)
}

impl Clone for User {
    fn clone(&self) -> (r: Self)
        ensures
            r == *self,
    {
        User {
            id: self.id,
            username: self.username.clone(),
            password_hash: self.password_hash.clone(),
            user_type: self.user_type.clone(),
            ai_profile: copy_text(&self.ai_profile),
            created_at: self.created_at,
            session_token: copy_text(&self.session_token),
        }
    }
}

impl User {
    /// Whether this user may start a conversation.
    pub fn is_human(&self) -> (b: bool)
        ensures
            b == self@.is_human(),
    {
        let human = HUMAN_TYPE.to_owned();
        self.user_type == human
    }

    /// Whether this user is one of the responders.
    pub fn is_agent(&self) -> (b: bool)
        ensures
            b == self@.is_agent(),
    {
        let agent = AGENT_TYPE.to_owned();
        self.user_type == agent
    }
}

/// What a new user is created from. The store assigns the id and the caller
/// supplies the creation time.
#[derive(Debug, PartialEq, Eq)]
pub struct NewUser {
    pub username: String,
    pub password_hash: String,
    pub user_type: String,
    pub ai_profile: Option<String>,
    pub session_token: Option<String>,
}

pub struct NewUserView {
    pub username: Seq<char>,
    pub password_hash: Seq<char>,
    pub user_type: Seq<char>,
    pub ai_profile: Option<Seq<char>>,
    pub session_token: Option<Seq<char>>,
}

impl View for NewUser {
    type V = NewUserView;

    open spec fn view(&self) -> NewUserView {
        NewUserView {
            username: self.username@,
            password_hash: self.password_hash@,
            user_type: self.user_type@,
            ai_profile: text_of(self.ai_profile),
            session_token: text_of(self.session_token),
        }
    }
}

impl NewUserView {
    /// The user that a store makes of this request.
    pub open spec fn stored(self, id: i32, created_at: i64) -> UserView {
        UserView {
            id,
            username: self.username,
            password_hash: self.password_hash,
            user_type: self.user_type,
            ai_profile: self.ai_profile,
            created_at,
            session_token: self.session_token,
        }
    }
}

/// A user as shown to clients: every field but the credential.
#[derive(Debug, PartialEq, Eq)]
pub struct UserRecord {
    pub id: i32,
    pub username: String,
    pub user_type: String,
    pub ai_profile: Option<String>,
    pub created_at: i64,
    pub session_token: Option<String>,
}

pub struct UserRecordView {
    pub id: i32,
    pub username: Seq<char>,
    pub user_type: Seq<char>,
    pub ai_profile: Option<Seq<char>>,
    pub created_at: i64,
    pub session_token: Option<Seq<char>>,
}

impl View for UserRecord {
    type V = UserRecordView;

    open spec fn view(&self) -> UserRecordView {
        UserRecordView {
            id: self.id,
            username: self.username@,
            user_type: self.user_type@,
            ai_profile: text_of(self.ai_profile),
            created_at: self.created_at,
            session_token: text_of(self.session_token),
        }
    }
}

impl UserView {
    /// The public part of a user.
    pub open spec fn record(self) -> UserRecordView {
        UserRecordView {
            id: self.id,
            username: self.username,
            user_type: self.user_type,
            ai_profile: self.ai_profile,
            created_at: self.created_at,
            session_token: self.session_token,
        }
    }
}

impl User {
    /// The public part of this user: the credential is left out.
    pub fn record(&self) -> (r: UserRecord)
        ensures
            r@ == self@.record(),
    {
        UserRecord {
            id: self.id,
            username: self.username.clone(),
            user_type: self.user_type.clone(),
            ai_profile: copy_text(&self.ai_profile),
            created_at: self.created_at,
            session_token: copy_text(&self.session_token),
        }
    }
}

/// An entry of the message log.
#[derive(Debug, PartialEq, Eq)]
pub struct Message {
    pub id: i32,
    /// The author; absent only for messages that no user wrote.
    pub user_id: Option<i32>,
    pub content: Option<String>,
    pub image_url: Option<String>,
    /// Microseconds since the Unix epoch.
    pub created_at: i64,
}

pub struct MessageView {
    pub id: i32,
    pub user_id: Option<i32>,
    pub content: Option<Seq<char>>,
    pub image_url: Option<Seq<char>>,
    pub created_at: i64,
}

impl View for Message {
    type V = MessageView;

    open spec fn view(&self) -> MessageView {
        MessageView {
            id: self.id,
            user_id: self.user_id,
            content: text_of(self.content),
            image_url: text_of(self.image_url),
            created_at: self.created_at,
        }
    }
}

impl Clone for Message {
    fn clone(&self) -> (r: Self)
        ensures
            r == *self,
    {
        Message {
            id: self.id,
            user_id: self.user_id,
            content: copy_text(&self.content),
            image_url: copy_text(&self.image_url),
            created_at: self.created_at,
        }
    }
}

/// What a message is created from.
#[derive(Debug, PartialEq, Eq)]
pub struct NewMessage {
    pub user_id: Option<i32>,
    pub content: Option<String>,
    pub image_url: Option<String>,
}

pub struct NewMessageView {
    pub user_id: Option<i32>,
    pub content: Option<Seq<char>>,
    pub image_url: Option<Seq<char>>,
}

impl View for NewMessage {
    type V = NewMessageView;

    open spec fn view(&self) -> NewMessageView {
        NewMessageView {
            user_id: self.user_id,
            content: text_of(self.content),
            image_url: text_of(self.image_url),
        }
    }
}

impl NewMessageView {
    /// The text `text` written by the user `author`.
    pub open spec fn written(author: i32, text: Seq<char>) -> NewMessageView {
        NewMessageView { user_id: Some(author), content: Some(text), image_url: None }
    }

    /// The message that a log makes of this request.
    pub open spec fn stored(self, id: i32, created_at: i64) -> MessageView {
        MessageView {
            id,
            user_id: self.user_id,
            content: self.content,
            image_url: self.image_url,
            created_at,
        }
    }
}

impl NewMessage {
    /// The text `text` written by the user `author`.
    pub fn written(author: i32, text: &str) -> (m: NewMessage)
        ensures
            m@ == NewMessageView::written(author, text@),
    {
        NewMessage { user_id: Some(author), content: Some(text.to_owned()), image_url: None }
    }
}

/// The body of a registration request.
#[derive(Debug, PartialEq, Eq)]
pub struct RegisterInput {
    pub username: String,
    pub password: String,
    /// `"real"` for a human user, `"ai"` for an agent.
    pub user_type: String,
    /// JSON text; optional, for agents.
    pub ai_profile: Option<String>,
}

/// The body of a login request.
#[derive(Debug, PartialEq, Eq)]
pub struct LoginInput {
    pub username: String,
    pub password: String,
}

/// The body of a conversation request.
#[derive(Debug, PartialEq, Eq)]
pub struct MessagePayload {
    pub content: String,
}

} // verus!
