//! Registration and login: what is decided between reading the identity
//! store and writing to it.

use crate::credentials::{
    accepts, hash_password, password_matches, uuid_text, TOKEN_LENGTH,
};
use crate::models::{
    copy_text, text_of, LoginInput, NewUser, NewUserView, RegisterInput, User, UserRecord,
    UserRecordView, UserView,
};
use crate::response::ApiResponse;
use vstd::prelude::*;

verus! {

/// The reason given where the username is taken.
pub open spec fn username_taken_reason() -> Seq<char> {
    "Username already exists"@
}

/// The reason given where no user has the username.
pub open spec fn user_not_found_reason() -> Seq<char> {
    "User not found"@
}

/// The reason given where the password is not the user's.
pub open spec fn bad_credential_reason() -> Seq<char> {
    "Incorrect password"@
}

/// What to do about a registration.
#[derive(Debug, PartialEq, Eq)]
pub enum Registration {
    /// The username is taken: refuse.
    Refused,
    /// No credential could be made: fail.
    Failed,
    /// Create this user.
    Create(NewUser),
}

pub enum RegistrationView {
    Refused,
    Failed,
    Create(NewUserView),
}

impl View for Registration {
    type V = RegistrationView;

    open spec fn view(&self) -> RegistrationView {
        match self {
            Registration::Refused => RegistrationView::Refused,
            Registration::Failed => RegistrationView::Failed,
            Registration::Create(request) => RegistrationView::Create(request@),
        }
    }
}

/// The user that a registration asks for, with the credential `hash`:
/// name, type and profile as given, and no session.
pub open spec fn account(
    username: Seq<char>,
    user_type: Seq<char>,
    ai_profile: Option<Seq<char>>,
    hash: Seq<char>,
) -> NewUserView {
    NewUserView { username, password_hash: hash, user_type, ai_profile, session_token: None }
}

/// What to do about a registration, given whether the name is taken and the
/// credential that was made, if one was.
pub open spec fn registration(
    taken: bool,
    username: Seq<char>,
    user_type: Seq<char>,
    ai_profile: Option<Seq<char>>,
    hash: Option<Seq<char>>,
) -> RegistrationView {
    if taken {
        RegistrationView::Refused
    } else {
        match hash {
            None => RegistrationView::Failed,
            Some(h) => RegistrationView::Create(account(username, user_type, ai_profile, h)),
        }
    }
}

/// Decides a registration, with the credential given.
pub fn plan_registration_with(taken: bool, input: RegisterInput, hash: Option<String>) -> (plan:
    Registration)
    ensures
        plan@ == registration(
            taken,
            input.username@,
            input.user_type@,
            text_of(input.ai_profile),
            text_of(hash),
        ),
{
    if taken {
        Registration::Refused
    } else {
        match hash {
            None => Registration::Failed,
            Some(h) => Registration::Create(
                NewUser {
                    username: input.username,
                    password_hash: h,
                    user_type: input.user_type,
                    ai_profile: input.ai_profile,
                    session_token: None,
                },
            ),
        }
    }
}

/// Decides a registration. `existing` is the user who has the name already,
/// if there is one. The password is hashed only where the name is free.
pub fn plan_registration(existing: Option<&User>, input: RegisterInput) -> (plan: Registration)
    ensures
        existing is Some <==> plan is Refused,
        plan matches Registration::Create(request) ==> {
            &&& accepts(input.password@, request@.password_hash)
            &&& request@ == account(
                input.username@,
                input.user_type@,
                text_of(input.ai_profile),
                request@.password_hash,
            )
        },
{
    if existing.is_some() {
        Registration::Refused
    } else {
        let hash = hash_password(input.password.as_str());
        plan_registration_with(false, input, hash)
    }
}

/// The answer to a registration whose name is taken.
pub fn username_taken_response() -> (r: ApiResponse<UserRecord>)
    ensures
        r.is_refusal(username_taken_reason()),
{
    ApiResponse::failure("Username already exists")
}

/// Whether `response` is the success that shows `record`.
pub open spec fn shows(response: ApiResponse<UserRecord>, record: UserRecordView) -> bool {
    &&& response.success
    &&& response.message is None
    &&& response.data is Some
    &&& response.data.unwrap()@ == record
}

/// The answer to a registration that created `user`: the record without the
/// credential.
pub fn registered_response(user: &User) -> (r: ApiResponse<UserRecord>)
    ensures
        shows(r, user@.record()),
{
    ApiResponse::success(user.record())
}

/// What to do about a login.
#[derive(Debug, PartialEq, Eq)]
pub enum LoginPlan {
    /// No user has the name: refuse.
    UnknownUser,
    /// The password is not the user's: refuse.
    BadCredential,
    /// Make `token` the live token of the user `id`.
    Issue { id: i32, token: String },
}

pub enum LoginPlanView {
    UnknownUser,
    BadCredential,
    Issue { id: i32, token: Seq<char> },
}

impl View for LoginPlan {
    type V = LoginPlanView;

    open spec fn view(&self) -> LoginPlanView {
        match self {
            LoginPlan::UnknownUser => LoginPlanView::UnknownUser,
            LoginPlan::BadCredential => LoginPlanView::BadCredential,
            LoginPlan::Issue { id, token } => LoginPlanView::Issue { id: *id, token: token@ },
        }
    }
}

/// What to do about a login, given the user found, whether the password was
/// accepted, and the token to issue.
pub open spec fn login_plan(
    found: Option<UserView>,
    accepted: bool,
    token: Seq<char>,
) -> LoginPlanView {
    match found {
        None => LoginPlanView::UnknownUser,
        Some(user) => if accepted {
            LoginPlanView::Issue { id: user.id, token }
        } else {
            LoginPlanView::BadCredential
        },
    }
}

/// Decides a login, with the verdict on the password and the token given.
pub fn plan_login_with(found: Option<&User>, accepted: bool, token: String) -> (plan: LoginPlan)
    ensures
        plan@ == login_plan(
            match found {
                Some(user) => Some(user@),
                None => None,
            },
            accepted,
            token@,
        ),
{
    match found {
        None => LoginPlan::UnknownUser,
        Some(user) => if accepted {
            LoginPlan::Issue { id: user.id, token }
        } else {
            LoginPlan::BadCredential
        },
    }
}

/// Decides a login. `found` is the user who has the name, if there is one.
/// A token is drawn only where the password is the user's.
pub fn plan_login(found: Option<&User>, input: &LoginInput) -> (plan: LoginPlan)
    ensures
        match found {
            None => plan is UnknownUser,
            Some(user) => if accepts(input.password@, user@.password_hash) {
                &&& plan matches LoginPlan::Issue { id, token }
                &&& id == user.id
                &&& token@.len() == TOKEN_LENGTH
            } else {
                plan is BadCredential
            },
        },
{
    match found {
        None => LoginPlan::UnknownUser,
        Some(user) => {
            let accepted = password_matches(input.password.as_str(), user.password_hash.as_str());
            let token = if accepted {
                uuid_text()
            } else {
                String::new()
            };
            plan_login_with(found, accepted, token)
        },
    }
}

/// The answer to a login by an unknown name.
pub fn user_not_found_response() -> (r: ApiResponse<UserRecord>)
    ensures
        r.is_refusal(user_not_found_reason()),
{
    ApiResponse::failure("User not found")
}

/// The answer to a login with a wrong password.
pub fn bad_credential_response() -> (r: ApiResponse<UserRecord>)
    ensures
        r.is_refusal(bad_credential_reason()),
{
    ApiResponse::failure("Incorrect password")
}

impl UserView {
    /// This user with the live token `token`.
    pub open spec fn holding(self, token: Seq<char>) -> UserView {
        UserView { session_token: Some(token), ..self }
    }
}

/// The answer to a login that issued `token` to `user`: the record with the
/// new token in it.
pub fn logged_in_response(user: &User, token: &str) -> (r: ApiResponse<UserRecord>)
    ensures
        shows(r, user@.holding(token@).record()),
{
    ApiResponse::success(
        UserRecord {
            id: user.id,
            username: user.username.clone(),
            user_type: user.user_type.clone(),
            ai_profile: copy_text(&user.ai_profile),
            created_at: user.created_at,
            session_token: Some(token.to_owned()),
        },
    )
}

} // verus!
