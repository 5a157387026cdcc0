use vstd::prelude::*;
use crate::routes::missing_field;
use crate::text::{str_eq, string_or, text_or};

verus! {

/// The data of the login page template.
pub struct IndexTemplate {
    pub pid: String,
    pub data: String,
}

/// The fields of a login request body that the login logic reads: the
/// string values of `user_id` and `user_password`, `None` where the body
/// has no such string.
pub struct LoginRequest {
    pub user_id: Option<String>,
    pub user_password: Option<String>,
}

/// What a `POST /login/{id}` request asks of the server.
pub enum LoginAction {
    /// Count the users with these credentials (`params` bind `$1` and `$2`
    /// of `query`); on a count of one, store `session_user` in the session
    /// under `user_id`. The rows found are the reply.
    CheckCredentials { query: String, params: Vec<String>, session_user: String },
    /// An action that does not exist: the reply is the JSON text `body`.
    Unknown { body: String },
}

/// The query that counts the users with a given id (`$1`) and password (`$2`).
pub open spec fn credentials_query() -> Seq<char> {
    "select count(아이디) as 인증 from 사용자 where 아이디 = $1 and 비밀번호 = $2"@
}

/// The reply to an unknown login action.
pub open spec fn unknown_login_reply() -> Seq<char> {
    "{\"인증\":\"???\"}"@
}

/// The login page: `pid` is `login`, `data` is `-`.
pub fn get_login() -> (r: IndexTemplate)
    ensures
        r.pid@ == "login"@,
        r.data@ == "-"@,
{
    IndexTemplate { pid: String::from_str("login"), data: String::from_str("-") }
}

/// Decides what a login request with the action `id` does: `post_login`
/// checks the credentials of `request`, with `???` in place of a missing
/// field; any other action is unknown.
pub fn post_login(id: &str, request: LoginRequest) -> (r: LoginAction)
    ensures
        id@ == "post_login"@ ==> (r matches LoginAction::CheckCredentials {
            query,
            params,
            session_user,
        } && query@ == credentials_query() && params@.len() == 2 && params@[0]@ == text_or(
            request.user_id,
            missing_field(),
        ) && params@[1]@ == text_or(request.user_password, missing_field()) && session_user@
            == text_or(request.user_id, missing_field())),
        id@ != "post_login"@ ==> (r matches LoginAction::Unknown { body } && body@
            == unknown_login_reply()),
        id@ == "post_login"@ ==> (r matches LoginAction::CheckCredentials {
            params,
            session_user,
            ..
        } && (request.user_id matches Some(u) ==> params@[0]@ == u@ && session_user@ == u@) && (
        request.user_password matches Some(p) ==> params@[1]@ == p@) && (request.user_id is None
            ==> params@[0]@ == "???"@ && session_user@ == "???"@) && (request.user_password is None
            ==> params@[1]@ == "???"@)),
{
    if str_eq(id, "post_login") {
        let user = string_or(request.user_id, "???");
        let password = string_or(request.user_password, "???");
        let session_user = user.clone();
        let mut params: Vec<String> = Vec::new();
        params.push(user);
        params.push(password);
        LoginAction::CheckCredentials {
            query: String::from_str(
                "select count(아이디) as 인증 from 사용자 where 아이디 = $1 and 비밀번호 = $2",
            ),
            params,
            session_user,
        }
    } else {
        LoginAction::Unknown { body: String::from_str("{\"인증\":\"???\"}") }
    }
}

/// Whether the credentials check succeeded, from the `인증` count of the
/// first row found (`None` when that row holds no integer there): exactly
/// one matching user logs in.
pub fn login_succeeded(auth_count: Option<i64>) -> (r: bool)
    ensures
        r == (auth_count == Some(1i64)),
{
    match auth_count {
        Some(n) => n == 1,
        None => false,
    }
}

} // verus!
