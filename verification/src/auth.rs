//! Signing in: what is asked and what is answered.

use vstd::prelude::*;
use vstd::string::*;

verus! {

/// The body of a sign-in request.
pub struct LoginRequest {
    pub username: String,
    pub password: String,
}

/// The answer to a sign-in request.
pub struct LoginResponse {
    pub success: bool,
    pub message: String,
    pub token: Option<String>,
}

impl LoginResponse {
    /// The answer to a request that named no known user or gave the wrong
    /// password. The two cases get the same answer, so that it does not tell
    /// which user names exist.
    pub fn rejected() -> (response: Self)
        ensures
            !response.success,
            response.message@ == "Invalid username or password"@,
            response.token is None,
    {
        LoginResponse {
            success: false,
            message: String::from_str("Invalid username or password"),
            token: None,
        }
    }

    /// The answer to a request that was accepted, with its session token.
    pub fn accepted(token: String) -> (response: Self)
        ensures
            response.success,
            response.message@ == "Login successful"@,
            response.token is Some,
            response.token->Some_0@ == token@,
    {
        LoginResponse {
            success: true,
            message: String::from_str("Login successful"),
            token: Some(token),
        }
    }

    /// Answers a sign-in: accepted exactly when the user exists, the
    /// password matches and a token could be made.
    pub fn decide(user_found: bool, password_matches: bool, token: Option<String>) -> (response: Self)
        ensures
            response.success == (user_found && password_matches && token is Some),
            response.success ==> response.token is Some && response.token->Some_0@
                == token->Some_0@ && response.message@ == "Login successful"@,
            !response.success ==> response.token is None && response.message@
                == "Invalid username or password"@,
    {
        if user_found && password_matches {
            match token {
                Some(text) => Self::accepted(text),
                None => Self::rejected(),
            }
        } else {
            Self::rejected()
        }
    }
}

} // verus!
