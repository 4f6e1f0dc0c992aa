//! The failure kinds that operations report, each with a numeric code and a
//! human-readable message.

use vstd::prelude::*;

verus! {

/// Outcome kinds shared by every operation of the service.
#[derive(Debug, Clone, Copy, PartialEq, Eq, Structural)]
pub enum AppError {
    /// Nothing failed.
    Success,
    /// Something failed inside the service.
    Error,
    /// The user store failed.
    Database,
    /// The store holds no such user.
    UserNotFound,
    /// The e-mail address is taken.
    UserExists,
    /// The request does not say who is asking.
    Unauthorized,
    /// Who is asking may not do this.
    Forbidden,
    /// The token does not pass: its signature or its expiry.
    InvalidToken,
    /// The client is over its limit.
    FrequencyLimited,
    /// The password does not match.
    PasswordIncorrect,
}

impl AppError {
    /// The numeric code carried in a response envelope.
    pub open spec fn spec_code(self) -> int {
        match self {
            AppError::Success => 0,
            AppError::Error => 1000,
            AppError::Database => 1001,
            AppError::UserNotFound => 1002,
            AppError::Unauthorized => 1003,
            AppError::InvalidToken => 1004,
            AppError::Forbidden => 1005,
            AppError::FrequencyLimited => 1006,
            AppError::UserExists => 1007,
            AppError::PasswordIncorrect => 1008,
        }
    }

    /// The numeric code of this kind.
    pub fn code(&self) -> (code: i32)
        ensures
            code == self.spec_code(),
    {
        match self {
            AppError::Success => 0,
            AppError::Error => 1000,
            AppError::Database => 1001,
            AppError::UserNotFound => 1002,
            AppError::Unauthorized => 1003,
            AppError::InvalidToken => 1004,
            AppError::Forbidden => 1005,
            AppError::FrequencyLimited => 1006,
            AppError::UserExists => 1007,
            AppError::PasswordIncorrect => 1008,
        }
    }

    /// The message text for this kind in the language named by `lang`.
    /// English is the only catalogue, so every tag, known or not, resolves
    /// to the English text.
    pub open spec fn spec_message(self, lang: Seq<char>) -> Seq<char> {
        match self {
            AppError::Success => "Success"@,
            AppError::Error => "Error"@,
            AppError::Database => "Database error"@,
            AppError::UserNotFound => "User not found"@,
            AppError::Unauthorized => "Unauthorized"@,
            AppError::InvalidToken => "Token invalid"@,
            AppError::Forbidden => "Forbidden"@,
            AppError::FrequencyLimited => "Frequency limited"@,
            AppError::UserExists => "User exists"@,
            AppError::PasswordIncorrect => "Password incorrect"@,
        }
    }

    /// The message of this kind in the language named by `lang`.
    pub fn message(&self, lang: &str) -> (msg: String)
        ensures
            msg@ == self.spec_message(lang@),
    {
        match self {
            AppError::Success => "Success".to_owned(),
            AppError::Error => "Error".to_owned(),
            AppError::Database => "Database error".to_owned(),
            AppError::UserNotFound => "User not found".to_owned(),
            AppError::Unauthorized => "Unauthorized".to_owned(),
            AppError::InvalidToken => "Token invalid".to_owned(),
            AppError::Forbidden => "Forbidden".to_owned(),
            AppError::FrequencyLimited => "Frequency limited".to_owned(),
            AppError::UserExists => "User exists".to_owned(),
            AppError::PasswordIncorrect => "Password incorrect".to_owned(),
        }
    }
}

} // verus!
