//! The envelope in which every answer travels: a code, a message in the
//! caller's language, and the payload if there is one. Failures are told by
//! the code in the envelope.

use crate::error::AppError;
use crate::text::{decimal, decimal_text};
use vstd::prelude::*;

verus! {

/// The language of a message where the request names none.
pub open spec fn default_lang() -> Seq<char> {
    "en"@
}

/// The language that a request asks for.
pub open spec fn lang_or_default(lang: Option<&str>) -> Seq<char> {
    match lang {
        Some(tag) => tag@,
        None => default_lang(),
    }
}

/// The envelope of an answer.
#[derive(Debug)]
pub struct Response<T> {
    pub code: i32,
    pub msg: String,
    pub data: Option<T>,
}

/// An envelope written out without its payload, as it is shown in a log.
pub open spec fn envelope_text(code: int, msg: Seq<char>) -> Seq<char> {
    "{ \"code\": "@ + decimal(code) + ", \"msg\": \""@ + msg + "\" }"@
}

impl<T> Response<T> {
    /// The envelope of a success: code 0, the message of `Success`, and
    /// the payload as it was given.
    pub fn success(data: Option<T>, lang: Option<&str>) -> (response: Self)
        ensures
            response.code == 0,
            response.msg@ == AppError::Success.spec_message(lang_or_default(lang)),
            response.data == data,
    {
        let tag = match lang {
            Some(tag) => tag,
            None => "en",
        };
        Response { data, code: 0, msg: AppError::Success.message(tag) }
    }

    /// The envelope of a failure: the code and the message of its kind,
    /// and no payload.
    pub fn error(error: AppError, lang: Option<&str>) -> (response: Self)
        ensures
            response.code == error.spec_code(),
            response.msg@ == error.spec_message(lang_or_default(lang)),
            response.data is None,
    {
        let tag = match lang {
            Some(tag) => tag,
            None => "en",
        };
        Response { data: None, code: error.code(), msg: error.message(tag) }
    }

    /// The envelope written out for a log: its code and its message.
    pub fn to_text(&self) -> (text: String)
        ensures
            text@ == envelope_text(self.code as int, self.msg@),
    {
        let mut text = "{ \"code\": ".to_owned();
        text.append(decimal_text(self.code).as_str());
        text.append(", \"msg\": \"");
        text.append(self.msg.as_str());
        text.append("\" }");
        text
    }
}

} // verus!
