//! The three outcomes of an offloaded translation and the HTTP reply each
//! one becomes.

use vstd::prelude::*;
use crate::request::RequestError;

verus! {

pub const STATUS_OK: u16 = 200;

pub const STATUS_BAD_REQUEST: u16 = 400;

pub const STATUS_INTERNAL_ERROR: u16 = 500;

/// How an offloaded translation ended.
#[derive(Debug)]
pub enum TranslationOutcome {
    /// The engine produced this translation.
    Translated(String),
    /// The engine ran and reported this error.
    EngineFailed(String),
    /// The worker pool could not run the call to completion; the details.
    OffloadFailed(String),
}

/// The JSON body of a reply.
#[derive(Debug)]
pub enum ReplyBody {
    /// `{ "translated_code": ... }`
    Translated { translated_code: String },
    /// `{ "error": ... }`
    Error { error: String },
}

/// An HTTP status and JSON body.
#[derive(Debug)]
pub struct Reply {
    pub status: u16,
    pub body: ReplyBody,
}

impl ReplyBody {
    /// The text the body carries, whichever member it is.
    pub open spec fn text(&self) -> Seq<char> {
        match self {
            ReplyBody::Translated { translated_code } => translated_code@,
            ReplyBody::Error { error } => error@,
        }
    }
}

/// The prefix that tells an infrastructure failure from an engine error.
pub open spec fn server_error_prefix() -> Seq<char> {
    "Server error: "@
}

/// Status, success flag and text of the reply for `outcome`.
pub open spec fn reply_of(outcome: TranslationOutcome) -> (u16, bool, Seq<char>) {
    match outcome {
        TranslationOutcome::Translated(t) => (STATUS_OK, true, t@),
        TranslationOutcome::EngineFailed(m) => (STATUS_INTERNAL_ERROR, false, m@),
        TranslationOutcome::OffloadFailed(d) => (STATUS_INTERNAL_ERROR, false, server_error_prefix() + d@),
    }
}

impl Reply {
    /// Status, success flag and text, the form contracts compare replies in.
    pub open spec fn parts(&self) -> (u16, bool, Seq<char>) {
        (self.status, self.body is Translated, self.body.text())
    }

    /// The reply for a finished translation: 200 with the engine's text as
    /// it came, or 500 with the engine's message, or 500 with the offload
    /// failure behind the server-error prefix.
    pub fn for_outcome(outcome: TranslationOutcome) -> (r: Reply)
        ensures
            r.parts() == reply_of(outcome),
    {
        match outcome {
            TranslationOutcome::Translated(translated_code) => Reply {
                status: STATUS_OK,
                body: ReplyBody::Translated { translated_code },
            },
            TranslationOutcome::EngineFailed(error) => Reply {
                status: STATUS_INTERNAL_ERROR,
                body: ReplyBody::Error { error },
            },
            TranslationOutcome::OffloadFailed(details) => {
                let mut error = String::from_str("Server error: ");
                error.append(details.as_str());
                Reply { status: STATUS_INTERNAL_ERROR, body: ReplyBody::Error { error } }
            },
        }
    }

    /// The 400 reply for a request body that was refused.
    pub fn for_request_error(e: &RequestError) -> (r: Reply)
        ensures
            r.parts() == (STATUS_BAD_REQUEST, false, e.spec_message()),
    {
        Reply { status: STATUS_BAD_REQUEST, body: ReplyBody::Error { error: e.message() } }
    }
}

} // verus!
