//! The request body of `POST /translate` and its validation.

use vstd::prelude::*;

verus! {

/// The language translated to when a request names none.
pub open spec fn default_target_language() -> Seq<char> {
    "Java"@
}

/// What one member of the JSON request object holds.
#[derive(Debug)]
pub enum FieldValue {
    /// The member is not in the object.
    Absent,
    /// The member is `null`.
    Null,
    /// The member is a JSON string.
    Text(String),
    /// The member is a number, a boolean, an array or an object.
    Other,
}

/// The request body, as far as the transport could read it.
#[derive(Debug)]
pub enum RequestBody {
    /// The body is not valid JSON; the parser's diagnostic.
    Unreadable(String),
    /// The body is JSON but not an object.
    NotAnObject,
    /// The body is a JSON object with these two members.
    Object { source_code: FieldValue, target_language: FieldValue },
}

/// Why a request body was refused before any translation.
#[derive(Debug)]
pub enum RequestError {
    Unreadable(String),
    NotAnObject,
    MissingSourceCode,
    SourceCodeNotText,
    TargetLanguageNotText,
}

/// A well-formed translation request.
#[derive(Debug)]
pub struct TranslateRequest {
    pub source_code: String,
    pub target_language: Option<String>,
}

/// The unit of work handed to a worker: the text and the language to
/// translate it to.
#[derive(Debug)]
pub struct TranslationJob {
    pub source_code: String,
    pub target_language: String,
}

/// The outcome of validating `body`: `Ok` exactly when `source_code` is a
/// string and `target_language` is a string, `null` or absent.
pub open spec fn validated(body: RequestBody) -> Result<(Seq<char>, Option<Seq<char>>), RequestError> {
    match body {
        RequestBody::Unreadable(d) => Err(RequestError::Unreadable(d)),
        RequestBody::NotAnObject => Err(RequestError::NotAnObject),
        RequestBody::Object { source_code, target_language } => match source_code {
            FieldValue::Absent | FieldValue::Null => Err(RequestError::MissingSourceCode),
            FieldValue::Other => Err(RequestError::SourceCodeNotText),
            FieldValue::Text(s) => match target_language {
                FieldValue::Absent | FieldValue::Null => Ok((s@, None)),
                FieldValue::Text(t) => Ok((s@, Some(t@))),
                FieldValue::Other => Err(RequestError::TargetLanguageNotText),
            },
        },
    }
}

impl TranslateRequest {
    pub open spec fn view_parts(&self) -> (Seq<char>, Option<Seq<char>>) {
        (
            self.source_code@,
            match self.target_language {
                Some(t) => Some(t@),
                None => None,
            },
        )
    }

    /// Checks the members of a request body; see `validated`.
    pub fn from_body(body: RequestBody) -> (r: Result<TranslateRequest, RequestError>)
        ensures
            match (r, validated(body)) {
                (Ok(req), Ok(parts)) => req.view_parts() == parts,
                (Err(e), Err(f)) => e == f,
                _ => false,
            },
    {
        match body {
            RequestBody::Unreadable(d) => Err(RequestError::Unreadable(d)),
            RequestBody::NotAnObject => Err(RequestError::NotAnObject),
            RequestBody::Object { source_code, target_language } => match source_code {
                FieldValue::Absent | FieldValue::Null => Err(RequestError::MissingSourceCode),
                FieldValue::Other => Err(RequestError::SourceCodeNotText),
                FieldValue::Text(s) => match target_language {
                    FieldValue::Absent | FieldValue::Null => Ok(
                        TranslateRequest { source_code: s, target_language: None },
                    ),
                    FieldValue::Text(t) => Ok(
                        TranslateRequest { source_code: s, target_language: Some(t) },
                    ),
                    FieldValue::Other => Err(RequestError::TargetLanguageNotText),
                },
            },
        }
    }

    /// The language to translate to: the one named, or the default.
    pub open spec fn resolved_target(&self) -> Seq<char> {
        match self.target_language {
            Some(t) => t@,
            None => default_target_language(),
        }
    }

    /// Hands the request's text over to a job, filling in the default
    /// target language.
    pub fn into_job(self) -> (r: TranslationJob)
        ensures
            r.source_code@ == self.source_code@,
            r.target_language@ == self.resolved_target(),
    {
        let target_language = match self.target_language {
            Some(t) => t,
            None => String::from_str("Java"),
        };
        TranslationJob { source_code: self.source_code, target_language }
    }
}

impl RequestError {
    /// The diagnostic for the error body.
    pub open spec fn spec_message(&self) -> Seq<char> {
        match self {
            RequestError::Unreadable(d) => "Invalid request body: "@ + d@,
            RequestError::NotAnObject => "Invalid request body: expected a JSON object"@,
            RequestError::MissingSourceCode => "Invalid request body: missing field `source_code`"@,
            RequestError::SourceCodeNotText => "Invalid request body: `source_code` must be a string"@,
            RequestError::TargetLanguageNotText => "Invalid request body: `target_language` must be a string"@,
        }
    }

    pub fn message(&self) -> (r: String)
        ensures
            r@ == self.spec_message(),
    {
        match self {
            RequestError::Unreadable(d) => {
                let mut m = String::from_str("Invalid request body: ");
                m.append(d.as_str());
                m
            },
            RequestError::NotAnObject => String::from_str("Invalid request body: expected a JSON object"),
            RequestError::MissingSourceCode => String::from_str("Invalid request body: missing field `source_code`"),
            RequestError::SourceCodeNotText => String::from_str("Invalid request body: `source_code` must be a string"),
            RequestError::TargetLanguageNotText => String::from_str("Invalid request body: `target_language` must be a string"),
        }
    }
}

} // verus!
