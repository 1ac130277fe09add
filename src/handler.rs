//! The `POST /translate` handler as two steps around the offloaded call:
//! `begin` validates the body and takes a worker slot, `finish` gives the
//! slot back and builds the reply. The caller runs the job in between.

use vstd::prelude::*;
use crate::pool::WorkerPool;
use crate::reply::{
    reply_of, server_error_prefix, Reply, TranslationOutcome, STATUS_BAD_REQUEST,
    STATUS_INTERNAL_ERROR, STATUS_OK,
};
use crate::request::{
    default_target_language, validated, FieldValue, RequestBody, RequestError, TranslateRequest,
    TranslationJob,
};

verus! {

/// What the caller does next with a request.
#[derive(Debug)]
pub enum Step {
    /// Run this job on the worker slot just taken, then call `finish`.
    Dispatch(TranslationJob),
    /// Send this reply; no slot was taken and no translation runs.
    Respond(Reply),
}

/// The details of the infrastructure failure for a full pool.
pub open spec fn saturated_details() -> Seq<char> {
    "worker pool is saturated"@
}

/// The source text and target language that a valid body is translated
/// with, or `None` for a body that is refused.
pub open spec fn job_of(body: RequestBody) -> Option<(Seq<char>, Seq<char>)> {
    match validated(body) {
        Ok((s, Some(t))) => Some((s, t)),
        Ok((s, None)) => Some((s, default_target_language())),
        Err(_) => None,
    }
}

/// Validates `body` and, when it is well formed, takes a worker slot for it.
/// A refused body gets a 400 reply, a full pool a 500 reply with the
/// server-error prefix; in both cases the pool is left as it was.
pub fn begin(pool: &mut WorkerPool, body: RequestBody) -> (r: Step)
    ensures
        final(pool).spec_capacity() == old(pool).spec_capacity(),
        old(pool).wf() ==> final(pool).wf(),
        match validated(body) {
            Err(e) => r matches Step::Respond(reply)
                && reply.parts() == (STATUS_BAD_REQUEST, false, e.spec_message())
                && *final(pool) == *old(pool),
            Ok(_) => if old(pool).is_saturated() {
                r matches Step::Respond(reply)
                    && reply.parts() == (STATUS_INTERNAL_ERROR, false, server_error_prefix() + saturated_details())
                    && *final(pool) == *old(pool)
            } else {
                r matches Step::Dispatch(job)
                    && job_of(body) == Some((job.source_code@, job.target_language@))
                    && final(pool).spec_busy() == old(pool).spec_busy() + 1
            },
        },
{
    let request = match TranslateRequest::from_body(body) {
        Ok(request) => request,
        Err(e) => return Step::Respond(Reply::for_request_error(&e)),
    };
    if !pool.try_acquire() {
        let details = String::from_str("worker pool is saturated");
        return Step::Respond(Reply::for_outcome(TranslationOutcome::OffloadFailed(details)));
    }
    Step::Dispatch(request.into_job())
}

/// Gives back the slot that `begin` took and builds the reply for how the
/// job ended.
pub fn finish(pool: &mut WorkerPool, outcome: TranslationOutcome) -> (r: Reply)
    ensures
        r.parts() == reply_of(outcome),
        final(pool).spec_capacity() == old(pool).spec_capacity(),
        final(pool).spec_busy() == if old(pool).spec_busy() > 0 {
            old(pool).spec_busy() - 1
        } else {
            0
        },
        old(pool).wf() ==> final(pool).wf(),
{
    pool.release();
    Reply::for_outcome(outcome)
}

/// Whatever valid request it answers, a successful translation reaches the
/// client as status 200 with exactly the text the engine returned.
pub proof fn engine_text_passes_through(body: RequestBody, translated: String)
    requires
        job_of(body) is Some,
    ensures
        reply_of(TranslationOutcome::Translated(translated)) == (STATUS_OK, true, translated@),
{
}

/// A request that omits `target_language` (or sets it to `null`) is
/// translated to the default language, `Java`.
pub proof fn absent_target_uses_default(source: String, target: FieldValue)
    requires
        target is Absent || target is Null,
    ensures
        job_of(RequestBody::Object { source_code: FieldValue::Text(source), target_language: target })
            == Some((source@, "Java"@)),
{
}

/// Requests do not mix: the job made for each body carries that body's own
/// source text, so two requests with distinct sources are never translated
/// with each other's text, and the reply to each is `reply_of` of its own
/// outcome alone.
pub proof fn requests_stay_isolated(s1: String, t1: FieldValue, s2: String, t2: FieldValue)
    requires
        !(t1 is Other),
        !(t2 is Other),
        s1@ != s2@,
    ensures
        job_of(RequestBody::Object { source_code: FieldValue::Text(s1), target_language: t1 })
            matches Some((src, _)) && src == s1@,
        job_of(RequestBody::Object { source_code: FieldValue::Text(s2), target_language: t2 })
            matches Some((src, _)) && src == s2@,
        job_of(RequestBody::Object { source_code: FieldValue::Text(s1), target_language: t1 })
            != job_of(RequestBody::Object { source_code: FieldValue::Text(s2), target_language: t2 }),
{
}

/// An error that the engine reports is sent as a failure status with the
/// engine's message as the whole error text.
pub proof fn engine_error_keeps_message(message: String)
    ensures
        reply_of(TranslationOutcome::EngineFailed(message)) == (STATUS_INTERNAL_ERROR, false, message@),
        STATUS_INTERNAL_ERROR >= 500,
{
}

/// A body without `source_code` is refused as a client error, and no job is
/// made from it, so the engine is never called.
pub proof fn missing_source_is_refused(target: FieldValue)
    ensures
        validated(RequestBody::Object { source_code: FieldValue::Absent, target_language: target })
            == Err::<(Seq<char>, Option<Seq<char>>), RequestError>(RequestError::MissingSourceCode),
        job_of(RequestBody::Object { source_code: FieldValue::Absent, target_language: target }) is None,
{
}

} // verus!
