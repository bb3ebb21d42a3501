//! The request orchestrator: validates a request, admits it under the
//! concurrency cap, compiles its effect chain and assembles the response
//! and headers, releasing the permit whether the request succeeds or fails.

use crate::enums::{spec_content_type, spec_ffmpeg_codec, spec_format_label, TranscodeStatus};
use crate::error::AppError;
use crate::filters::{build_audio_filter_chain, spec_filter_chain};
use crate::gate::AdmissionGate;
use crate::transcode::{
    spec_has_filters, spec_request_error, TranscodeRequest, TranscodeResponse,
};
use vstd::prelude::*;

verus! {

/// Relies on `uuid::Uuid::new_v4` and its `Display` impl: a fresh random
/// version-4 UUID rendered in the hyphenated form, which is always 36
/// ASCII characters. The value is random, so nothing more is assumed
/// of it.
#[verifier::external_body]
fn new_session_id() -> (r: String)
    ensures
        r@.len() == 36,
{
    uuid::Uuid::new_v4().to_string()
}

/// Whether a request asks for any audio effect.
pub open spec fn spec_request_has_filters(req: TranscodeRequest) -> bool {
    match req.audio_filters {
        Some(f) => spec_has_filters(f),
        None => false,
    }
}

/// The effect chain a request compiles to (meaningful once the request
/// has validated, which bounds both factors).
pub open spec fn spec_request_chain(req: TranscodeRequest) -> Seq<char> {
    match req.audio_filters {
        Some(f) => spec_filter_chain(
            f.eq_preset,
            match f.speed {
                Some(s) => Some(s as u32),
                None => None,
            },
            match f.volume {
                Some(v) => Some(v as u32),
                None => None,
            },
        ),
        None => spec_filter_chain(None, None, None),
    }
}

/// Everything an accepted request hands back to the transport layer: the
/// response body and the values of the session, format, codec and filter
/// headers.
#[derive(Debug)]
pub struct TranscodePlan {
    /// The response body; its session id also serves as the session header.
    pub response: TranscodeResponse,
    /// The name of the requested container format.
    pub source_format: String,
    /// The name of the requested codec.
    pub target_codec: String,
    /// The compiled effect chain, present when any effect was requested;
    /// exposed as a header only when non-empty.
    pub filter_chain: Option<String>,
}

/// Handles one transcode request: validates it, admits it under the
/// gate's capacity, compiles the effect chain and assembles the response,
/// returning the permit before handing back the plan.
pub fn process_request(req: &TranscodeRequest, gate: &mut AdmissionGate) -> (r: Result<
    TranscodePlan,
    AppError,
>)
    requires
        old(gate).wf(),
    ensures
        final(gate).wf(),
        final(gate).spec_limit() == old(gate).spec_limit(),
        final(gate).spec_in_use() == old(gate).spec_in_use(),
        match spec_request_error(*req) {
            Some(msg) => r matches Err(AppError::Validation(m)) && m@ == msg,
            None => true,
        },
        spec_request_error(*req) is None && old(gate).spec_in_use() >= old(gate).spec_limit()
            ==> (r matches Err(AppError::ConcurrencyLimitExceeded(l)) && l as nat == old(
            gate,
        ).spec_limit()),
        spec_request_error(*req) is None && old(gate).spec_in_use() < old(gate).spec_limit() ==> (
        r matches Ok(plan) && {
            &&& plan.response.session_id@.len() == 36
            &&& plan.response.status == TranscodeStatus::Processing
            &&& plan.response.content_type@ == spec_content_type(req.format)
            &&& (plan.response.message matches Some(m) && m@ == "Transcoding started"@)
            &&& plan.source_format@ == spec_format_label(req.format)
            &&& plan.target_codec@ == spec_ffmpeg_codec(req.codec)
            &&& (if spec_request_has_filters(*req) {
                plan.filter_chain matches Some(c) && c@ == spec_request_chain(*req)
            } else {
                plan.filter_chain is None
            })
        }),
{
    let session_id = new_session_id();
    match req.validate() {
        Ok(()) => {},
        Err(msg) => {
            return Err(AppError::Validation(msg));
        },
    }
    if !gate.try_acquire() {
        return Err(AppError::ConcurrencyLimitExceeded(gate.limit()));
    }
    let filter_chain: Option<String> = match &req.audio_filters {
        Some(f) => {
            if f.has_filters() {
                let speed: Option<u32> = match f.speed {
                    Some(s) => Some(s as u32),
                    None => None,
                };
                let vol: Option<u32> = match f.volume {
                    Some(v) => Some(v as u32),
                    None => None,
                };
                Some(build_audio_filter_chain(f.eq_preset, speed, vol))
            } else {
                None
            }
        },
        None => None,
    };
    let response = TranscodeResponse::new(session_id, req.format.content_type()).with_message(
        "Transcoding started",
    );
    let source_format = String::from_str(req.format.label());
    let target_codec = String::from_str(req.codec.label());
    gate.release();
    Ok(TranscodePlan { response, source_format, target_codec, filter_chain })
}

} // verus!
