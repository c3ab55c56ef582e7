//! The demo endpoints' full pipeline: one optional request parameter in, one
//! render payload out, plus the worker suspension a sleeping request owes.
//!
//! The whole response is a function of the request alone. Identical requests
//! therefore always render the same field set — no state carries across
//! requests.

use vstd::prelude::*;
use crate::decimal::lemma_numeral_round_trip;
use crate::decimal::dec_digits;
use crate::payload::{error_key, fields_view, payload_for_outcome, success_key, RenderPayload};
use crate::validate::{
    accepted_value, raw_view, validate, validation_error_text, WorkloadKind, MAGNITUDE_BOUND,
};
use crate::workload::{execute, success_text, WorkloadOutcome};

verus! {

/// The fields a workload request renders: its kind's success field with the
/// success message when the parameter is accepted, its kind's error field
/// with the rejection text otherwise.
pub open spec fn workload_fields(kind: WorkloadKind, raw: Option<Seq<char>>) -> Seq<
    (Seq<char>, Seq<char>),
> {
    match accepted_value(raw) {
        Option::Some(n) => seq![(success_key(kind), success_text(kind, n))],
        Option::None => seq![(error_key(kind), validation_error_text(kind))],
    }
}

/// The worker suspension a request asks for: only an accepted sleeping
/// request owes one, of exactly the accepted magnitude in milliseconds.
pub open spec fn workload_suspension(kind: WorkloadKind, raw: Option<Seq<char>>) -> Option<u64> {
    match accepted_value(raw) {
        Option::Some(n) => match kind {
            WorkloadKind::Hash => Option::None,
            WorkloadKind::Sleep => Option::Some(n as u64),
        },
        Option::None => Option::None,
    }
}

/// A handled workload request: the payload to render, and the suspension
/// still owed before responding.
pub struct WorkloadResponse {
    pub payload: RenderPayload,
    pub suspend_ms: Option<u64>,
}

/// Handles one demo request of `kind` with its optional raw parameter:
/// validates, executes the bounded workload, and maps the outcome onto the
/// `index` template. The response is pinned to the request: the same kind
/// and parameter always yield the same field set.
pub fn workload_request(kind: WorkloadKind, raw: Option<&str>) -> (r: WorkloadResponse)
    ensures
        r.payload.template_name@ == "index"@,
        fields_view(r.payload.fields@) == workload_fields(kind, raw_view(raw)),
        r.suspend_ms == workload_suspension(kind, raw_view(raw)),
{
    match validate(kind, raw) {
        Ok(m) => {
            let e = execute(kind, &m);
            let p = payload_for_outcome(kind, e.outcome);
            WorkloadResponse { payload: p, suspend_ms: e.suspend_ms }
        },
        Err(e) => {
            let p = payload_for_outcome(
                kind,
                WorkloadOutcome::ValidationFailure { message: e.message },
            );
            WorkloadResponse { payload: p, suspend_ms: Option::None }
        },
    }
}

/// Both edges of the bound are where they should be: the canonical numeral
/// of `n` is accepted exactly for `n` up to and including 10000, and any
/// numeral past the bound is rejected — onto the very same error text as
/// non-numeric input, since `workload_fields` knows only one rejection.
pub proof fn lemma_inclusive_bound(kind: WorkloadKind, n: u64)
    ensures
        n <= MAGNITUDE_BOUND ==> workload_fields(kind, Option::Some(dec_digits(n as nat)))
            == seq![(success_key(kind), success_text(kind, n as nat))],
        n > MAGNITUDE_BOUND ==> workload_fields(kind, Option::Some(dec_digits(n as nat)))
            == seq![(error_key(kind), validation_error_text(kind))],
{
    lemma_numeral_round_trip(n);
}

} // verus!
