//! The result renderer's data side: a workload outcome becomes a template
//! name with its field set.
//!
//! Every demo and contact response goes through the one `index` template.
//! The field vocabulary is small and fixed: a success lands in
//! `<kind>-success-msg`, a validation failure in `<kind>-error-msg`, and the
//! contact relay uses `success-msg`, `error-msg` and `msg`.

use vstd::prelude::*;
use vstd::string::*;
use crate::validate::WorkloadKind;
use crate::workload::WorkloadOutcome;

verus! {

/// What the template engine is asked to render: a template name and the
/// fields to substitute into it.
pub struct RenderPayload {
    pub template_name: String,
    pub fields: Vec<(String, String)>,
}

/// The field pairs of a payload, as sequences of characters.
pub open spec fn fields_view(fields: Seq<(String, String)>) -> Seq<(Seq<char>, Seq<char>)> {
    fields.map_values(|f: (String, String)| (f.0@, f.1@))
}

/// The field a successful workload of `kind` reports under.
pub open spec fn success_key(kind: WorkloadKind) -> Seq<char> {
    match kind {
        WorkloadKind::Hash => "hash-success-msg"@,
        WorkloadKind::Sleep => "sleep-success-msg"@,
    }
}

/// The field a rejected workload parameter reports under.
pub open spec fn error_key(kind: WorkloadKind) -> Seq<char> {
    match kind {
        WorkloadKind::Hash => "hash-error-msg"@,
        WorkloadKind::Sleep => "sleep-error-msg"@,
    }
}

/// The success field name of `kind`, as an owned string.
fn success_key_string(kind: WorkloadKind) -> (r: String)
    ensures
        r@ == success_key(kind),
{
    match kind {
        WorkloadKind::Hash => String::from_str("hash-success-msg"),
        WorkloadKind::Sleep => String::from_str("sleep-success-msg"),
    }
}

/// The error field name of `kind`, as an owned string.
fn error_key_string(kind: WorkloadKind) -> (r: String)
    ensures
        r@ == error_key(kind),
{
    match kind {
        WorkloadKind::Hash => String::from_str("hash-error-msg"),
        WorkloadKind::Sleep => String::from_str("sleep-error-msg"),
    }
}

/// A payload for the `index` template with exactly one field.
pub fn single_field_payload(key: String, value: String) -> (p: RenderPayload)
    ensures
        p.template_name@ == "index"@,
        fields_view(p.fields@) == seq![(key@, value@)],
{
    let ghost key_view = key@;
    let ghost value_view = value@;
    let mut fields: Vec<(String, String)> = Vec::new();
    fields.push((key, value));
    let p = RenderPayload { template_name: String::from_str("index"), fields };
    proof {
        assert(fields_view(p.fields@) =~= seq![(key_view, value_view)]);
    }
    p
}

/// Maps a workload outcome onto the `index` template: a success fills the
/// kind's success field with its message, a validation failure the kind's
/// error field.
pub fn payload_for_outcome(kind: WorkloadKind, outcome: WorkloadOutcome) -> (p: RenderPayload)
    ensures
        p.template_name@ == "index"@,
        match outcome {
            WorkloadOutcome::Success { message } => fields_view(p.fields@) == seq![
                (success_key(kind), message@),
            ],
            WorkloadOutcome::ValidationFailure { message } => fields_view(p.fields@) == seq![
                (error_key(kind), message@),
            ],
        },
{
    match outcome {
        WorkloadOutcome::Success { message } => single_field_payload(
            success_key_string(kind),
            message,
        ),
        WorkloadOutcome::ValidationFailure { message } => single_field_payload(
            error_key_string(kind),
            message,
        ),
    }
}

} // verus!
