//! Parameter validation: one untyped, optional request parameter is turned
//! into a bounded magnitude, or rejected with the endpoint's error text.
//!
//! An absent parameter stands for the default of 1000. A present one must be
//! a base-10 non-negative integer no greater than 10000; both edges are
//! inclusive. A `ValidatedMagnitude` can only be obtained through
//! `validate`, so no unchecked value ever reaches the workload executor.

use vstd::prelude::*;
use vstd::string::*;
use crate::decimal::{is_u64_numeral, numeral_value, parse_u64};

verus! {

/// Inclusive upper edge for a workload magnitude.
pub const MAGNITUDE_BOUND: u64 = 10000;

/// Magnitude used when the request names none.
pub const DEFAULT_MAGNITUDE: u64 = 1000;

/// Which demo workload a request asks for.
#[derive(Clone, Copy, PartialEq, Eq, Structural, Debug)]
pub enum WorkloadKind {
    Hash,
    Sleep,
}

/// A magnitude that went through `validate`: always within `[0, 10000]`.
pub struct ValidatedMagnitude {
    value: u64,
}

impl ValidatedMagnitude {
    /// The validated value, for contracts.
    pub closed spec fn spec_value(&self) -> u64 {
        self.value
    }

    /// A validated magnitude never exceeds the inclusive bound.
    pub closed spec fn wf(&self) -> bool {
        self.value <= MAGNITUDE_BOUND
    }

    /// The validated value.
    pub fn value(&self) -> (v: u64)
        ensures
            v == self.spec_value(),
    {
        self.value
    }
}

/// A rejected parameter, with the human-readable text shown to the client.
pub struct ValidationError {
    pub message: String,
}

/// The rejection text of each endpoint; out-of-bounds and non-numeric input
/// share it.
pub open spec fn validation_error_text(kind: WorkloadKind) -> Seq<char> {
    match kind {
        WorkloadKind::Hash => "Amount must be a positive integer between 0 and 10,000"@,
        WorkloadKind::Sleep => "Length must be a positive integer between 0 and 10,000"@,
    }
}

/// The view of an optional parameter string.
pub open spec fn raw_view(raw: Option<&str>) -> Option<Seq<char>> {
    match raw {
        Option::None => Option::None,
        Option::Some(s) => Option::Some(s@),
    }
}

/// What a request parameter is worth: the default when absent, its denoted
/// value when it is a numeral within the bound, nothing otherwise.
pub open spec fn accepted_value(raw: Option<Seq<char>>) -> Option<nat> {
    match raw {
        Option::None => Option::Some(DEFAULT_MAGNITUDE as nat),
        Option::Some(s) => if is_u64_numeral(s) && numeral_value(s) <= MAGNITUDE_BOUND {
            Option::Some(numeral_value(s) as nat)
        } else {
            Option::None
        },
    }
}

/// The rejection text of `kind`, as an owned string.
fn error_text_for(kind: WorkloadKind) -> (r: String)
    ensures
        r@ == validation_error_text(kind),
{
    match kind {
        WorkloadKind::Hash => String::from_str(
            "Amount must be a positive integer between 0 and 10,000",
        ),
        WorkloadKind::Sleep => String::from_str(
            "Length must be a positive integer between 0 and 10,000",
        ),
    }
}

/// Parses and bounds-checks one request parameter. Succeeds exactly when the
/// parameter is absent (giving the default) or denotes an integer in
/// `[0, 10000]`; every rejection carries the endpoint's error text.
pub fn validate(kind: WorkloadKind, raw: Option<&str>) -> (r: Result<
    ValidatedMagnitude,
    ValidationError,
>)
    ensures
        match accepted_value(raw_view(raw)) {
            Option::Some(n) => r matches Ok(m) && m.wf() && m.spec_value() == n,
            Option::None => r matches Err(e) && e.message@ == validation_error_text(kind),
        },
{
    match raw {
        Option::None => Ok(ValidatedMagnitude { value: DEFAULT_MAGNITUDE }),
        Option::Some(s) => match parse_u64(s) {
            Option::Some(v) => if v <= MAGNITUDE_BOUND {
                Ok(ValidatedMagnitude { value: v })
            } else {
                Err(ValidationError { message: error_text_for(kind) })
            },
            Option::None => Err(ValidationError { message: error_text_for(kind) }),
        },
    }
}

} // verus!
