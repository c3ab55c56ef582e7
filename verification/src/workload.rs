//! The workload executor: runs one bounded synthetic workload for a
//! validated magnitude and reports it in a success message.
//!
//! The hashing workload performs exactly `n` rounds; each round draws a fresh
//! random 64-character alphanumeric token and takes its 512-bit digest. The
//! digests only make the compute cost real — the response carries nothing but
//! the round count. The sleeping workload does not wait here: the executor
//! hands the caller the number of milliseconds to suspend its worker for, so
//! the wait can happen on whatever scheduler serves the request.

use vstd::prelude::*;
use vstd::string::*;
use rand::Rng;
use sha2::Digest;
use crate::decimal::{dec_digits, u64_to_string};
use crate::validate::{ValidatedMagnitude, WorkloadKind};

verus! {

/// What one request's workload came to: exactly one of a success report or a
/// validation failure, each with its message.
pub enum WorkloadOutcome {
    Success { message: String },
    ValidationFailure { message: String },
}

/// The success message of each workload kind for an accepted magnitude.
pub open spec fn success_text(kind: WorkloadKind, n: nat) -> Seq<char> {
    match kind {
        WorkloadKind::Hash => "Successfully hashed "@ + dec_digits(n) + " times"@,
        WorkloadKind::Sleep => "Successfully slept "@ + dec_digits(n) + " milliseconds"@,
    }
}

/// An alphanumeric ASCII character: `a`-`z`, `A`-`Z` or `0`-`9`.
pub open spec fn is_alphanumeric_ascii(c: char) -> bool {
    ||| 48 <= c as int && c as int <= 57
    ||| 65 <= c as int && c as int <= 90
    ||| 97 <= c as int && c as int <= 122
}

/// The lower-hex text of the 512-bit digest of a string; 128 characters.
pub uninterp spec fn sha512_hex_of(s: Seq<char>) -> Seq<char>;

/// Relies on rand's `Alphanumeric` distribution: every sample is one of the
/// 62 characters `A`-`Z`, `a`-`z`, `0`-`9`. The result depends on the
/// thread's generator, so nothing beyond its shape is stated.
#[verifier::external_body]
fn random_alphanumeric_token() -> (r: String)
    ensures
        r@.len() == 64,
        forall|i: int| 0 <= i < r@.len() ==> is_alphanumeric_ascii(#[trigger] r@[i]),
{
    rand::thread_rng().sample_iter(&rand::distributions::Alphanumeric).take(64).map(
        char::from,
    ).collect()
}

/// Relies on sha2's `Sha512` and the lower-hex rendering of its output: the
/// digest is a pure function of the input bytes, 64 bytes long, and each
/// byte renders as two hex characters.
#[verifier::external_body]
fn sha512_hex(s: &str) -> (r: String)
    ensures
        r@ == sha512_hex_of(s@),
        r@.len() == 128,
{
    let mut hasher = sha2::Sha512::new();
    hasher.update(s.as_bytes());
    format!("{:x}", hasher.finalize())
}

/// Runs the compute-bound demo workload: exactly `m` rounds, each hashing
/// one fresh random token. Returns every round's token with its digest; the
/// caller is free to drop them, the compute cost has been paid either way.
pub fn hash_workload(m: &ValidatedMagnitude) -> (rounds: Vec<(String, String)>)
    requires
        m.wf(),
    ensures
        rounds@.len() == m.spec_value(),
        forall|i: int|
            0 <= i < rounds@.len() ==> {
                &&& (#[trigger] rounds@[i]).0@.len() == 64
                &&& forall|j: int|
                    0 <= j < rounds@[i].0@.len() ==> is_alphanumeric_ascii(
                        #[trigger] rounds@[i].0@[j],
                    )
                &&& rounds@[i].1@ == sha512_hex_of(rounds@[i].0@)
                &&& rounds@[i].1@.len() == 128
            },
{
    let n = m.value();
    let mut rounds: Vec<(String, String)> = Vec::new();
    let mut k: u64 = 0;
    while k < n
        invariant
            k <= n,
            n == m.spec_value(),
            rounds@.len() == k,
            forall|i: int|
                0 <= i < rounds@.len() ==> {
                    &&& (#[trigger] rounds@[i]).0@.len() == 64
                    &&& forall|j: int|
                        0 <= j < rounds@[i].0@.len() ==> is_alphanumeric_ascii(
                            #[trigger] rounds@[i].0@[j],
                        )
                    &&& rounds@[i].1@ == sha512_hex_of(rounds@[i].0@)
                    &&& rounds@[i].1@.len() == 128
                },
        decreases n - k,
    {
        let token = random_alphanumeric_token();
        let digest = sha512_hex(token.as_str());
        rounds.push((token, digest));
        k = k + 1;
    }
    rounds
}

/// The success message of `kind` for an accepted magnitude of `n`.
fn success_message(kind: WorkloadKind, n: u64) -> (r: String)
    ensures
        r@ == success_text(kind, n as nat),
{
    let numeral = u64_to_string(n);
    match kind {
        WorkloadKind::Hash => {
            let mut s = String::from_str("Successfully hashed ");
            s.append(numeral.as_str());
            s.append(" times");
            s
        },
        WorkloadKind::Sleep => {
            let mut s = String::from_str("Successfully slept ");
            s.append(numeral.as_str());
            s.append(" milliseconds");
            s
        },
    }
}

/// One executed workload: its outcome, and how many milliseconds the caller
/// still owes the client as a worker suspension before responding.
pub struct Execution {
    pub outcome: WorkloadOutcome,
    pub suspend_ms: Option<u64>,
}

/// Runs the workload of `kind` for a validated magnitude. The executor only
/// ever reports success: invalid input never reaches it. A hashing request
/// has its full compute cost paid right here; a sleeping request comes back
/// with the suspension it asks for.
pub fn execute(kind: WorkloadKind, m: &ValidatedMagnitude) -> (e: Execution)
    requires
        m.wf(),
    ensures
        e.outcome matches WorkloadOutcome::Success { message } && message@ == success_text(
            kind,
            m.spec_value() as nat,
        ),
        e.suspend_ms == (match kind {
            WorkloadKind::Hash => Option::<u64>::None,
            WorkloadKind::Sleep => Option::Some(m.spec_value()),
        }),
{
    match kind {
        WorkloadKind::Hash => {
            let _rounds = hash_workload(m);
            Execution {
                outcome: WorkloadOutcome::Success { message: success_message(kind, m.value()) },
                suspend_ms: Option::None,
            }
        },
        WorkloadKind::Sleep => {
            Execution {
                outcome: WorkloadOutcome::Success { message: success_message(kind, m.value()) },
                suspend_ms: Option::Some(m.value()),
            }
        },
    }
}

} // verus!
