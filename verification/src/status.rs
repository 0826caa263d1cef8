//! Classification of a decoded probe response as a health status.
//!
//! The daemon answers the status query with free-form text. The single
//! classification rule is: a response whose text contains the substring
//! `"disc"` anywhere (case-sensitive) reports a lost connection; any other
//! response means the daemon is healthy. A probe that produced no response
//! at all is classified separately as [`HealthStatus::ProbeFailed`] by the
//! prober, never here.

use vstd::prelude::*;
use vstd::string::StrSliceExecFns;

verus! {

/// The outcome of one health probe.
///
/// Produced fresh on every probe and never persisted.
#[derive(Debug, PartialEq, Eq)]
pub enum HealthStatus {
    /// The daemon answered and its answer does not report a lost connection.
    Healthy,
    /// The daemon answered and the answer contains the marker `"disc"`.
    Disconnected,
    /// The probe itself failed (bind, send, or receive failure, including a
    /// receive timeout); the reason is carried for reporting. Distinct from
    /// `Disconnected`: the daemon may be unreachable rather than reporting
    /// bad state.
    ProbeFailed(String),
}

/// The marker whose presence in a response text signals a lost connection.
pub open spec fn disc_marker() -> Seq<char> {
    seq!['d', 'i', 's', 'c']
}

/// Whether `text` contains the marker `"disc"` as a contiguous substring.
pub open spec fn contains_disc(text: Seq<char>) -> bool {
    exists|i: int| 0 <= i && i + 4 <= text.len() && #[trigger] text.subrange(i, i + 4) == disc_marker()
}

/// The classification of a decoded response text.
pub open spec fn classification(text: Seq<char>) -> HealthStatus {
    if contains_disc(text) {
        HealthStatus::Disconnected
    } else {
        HealthStatus::Healthy
    }
}

/// Classifies one decoded response text: `Disconnected` exactly when the
/// text contains `"disc"`, `Healthy` otherwise.
pub fn classify_response(text: &str) -> (status: HealthStatus)
    ensures
        status == classification(text@),
{
    let n: usize = text.unicode_len();
    if n < 4 {
        return HealthStatus::Healthy;
    }
    let mut i: usize = 0;
    while i <= n - 4
        invariant
            4 <= n == text@.len(),
            i <= n - 3,
            forall|j: int| 0 <= j < i ==> #[trigger] text@.subrange(j, j + 4) != disc_marker(),
        decreases n - i,
    {
        let c0 = text.get_char(i);
        let c1 = text.get_char(i + 1);
        let c2 = text.get_char(i + 2);
        let c3 = text.get_char(i + 3);
        if c0 == 'd' && c1 == 'i' && c2 == 's' && c3 == 'c' {
            proof {
                assert(text@.subrange(i as int, i + 4) =~= disc_marker());
            }
            return HealthStatus::Disconnected;
        }
        proof {
            if text@.subrange(i as int, i + 4) == disc_marker() {
                assert(text@.subrange(i as int, i + 4)[0] == 'd');
                assert(text@.subrange(i as int, i + 4)[1] == 'i');
                assert(text@.subrange(i as int, i + 4)[2] == 's');
                assert(text@.subrange(i as int, i + 4)[3] == 'c');
                assert(false);
            }
        }
        i = i + 1;
    }
    HealthStatus::Healthy
}

} // verus!
