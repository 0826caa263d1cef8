//! One health probe: a single request/response exchange over a datagram
//! transport, and the classification of its outcome.
//!
//! The transport is a capability: the library never opens a socket itself.
//! The platform-backed transport lives with the binary (it opens a fresh
//! datagram socket per call, sends the command, and waits up to
//! [`READ_TIMEOUT_SECS`] seconds for one response datagram); a scripted
//! transport for tests is [`ScriptedTransport`]. Every transport records
//! the exchanges it performed in a specification-level history, which is
//! what the prober's contracts speak about.

use vstd::prelude::*;
use vstd::string::StringExecFns;
use crate::status::{classification, HealthStatus};
use crate::status::classify_response;

verus! {

/// The response buffer size: bytes of a response beyond this many are
/// truncated, not an error.
pub const BUFFER_SIZE: usize = 1024;

/// How many seconds a probe waits for a response before it fails.
pub const READ_TIMEOUT_SECS: u64 = 5;

/// One recorded request/response exchange: the command text that was sent,
/// and either the raw response bytes or the failure reason.
#[verifier::ext_equal]
pub struct Exchange {
    pub command: Seq<char>,
    pub response: Result<Seq<u8>, Seq<char>>,
}

/// The specification-level summary of one transport outcome.
pub open spec fn response_view(r: Result<Vec<u8>, String>) -> Result<Seq<u8>, Seq<char>> {
    match r {
        Ok(bytes) => Ok(bytes@),
        Err(reason) => Err(reason@),
    }
}

/// A datagram transport capability: one request/response exchange per call.
///
/// `history` is the sequence of exchanges performed so far; `exchange`
/// appends exactly one entry, so a caller can state how many probes it
/// performed. Nothing is promised about the response itself: a datagram
/// transport is unreliable, and every outcome must be handled.
pub trait Transport {
    /// The exchanges this transport has performed, oldest first. An
    /// implementation that keeps no record is taken to have an empty one;
    /// a transport whose contract is to be believed overrides this.
    open spec fn history(&self) -> Seq<Exchange> {
        Seq::empty()
    }

    /// Sends `command` and waits for a single response datagram.
    fn exchange(&mut self, command: &str) -> (r: Result<Vec<u8>, String>)
        ensures
            final(self).history() == old(self).history().push(
                Exchange { command: command@, response: response_view(r) },
            ),
    ;
}

/// `bytes` cut to the fixed response buffer: at most [`BUFFER_SIZE`] bytes
/// are kept, the rest is discarded.
pub open spec fn truncated(bytes: Seq<u8>) -> Seq<u8> {
    if bytes.len() <= BUFFER_SIZE {
        bytes
    } else {
        bytes.subrange(0, BUFFER_SIZE as int)
    }
}

/// Cuts a response to the fixed buffer size.
pub fn truncate_response(bytes: Vec<u8>) -> (r: Vec<u8>)
    ensures
        r@ == truncated(bytes@),
{
    let mut bytes = bytes;
    if bytes.len() > BUFFER_SIZE {
        bytes.truncate(BUFFER_SIZE);
    }
    bytes
}

/// The decoded text of a byte sequence, with every invalid encoding
/// replaced by a placeholder character.
pub uninterp spec fn lossy_decode(bytes: Seq<u8>) -> Seq<char>;

/// Relies on `String::from_utf8_lossy`: the decoded text is a function of
/// the input bytes alone; malformed bytes are replaced by a placeholder
/// character, never an error.
#[verifier::external_body]
fn decode_lossy(bytes: &Vec<u8>) -> (text: String)
    ensures
        text@ == lossy_decode(bytes@),
{
    String::from_utf8_lossy(bytes).into_owned()
}

/// Sends `command` over the transport and hands back the decoded response
/// text: the response bytes are cut to the fixed buffer size and decoded
/// permissively. A transport failure is handed back with its reason.
pub fn send_udp_command<T: Transport>(transport: &mut T, command: &str) -> (r: Result<
    String,
    String,
>)
    ensures
        final(transport).history().len() == old(transport).history().len() + 1,
        final(transport).history() == old(transport).history().push(
            final(transport).history().last(),
        ),
        final(transport).history().last().command == command@,
        match final(transport).history().last().response {
            Ok(bytes) => r matches Ok(text) && text@ == lossy_decode(truncated(bytes)),
            Err(reason) => r matches Err(e) && e@ == reason,
        },
{
    match transport.exchange(command) {
        Ok(bytes) => {
            let kept = truncate_response(bytes);
            Ok(decode_lossy(&kept))
        },
        Err(reason) => Err(reason),
    }
}

/// The classification of one recorded exchange outcome: a received
/// response is truncated, decoded and classified; a failed exchange is a
/// probe failure carrying its reason.
pub open spec fn outcome_status(
    response: Result<Seq<u8>, Seq<char>>,
    status: HealthStatus,
) -> bool {
    match response {
        Ok(bytes) => status == classification(lossy_decode(truncated(bytes))),
        Err(reason) => status matches HealthStatus::ProbeFailed(e) && e@ == reason,
    }
}

/// One health probe: sends the fixed `"status"` command, classifies the
/// outcome. Exactly one exchange is performed, whatever the outcome.
pub fn check<T: Transport>(transport: &mut T) -> (status: HealthStatus)
    ensures
        final(transport).history().len() == old(transport).history().len() + 1,
        final(transport).history() == old(transport).history().push(
            final(transport).history().last(),
        ),
        final(transport).history().last().command == "status"@,
        outcome_status(final(transport).history().last().response, status),
{
    match send_udp_command(transport, "status") {
        Ok(text) => classify_response(text.as_str()),
        Err(reason) => HealthStatus::ProbeFailed(reason),
    }
}

/// A scripted transport: hands out a fixed list of outcomes, in order,
/// and records what it was asked. Once the script is exhausted every
/// further exchange fails. This is the substitutable test double for the
/// platform-backed datagram transport.
pub struct ScriptedTransport {
    /// The scripted outcomes not yet served, next-to-serve last.
    remaining: Vec<Result<Vec<u8>, String>>,
    /// The exchanges performed, oldest first.
    log: Ghost<Seq<Exchange>>,
}

impl ScriptedTransport {
    /// A transport that will serve the outcomes of `script` in order.
    pub fn new(script: Vec<Result<Vec<u8>, String>>) -> (t: ScriptedTransport)
        ensures
            t.history() == Seq::<Exchange>::empty(),
            t.remaining_script() == script@.map_values(|r: Result<Vec<u8>, String>| response_view(r)),
    {
        let mut script = script;
        let ghost orig = script@;
        let mut reversed: Vec<Result<Vec<u8>, String>> = Vec::new();
        loop
            invariant
                orig.len() == script@.len() + reversed@.len(),
                forall|i: int|
                    0 <= i < script@.len() ==> script@[i] == orig[i],
                forall|i: int|
                    0 <= i < reversed@.len() ==> reversed@[i] == orig[orig.len() - 1 - i],
            ensures
                reversed@.len() == orig.len(),
                forall|i: int|
                    0 <= i < reversed@.len() ==> reversed@[i] == orig[orig.len() - 1 - i],
            decreases script@.len(),
        {
            match script.pop() {
                Some(r) => reversed.push(r),
                None => break,
            }
        }
        let t = ScriptedTransport { remaining: reversed, log: Ghost(Seq::empty()) };
        proof {
            let mapped = orig.map_values(|r: Result<Vec<u8>, String>| response_view(r));
            assert forall|i: int| 0 <= i < mapped.len() implies t.remaining_script()[i]
                == mapped[i] by {
                assert(reversed@.reverse()[i] == reversed@[reversed@.len() - 1 - i]);
            }
            assert(t.remaining_script() =~= mapped);
        }
        t
    }

    /// The outcomes not yet served, next first.
    pub closed spec fn remaining_script(&self) -> Seq<Result<Seq<u8>, Seq<char>>> {
        self.remaining@.reverse().map_values(|r: Result<Vec<u8>, String>| response_view(r))
    }
}

impl Transport for ScriptedTransport {
    closed spec fn history(&self) -> Seq<Exchange> {
        self.log@
    }

    fn exchange(&mut self, command: &str) -> (r: Result<Vec<u8>, String>) {
        let outcome: Result<Vec<u8>, String> = match self.remaining.pop() {
            Some(r) => r,
            None => Err(String::from_str("script exhausted")),
        };
        self.log = Ghost(
            self.log@.push(Exchange { command: command@, response: response_view(outcome) }),
        );
        outcome
    }
}

} // verus!
