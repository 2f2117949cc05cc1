//! The decision pipeline of one datagram-send call.
//!
//! A call proceeds through fixed stages: reject null input pointers before any
//! memory is read, reject an address that is not valid UTF-8 text before any
//! socket is touched, then bind an ephemeral socket and attempt a single send.
//! Every failure, whatever its cause, is reported across the call boundary as
//! the one negative sentinel; a success is reported as the non-negative count
//! of bytes the platform accepted. The functions here make each of those
//! decisions from plain values; the unverified boundary layer performs the
//! socket work and feeds its outcome back in.

use vstd::prelude::*;
use crate::encoding::{is_utf8, is_valid_utf8};

verus! {

/// The value reported for every failed call. No byte count can collide with
/// it, since counts are non-negative.
pub const FAILURE_SENTINEL: i32 = -1;

/// The constant that `version` reports.
pub const INTERFACE_VERSION: i32 = 1;

/// Why a send call failed. The cause is kept rich here for testability and
/// collapsed to `FAILURE_SENTINEL` only at the call boundary.
#[derive(Clone, Copy, Debug, PartialEq, Eq, Structural)]
pub enum SendFailure {
    /// The address pointer was null.
    NullAddress,
    /// The payload pointer was null.
    NullPayload,
    /// The address bytes are not valid UTF-8 text.
    InvalidEncoding,
    /// No ephemeral local socket could be bound.
    BindFailed,
    /// Address resolution or the transmission itself failed.
    SendFailed,
}

/// What the platform reported for the socket phase of a call.
#[derive(Clone, Copy, Debug, PartialEq, Eq, Structural)]
pub enum SocketOutcome {
    /// Binding the ephemeral local socket failed.
    BindFailed,
    /// Resolution of the destination or the transmission failed.
    SendFailed,
    /// The platform accepted this many bytes for transmission.
    Sent(usize),
}

/// The decision on the two input pointers, from their nullness alone: a null
/// address is rejected first, then a null payload, whatever its length.
pub open spec fn spec_pointer_check(address_is_null: bool, payload_is_null: bool) -> Result<
    (),
    SendFailure,
> {
    if address_is_null {
        Err(SendFailure::NullAddress)
    } else if payload_is_null {
        Err(SendFailure::NullPayload)
    } else {
        Ok(())
    }
}

/// The decision on the address bytes: rejected exactly when they are not
/// well-formed UTF-8 text.
pub open spec fn spec_encoding_check(address: Seq<u8>) -> Result<(), SendFailure> {
    if is_utf8(address) {
        Ok(())
    } else {
        Err(SendFailure::InvalidEncoding)
    }
}

/// The classification of the socket phase's outcome.
pub open spec fn spec_socket_result(outcome: SocketOutcome) -> Result<usize, SendFailure> {
    match outcome {
        SocketOutcome::BindFailed => Err(SendFailure::BindFailed),
        SocketOutcome::SendFailed => Err(SendFailure::SendFailed),
        SocketOutcome::Sent(count) => Ok(count),
    }
}

/// The value a call reports: the byte count on success, the sentinel on any
/// failure.
pub open spec fn spec_code(outcome: Result<usize, SendFailure>) -> int {
    match outcome {
        Ok(count) => count as int,
        Err(_) => FAILURE_SENTINEL as int,
    }
}

/// First stage of a call: reject a null address or payload pointer. This
/// decision precedes every memory access and every socket operation, so it is
/// made from the two nullness flags alone.
pub fn check_pointers(address_is_null: bool, payload_is_null: bool) -> (r: Result<
    (),
    SendFailure,
>)
    ensures
        r == spec_pointer_check(address_is_null, payload_is_null),
{
    if address_is_null {
        Err(SendFailure::NullAddress)
    } else if payload_is_null {
        Err(SendFailure::NullPayload)
    } else {
        Ok(())
    }
}

/// Second stage: reject address bytes that are not valid UTF-8 text, before
/// any socket is bound.
pub fn check_encoding(address: &Vec<u8>) -> (r: Result<(), SendFailure>)
    ensures
        r == spec_encoding_check(address@),
{
    if is_valid_utf8(address) {
        Ok(())
    } else {
        Err(SendFailure::InvalidEncoding)
    }
}

/// Final stage: classify what the platform reported for the socket phase. A
/// bind failure and a resolution or transmission failure each become their
/// failure cause; an accepted send becomes the count of bytes accepted.
pub fn socket_result(outcome: SocketOutcome) -> (r: Result<usize, SendFailure>)
    ensures
        r == spec_socket_result(outcome),
{
    match outcome {
        SocketOutcome::BindFailed => Err(SendFailure::BindFailed),
        SocketOutcome::SendFailed => Err(SendFailure::SendFailed),
        SocketOutcome::Sent(count) => Ok(count),
    }
}

/// Projects a call's outcome to the single integer reported across the call
/// boundary: the byte count on success, `FAILURE_SENTINEL` on any failure.
/// The two are always distinguishable, since counts are non-negative and the
/// sentinel is negative.
pub fn result_code(outcome: Result<usize, SendFailure>) -> (code: i32)
    requires
        outcome matches Ok(count) ==> count <= i32::MAX,
    ensures
        code as int == spec_code(outcome),
        code >= 0 <==> outcome is Ok,
        outcome is Err ==> code == FAILURE_SENTINEL,
        outcome matches Ok(count) ==> code == count as i32,
{
    match outcome {
        Ok(count) => count as i32,
        Err(_) => FAILURE_SENTINEL,
    }
}

/// Reports the interface revision. No inputs, no failure mode, no state:
/// every call returns the same constant.
pub fn version() -> (v: i32)
    ensures
        v == INTERFACE_VERSION,
{
    INTERFACE_VERSION
}

/// The outcome of one whole call, given the nullness of its two pointers, the
/// address bytes, and what the platform reported for the socket phase. The
/// stages decide in this fixed order: a null address, then a null payload,
/// then a badly encoded address, each pre-empting everything after it; only a
/// call past all three reaches the socket phase.
pub open spec fn spec_call_outcome(
    address_is_null: bool,
    payload_is_null: bool,
    address: Seq<u8>,
    socket: SocketOutcome,
) -> Result<usize, SendFailure> {
    if address_is_null {
        Err(SendFailure::NullAddress)
    } else if payload_is_null {
        Err(SendFailure::NullPayload)
    } else if !is_utf8(address) {
        Err(SendFailure::InvalidEncoding)
    } else {
        spec_socket_result(socket)
    }
}

/// The whole call's outcome is exactly the three stage decisions — pointer
/// check, encoding check, socket classification — composed in their fixed
/// order, so driving the stage functions in that order realizes it.
pub proof fn lemma_stages_compose(
    address_is_null: bool,
    payload_is_null: bool,
    address: Seq<u8>,
    socket: SocketOutcome,
)
    ensures
        spec_call_outcome(address_is_null, payload_is_null, address, socket) == (
        if spec_pointer_check(address_is_null, payload_is_null) is Err {
            Err(spec_pointer_check(address_is_null, payload_is_null)->Err_0)
        } else if spec_encoding_check(address) is Err {
            Err(spec_encoding_check(address)->Err_0)
        } else {
            spec_socket_result(socket)
        }),
{
}

/// A call with a null address or payload pointer fails with the negative
/// sentinel, and its outcome is the same whatever the address bytes hold and
/// whatever a socket phase would report: no memory access and no socket
/// operation can influence it.
pub proof fn lemma_null_pointer_rejected(
    address_is_null: bool,
    payload_is_null: bool,
    address: Seq<u8>,
    socket: SocketOutcome,
)
    requires
        address_is_null || payload_is_null,
    ensures
        spec_call_outcome(address_is_null, payload_is_null, address, socket) is Err,
        spec_code(
            spec_call_outcome(address_is_null, payload_is_null, address, socket),
        ) == FAILURE_SENTINEL as int,
        forall|other_address: Seq<u8>, other_socket: SocketOutcome|
            spec_call_outcome(address_is_null, payload_is_null, other_address, other_socket)
                == spec_call_outcome(address_is_null, payload_is_null, address, socket),
{
}

/// A call whose address bytes are not valid UTF-8 text fails with the
/// negative sentinel, and its outcome is the same whatever a socket phase
/// would report: no socket operation can influence it.
pub proof fn lemma_bad_encoding_rejected(address: Seq<u8>, socket: SocketOutcome)
    requires
        !is_utf8(address),
    ensures
        spec_call_outcome(false, false, address, socket) == Err::<usize, SendFailure>(
            SendFailure::InvalidEncoding,
        ),
        spec_code(spec_call_outcome(false, false, address, socket)) == FAILURE_SENTINEL as int,
        forall|other_socket: SocketOutcome|
            spec_call_outcome(false, false, address, other_socket) == spec_call_outcome(
                false,
                false,
                address,
                socket,
            ),
{
}

/// A call that passes validation but whose socket phase fails — the bind, the
/// resolution of the destination, or the transmission — fails with the
/// negative sentinel.
pub proof fn lemma_socket_failure_rejected(address: Seq<u8>, socket: SocketOutcome)
    requires
        is_utf8(address),
        socket !is Sent,
    ensures
        spec_call_outcome(false, false, address, socket) is Err,
        spec_code(spec_call_outcome(false, false, address, socket)) == FAILURE_SENTINEL as int,
{
}

/// A call that passes validation and whose send the platform accepts reports
/// exactly the accepted byte count — in particular 0 for an empty payload —
/// and that report is non-negative, so it can never be mistaken for the
/// failure sentinel.
pub proof fn lemma_successful_send_reports_count(address: Seq<u8>, count: usize)
    requires
        is_utf8(address),
    ensures
        spec_call_outcome(false, false, address, SocketOutcome::Sent(count))
            == Ok::<usize, SendFailure>(count),
        spec_code(spec_call_outcome(false, false, address, SocketOutcome::Sent(count))) == count,
        spec_code(spec_call_outcome(false, false, address, SocketOutcome::Sent(count))) >= 0,
        spec_code(spec_call_outcome(false, false, address, SocketOutcome::Sent(count)))
            != FAILURE_SENTINEL as int,
{
}

/// Every failure cause — null input, bad encoding, bind failure, resolution
/// or send failure — collapses to the same negative sentinel at the call
/// boundary.
pub proof fn lemma_failure_collapses_to_sentinel(cause: SendFailure)
    ensures
        spec_code(Err(cause)) == FAILURE_SENTINEL as int,
        spec_code(Err(cause)) < 0,
{
}

} // verus!
