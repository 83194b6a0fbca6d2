use vstd::prelude::*;

verus! {

/// Why a probe did not confirm the protocol on an endpoint.
#[derive(Clone, Copy, Debug, PartialEq, Eq, Hash, Structural)]
pub enum ErrorKind {
    /// The connection could not be established: refused, unreachable, reset or timed out.
    ConnectFailure,
    /// The request could not be written in full.
    IoFailure,
    /// No reply arrived before the timeout.
    ReadTimeout,
    /// The reply is shorter than a negotiation frame.
    ShortResponse,
    /// The reply does not carry the framing or connection-confirm markers.
    WrongProtocol,
    /// The reply is a negotiation failure with a reason that does not imply the protocol.
    NegotiationFailure,
}

/// Length of the request frame, and the least length of a reply that can be classified.
pub const FRAME_LEN: usize = 19;

/// Capacity of the buffer that one read of the reply fills.
pub const RESPONSE_CAPACITY: usize = 64;

/// Offset of the framing-version byte of the TPKT header.
pub const VERSION_OFFSET: usize = 0;
/// The framing version that a reply must carry.
pub const VERSION_MARKER: u8 = 0x03;

/// Offset of the X.224 TPDU code.
pub const CONFIRM_OFFSET: usize = 5;
/// The TPDU code of a connection confirm.
pub const CONFIRM_MARKER: u8 = 0xd0;

/// Offset of the negotiation type.
pub const NEG_TYPE_OFFSET: usize = 11;
/// Negotiation type of a response: the server took one of the offered protocols.
pub const NEG_RESPONSE: u8 = 0x02;
/// Negotiation type of a failure, with a reason code.
pub const NEG_FAILURE: u8 = 0x03;

/// Offset of the reason code of a negotiation failure.
pub const FAILURE_CODE_OFFSET: usize = 15;

/// The request frame: a TPKT header (version 3, length 19), an X.224
/// connection request, and a negotiation request asking for TLS, CredSSP and
/// CredSSP with early user authorization.
pub open spec fn request_frame() -> Seq<u8> {
    seq![
        0x03u8, 0x00u8, 0x00u8, 0x13u8,
        0x0eu8,
        0xe0u8, 0x00u8, 0x00u8, 0x00u8, 0x00u8, 0x00u8,
        0x01u8, 0x00u8,
        0x08u8, 0x00u8,
        0x0bu8, 0x00u8, 0x00u8, 0x00u8,
    ]
}

/// Reason codes of a negotiation failure that still show the protocol is
/// served: TLS required, TLS not allowed, CredSSP required.
pub open spec fn is_benign_reason(code: u8) -> bool {
    code == 1 || code == 2 || code == 5
}

/// The verdict on a reply: `Ok(())` when it confirms the protocol.
pub open spec fn classify_spec(b: Seq<u8>) -> Result<(), ErrorKind> {
    if b.len() < FRAME_LEN {
        Err(ErrorKind::ShortResponse)
    } else if b[VERSION_OFFSET as int] != VERSION_MARKER || b[CONFIRM_OFFSET as int] != CONFIRM_MARKER {
        Err(ErrorKind::WrongProtocol)
    } else if b[NEG_TYPE_OFFSET as int] == NEG_RESPONSE {
        Ok(())
    } else if b[NEG_TYPE_OFFSET as int] == NEG_FAILURE {
        if is_benign_reason(b[FAILURE_CODE_OFFSET as int]) {
            Ok(())
        } else {
            Err(ErrorKind::NegotiationFailure)
        }
    } else {
        Err(ErrorKind::WrongProtocol)
    }
}

/// The request frame, byte for byte.
pub fn request() -> (r: Vec<u8>)
    ensures
        r@ == request_frame(),
        r@.len() == FRAME_LEN,
{
    let r = vec![
        0x03u8, 0x00u8, 0x00u8, 0x13u8,
        0x0eu8,
        0xe0u8, 0x00u8, 0x00u8, 0x00u8, 0x00u8, 0x00u8,
        0x01u8, 0x00u8,
        0x08u8, 0x00u8,
        0x0bu8, 0x00u8, 0x00u8, 0x00u8,
    ];
    assert(r@ =~= request_frame());
    r
}

/// Whether a reason code of a negotiation failure still shows the protocol.
pub fn benign_reason(code: u8) -> (r: bool)
    ensures
        r == is_benign_reason(code),
{
    code == 1 || code == 2 || code == 5
}

/// Classifies the bytes of one reply.
pub fn classify(bytes: &[u8]) -> (r: Result<(), ErrorKind>)
    ensures
        r == classify_spec(bytes@),
{
    if bytes.len() < FRAME_LEN {
        return Err(ErrorKind::ShortResponse);
    }
    if bytes[VERSION_OFFSET] != VERSION_MARKER || bytes[CONFIRM_OFFSET] != CONFIRM_MARKER {
        return Err(ErrorKind::WrongProtocol);
    }
    let neg_type = bytes[NEG_TYPE_OFFSET];
    if neg_type == NEG_RESPONSE {
        Ok(())
    } else if neg_type == NEG_FAILURE {
        if benign_reason(bytes[FAILURE_CODE_OFFSET]) {
            Ok(())
        } else {
            Err(ErrorKind::NegotiationFailure)
        }
    } else {
        Err(ErrorKind::WrongProtocol)
    }
}

} // verus!

verus! {

/// Any reply shorter than a frame is a short response.
pub proof fn lemma_short_reply(b: Seq<u8>)
    requires
        b.len() < FRAME_LEN,
    ensures
        classify_spec(b) == Err::<(), ErrorKind>(ErrorKind::ShortResponse),
{
}

/// A reply of frame length without the framing-version or the
/// connection-confirm marker is of another protocol.
pub proof fn lemma_missing_marker(b: Seq<u8>)
    requires
        b.len() >= FRAME_LEN,
        b[VERSION_OFFSET as int] != VERSION_MARKER || b[CONFIRM_OFFSET as int] != CONFIRM_MARKER,
    ensures
        classify_spec(b) == Err::<(), ErrorKind>(ErrorKind::WrongProtocol),
{
}

/// A well-formed frame that carries a negotiation response confirms the
/// protocol, whatever the bytes after the header.
pub proof fn lemma_negotiation_response(b: Seq<u8>)
    requires
        b.len() >= FRAME_LEN,
        b[VERSION_OFFSET as int] == VERSION_MARKER,
        b[CONFIRM_OFFSET as int] == CONFIRM_MARKER,
        b[NEG_TYPE_OFFSET as int] == NEG_RESPONSE,
    ensures
        classify_spec(b) == Ok::<(), ErrorKind>(()),
{
}

/// A well-formed negotiation-failure frame confirms the protocol exactly when
/// its reason code is benign, and is a negotiation failure otherwise.
pub proof fn lemma_negotiation_failure(b: Seq<u8>)
    requires
        b.len() >= FRAME_LEN,
        b[VERSION_OFFSET as int] == VERSION_MARKER,
        b[CONFIRM_OFFSET as int] == CONFIRM_MARKER,
        b[NEG_TYPE_OFFSET as int] == NEG_FAILURE,
    ensures
        is_benign_reason(b[FAILURE_CODE_OFFSET as int]) ==> classify_spec(b) == Ok::<(), ErrorKind>(()),
        !is_benign_reason(b[FAILURE_CODE_OFFSET as int]) ==> classify_spec(b) == Err::<(), ErrorKind>(
            ErrorKind::NegotiationFailure,
        ),
{
}

/// The verdict depends on the bytes alone: equal replies get equal verdicts.
pub proof fn lemma_classify_deterministic(a: Seq<u8>, b: Seq<u8>)
    requires
        a == b,
    ensures
        classify_spec(a) == classify_spec(b),
{
}

} // verus!
