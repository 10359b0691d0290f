//! OSC packets as far as the light server reads them, and their decoding from a datagram.

use vstd::prelude::*;

verus! {

/// The largest datagram that is handed to the decoder: the size of the receive buffer.
pub const MAX_DATAGRAM: usize = 1536;

/// One argument of an OSC message. Only 32-bit integers are told apart from the rest.
#[derive(Debug, Clone, Copy, PartialEq, Eq, Structural)]
pub enum OscArg {
    /// A 32-bit integer.
    Int(i32),
    /// An argument of any other type.
    Other,
}

/// An OSC message: an address and its arguments.
#[derive(Debug, Clone, PartialEq, Eq)]
pub struct OscMessage {
    pub addr: String,
    pub args: Vec<OscArg>,
}

/// An OSC packet: one message, or a bundle, whose content is not read.
#[derive(Debug, Clone, PartialEq, Eq)]
pub enum OscPacket {
    Message(OscMessage),
    Bundle,
}

/// What a packet holds, as mathematical values.
pub enum PacketContent {
    Message { addr: Seq<char>, args: Seq<OscArg> },
    Bundle,
}

impl View for OscPacket {
    type V = PacketContent;

    open spec fn view(&self) -> PacketContent {
        match self {
            OscPacket::Message(message) => PacketContent::Message {
                addr: message.addr@,
                args: message.args@,
            },
            OscPacket::Bundle => PacketContent::Bundle,
        }
    }
}

/// Why a datagram gave no packet.
#[derive(Debug, Clone, PartialEq, Eq)]
pub enum DecodeError {
    /// The datagram is longer than [`MAX_DATAGRAM`] and was not handed to the decoder.
    TooLong,
    /// The decoder refused the datagram; the text is the decoder's own description.
    Malformed(String),
}

/// `rosc::OscError`, the decoder's reason for refusing a datagram. It is read only by
/// [`describe`].
#[verifier::external_type_specification]
#[verifier::external_body]
pub struct ExOscError(rosc::OscError);

/// What `rosc::decoder::decode_udp` makes of the bytes of a datagram: the content of
/// the packet at its start, or `None` where the decoder refuses the bytes.
pub uninterp spec fn decoded_packet(bytes: Seq<u8>) -> Option<PacketContent>;

/// Calls `rosc::decoder::decode_udp` and keeps of the packet what [`OscPacket`] holds;
/// the bytes that follow the packet are dropped.
///
/// Not proved: that the decoder returns on every datagram of at most [`MAX_DATAGRAM`]
/// bytes, and that what it returns depends on the bytes alone, so that it is
/// `decoded_packet` of them.
#[verifier::external_body]
fn decode_udp(bytes: &[u8]) -> (decoded: Result<OscPacket, rosc::OscError>)
    requires
        bytes@.len() <= MAX_DATAGRAM,
    ensures
        match decoded {
            Ok(packet) => decoded_packet(bytes@) == Some(packet@),
            Err(_) => decoded_packet(bytes@) is None,
        },
{
    let (_, packet) = rosc::decoder::decode_udp(bytes)?;
    Ok(match packet {
        rosc::OscPacket::Message(message) => OscPacket::Message(OscMessage {
            addr: message.addr,
            args: message.args.into_iter().map(|arg| match arg {
                rosc::OscType::Int(value) => OscArg::Int(value),
                _ => OscArg::Other,
            }).collect(),
        }),
        rosc::OscPacket::Bundle(_) => OscPacket::Bundle,
    })
}

/// Formats a decoder error with its `Display` impl. Nothing is claimed of the text.
#[verifier::external_body]
fn describe(error: &rosc::OscError) -> String {
    format!("{error}")
}

/// Decodes the OSC packet at the start of a datagram.
///
/// A datagram of more than [`MAX_DATAGRAM`] bytes is refused as `TooLong`. Any other is
/// handed to the decoder, and the result is its packet, or `Malformed` where it refuses.
pub fn decode_datagram(bytes: &[u8]) -> (decoded: Result<OscPacket, DecodeError>)
    ensures
        match decoded {
            Ok(packet) => bytes@.len() <= MAX_DATAGRAM && decoded_packet(bytes@) == Some(
                packet@,
            ),
            Err(DecodeError::TooLong) => bytes@.len() > MAX_DATAGRAM,
            Err(DecodeError::Malformed(_)) => bytes@.len() <= MAX_DATAGRAM && decoded_packet(
                bytes@,
            ) is None,
        },
{
    if bytes.len() > MAX_DATAGRAM {
        return Err(DecodeError::TooLong);
    }
    match decode_udp(bytes) {
        Ok(packet) => Ok(packet),
        Err(error) => Err(DecodeError::Malformed(describe(&error))),
    }
}

} // verus!
