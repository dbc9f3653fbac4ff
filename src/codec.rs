//! Encoding and decoding of OSC packets.

use vstd::prelude::*;

use rosc::{OscError, OscPacket};

verus! {

#[verifier::external_type_specification]
#[verifier::external_body]
pub struct ExOscPacket(rosc::OscPacket);

#[verifier::external_type_specification]
#[verifier::external_body]
pub struct ExOscError(rosc::OscError);

/// Whether rosc decodes `bytes` as one OSC packet (what follows it aside).
pub uninterp spec fn osc_decodes(bytes: Seq<u8>) -> bool;

/// Relies on rosc's `encoder::encode`, which writes into a `Vec` and so
/// always returns `Ok` in this version of rosc; its output is an address (or
/// bundle tag) and a type-tag string (or time tag), every part padded to a
/// multiple of four bytes.
#[verifier::external_body]
fn encode_packet(packet: &OscPacket) -> (r: Result<Vec<u8>, OscError>)
    ensures
        r is Ok,
        r matches Ok(v) ==> v@.len() >= 8 && v@.len() % 4 == 0,
{
    rosc::encoder::encode(packet)
}

/// Relies on rosc's `decoder::decode_udp`, whose outcome depends on the bytes
/// alone and which rejects an empty datagram; the bytes after the packet are
/// dropped.
#[verifier::external_body]
fn decode_packet(buf: &[u8]) -> (r: Result<OscPacket, OscError>)
    ensures
        r is Ok <==> osc_decodes(buf@),
        buf@.len() == 0 ==> r is Err,
{
    rosc::decoder::decode_udp(buf).map(|(_, packet)| packet)
}

/// Turns OSC packets into datagram bytes and back.
pub struct OscCodec;

impl OscCodec {
    pub fn new() -> OscCodec {
        OscCodec {  }
    }

    /// Appends the wire form of `packet` to `buf`, a whole number of
    /// four-byte words and at least two of them; what `buf` held stays in front.
    pub fn encode(&mut self, packet: &OscPacket, buf: &mut Vec<u8>)
        ensures
            final(buf)@.len() >= old(buf)@.len() + 8,
            (final(buf)@.len() - old(buf)@.len()) % 4 == 0,
            final(buf)@.subrange(0, old(buf)@.len() as int) == old(buf)@,
    {
        match encode_packet(packet) {
            Ok(mut bytes) => {
                let ghost before = buf@;
                buf.append(&mut bytes);
                assert(buf@.subrange(0, before.len() as int) =~= before);
            },
            Err(_) => {},
        }
    }

    /// The packet that a datagram holds, or `None` where it is malformed.
    pub fn decode(&mut self, buf: &[u8]) -> (r: Option<OscPacket>)
        ensures
            r is Some <==> osc_decodes(buf@),
            buf@.len() == 0 ==> r is None,
    {
        match decode_packet(buf) {
            Ok(packet) => Some(packet),
            Err(_) => None,
        }
    }
}

} // verus!
