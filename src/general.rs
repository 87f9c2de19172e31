//! Messages of the general service, which every server accepts.
use vstd::prelude::*;
use crate::common::{decode_service_id, service_id_of, ServiceId};
use crate::wire::{le_u16, le_u32, read_u32_le, read_u8};

verus! {

/// Bytes of a service message header after the service id: a `u32` message id
/// and one padding byte.
pub const MESSAGE_HEADER_SIZE: usize = 5;

/// Bytes of a handshake on the wire.
pub const HANDSHAKE_SIZE: usize = 12;

/// Opens a connection: the client's protocol version and the service it wants.
#[derive(Clone, Copy, Debug)]
pub struct Handshake {
    pub network_version: u32,
    pub service_id: ServiceId,
}

/// Whether a handshake can be read at `pos`.
pub open spec fn handshake_fits(b: Seq<u8>, pos: int) -> bool {
    pos + HANDSHAKE_SIZE <= b.len() && service_id_of(le_u16(b, pos + 8)) is Some
}

/// Whether `h` is the handshake written at `pos`: the version, four unused
/// bytes, the service id and two unused bytes.
pub open spec fn handshake_at(h: Handshake, b: Seq<u8>, pos: int) -> bool {
    h.network_version == le_u32(b, pos) && Some(h.service_id) == service_id_of(le_u16(b, pos + 8))
}

impl Handshake {
    /// Reads a handshake at `pos`, returning it and the position after it.
    pub fn deserialize(b: &[u8], pos: usize) -> (r: Option<(Handshake, usize)>)
        requires
            pos <= b@.len(),
        ensures
            r is Some <==> handshake_fits(b@, pos as int),
            match r {
                Some((h, end)) => handshake_at(h, b@, pos as int) && end == pos + HANDSHAKE_SIZE,
                None => true,
            },
    {
        if b.len() - pos < HANDSHAKE_SIZE {
            return None;
        }
        let network_version = read_u32_le(b, pos).unwrap();
        let (service_id, _) = match decode_service_id(b, pos + 8) {
            Some(s) => s,
            None => {
                return None;
            },
        };
        Some((Handshake { network_version, service_id }, pos + HANDSHAKE_SIZE))
    }
}

/// Messages of the general service.
#[derive(Clone, Copy, Debug)]
pub enum GeneralMessage {
    Handshake(Handshake),
}

/// Whether a message header with id `id` starts at `pos`.
pub open spec fn message_id_at(b: Seq<u8>, pos: int, id: u32) -> bool {
    pos + MESSAGE_HEADER_SIZE <= b.len() && le_u32(b, pos) == id
}

/// Whether a general message can be read at `pos`.
pub open spec fn general_fits(b: Seq<u8>, pos: int) -> bool {
    message_id_at(b, pos, 0) && handshake_fits(b, pos + MESSAGE_HEADER_SIZE)
}

/// Whether `m` is the general message written at `pos`, and where it ends.
pub open spec fn general_at(m: GeneralMessage, b: Seq<u8>, pos: int, end: int) -> bool {
    match m {
        GeneralMessage::Handshake(h) => handshake_at(h, b, pos + MESSAGE_HEADER_SIZE) && end == pos
            + MESSAGE_HEADER_SIZE + HANDSHAKE_SIZE,
    }
}

/// Reads the message id at `pos` and the padding byte after it.
pub(crate) fn decode_message_id(b: &[u8], pos: usize) -> (r: Option<u32>)
    requires
        pos <= b@.len(),
    ensures
        r is Some <==> pos + MESSAGE_HEADER_SIZE <= b@.len(),
        r is Some ==> r->0 == le_u32(b@, pos as int),
{
    if b.len() - pos < MESSAGE_HEADER_SIZE {
        return None;
    }
    let id = read_u32_le(b, pos).unwrap();
    let _padding = read_u8(b, pos + 4).unwrap();
    Some(id)
}

impl GeneralMessage {
    /// Reads a general message at `pos`, returning it and the position after it.
    pub fn deserialize(b: &[u8], pos: usize) -> (r: Option<(GeneralMessage, usize)>)
        requires
            pos <= b@.len(),
        ensures
            r is Some <==> general_fits(b@, pos as int),
            match r {
                Some((m, end)) => general_at(m, b@, pos as int, end as int),
                None => true,
            },
    {
        if b.len() - pos < MESSAGE_HEADER_SIZE {
            return None;
        }
        match decode_message_id(b, pos) {
            Some(0) => match Handshake::deserialize(b, pos + MESSAGE_HEADER_SIZE) {
                Some((h, end)) => Some((GeneralMessage::Handshake(h), end)),
                None => None,
            },
            _ => None,
        }
    }
}

} // verus!
