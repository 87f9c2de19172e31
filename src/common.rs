//! Types shared by the message definitions.
use vstd::prelude::*;
use crate::wire::{le_u16, read_u16_le};

verus! {

/// The service a message is addressed to, sent as a little-endian `u16`.
#[derive(Clone, Copy, Debug, PartialEq, Eq, Structural)]
pub enum ServiceId {
    General,
    Auth,
    Chat,
    World,
    Client,
}

/// The service that a wire value names, if any.
pub open spec fn service_id_of(v: u16) -> Option<ServiceId> {
    if v == 0 {
        Some(ServiceId::General)
    } else if v == 1 {
        Some(ServiceId::Auth)
    } else if v == 2 {
        Some(ServiceId::Chat)
    } else if v == 4 {
        Some(ServiceId::World)
    } else if v == 5 {
        Some(ServiceId::Client)
    } else {
        None
    }
}

/// Reads a service id at `pos`; `None` on underrun or an unknown value.
pub fn decode_service_id(b: &[u8], pos: usize) -> (r: Option<(ServiceId, usize)>)
    requires
        pos <= b@.len(),
    ensures
        r is Some <==> pos + 2 <= b@.len() && service_id_of(le_u16(b@, pos as int)) is Some,
        match r {
            Some((id, end)) => Some(id) == service_id_of(le_u16(b@, pos as int)) && end == pos + 2,
            None => true,
        },
{
    if b.len() - pos < 2 {
        return None;
    }
    let v = match read_u16_le(b, pos) {
        Some(v) => v,
        None => {
            return None;
        },
    };
    let id = match v {
        0 => ServiceId::General,
        1 => ServiceId::Auth,
        2 => ServiceId::Chat,
        4 => ServiceId::World,
        5 => ServiceId::Client,
        _ => {
            return None;
        },
    };
    Some((id, pos + 2))
}

/// A fixed-capacity UTF-16 string, as its code units (padding included).
#[derive(Debug)]
pub struct LuWStr {
    pub units: Vec<u16>,
}

/// The `n` little-endian code units that start at `pos`.
pub open spec fn wstr_units(b: Seq<u8>, pos: int, n: nat) -> Seq<u16> {
    Seq::new(n, |i: int| le_u16(b, pos + 2 * i))
}

/// Reads a string of `n` code units at `pos`; `None` on underrun.
pub fn decode_wstr(b: &[u8], pos: usize, n: usize) -> (r: Option<(LuWStr, usize)>)
    requires
        pos <= b@.len(),
    ensures
        r is Some <==> pos + 2 * n <= b@.len(),
        match r {
            Some((w, end)) => w.units@ == wstr_units(b@, pos as int, n as nat) && end == pos + 2 * n,
            None => true,
        },
{
    let len = b.len();
    if len - pos < n || len - pos - n < n {
        return None;
    }
    let mut units: Vec<u16> = Vec::new();
    let mut i: usize = 0;
    while i < n
        invariant
            i <= n,
            len == b@.len(),
            pos + 2 * n <= len,
            units@ == wstr_units(b@, pos as int, i as nat),
        decreases n - i,
    {
        let u = read_u16_le(b, pos + 2 * i).unwrap();
        units.push(u);
        assert(units@ =~= wstr_units(b@, pos as int, (i + 1) as nat));
        i += 1;
    }
    Some((LuWStr { units }, pos + 2 * n))
}

} // verus!
