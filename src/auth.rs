//! Messages that an auth server accepts.
use vstd::prelude::*;
use crate::common::{decode_wstr, wstr_units, LuWStr};
use crate::general::{
    decode_message_id, general_at, general_fits, message_id_at, GeneralMessage,
    MESSAGE_HEADER_SIZE,
};
use crate::wire::{le_u16, le_u32, read_u16_le, read_u32_le, read_u8};

verus! {

/// Bytes of the processor description.
pub const PROCESSOR_INFO_SIZE: usize = 12;

/// Bytes of the operating system description.
pub const OS_INFO_SIZE: usize = 20;

/// Bytes of the machine description: two strings of 256 and 128 code units,
/// then the processor and operating system descriptions.
pub const COMPUTER_STATS_SIZE: usize = 800;

/// Bytes of a login request: a 33-unit user name, a 41-unit password, the
/// locale, the client system, then the machine description.
pub const LOGIN_REQUEST_SIZE: usize = 951;

/// A message addressed to one service, as a little-endian `u16` service id and
/// the service's own message.
#[derive(Debug)]
#[non_exhaustive]
pub enum LuMessage {
    General(GeneralMessage),
    Auth(AuthMessage),
}

/// Messages of the auth service.
#[derive(Debug)]
pub enum AuthMessage {
    LoginRequest(LoginRequest),
}

/// A client's credentials and a description of its machine.
#[derive(Debug)]
pub struct LoginRequest {
    pub username: LuWStr,
    pub password: LuWStr,
    pub locale_id: u16,
    pub client_os: ClientOs,
    pub computer_stats: ComputerStats,
}

/// The client's operating system, sent as one byte.
#[derive(Clone, Copy, Debug, PartialEq, Eq, Structural)]
pub enum ClientOs {
    Unknown,
    Windows,
    MacOs,
}

/// The client machine's memory, video card, processor and system.
#[derive(Debug)]
pub struct ComputerStats {
    pub memory_stats: LuWStr,
    pub video_card_info: LuWStr,
    pub processor_info: ProcessorInfo,
    pub os_info: OsInfo,
}

/// Processor count, type, level and revision.
#[derive(Clone, Copy, Debug)]
pub struct ProcessorInfo {
    pub number_of_processors: u32,
    pub processor_type: u32,
    pub processor_level: u16,
    pub processor_revision: u16,
}

/// The operating system's version record.
#[derive(Clone, Copy, Debug)]
pub struct OsInfo {
    pub os_version_info_size: u32,
    pub major_version: u32,
    pub minor_version: u32,
    pub build_number: u32,
    pub platform_id: u32,
}

/// The system that a wire byte names, if any.
pub open spec fn client_os_of(v: u8) -> Option<ClientOs> {
    if v == 0 {
        Some(ClientOs::Unknown)
    } else if v == 1 {
        Some(ClientOs::Windows)
    } else if v == 2 {
        Some(ClientOs::MacOs)
    } else {
        None
    }
}

pub open spec fn processor_info_at(p: ProcessorInfo, b: Seq<u8>, pos: int) -> bool {
    &&& p.number_of_processors == le_u32(b, pos)
    &&& p.processor_type == le_u32(b, pos + 4)
    &&& p.processor_level == le_u16(b, pos + 8)
    &&& p.processor_revision == le_u16(b, pos + 10)
}

pub open spec fn os_info_at(o: OsInfo, b: Seq<u8>, pos: int) -> bool {
    &&& o.os_version_info_size == le_u32(b, pos)
    &&& o.major_version == le_u32(b, pos + 4)
    &&& o.minor_version == le_u32(b, pos + 8)
    &&& o.build_number == le_u32(b, pos + 12)
    &&& o.platform_id == le_u32(b, pos + 16)
}

pub open spec fn computer_stats_at(c: ComputerStats, b: Seq<u8>, pos: int) -> bool {
    &&& c.memory_stats.units@ == wstr_units(b, pos, 256)
    &&& c.video_card_info.units@ == wstr_units(b, pos + 512, 128)
    &&& processor_info_at(c.processor_info, b, pos + 768)
    &&& os_info_at(c.os_info, b, pos + 780)
}

/// Whether a login request can be read at `pos`.
pub open spec fn login_request_fits(b: Seq<u8>, pos: int) -> bool {
    pos + LOGIN_REQUEST_SIZE <= b.len() && client_os_of(b[pos + 150]) is Some
}

pub open spec fn login_request_at(l: LoginRequest, b: Seq<u8>, pos: int) -> bool {
    &&& l.username.units@ == wstr_units(b, pos, 33)
    &&& l.password.units@ == wstr_units(b, pos + 66, 41)
    &&& l.locale_id == le_u16(b, pos + 148)
    &&& Some(l.client_os) == client_os_of(b[pos + 150])
    &&& computer_stats_at(l.computer_stats, b, pos + 151)
}

/// Whether an auth message can be read at `pos`.
pub open spec fn auth_fits(b: Seq<u8>, pos: int) -> bool {
    message_id_at(b, pos, 0) && login_request_fits(b, pos + MESSAGE_HEADER_SIZE)
}

/// Whether `m` is the auth message written at `pos`, and where it ends.
pub open spec fn auth_at(m: AuthMessage, b: Seq<u8>, pos: int, end: int) -> bool {
    match m {
        AuthMessage::LoginRequest(l) => login_request_at(l, b, pos + MESSAGE_HEADER_SIZE) && end
            == pos + MESSAGE_HEADER_SIZE + LOGIN_REQUEST_SIZE,
    }
}

/// Whether a service message can be read at `pos`.
pub open spec fn lu_fits(b: Seq<u8>, pos: int) -> bool {
    pos + 2 <= b.len() && ((le_u16(b, pos) == 0 && general_fits(b, pos + 2)) || (le_u16(b, pos)
        == 1 && auth_fits(b, pos + 2)))
}

/// Whether `m` is the service message written at `pos`, and where it ends.
pub open spec fn lu_at(m: LuMessage, b: Seq<u8>, pos: int, end: int) -> bool {
    match m {
        LuMessage::General(g) => le_u16(b, pos) == 0 && general_at(g, b, pos + 2, end),
        LuMessage::Auth(a) => le_u16(b, pos) == 1 && auth_at(a, b, pos + 2, end),
    }
}

impl ProcessorInfo {
    pub fn deserialize(b: &[u8], pos: usize) -> (r: Option<(ProcessorInfo, usize)>)
        requires
            pos <= b@.len(),
        ensures
            r is Some <==> pos + PROCESSOR_INFO_SIZE <= b@.len(),
            match r {
                Some((p, end)) => processor_info_at(p, b@, pos as int) && end == pos
                    + PROCESSOR_INFO_SIZE,
                None => true,
            },
    {
        if b.len() - pos < PROCESSOR_INFO_SIZE {
            return None;
        }
        let p = ProcessorInfo {
            number_of_processors: read_u32_le(b, pos).unwrap(),
            processor_type: read_u32_le(b, pos + 4).unwrap(),
            processor_level: read_u16_le(b, pos + 8).unwrap(),
            processor_revision: read_u16_le(b, pos + 10).unwrap(),
        };
        Some((p, pos + PROCESSOR_INFO_SIZE))
    }
}

impl OsInfo {
    pub fn deserialize(b: &[u8], pos: usize) -> (r: Option<(OsInfo, usize)>)
        requires
            pos <= b@.len(),
        ensures
            r is Some <==> pos + OS_INFO_SIZE <= b@.len(),
            match r {
                Some((o, end)) => os_info_at(o, b@, pos as int) && end == pos + OS_INFO_SIZE,
                None => true,
            },
    {
        if b.len() - pos < OS_INFO_SIZE {
            return None;
        }
        let o = OsInfo {
            os_version_info_size: read_u32_le(b, pos).unwrap(),
            major_version: read_u32_le(b, pos + 4).unwrap(),
            minor_version: read_u32_le(b, pos + 8).unwrap(),
            build_number: read_u32_le(b, pos + 12).unwrap(),
            platform_id: read_u32_le(b, pos + 16).unwrap(),
        };
        Some((o, pos + OS_INFO_SIZE))
    }
}

impl ComputerStats {
    pub fn deserialize(b: &[u8], pos: usize) -> (r: Option<(ComputerStats, usize)>)
        requires
            pos <= b@.len(),
        ensures
            r is Some <==> pos + COMPUTER_STATS_SIZE <= b@.len(),
            match r {
                Some((c, end)) => computer_stats_at(c, b@, pos as int) && end == pos
                    + COMPUTER_STATS_SIZE,
                None => true,
            },
    {
        if b.len() - pos < COMPUTER_STATS_SIZE {
            return None;
        }
        let (memory_stats, _) = decode_wstr(b, pos, 256).unwrap();
        let (video_card_info, _) = decode_wstr(b, pos + 512, 128).unwrap();
        let (processor_info, _) = ProcessorInfo::deserialize(b, pos + 768).unwrap();
        let (os_info, _) = OsInfo::deserialize(b, pos + 780).unwrap();
        Some((ComputerStats { memory_stats, video_card_info, processor_info, os_info }, pos + COMPUTER_STATS_SIZE))
    }
}

impl ClientOs {
    pub fn deserialize(b: &[u8], pos: usize) -> (r: Option<(ClientOs, usize)>)
        requires
            pos <= b@.len(),
        ensures
            r is Some <==> pos + 1 <= b@.len() && client_os_of(b@[pos as int]) is Some,
            match r {
                Some((os, end)) => Some(os) == client_os_of(b@[pos as int]) && end == pos + 1,
                None => true,
            },
    {
        if b.len() - pos < 1 {
            return None;
        }
        let os = match read_u8(b, pos).unwrap() {
            0 => ClientOs::Unknown,
            1 => ClientOs::Windows,
            2 => ClientOs::MacOs,
            _ => {
                return None;
            },
        };
        Some((os, pos + 1))
    }
}

impl LoginRequest {
    pub fn deserialize(b: &[u8], pos: usize) -> (r: Option<(LoginRequest, usize)>)
        requires
            pos <= b@.len(),
        ensures
            r is Some <==> login_request_fits(b@, pos as int),
            match r {
                Some((l, end)) => login_request_at(l, b@, pos as int) && end == pos
                    + LOGIN_REQUEST_SIZE,
                None => true,
            },
    {
        if b.len() - pos < LOGIN_REQUEST_SIZE {
            return None;
        }
        let (client_os, _) = match ClientOs::deserialize(b, pos + 150) {
            Some(c) => c,
            None => {
                return None;
            },
        };
        let (username, _) = decode_wstr(b, pos, 33).unwrap();
        let (password, _) = decode_wstr(b, pos + 66, 41).unwrap();
        let locale_id = read_u16_le(b, pos + 148).unwrap();
        let (computer_stats, _) = ComputerStats::deserialize(b, pos + 151).unwrap();
        Some((LoginRequest { username, password, locale_id, client_os, computer_stats }, pos + LOGIN_REQUEST_SIZE))
    }
}

impl AuthMessage {
    pub fn deserialize(b: &[u8], pos: usize) -> (r: Option<(AuthMessage, usize)>)
        requires
            pos <= b@.len(),
        ensures
            r is Some <==> auth_fits(b@, pos as int),
            match r {
                Some((m, end)) => auth_at(m, b@, pos as int, end as int),
                None => true,
            },
    {
        if b.len() - pos < MESSAGE_HEADER_SIZE {
            return None;
        }
        match decode_message_id(b, pos) {
            Some(0) => match LoginRequest::deserialize(b, pos + MESSAGE_HEADER_SIZE) {
                Some((l, end)) => Some((AuthMessage::LoginRequest(l), end)),
                None => None,
            },
            _ => None,
        }
    }
}

impl LuMessage {
    pub fn deserialize(b: &[u8], pos: usize) -> (r: Option<(LuMessage, usize)>)
        requires
            pos <= b@.len(),
        ensures
            r is Some <==> lu_fits(b@, pos as int),
            match r {
                Some((m, end)) => lu_at(m, b@, pos as int, end as int),
                None => true,
            },
    {
        if b.len() - pos < 2 {
            return None;
        }
        match read_u16_le(b, pos) {
            Some(0) => match GeneralMessage::deserialize(b, pos + 2) {
                Some((g, end)) => Some((LuMessage::General(g), end)),
                None => None,
            },
            Some(1) => match AuthMessage::deserialize(b, pos + 2) {
                Some((a, end)) => Some((LuMessage::Auth(a), end)),
                None => None,
            },
            _ => None,
        }
    }
}

} // verus!
