//! TunerStudio command set (Speeduino-compatible single-byte commands).

use vstd::prelude::*;

verus! {

/// Signature returned for the `Q` command: "speeduino-travis", zero-padded to 32 bytes.
pub const SIGNATURE: [u8; 32] = [
    115, 112, 101, 101, 100, 117, 105, 110, 111, 45, 116, 114, 97, 118, 105, 115,
    0, 0, 0, 0, 0, 0, 0, 0, 0, 0, 0, 0, 0, 0, 0, 0,
];

/// Version string returned for the `S` command: "Travis Digital Dash v1.0", zero-padded to 32 bytes.
pub const VERSION: [u8; 32] = [
    84, 114, 97, 118, 105, 115, 32, 68, 105, 103, 105, 116, 97, 108, 32, 68,
    97, 115, 104, 32, 118, 49, 46, 48, 0, 0, 0, 0, 0, 0, 0, 0,
];

/// TunerStudio command types.
#[derive(Debug, Clone, Copy, PartialEq, Eq, Structural)]
pub enum Command {
    /// 'Q' - query signature (32-byte reply)
    QuerySignature,
    /// 'S' - query version (32-byte reply)
    QueryVersion,
    /// 'r' - read the output-channel block
    ReadOch,
    /// 'p' - read a parameter page
    ReadPage,
    /// 'b' - burn a parameter page
    BurnPage,
    /// 'd' - get the page CRC
    GetCrc,
    /// 'F' - feature flags
    Flags,
    /// Any other byte
    Unknown(u8),
}

/// The byte that denotes each command.
pub open spec fn command_byte(c: Command) -> u8 {
    match c {
        Command::QuerySignature => 0x51, // 'Q'
        Command::QueryVersion => 0x53, // 'S'
        Command::ReadOch => 0x72, // 'r'
        Command::ReadPage => 0x70, // 'p'
        Command::BurnPage => 0x62, // 'b'
        Command::GetCrc => 0x64, // 'd'
        Command::Flags => 0x46, // 'F'
        Command::Unknown(b) => b,
    }
}

/// Whether `b` is the byte of one of the named commands.
pub open spec fn is_known_byte(b: u8) -> bool {
    b == 0x51 || b == 0x53 || b == 0x72 || b == 0x70 || b == 0x62 || b == 0x64 || b == 0x46
}

/// The command a received byte denotes.
pub open spec fn command_of_byte(b: u8) -> Command {
    if b == 0x51 {
        Command::QuerySignature
    } else if b == 0x53 {
        Command::QueryVersion
    } else if b == 0x72 {
        Command::ReadOch
    } else if b == 0x70 {
        Command::ReadPage
    } else if b == 0x62 {
        Command::BurnPage
    } else if b == 0x64 {
        Command::GetCrc
    } else if b == 0x46 {
        Command::Flags
    } else {
        Command::Unknown(b)
    }
}

impl Command {
    /// Parse a command byte.
    pub fn from_byte(b: u8) -> (r: Self)
        ensures
            r == command_of_byte(b),
    {
        match b {
            0x51 => Command::QuerySignature, // 'Q'
            0x53 => Command::QueryVersion, // 'S'
            0x72 => Command::ReadOch, // 'r'
            0x70 => Command::ReadPage, // 'p'
            0x62 => Command::BurnPage, // 'b'
            0x64 => Command::GetCrc, // 'd'
            0x46 => Command::Flags, // 'F'
            _ => Command::Unknown(b),
        }
    }

    /// The byte that denotes this command.
    pub fn to_byte(self) -> (r: u8)
        ensures
            r == command_byte(self),
    {
        match self {
            Command::QuerySignature => 0x51, // 'Q'
            Command::QueryVersion => 0x53, // 'S'
            Command::ReadOch => 0x72, // 'r'
            Command::ReadPage => 0x70, // 'p'
            Command::BurnPage => 0x62, // 'b'
            Command::GetCrc => 0x64, // 'd'
            Command::Flags => 0x46, // 'F'
            Command::Unknown(b) => b,
        }
    }
}

/// Every byte survives parsing and re-encoding unchanged.
pub proof fn lemma_byte_roundtrip(b: u8)
    ensures
        command_byte(command_of_byte(b)) == b,
{
}

/// Every command parses back from its byte, except an `Unknown` that carries
/// the byte of a named command.
pub proof fn lemma_command_roundtrip(c: Command)
    requires
        !(c is Unknown && is_known_byte(command_byte(c))),
    ensures
        command_of_byte(command_byte(c)) == c,
{
}

/// Parsing yields `Unknown` exactly for the bytes that name no command.
pub proof fn lemma_unknown_iff(b: u8)
    ensures
        (command_of_byte(b) is Unknown) <==> !is_known_byte(b),
{
}

} // verus!
