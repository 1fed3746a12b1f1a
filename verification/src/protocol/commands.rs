//! Built-in and user-defined opcodes, each a closed set of 16-bit codes with a
//! total encoding and a partial decoding.

use vstd::prelude::*;

verus! {

/// Built-in TCON commands.
#[derive(Debug, Clone, Copy, PartialEq, Eq, Structural)]
pub enum Command {
    /// Leave standby or sleep and run.
    SysRun,
    /// Enter standby (low power).
    Standby,
    /// Enter sleep (lowest power).
    Sleep,
    /// Read a register.
    RegRead,
    /// Write a register.
    RegWrite,
    /// Trigger a memory burst read.
    MemBurstReadTrigger,
    /// Start a memory burst read.
    MemBurstReadStart,
    /// Start a memory burst write.
    MemBurstWrite,
    /// End a memory burst operation.
    MemBurstEnd,
    /// Start a full-buffer image load.
    LoadImage,
    /// Start an area-bounded image load.
    LoadImageArea,
    /// End an image load.
    LoadImageEnd,
}

impl Command {
    /// The opcode's 16-bit wire value.
    pub open spec fn spec_code(self) -> u16 {
        match self {
            Command::SysRun => 0x0001,
            Command::Standby => 0x0002,
            Command::Sleep => 0x0003,
            Command::RegRead => 0x0010,
            Command::RegWrite => 0x0011,
            Command::MemBurstReadTrigger => 0x0012,
            Command::MemBurstReadStart => 0x0013,
            Command::MemBurstWrite => 0x0014,
            Command::MemBurstEnd => 0x0015,
            Command::LoadImage => 0x0020,
            Command::LoadImageArea => 0x0021,
            Command::LoadImageEnd => 0x0022,
        }
    }

    /// The command a 16-bit wire value decodes to, `None` for every value
    /// outside the closed set.
    pub open spec fn spec_decode(value: u16) -> Option<Command> {
        match value {
            0x0001 => Some(Command::SysRun),
            0x0002 => Some(Command::Standby),
            0x0003 => Some(Command::Sleep),
            0x0010 => Some(Command::RegRead),
            0x0011 => Some(Command::RegWrite),
            0x0012 => Some(Command::MemBurstReadTrigger),
            0x0013 => Some(Command::MemBurstReadStart),
            0x0014 => Some(Command::MemBurstWrite),
            0x0015 => Some(Command::MemBurstEnd),
            0x0020 => Some(Command::LoadImage),
            0x0021 => Some(Command::LoadImageArea),
            0x0022 => Some(Command::LoadImageEnd),
            _ => None,
        }
    }

    /// Returns the command's wire value.
    pub fn as_u16(self) -> (r: u16)
        ensures
            r == self.spec_code(),
    {
        match self {
            Command::SysRun => 0x0001,
            Command::Standby => 0x0002,
            Command::Sleep => 0x0003,
            Command::RegRead => 0x0010,
            Command::RegWrite => 0x0011,
            Command::MemBurstReadTrigger => 0x0012,
            Command::MemBurstReadStart => 0x0013,
            Command::MemBurstWrite => 0x0014,
            Command::MemBurstEnd => 0x0015,
            Command::LoadImage => 0x0020,
            Command::LoadImageArea => 0x0021,
            Command::LoadImageEnd => 0x0022,
        }
    }

    /// Decodes a wire value; `None` when the value names no command.
    pub fn from_u16(value: u16) -> (r: Option<Command>)
        ensures
            r == Command::spec_decode(value),
    {
        match value {
            0x0001 => Some(Command::SysRun),
            0x0002 => Some(Command::Standby),
            0x0003 => Some(Command::Sleep),
            0x0010 => Some(Command::RegRead),
            0x0011 => Some(Command::RegWrite),
            0x0012 => Some(Command::MemBurstReadTrigger),
            0x0013 => Some(Command::MemBurstReadStart),
            0x0014 => Some(Command::MemBurstWrite),
            0x0015 => Some(Command::MemBurstEnd),
            0x0020 => Some(Command::LoadImage),
            0x0021 => Some(Command::LoadImageArea),
            0x0022 => Some(Command::LoadImageEnd),
            _ => None,
        }
    }
}

/// Decoding a command's own wire value yields that command back: encoding is
/// injective and decoding inverts it on the whole closed set.
pub proof fn lemma_command_round_trip(c: Command)
    ensures
        Command::spec_decode(c.spec_code()) == Some(c),
{
}

/// Decoding succeeds only on the codes of the closed set: whatever decodes to
/// `Some(c)` is exactly `c`'s wire value, and every other value decodes to
/// `None`.
pub proof fn lemma_command_decode_exact(value: u16)
    ensures
        Command::spec_decode(value) matches Some(c) ==> c.spec_code() == value,
        (forall|c: Command| value != c.spec_code()) ==> Command::spec_decode(value) is None,
{
    if forall|c: Command| value != c.spec_code() {
        assert(value != Command::SysRun.spec_code());
        assert(value != Command::Standby.spec_code());
        assert(value != Command::Sleep.spec_code());
        assert(value != Command::RegRead.spec_code());
        assert(value != Command::RegWrite.spec_code());
        assert(value != Command::MemBurstReadTrigger.spec_code());
        assert(value != Command::MemBurstReadStart.spec_code());
        assert(value != Command::MemBurstWrite.spec_code());
        assert(value != Command::MemBurstEnd.spec_code());
        assert(value != Command::LoadImage.spec_code());
        assert(value != Command::LoadImageArea.spec_code());
        assert(value != Command::LoadImageEnd.spec_code());
    }
}

/// Controller-specific I80 user commands.
#[derive(Debug, Clone, Copy, PartialEq, Eq, Structural)]
pub enum UserCommand {
    /// Start a waveform update of an area.
    DisplayArea,
    /// Query the device identification.
    GetDevInfo,
    /// Start a waveform update of an area from a given buffer.
    DisplayBufArea,
    /// Read or write the VCOM value.
    Vcom,
}

impl UserCommand {
    /// The opcode's 16-bit wire value.
    pub open spec fn spec_code(self) -> u16 {
        match self {
            UserCommand::DisplayArea => 0x0034,
            UserCommand::GetDevInfo => 0x0302,
            UserCommand::DisplayBufArea => 0x0037,
            UserCommand::Vcom => 0x0039,
        }
    }

    /// The user command a 16-bit wire value decodes to, `None` for every value
    /// outside the closed set.
    pub open spec fn spec_decode(value: u16) -> Option<UserCommand> {
        match value {
            0x0034 => Some(UserCommand::DisplayArea),
            0x0302 => Some(UserCommand::GetDevInfo),
            0x0037 => Some(UserCommand::DisplayBufArea),
            0x0039 => Some(UserCommand::Vcom),
            _ => None,
        }
    }

    /// Returns the user command's wire value.
    pub fn as_u16(self) -> (r: u16)
        ensures
            r == self.spec_code(),
    {
        match self {
            UserCommand::DisplayArea => 0x0034,
            UserCommand::GetDevInfo => 0x0302,
            UserCommand::DisplayBufArea => 0x0037,
            UserCommand::Vcom => 0x0039,
        }
    }

    /// Decodes a wire value; `None` when the value names no user command.
    pub fn from_u16(value: u16) -> (r: Option<UserCommand>)
        ensures
            r == UserCommand::spec_decode(value),
    {
        match value {
            0x0034 => Some(UserCommand::DisplayArea),
            0x0302 => Some(UserCommand::GetDevInfo),
            0x0037 => Some(UserCommand::DisplayBufArea),
            0x0039 => Some(UserCommand::Vcom),
            _ => None,
        }
    }
}

/// Decoding a user command's own wire value yields that command back.
pub proof fn lemma_user_command_round_trip(c: UserCommand)
    ensures
        UserCommand::spec_decode(c.spec_code()) == Some(c),
{
}

/// Decoding succeeds only on the codes of the closed set of user commands.
pub proof fn lemma_user_command_decode_exact(value: u16)
    ensures
        UserCommand::spec_decode(value) matches Some(c) ==> c.spec_code() == value,
        (forall|c: UserCommand| value != c.spec_code()) ==> UserCommand::spec_decode(value)
            is None,
{
    if forall|c: UserCommand| value != c.spec_code() {
        assert(value != UserCommand::DisplayArea.spec_code());
        assert(value != UserCommand::GetDevInfo.spec_code());
        assert(value != UserCommand::DisplayBufArea.spec_code());
        assert(value != UserCommand::Vcom.spec_code());
    }
}

} // verus!
