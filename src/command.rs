use vstd::prelude::*;

verus! {

/// The command codes of the protocol.
#[derive(Debug, Clone, Copy, PartialEq, Eq, Structural)]
pub enum CommandCode {
    Nop,
    Aprd,
    Apwr,
    Aprw,
    Fprd,
    Fpwr,
    Fprw,
    Brd,
    Bwr,
    Brw,
    Lrd,
    Lwr,
    Lrw,
    Armw,
    Frmw,
}

impl CommandCode {
    /// The byte that stands for this code on the wire.
    pub open spec fn spec_code(self) -> u8 {
        match self {
            CommandCode::Nop => 0,
            CommandCode::Aprd => 1,
            CommandCode::Apwr => 2,
            CommandCode::Aprw => 3,
            CommandCode::Fprd => 4,
            CommandCode::Fpwr => 5,
            CommandCode::Fprw => 6,
            CommandCode::Brd => 7,
            CommandCode::Bwr => 8,
            CommandCode::Brw => 9,
            CommandCode::Lrd => 10,
            CommandCode::Lwr => 11,
            CommandCode::Lrw => 12,
            CommandCode::Armw => 13,
            CommandCode::Frmw => 14,
        }
    }

    /// The code that a wire byte stands for, if any.
    pub open spec fn spec_from_code(b: u8) -> Option<CommandCode> {
        if b == 0 {
            Some(CommandCode::Nop)
        } else if b == 1 {
            Some(CommandCode::Aprd)
        } else if b == 2 {
            Some(CommandCode::Apwr)
        } else if b == 3 {
            Some(CommandCode::Aprw)
        } else if b == 4 {
            Some(CommandCode::Fprd)
        } else if b == 5 {
            Some(CommandCode::Fpwr)
        } else if b == 6 {
            Some(CommandCode::Fprw)
        } else if b == 7 {
            Some(CommandCode::Brd)
        } else if b == 8 {
            Some(CommandCode::Bwr)
        } else if b == 9 {
            Some(CommandCode::Brw)
        } else if b == 10 {
            Some(CommandCode::Lrd)
        } else if b == 11 {
            Some(CommandCode::Lwr)
        } else if b == 12 {
            Some(CommandCode::Lrw)
        } else if b == 13 {
            Some(CommandCode::Armw)
        } else if b == 14 {
            Some(CommandCode::Frmw)
        } else {
            None
        }
    }

    /// Logical commands address the process image by one 32-bit address;
    /// the others address a device and a register.
    pub open spec fn spec_is_logical(self) -> bool {
        self == CommandCode::Lrd || self == CommandCode::Lwr || self == CommandCode::Lrw
    }

    pub fn code(&self) -> (r: u8)
        ensures
            r == self.spec_code(),
    {
        match self {
            CommandCode::Nop => 0,
            CommandCode::Aprd => 1,
            CommandCode::Apwr => 2,
            CommandCode::Aprw => 3,
            CommandCode::Fprd => 4,
            CommandCode::Fpwr => 5,
            CommandCode::Fprw => 6,
            CommandCode::Brd => 7,
            CommandCode::Bwr => 8,
            CommandCode::Brw => 9,
            CommandCode::Lrd => 10,
            CommandCode::Lwr => 11,
            CommandCode::Lrw => 12,
            CommandCode::Armw => 13,
            CommandCode::Frmw => 14,
        }
    }

    pub fn from_code(b: u8) -> (r: Option<CommandCode>)
        ensures
            r == Self::spec_from_code(b),
    {
        match b {
            0 => Some(CommandCode::Nop),
            1 => Some(CommandCode::Aprd),
            2 => Some(CommandCode::Apwr),
            3 => Some(CommandCode::Aprw),
            4 => Some(CommandCode::Fprd),
            5 => Some(CommandCode::Fpwr),
            6 => Some(CommandCode::Fprw),
            7 => Some(CommandCode::Brd),
            8 => Some(CommandCode::Bwr),
            9 => Some(CommandCode::Brw),
            10 => Some(CommandCode::Lrd),
            11 => Some(CommandCode::Lwr),
            12 => Some(CommandCode::Lrw),
            13 => Some(CommandCode::Armw),
            14 => Some(CommandCode::Frmw),
            _ => None,
        }
    }

    pub fn is_logical(&self) -> (r: bool)
        ensures
            r == self.spec_is_logical(),
    {
        match self {
            CommandCode::Lrd | CommandCode::Lwr | CommandCode::Lrw => true,
            _ => false,
        }
    }
}

/// Every code survives a trip through its wire byte.
pub proof fn lemma_code_round_trip(c: CommandCode)
    ensures
        CommandCode::spec_from_code(c.spec_code()) == Some(c),
{
}

/// A command: what to do and where. The 32-bit address is the logical
/// address for logical commands; for the others its low half is the device
/// address and its high half the register. On the wire it is four
/// little-endian bytes either way.
#[derive(Debug, Clone, Copy, PartialEq, Eq, Structural)]
pub struct Command {
    pub code: CommandCode,
    pub address: u32,
}

impl Command {
    /// The device-and-register address of a physical command.
    pub open spec fn physical(address: u16, register: u16) -> u32 {
        (address as u32 | ((register as u32) << 16u32)) as u32
    }

    fn with_physical(code: CommandCode, address: u16, register: u16) -> (r: Command)
        ensures
            r == (Command { code, address: Self::physical(address, register) }),
    {
        Command { code, address: address as u32 | ((register as u32) << 16) }
    }

    pub fn nop() -> (r: Command)
        ensures
            r == (Command { code: CommandCode::Nop, address: 0 }),
    {
        Command { code: CommandCode::Nop, address: 0 }
    }

    /// Auto-increment physical read.
    pub fn aprd(address: u16, register: u16) -> (r: Command)
        ensures
            r == (Command { code: CommandCode::Aprd, address: Self::physical(address, register) }),
    {
        Self::with_physical(CommandCode::Aprd, address, register)
    }

    /// Auto-increment physical write.
    pub fn apwr(address: u16, register: u16) -> (r: Command)
        ensures
            r == (Command { code: CommandCode::Apwr, address: Self::physical(address, register) }),
    {
        Self::with_physical(CommandCode::Apwr, address, register)
    }

    /// Configured-address physical read.
    pub fn fprd(address: u16, register: u16) -> (r: Command)
        ensures
            r == (Command { code: CommandCode::Fprd, address: Self::physical(address, register) }),
    {
        Self::with_physical(CommandCode::Fprd, address, register)
    }

    /// Configured-address physical write.
    pub fn fpwr(address: u16, register: u16) -> (r: Command)
        ensures
            r == (Command { code: CommandCode::Fpwr, address: Self::physical(address, register) }),
    {
        Self::with_physical(CommandCode::Fpwr, address, register)
    }

    /// Broadcast read of a register.
    pub fn brd(register: u16) -> (r: Command)
        ensures
            r == (Command { code: CommandCode::Brd, address: Self::physical(0, register) }),
    {
        Self::with_physical(CommandCode::Brd, 0, register)
    }

    /// Broadcast write of a register.
    pub fn bwr(register: u16) -> (r: Command)
        ensures
            r == (Command { code: CommandCode::Bwr, address: Self::physical(0, register) }),
    {
        Self::with_physical(CommandCode::Bwr, 0, register)
    }

    /// Logical read.
    pub fn lrd(address: u32) -> (r: Command)
        ensures
            r == (Command { code: CommandCode::Lrd, address }),
    {
        Command { code: CommandCode::Lrd, address }
    }

    /// Logical write.
    pub fn lwr(address: u32) -> (r: Command)
        ensures
            r == (Command { code: CommandCode::Lwr, address }),
    {
        Command { code: CommandCode::Lwr, address }
    }

    /// Logical read-write.
    pub fn lrw(address: u32) -> (r: Command)
        ensures
            r == (Command { code: CommandCode::Lrw, address }),
    {
        Command { code: CommandCode::Lrw, address }
    }

    pub fn code(&self) -> (r: CommandCode)
        ensures
            r == self.code,
    {
        self.code
    }
}

} // verus!
