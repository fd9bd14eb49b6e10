//! Controller commands.
//!
//! Every command is one 8-bit opcode; a few carry one extra data byte.
//! Parameterized commands validate their field when constructed: an
//! out-of-range field yields no command at all, so a malformed value can
//! never reach the wire mid-protocol.

use vstd::prelude::*;

verus! {

/// Select bias setting: 1/9 or 1/7.
#[allow(dead_code)]
pub(crate) enum SetBiasCommand {
    Bias1_7,
    Bias1_9,
}

impl SetBiasCommand {
    pub(crate) open spec fn spec_command(&self) -> u8 {
        match self {
            SetBiasCommand::Bias1_7 => 0xa3,
            SetBiasCommand::Bias1_9 => 0xa2,
        }
    }

    pub(crate) fn command(&self) -> (r: u8)
        ensures
            r == self.spec_command(),
    {
        match self {
            SetBiasCommand::Bias1_7 => 0xa3,
            SetBiasCommand::Bias1_9 => 0xa2,
        }
    }
}

/// Set scan direction of SEG.
#[allow(dead_code)]
pub(crate) enum SetSEGDirectionCommand {
    Normal,
    Reverse,
}

impl SetSEGDirectionCommand {
    pub(crate) open spec fn spec_command(&self) -> u8 {
        match self {
            SetSEGDirectionCommand::Normal => 0xa0,
            SetSEGDirectionCommand::Reverse => 0xa1,
        }
    }

    pub(crate) fn command(&self) -> (r: u8)
        ensures
            r == self.spec_command(),
    {
        match self {
            SetSEGDirectionCommand::Normal => 0xa0,
            SetSEGDirectionCommand::Reverse => 0xa1,
        }
    }
}

/// Set output direction of COM.
#[allow(dead_code)]
pub(crate) enum SetCOMDirectionCommand {
    Normal,
    Reverse,
}

impl SetCOMDirectionCommand {
    pub(crate) open spec fn spec_command(&self) -> u8 {
        match self {
            SetCOMDirectionCommand::Normal => 0xc0,
            SetCOMDirectionCommand::Reverse => 0xc8,
        }
    }

    pub(crate) fn command(&self) -> (r: u8)
        ensures
            r == self.spec_command(),
    {
        match self {
            SetCOMDirectionCommand::Normal => 0xc0,
            SetCOMDirectionCommand::Reverse => 0xc8,
        }
    }
}

/// Select regulation resistor ratio.
#[allow(dead_code)]
pub(crate) enum SetRegulationResistorRatioCommand {
    Ratio3_0,
    Ratio3_5,
    Ratio4_0,
    Ratio4_5,
    Ratio5_0,
    Ratio5_5,
    Ratio6_0,
    Ratio6_5,
}

impl SetRegulationResistorRatioCommand {
    pub(crate) open spec fn spec_command(&self) -> u8 {
        match self {
            SetRegulationResistorRatioCommand::Ratio3_0 => 0x20,
            SetRegulationResistorRatioCommand::Ratio3_5 => 0x21,
            SetRegulationResistorRatioCommand::Ratio4_0 => 0x22,
            SetRegulationResistorRatioCommand::Ratio4_5 => 0x23,
            SetRegulationResistorRatioCommand::Ratio5_0 => 0x24,
            SetRegulationResistorRatioCommand::Ratio5_5 => 0x25,
            SetRegulationResistorRatioCommand::Ratio6_0 => 0x26,
            SetRegulationResistorRatioCommand::Ratio6_5 => 0x27,
        }
    }

    pub(crate) fn command(&self) -> (r: u8)
        ensures
            r == self.spec_command(),
    {
        match self {
            SetRegulationResistorRatioCommand::Ratio3_0 => 0x20,
            SetRegulationResistorRatioCommand::Ratio3_5 => 0x21,
            SetRegulationResistorRatioCommand::Ratio4_0 => 0x22,
            SetRegulationResistorRatioCommand::Ratio4_5 => 0x23,
            SetRegulationResistorRatioCommand::Ratio5_0 => 0x24,
            SetRegulationResistorRatioCommand::Ratio5_5 => 0x25,
            SetRegulationResistorRatioCommand::Ratio6_0 => 0x26,
            SetRegulationResistorRatioCommand::Ratio6_5 => 0x27,
        }
    }
}

/// Set electronic volume (contrast) level.
pub(crate) struct SetElectronicVolumeCommand {
    /// Electronic volume level (0-63).
    pub(crate) level: u8,
}

impl SetElectronicVolumeCommand {
    pub(crate) fn new(level: u8) -> (r: Option<Self>)
        ensures
            r is Some <==> level <= 63,
            r matches Some(c) ==> c.level == level,
    {
        if level > 63 {
            None
        } else {
            Some(Self { level })
        }
    }

    pub(crate) fn command(&self) -> (r: u8)
        ensures
            r == 0x81u8,
    {
        0x81
    }

    pub(crate) fn data(&self) -> (r: Option<u8>)
        ensures
            r == Some(self.level),
    {
        Some(self.level)
    }
}

/// Set power control stages.
pub(crate) enum SetPowerControlCommand {
    BoosterOn,
    VoltageRegulatorOn,
    VoltageFollowerOn,
}

impl SetPowerControlCommand {
    pub(crate) open spec fn spec_command(&self) -> u8 {
        match self {
            SetPowerControlCommand::BoosterOn => 0x2c,
            SetPowerControlCommand::VoltageRegulatorOn => 0x2e,
            SetPowerControlCommand::VoltageFollowerOn => 0x2f,
        }
    }

    pub(crate) fn command(&self) -> (r: u8)
        ensures
            r == self.spec_command(),
    {
        match self {
            SetPowerControlCommand::BoosterOn => 0x2c,
            SetPowerControlCommand::VoltageRegulatorOn => 0x2e,
            SetPowerControlCommand::VoltageFollowerOn => 0x2f,
        }
    }
}

/// Set display start line.
pub(crate) struct SetStartLineCommand {
    /// Start line (0-63).
    pub(crate) line: u8,
}

impl SetStartLineCommand {
    pub(crate) fn new(line: u8) -> (r: Option<Self>)
        ensures
            r is Some <==> line <= 63,
            r matches Some(c) ==> c.line == line,
    {
        if line > 63 {
            None
        } else {
            Some(Self { line })
        }
    }

    pub(crate) fn command(&self) -> (r: u8)
        ensures
            r == 0x40u8 | self.line,
    {
        0x40 | self.line
    }
}

/// Set page address.
pub(crate) struct SetPageAddressCommand {
    /// Page address (0-7).
    pub(crate) address: u8,
}

impl SetPageAddressCommand {
    pub(crate) fn new(address: u8) -> (r: Option<Self>)
        ensures
            r is Some <==> address <= 7,
            r matches Some(c) ==> c.address == address,
    {
        if address > 7 {
            None
        } else {
            Some(Self { address })
        }
    }

    pub(crate) fn command(&self) -> (r: u8)
        ensures
            r == 0xb0u8 | self.address,
    {
        0xb0 | self.address
    }
}

/// Set the low nibble of the column address.
pub(crate) struct SetColumnAddressLSNibbleCommand {
    /// Column address (0-131).
    pub(crate) address: u8,
}

impl SetColumnAddressLSNibbleCommand {
    pub(crate) fn new(address: u8) -> (r: Option<Self>)
        ensures
            r is Some <==> address <= 131,
            r matches Some(c) ==> c.address == address,
    {
        if address > 131 {
            None
        } else {
            Some(Self { address })
        }
    }

    pub(crate) fn command(&self) -> (r: u8)
        ensures
            r == self.address & 0x0fu8,
    {
        self.address & 0x0f
    }
}

/// Set the high nibble of the column address.
pub(crate) struct SetColumnAddressMSNibbleCommand {
    /// Column address (0-131).
    pub(crate) address: u8,
}

impl SetColumnAddressMSNibbleCommand {
    pub(crate) fn new(address: u8) -> (r: Option<Self>)
        ensures
            r is Some <==> address <= 131,
            r matches Some(c) ==> c.address == address,
    {
        if address > 131 {
            None
        } else {
            Some(Self { address })
        }
    }

    pub(crate) fn command(&self) -> (r: u8)
        ensures
            r == 0x10u8 | ((self.address >> 4u8) & 0x0fu8),
    {
        0x10 | ((self.address >> 4) & 0x0f)
    }
}

/// Turn the display on or off.
#[allow(dead_code)]
pub(crate) enum DisplayOnCommand {
    On,
    Off,
}

impl DisplayOnCommand {
    pub(crate) open spec fn spec_command(&self) -> u8 {
        match self {
            DisplayOnCommand::On => 0xaf,
            DisplayOnCommand::Off => 0xae,
        }
    }

    pub(crate) fn command(&self) -> (r: u8)
        ensures
            r == self.spec_command(),
    {
        match self {
            DisplayOnCommand::On => 0xaf,
            DisplayOnCommand::Off => 0xae,
        }
    }
}

/// Software reset.
pub(crate) struct ResetCommand;

impl ResetCommand {
    pub(crate) fn command(&self) -> (r: u8)
        ensures
            r == 0xe2u8,
    {
        0xe2
    }
}

/// Serialize one command: the opcode followed by its data byte, if any.
pub(crate) fn encode_command(op: u8, operand: Option<u8>) -> (r: Vec<u8>)
    ensures
        r@ == (match operand {
            Option::None => seq![op],
            Option::Some(d) => seq![op, d],
        }),
{
    let mut bytes: Vec<u8> = Vec::new();
    bytes.push(op);
    match operand {
        None => {
            proof {
                assert(bytes@ =~= seq![op]);
            }
        }
        Some(d) => {
            bytes.push(d);
            proof {
                assert(bytes@ =~= seq![op, d]);
            }
        }
    }
    bytes
}

} // verus!
