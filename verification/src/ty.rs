use vstd::prelude::*;
use vstd::std_specs::convert::FromSpecImpl;

verus! {

/// Board model, as the device reports it in one byte.
#[derive(Debug, Clone, Copy, PartialEq, Eq, Structural)]
pub enum BoardId {
    Jellybean,
    Jawbreaker,
    HackrfOneOg,
    Rad10,
    HackrfOneR9,
    /// A byte that names no known board; the byte is kept.
    Unrecognized(u8),
}

impl BoardId {
    /// The board that a reported byte names.
    pub open spec fn spec_from_byte(byte: u8) -> BoardId {
        if byte == 0 {
            BoardId::Jellybean
        } else if byte == 1 {
            BoardId::Jawbreaker
        } else if byte == 2 {
            BoardId::HackrfOneOg
        } else if byte == 3 {
            BoardId::Rad10
        } else if byte == 4 {
            BoardId::HackrfOneR9
        } else {
            BoardId::Unrecognized(byte)
        }
    }

    /// The byte that the device reported for this board.
    pub open spec fn spec_byte(self) -> u8 {
        match self {
            BoardId::Jellybean => 0,
            BoardId::Jawbreaker => 1,
            BoardId::HackrfOneOg => 2,
            BoardId::Rad10 => 3,
            BoardId::HackrfOneR9 => 4,
            BoardId::Unrecognized(byte) => byte,
        }
    }

    /// The name under which the board is shown.
    pub open spec fn spec_name(self) -> Seq<char> {
        match self {
            BoardId::Jellybean => "Jellybean"@,
            BoardId::Jawbreaker => "Jawbreaker"@,
            BoardId::HackrfOneOg => "HackRF One Og"@,
            BoardId::Rad10 => "Rad 10"@,
            BoardId::HackrfOneR9 => "HackRF One R9"@,
            BoardId::Unrecognized(_) => "Unrecognized"@,
        }
    }

    /// The byte that the device reported for this board.
    pub fn byte(&self) -> (byte: u8)
        ensures
            byte == self.spec_byte(),
    {
        match *self {
            BoardId::Jellybean => 0,
            BoardId::Jawbreaker => 1,
            BoardId::HackrfOneOg => 2,
            BoardId::Rad10 => 3,
            BoardId::HackrfOneR9 => 4,
            BoardId::Unrecognized(byte) => byte,
        }
    }

    /// The name under which the board is shown.
    pub fn name(&self) -> (name: &'static str)
        ensures
            name@ == self.spec_name(),
    {
        match *self {
            BoardId::Jellybean => "Jellybean",
            BoardId::Jawbreaker => "Jawbreaker",
            BoardId::HackrfOneOg => "HackRF One Og",
            BoardId::Rad10 => "Rad 10",
            BoardId::HackrfOneR9 => "HackRF One R9",
            BoardId::Unrecognized(_) => "Unrecognized",
        }
    }
}

impl From<u8> for BoardId {
    fn from(byte: u8) -> (id: BoardId) {
        if byte == 0 {
            BoardId::Jellybean
        } else if byte == 1 {
            BoardId::Jawbreaker
        } else if byte == 2 {
            BoardId::HackrfOneOg
        } else if byte == 3 {
            BoardId::Rad10
        } else if byte == 4 {
            BoardId::HackrfOneR9
        } else {
            BoardId::Unrecognized(byte)
        }
    }
}

impl FromSpecImpl<u8> for BoardId {
    open spec fn obeys_from_spec() -> bool {
        true
    }

    open spec fn from_spec(byte: u8) -> BoardId {
        BoardId::spec_from_byte(byte)
    }
}

/// Every reported byte is kept by the board it decodes to.
pub proof fn lemma_board_id_keeps_byte(byte: u8)
    ensures
        BoardId::spec_from_byte(byte).spec_byte() == byte,
{
}

/// Hardware revision, as the device reports it in one byte.
#[derive(Debug, Clone, Copy, PartialEq, Eq, Structural)]
pub enum BoardRev {
    Old,
    R6,
    R7,
    R8,
    R9,
    R10,
    GsgR6,
    GsgR7,
    GsgR8,
    GsgR9,
    GsgR10,
    /// A byte that names no known revision; the byte is kept.
    Unrecognized(u8),
}

impl BoardRev {
    /// The revision that a reported byte names.
    pub open spec fn spec_from_byte(byte: u8) -> BoardRev {
        if byte == 0 {
            BoardRev::Old
        } else if byte == 1 {
            BoardRev::R6
        } else if byte == 2 {
            BoardRev::R7
        } else if byte == 3 {
            BoardRev::R8
        } else if byte == 4 {
            BoardRev::R9
        } else if byte == 5 {
            BoardRev::R10
        } else if byte == 0x81 {
            BoardRev::GsgR6
        } else if byte == 0x82 {
            BoardRev::GsgR7
        } else if byte == 0x83 {
            BoardRev::GsgR8
        } else if byte == 0x84 {
            BoardRev::GsgR9
        } else if byte == 0x85 {
            BoardRev::GsgR10
        } else {
            BoardRev::Unrecognized(byte)
        }
    }

    /// The byte that the device reported for this revision.
    pub open spec fn spec_byte(self) -> u8 {
        match self {
            BoardRev::Old => 0,
            BoardRev::R6 => 1,
            BoardRev::R7 => 2,
            BoardRev::R8 => 3,
            BoardRev::R9 => 4,
            BoardRev::R10 => 5,
            BoardRev::GsgR6 => 0x81,
            BoardRev::GsgR7 => 0x82,
            BoardRev::GsgR8 => 0x83,
            BoardRev::GsgR9 => 0x84,
            BoardRev::GsgR10 => 0x85,
            BoardRev::Unrecognized(byte) => byte,
        }
    }

    /// The name under which the revision is shown.
    pub open spec fn spec_name(self) -> Seq<char> {
        match self {
            BoardRev::Old => "Old"@,
            BoardRev::R6 => "R6"@,
            BoardRev::R7 => "R7"@,
            BoardRev::R8 => "R8"@,
            BoardRev::R9 => "R9"@,
            BoardRev::R10 => "R10"@,
            BoardRev::GsgR6 => "GSG R6"@,
            BoardRev::GsgR7 => "GSG R7"@,
            BoardRev::GsgR8 => "GSG R8"@,
            BoardRev::GsgR9 => "GSG R9"@,
            BoardRev::GsgR10 => "GSG R10"@,
            BoardRev::Unrecognized(_) => "Unrecognized"@,
        }
    }

    /// The byte that the device reported for this revision.
    pub fn byte(&self) -> (byte: u8)
        ensures
            byte == self.spec_byte(),
    {
        match *self {
            BoardRev::Old => 0,
            BoardRev::R6 => 1,
            BoardRev::R7 => 2,
            BoardRev::R8 => 3,
            BoardRev::R9 => 4,
            BoardRev::R10 => 5,
            BoardRev::GsgR6 => 0x81,
            BoardRev::GsgR7 => 0x82,
            BoardRev::GsgR8 => 0x83,
            BoardRev::GsgR9 => 0x84,
            BoardRev::GsgR10 => 0x85,
            BoardRev::Unrecognized(byte) => byte,
        }
    }

    /// The name under which the revision is shown.
    pub fn name(&self) -> (name: &'static str)
        ensures
            name@ == self.spec_name(),
    {
        match *self {
            BoardRev::Old => "Old",
            BoardRev::R6 => "R6",
            BoardRev::R7 => "R7",
            BoardRev::R8 => "R8",
            BoardRev::R9 => "R9",
            BoardRev::R10 => "R10",
            BoardRev::GsgR6 => "GSG R6",
            BoardRev::GsgR7 => "GSG R7",
            BoardRev::GsgR8 => "GSG R8",
            BoardRev::GsgR9 => "GSG R9",
            BoardRev::GsgR10 => "GSG R10",
            BoardRev::Unrecognized(_) => "Unrecognized",
        }
    }
}

impl From<u8> for BoardRev {
    fn from(byte: u8) -> (rev: BoardRev) {
        if byte == 0 {
            BoardRev::Old
        } else if byte == 1 {
            BoardRev::R6
        } else if byte == 2 {
            BoardRev::R7
        } else if byte == 3 {
            BoardRev::R8
        } else if byte == 4 {
            BoardRev::R9
        } else if byte == 5 {
            BoardRev::R10
        } else if byte == 0x81 {
            BoardRev::GsgR6
        } else if byte == 0x82 {
            BoardRev::GsgR7
        } else if byte == 0x83 {
            BoardRev::GsgR8
        } else if byte == 0x84 {
            BoardRev::GsgR9
        } else if byte == 0x85 {
            BoardRev::GsgR10
        } else {
            BoardRev::Unrecognized(byte)
        }
    }
}

impl FromSpecImpl<u8> for BoardRev {
    open spec fn obeys_from_spec() -> bool {
        true
    }

    open spec fn from_spec(byte: u8) -> BoardRev {
        BoardRev::spec_from_byte(byte)
    }
}

/// Every reported byte is kept by the revision it decodes to.
pub proof fn lemma_board_rev_keeps_byte(byte: u8)
    ensures
        BoardRev::spec_from_byte(byte).spec_byte() == byte,
{
}

/// Operating mode written to the device before streaming begins.
#[derive(Debug, Clone, Copy, PartialEq, Eq, Structural)]
pub enum TransceiverMode {
    Off,
    Receive,
    Transmit,
    /// Spectrum scan.
    Ss,
    /// Firmware update of the programmable logic.
    CpldUpdate,
    /// Sweeping receive.
    RxSweep,
}

impl TransceiverMode {
    /// The number that stands for the mode on the wire.
    pub open spec fn spec_code(self) -> u16 {
        match self {
            TransceiverMode::Off => 0,
            TransceiverMode::Receive => 1,
            TransceiverMode::Transmit => 2,
            TransceiverMode::Ss => 3,
            TransceiverMode::CpldUpdate => 4,
            TransceiverMode::RxSweep => 5,
        }
    }
}

impl From<TransceiverMode> for u16 {
    fn from(mode: TransceiverMode) -> (code: u16) {
        match mode {
            TransceiverMode::Off => 0,
            TransceiverMode::Receive => 1,
            TransceiverMode::Transmit => 2,
            TransceiverMode::Ss => 3,
            TransceiverMode::CpldUpdate => 4,
            TransceiverMode::RxSweep => 5,
        }
    }
}

impl FromSpecImpl<TransceiverMode> for u16 {
    open spec fn obeys_from_spec() -> bool {
        true
    }

    open spec fn from_spec(mode: TransceiverMode) -> u16 {
        mode.spec_code()
    }
}

} // verus!
