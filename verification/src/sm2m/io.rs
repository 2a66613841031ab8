//! Logical line sets: one word of payload plus the control lines.

use vstd::prelude::*;
use crate::sm2m::helper::line;

verus! {

/// The lines driven by the host, as one value: bits 0 to 15 carry the
/// payload, bit 16 CTRLI_0, bit 17 CTRLI_1, bit 18 RSTI, bit 21 DTEI.
pub struct InputData(u32);

/// The lines driven by the device, as one value: bits 0 to 15 carry the
/// payload, bit 16 CTRLO_0, bit 17 CTRLO_1, bit 18 RDY, bit 19 CTRLD,
/// bit 20 ERRO, bit 21 RSTE, bit 22 SETE, bit 23 DTEO.
pub struct OutputData(u32);

proof fn lemma_input_lines(x: u32)
    by (bit_vector)
    ensures
        ((x & 0x10000) >> 16 == 1) == ((x >> 16) & 1 == 1),
        ((x & 0x20000) >> 17 == 1) == ((x >> 17) & 1 == 1),
        ((x & 0x40000) >> 18 == 1) == ((x >> 18) & 1 == 1),
        ((x & 0x200000) >> 21 == 1) == ((x >> 21) & 1 == 1),
        (x ^ 0xFFFF_FFFFu32) == !x,
{
}

impl InputData {
    /// The raw line set.
    pub closed spec fn view(&self) -> u32 {
        self.0
    }

    /// A line set with no line asserted.
    pub fn new() -> (data: Self)
        ensures
            data@ == 0,
    {
        InputData(0)
    }

    /// Wraps a raw line set.
    pub fn from_bits(value: u32) -> (data: Self)
        ensures
            data@ == value,
    {
        InputData(value)
    }

    /// The raw line set.
    pub fn bits(&self) -> (value: u32)
        ensures
            value == self@,
    {
        self.0
    }

    /// Flips every line: asserted becomes idle and idle becomes asserted.
    pub fn invert(self) -> (data: Self)
        ensures
            data@ == !self@,
    {
        proof {
            lemma_input_lines(self.0);
        }
        InputData(self.0 ^ u32::MAX)
    }

    /// The sixteen payload lines.
    pub fn payload(&self) -> (word: u16)
        ensures
            word == self@ as u16,
    {
        #[verifier::truncate]
        (self.0 as u16)
    }

    pub fn is_ctrli_0_set(&self) -> (set: bool)
        ensures
            set == line(self@, 16),
    {
        proof {
            lemma_input_lines(self.0);
        }
        (self.0 & 0x10000) >> 16 == 1
    }

    pub fn is_ctrli_1_set(&self) -> (set: bool)
        ensures
            set == line(self@, 17),
    {
        proof {
            lemma_input_lines(self.0);
        }
        (self.0 & 0x20000) >> 17 == 1
    }

    pub fn is_rsti_set(&self) -> (set: bool)
        ensures
            set == line(self@, 18),
    {
        proof {
            lemma_input_lines(self.0);
        }
        (self.0 & 0x40000) >> 18 == 1
    }

    pub fn is_dtei_set(&self) -> (set: bool)
        ensures
            set == line(self@, 21),
    {
        proof {
            lemma_input_lines(self.0);
        }
        (self.0 & 0x200000) >> 21 == 1
    }
}

/// A line set that reads line sets from the ports.
pub trait SM2MBusRead {
    fn read(&self, data: InputData) -> InputData;
}

/// A line set that writes line sets to the ports.
pub trait SM2MBusWrite {
    fn write(&mut self, data: &OutputData);
}

/// The line number of each control line of the device.
pub const CTRLO_0: u32 = 16;
pub const CTRLO_1: u32 = 17;
pub const RDY: u32 = 18;
pub const CTRLD: u32 = 19;
pub const ERRO: u32 = 20;
pub const RSTE: u32 = 21;
pub const SETE: u32 = 22;
pub const DTEO: u32 = 23;

/// `bits` with line `n` set.
pub open spec fn with_line_set(bits: u32, n: u32) -> u32 {
    bits | (1u32 << n)
}

proof fn lemma_output_lines(x: u32, payload: u16)
    by (bit_vector)
    ensures
        x | 0x10000 == x | (1u32 << 16),
        x | 0x20000 == x | (1u32 << 17),
        x | 0x40000 == x | (1u32 << 18),
        x | 0x80000 == x | (1u32 << 19),
        x | 0x100000 == x | (1u32 << 20),
        x | 0x200000 == x | (1u32 << 21),
        x | 0x400000 == x | (1u32 << 22),
        x | 0x800000 == x | (1u32 << 23),
        (x ^ 0xFFFF_FFFFu32) == !x,
        (0u32 | (payload as u32)) as u16 == payload,
{
}

/// Setting a line sets that line and no other.
pub proof fn lemma_with_line_set(bits: u32, n: u32, m: u32)
    by (bit_vector)
    requires
        n < 32,
        m < 32,
    ensures
        (((bits | (1u32 << n)) >> m) & 1 == 1) == (m == n || (bits >> m) & 1 == 1),
{
}

impl OutputData {
    /// The raw line set.
    pub closed spec fn view(&self) -> u32 {
        self.0
    }

    /// A line set with no line asserted.
    pub fn new() -> (data: Self)
        ensures
            data@ == 0,
    {
        OutputData(0)
    }

    /// The raw line set.
    pub fn bits(&self) -> (value: u32)
        ensures
            value == self@,
    {
        self.0
    }

    /// Flips every line: asserted becomes idle and idle becomes asserted.
    pub fn invert(self) -> (data: Self)
        ensures
            data@ == !self@,
    {
        proof {
            lemma_output_lines(self.0, 0);
        }
        OutputData(self.0 ^ u32::MAX)
    }

    /// Sets every payload line that is one in `payload`.
    pub fn with_payload(self, payload: u16) -> (data: Self)
        ensures
            data@ == self@ | payload as u32,
            self@ == 0 ==> data@ as u16 == payload,
    {
        proof {
            lemma_output_lines(self.0, payload);
        }
        OutputData(self.0 | payload as u32)
    }

    pub fn with_ctrlo_0(self) -> (data: Self)
        ensures
            data@ == with_line_set(self@, CTRLO_0),
    {
        proof {
            lemma_output_lines(self.0, 0);
        }
        OutputData(self.0 | 0x10000)
    }

    pub fn with_ctrlo_1(self) -> (data: Self)
        ensures
            data@ == with_line_set(self@, CTRLO_1),
    {
        proof {
            lemma_output_lines(self.0, 0);
        }
        OutputData(self.0 | 0x20000)
    }

    pub fn with_rdy(self) -> (data: Self)
        ensures
            data@ == with_line_set(self@, RDY),
    {
        proof {
            lemma_output_lines(self.0, 0);
        }
        OutputData(self.0 | 0x40000)
    }

    pub fn with_ctrld(self) -> (data: Self)
        ensures
            data@ == with_line_set(self@, CTRLD),
    {
        proof {
            lemma_output_lines(self.0, 0);
        }
        OutputData(self.0 | 0x80000)
    }

    pub fn with_erro(self) -> (data: Self)
        ensures
            data@ == with_line_set(self@, ERRO),
    {
        proof {
            lemma_output_lines(self.0, 0);
        }
        OutputData(self.0 | 0x100000)
    }

    pub fn with_rste(self) -> (data: Self)
        ensures
            data@ == with_line_set(self@, RSTE),
    {
        proof {
            lemma_output_lines(self.0, 0);
        }
        OutputData(self.0 | 0x200000)
    }

    pub fn with_sete(self) -> (data: Self)
        ensures
            data@ == with_line_set(self@, SETE),
    {
        proof {
            lemma_output_lines(self.0, 0);
        }
        OutputData(self.0 | 0x400000)
    }

    pub fn with_dteo(self) -> (data: Self)
        ensures
            data@ == with_line_set(self@, DTEO),
    {
        proof {
            lemma_output_lines(self.0, 0);
        }
        OutputData(self.0 | 0x800000)
    }
}

impl Default for InputData {
    /// A line set with no line asserted.
    fn default() -> (data: Self)
        ensures
            data@ == 0,
    {
        InputData::new()
    }
}

impl Default for OutputData {
    /// A line set with no line asserted.
    fn default() -> (data: Self)
        ensures
            data@ == 0,
    {
        OutputData::new()
    }
}

} // verus!
