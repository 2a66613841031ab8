//! The five ports of the bus, each with the lines that it carries.

use vstd::prelude::*;
use crate::sm2m::helper::{line, spec_port_write};
use crate::sm2m::io::{InputData, OutputData, SM2MBusRead, SM2MBusWrite};
use crate::sm2m::output::{
    flag, levels_a, levels_b, levels_c, levels_d, GPIOA_PINS, GPIOB_PINS, GPIOC_PINS, GPIOD_PINS,
    RDY_PIN,
};

verus! {

/// Port A: its output register. It carries payload lines 1 to 3, CTRLO_0,
/// CTRLO_1 and ERRO.
#[derive(Clone, Copy, Debug, PartialEq, Eq)]
pub struct SM2MGPIOAMap {
    pub odr: u32,
}

/// Port B: its input and output registers. It reads payload lines 0 and 8,
/// CTRLI_1, RSTI and DTEI, and carries payload line 14 and RSTE.
#[derive(Clone, Copy, Debug, PartialEq, Eq)]
pub struct SM2MGPIOBMap {
    pub idr: u32,
    pub odr: u32,
}

/// Port C: its output register. It carries payload lines 0, 4, 5, 6 and 9,
/// SETE, DTEO and CTRLD.
#[derive(Clone, Copy, Debug, PartialEq, Eq)]
pub struct SM2MGPIOCMap {
    pub odr: u32,
}

/// Port D: its input and output registers. It reads payload lines 9 to 15
/// and CTRLI_0, and carries payload lines 7, 8, 10 to 13 and 15, and RDY.
#[derive(Clone, Copy, Debug, PartialEq, Eq)]
pub struct SM2MGPIODMap {
    pub idr: u32,
    pub odr: u32,
}

/// Port E: its input register. It reads payload lines 1 to 7.
#[derive(Clone, Copy, Debug, PartialEq, Eq)]
pub struct SM2MGPIOEMap {
    pub idr: u32,
}

/// Pin `pin` of `port`, moved to line `to`.
pub open spec fn pick(port: u32, pin: u32, to: u32) -> u32 {
    ((port >> pin) & 1) << to
}

/// The lines that port B reads, each from its pin.
pub open spec fn lines_b(idr: u32) -> u32 {
    pick(idr, 4, 8) | pick(idr, 7, 0) | pick(idr, 8, 17) | pick(idr, 9, 18) | pick(idr, 14, 21)
}

/// The lines that port D reads, each from its pin.
pub open spec fn lines_d(idr: u32) -> u32 {
    pick(idr, 0, 15) | pick(idr, 1, 13) | pick(idr, 2, 16) | pick(idr, 3, 14) | pick(idr, 4, 12)
        | pick(idr, 5, 10) | pick(idr, 6, 9) | pick(idr, 7, 11)
}

/// The lines that port E reads, each from its pin.
pub open spec fn lines_e(idr: u32) -> u32 {
    pick(idr, 0, 2) | pick(idr, 1, 1) | pick(idr, 2, 3) | pick(idr, 3, 4) | pick(idr, 4, 6) | pick(
        idr,
        5,
        5,
    ) | pick(idr, 6, 7)
}

proof fn lemma_reads(b: u32, d: u32, e: u32)
    by (bit_vector)
    ensures
        ((b & 0x10) << 4) | ((b & 0x80) >> 7) | ((b & 0x100) << 9) | ((b & 0x200) << 9) | ((b
            & 0x4000) << 7) == lines_b(b),
        ((d & 0x1) << 15) | ((d & 0x2) << 12) | ((d & 0x4) << 14) | ((d & 0x8) << 11) | ((d & 0x10)
            << 8) | ((d & 0x20) << 5) | ((d & 0x40) << 3) | ((d & 0x80) << 4) == lines_d(d),
        ((e & 0x1) << 2) | (e & 0x2) | ((e & 0x4) << 1) | ((e & 0x8) << 1) | ((e & 0x10) << 2) | (e
            & 0x20) | ((e & 0x40) << 1) == lines_e(e),
{
}

proof fn lemma_writes(r: u32, d: u32)
    by (bit_vector)
    ensures
        (r & 0xFFFF60FF) | ((d & 0x8) << 5) | ((d & 0x20000) >> 8) | ((d & 0x2) << 11) | ((d & 0x4)
            << 8) | ((d & 0x10000) >> 5) | ((d & 0x100000) >> 5) == spec_port_write(
            r,
            0x9F00,
            levels_a(d as u16, line(d, 17), line(d, 16), line(d, 20)),
        ),
        (r & 0xFFFF6FFF) | ((d & 0x200000) >> 9) | ((d & 0x4000) << 1) == spec_port_write(
            r,
            0x9000,
            levels_b(d as u16, line(d, 21)),
        ),
        (r & 0xFFFFE037) | ((d & 0x400000) >> 19) | ((d & 0x200) >> 3) | ((d & 0x40) << 1) | ((d
            & 0x20) << 3) | ((d & 0x10) << 5) | ((d & 0x1) << 10) | ((d & 0x800000) >> 12) | ((d
            & 0x80000) >> 7) == spec_port_write(
            r,
            0x1FC8,
            levels_c(d as u16, line(d, 22), line(d, 23), line(d, 19)),
        ),
        (r & 0xFFFF04FF) | ((d & 0x800) >> 3) | ((d & 0x8000) >> 6) | ((d & 0x1000) >> 1) | ((d
            & 0x2000) >> 1) | ((d & 0x400) << 3) | ((d & 0x100) << 6) | ((d & 0x80) << 8)
            == spec_port_write(r, 0xFB00, levels_d(d as u16)),
        (r & 0xFFFFFBFF) | ((d & 0x40000) >> 8) == spec_port_write(r, 0x0400, flag(line(d, 18), 10)),
{
}

impl SM2MBusWrite for SM2MGPIOAMap {
    /// Each owned pin takes the value of its line; no other pin changes.
    fn write(&mut self, data: &OutputData)
        ensures
            final(self).odr == spec_port_write(
                old(self).odr,
                GPIOA_PINS,
                levels_a(data@ as u16, line(data@, 17), line(data@, 16), line(data@, 20)),
            ),
    {
        let d = data.bits();
        proof {
            lemma_writes(self.odr, d);
        }
        let mut bits = self.odr & 0xFFFF60FF;
        bits |= (d & 0x8) << 5;
        bits |= (d & 0x20000) >> 8;
        bits |= (d & 0x2) << 11;
        bits |= (d & 0x4) << 8;
        bits |= (d & 0x10000) >> 5;
        bits |= (d & 0x100000) >> 5;
        self.odr = bits;
    }
}

impl SM2MBusRead for SM2MGPIOAMap {
    /// Port A carries no line of the host.
    fn read(&self, data: InputData) -> (out: InputData)
        ensures
            out@ == data@,
    {
        data
    }
}

impl SM2MBusRead for SM2MGPIOBMap {
    /// Adds the lines that are high on port B.
    fn read(&self, data: InputData) -> (out: InputData)
        ensures
            out@ == data@ | lines_b(self.idr),
    {
        let bits = self.idr;
        proof {
            lemma_reads(bits, 0, 0);
        }
        let lines = ((bits & 0x10) << 4) | ((bits & 0x80) >> 7) | ((bits & 0x100) << 9) | ((bits
            & 0x200) << 9) | ((bits & 0x4000) << 7);
        InputData::from_bits(data.bits() | lines)
    }
}

impl SM2MBusWrite for SM2MGPIOBMap {
    /// Each owned pin takes the value of its line; no other pin changes.
    fn write(&mut self, data: &OutputData)
        ensures
            final(self).odr == spec_port_write(
                old(self).odr,
                GPIOB_PINS,
                levels_b(data@ as u16, line(data@, 21)),
            ),
            final(self).idr == old(self).idr,
    {
        let d = data.bits();
        proof {
            lemma_writes(self.odr, d);
        }
        let mut bits = self.odr & 0xFFFF6FFF;
        bits |= (d & 0x200000) >> 9;
        bits |= (d & 0x4000) << 1;
        self.odr = bits;
    }
}

impl SM2MBusRead for SM2MGPIOCMap {
    /// Port C carries no line of the host.
    fn read(&self, data: InputData) -> (out: InputData)
        ensures
            out@ == data@,
    {
        data
    }
}

impl SM2MBusWrite for SM2MGPIOCMap {
    /// Each owned pin takes the value of its line; no other pin changes.
    fn write(&mut self, data: &OutputData)
        ensures
            final(self).odr == spec_port_write(
                old(self).odr,
                GPIOC_PINS,
                levels_c(data@ as u16, line(data@, 22), line(data@, 23), line(data@, 19)),
            ),
    {
        let d = data.bits();
        proof {
            lemma_writes(self.odr, d);
        }
        let mut bits = self.odr & 0xFFFFE037;
        bits |= (d & 0x400000) >> 19;
        bits |= (d & 0x200) >> 3;
        bits |= (d & 0x40) << 1;
        bits |= (d & 0x20) << 3;
        bits |= (d & 0x10) << 5;
        bits |= (d & 0x1) << 10;
        bits |= (d & 0x800000) >> 12;
        bits |= (d & 0x80000) >> 7;
        self.odr = bits;
    }
}

impl SM2MGPIODMap {
    /// Drives RDY last, once every other line stands.
    pub fn flush(&mut self, data: &OutputData)
        ensures
            final(self).odr == spec_port_write(old(self).odr, RDY_PIN, flag(line(data@, 18), 10)),
            final(self).idr == old(self).idr,
    {
        let d = data.bits();
        proof {
            lemma_writes(self.odr, d);
        }
        let mut bits = self.odr & 0xFFFFFBFF;
        bits |= (d & 0x40000) >> 8;
        self.odr = bits;
    }
}

impl SM2MBusRead for SM2MGPIODMap {
    /// Adds the lines that are high on port D.
    fn read(&self, data: InputData) -> (out: InputData)
        ensures
            out@ == data@ | lines_d(self.idr),
    {
        let bits = self.idr;
        proof {
            lemma_reads(0, bits, 0);
        }
        let lines = ((bits & 0x1) << 15) | ((bits & 0x2) << 12) | ((bits & 0x4) << 14) | ((bits
            & 0x8) << 11) | ((bits & 0x10) << 8) | ((bits & 0x20) << 5) | ((bits & 0x40) << 3) | ((
        bits & 0x80) << 4);
        InputData::from_bits(data.bits() | lines)
    }
}

impl SM2MBusWrite for SM2MGPIODMap {
    /// Each owned pin but RDY takes the value of its line; no other pin
    /// changes.
    fn write(&mut self, data: &OutputData)
        ensures
            final(self).odr == spec_port_write(old(self).odr, GPIOD_PINS, levels_d(data@ as u16)),
            final(self).idr == old(self).idr,
    {
        let d = data.bits();
        proof {
            lemma_writes(self.odr, d);
        }
        let mut bits = self.odr & 0xFFFF04FF;
        bits |= (d & 0x800) >> 3;
        bits |= (d & 0x8000) >> 6;
        bits |= (d & 0x1000) >> 1;
        bits |= (d & 0x2000) >> 1;
        bits |= (d & 0x400) << 3;
        bits |= (d & 0x100) << 6;
        bits |= (d & 0x80) << 8;
        self.odr = bits;
    }
}

impl SM2MBusRead for SM2MGPIOEMap {
    /// Adds the lines that are high on port E.
    fn read(&self, data: InputData) -> (out: InputData)
        ensures
            out@ == data@ | lines_e(self.idr),
    {
        let bits = self.idr;
        proof {
            lemma_reads(0, 0, bits);
        }
        let lines = ((bits & 0x1) << 2) | (bits & 0x2) | ((bits & 0x4) << 1) | ((bits & 0x8) << 1)
            | ((bits & 0x10) << 2) | (bits & 0x20) | ((bits & 0x40) << 1);
        InputData::from_bits(data.bits() | lines)
    }
}

impl SM2MBusWrite for SM2MGPIOEMap {
    /// Port E carries no line of the device.
    fn write(&mut self, data: &OutputData)
        ensures
            *final(self) == *old(self),
    {
    }
}

/// The five ports together.
#[derive(Clone, Copy, Debug, PartialEq, Eq)]
pub struct SM2MBus {
    pub gpioa_map: SM2MGPIOAMap,
    pub gpiob_map: SM2MGPIOBMap,
    pub gpioc_map: SM2MGPIOCMap,
    pub gpiod_map: SM2MGPIODMap,
    pub gpioe_map: SM2MGPIOEMap,
}

impl SM2MBus {
    /// Joins the five ports.
    pub fn configure(
        gpioa_map: SM2MGPIOAMap,
        gpiob_map: SM2MGPIOBMap,
        gpioc_map: SM2MGPIOCMap,
        gpiod_map: SM2MGPIODMap,
        gpioe_map: SM2MGPIOEMap,
    ) -> (bus: Self)
        ensures
            bus == (SM2MBus { gpioa_map, gpiob_map, gpioc_map, gpiod_map, gpioe_map }),
    {
        SM2MBus { gpioa_map, gpiob_map, gpioc_map, gpiod_map, gpioe_map }
    }
}

impl SM2MBusRead for SM2MBus {
    /// Adds every line of the host that is high on its pin.
    fn read(&self, data: InputData) -> (out: InputData)
        ensures
            out@ == data@ | lines_b(self.gpiob_map.idr) | lines_d(self.gpiod_map.idr) | lines_e(
                self.gpioe_map.idr,
            ),
    {
        let mut data = data;
        data = self.gpioa_map.read(data);
        data = self.gpiob_map.read(data);
        data = self.gpioc_map.read(data);
        data = self.gpiod_map.read(data);
        data = self.gpioe_map.read(data);
        data
    }
}

impl SM2MBusWrite for SM2MBus {
    /// Drives every line of the device onto its pin, RDY last.
    fn write(&mut self, data: &OutputData)
        ensures
            final(self).gpioa_map.odr == spec_port_write(
                old(self).gpioa_map.odr,
                GPIOA_PINS,
                levels_a(data@ as u16, line(data@, 17), line(data@, 16), line(data@, 20)),
            ),
            final(self).gpiob_map.odr == spec_port_write(
                old(self).gpiob_map.odr,
                GPIOB_PINS,
                levels_b(data@ as u16, line(data@, 21)),
            ),
            final(self).gpioc_map.odr == spec_port_write(
                old(self).gpioc_map.odr,
                GPIOC_PINS,
                levels_c(data@ as u16, line(data@, 22), line(data@, 23), line(data@, 19)),
            ),
            final(self).gpiod_map.odr == spec_port_write(
                spec_port_write(old(self).gpiod_map.odr, GPIOD_PINS, levels_d(data@ as u16)),
                RDY_PIN,
                flag(line(data@, 18), 10),
            ),
            final(self).gpiob_map.idr == old(self).gpiob_map.idr,
            final(self).gpiod_map.idr == old(self).gpiod_map.idr,
            final(self).gpioe_map == old(self).gpioe_map,
    {
        self.gpioa_map.write(data);
        self.gpiob_map.write(data);
        self.gpioc_map.write(data);
        self.gpiod_map.write(data);
        self.gpioe_map.write(data);
        self.gpiod_map.flush(data);
    }
}

} // verus!
