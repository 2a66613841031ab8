//! The lines driven by the device: what a reply asserts, and on which pins.

use vstd::prelude::*;
use crate::sm2m::helper::{port_write, spec_port_write, with_line, write_bit};

verus! {

/// A reply to the host.
#[derive(Clone, Copy, Debug, PartialEq, Eq)]
pub enum Frame {
    Ack,
    Error(u16),
    Data(u16),
}

/// The device's lines as separate values.
#[derive(Clone, Copy, Debug, PartialEq, Eq)]
pub struct Output {
    pub data: u16,
    pub ctrlo_0: bool,
    pub ctrlo_1: bool,
    pub rste: bool,
    pub ctrld: bool,
    pub err: bool,
    pub dteo: bool,
    pub rdy: bool,
    pub sete: bool,
}

/// The output registers of ports A to D.
#[derive(Clone, Copy, Debug, PartialEq, Eq)]
pub struct Ports {
    pub gpioa: u32,
    pub gpiob: u32,
    pub gpioc: u32,
    pub gpiod: u32,
}

/// The pins that the bus owns on port A: 8 to 12 and 15.
pub const GPIOA_PINS: u16 = 0x9F00;

/// The pins that the bus owns on port B: 12 and 15.
pub const GPIOB_PINS: u16 = 0x9000;

/// The pins that the bus owns on port C: 3 and 6 to 12.
pub const GPIOC_PINS: u16 = 0x1FC8;

/// The pins that the bus owns on port D, but for RDY: 8, 9 and 11 to 15.
pub const GPIOD_PINS: u16 = 0xFB00;

/// RDY, port D pin 10.
pub const RDY_PIN: u16 = 0x0400;

/// ERRO, port A pin 15.
pub const ERRO_PIN: u16 = 0x8000;

/// Bit `line` of `word`, moved to bit `pin`.
pub open spec fn drive(word: u16, line: u16, pin: u16) -> u16 {
    ((word >> line) & 1) << pin
}

/// Bit `pin` alone, if `on`.
pub open spec fn flag(on: bool, pin: u16) -> u16 {
    if on {
        1u16 << pin
    } else {
        0
    }
}

/// Port A: payload lines 1, 2 and 3 on pins 12, 10 and 8, CTRLO_1 on pin 9,
/// CTRLO_0 on pin 11, ERRO on pin 15.
pub open spec fn levels_a(data: u16, ctrlo_1: bool, ctrlo_0: bool, err: bool) -> u16 {
    drive(data, 1, 12) | drive(data, 2, 10) | drive(data, 3, 8) | flag(ctrlo_1, 9) | flag(
        ctrlo_0,
        11,
    ) | flag(err, 15)
}

/// Port B: payload line 14 on pin 15, RSTE on pin 12.
pub open spec fn levels_b(data: u16, rste: bool) -> u16 {
    drive(data, 14, 15) | flag(rste, 12)
}

/// Port C: payload lines 0, 4, 5, 6 and 9 on pins 10, 9, 8, 7 and 6, SETE on
/// pin 3, DTEO on pin 11, CTRLD on pin 12.
pub open spec fn levels_c(data: u16, sete: bool, dteo: bool, ctrld: bool) -> u16 {
    drive(data, 0, 10) | drive(data, 4, 9) | drive(data, 5, 8) | drive(data, 6, 7) | drive(
        data,
        9,
        6,
    ) | flag(sete, 3) | flag(dteo, 11) | flag(ctrld, 12)
}

/// Port D: payload lines 7, 8, 10, 11, 12, 13 and 15 on pins 15, 14, 13, 8,
/// 11, 12 and 9.
pub open spec fn levels_d(data: u16) -> u16 {
    drive(data, 7, 15) | drive(data, 8, 14) | drive(data, 10, 13) | drive(data, 11, 8) | drive(
        data,
        12,
        11,
    ) | drive(data, 13, 12) | drive(data, 15, 9)
}

impl Output {
    /// Every line clear.
    pub open spec fn spec_default() -> Output {
        Output {
            data: 0,
            ctrlo_0: false,
            ctrlo_1: false,
            rste: false,
            ctrld: false,
            err: false,
            dteo: false,
            rdy: false,
            sete: false,
        }
    }

    /// Every line complemented.
    pub open spec fn spec_invert(self) -> Output {
        Output {
            data: !self.data,
            ctrlo_0: !self.ctrlo_0,
            ctrlo_1: !self.ctrlo_1,
            rste: !self.rste,
            ctrld: !self.ctrld,
            err: !self.err,
            dteo: !self.dteo,
            rdy: !self.rdy,
            sete: !self.sete,
        }
    }

    /// The registers once every line but the two strobes is driven: each
    /// owned pin takes the value of its line, RDY and ERRO take `idle`, and
    /// no other pin changes.
    pub open spec fn spec_settle(self, ports: Ports, idle: bool) -> Ports {
        Ports {
            gpioa: spec_port_write(
                ports.gpioa,
                GPIOA_PINS,
                levels_a(self.data, self.ctrlo_1, self.ctrlo_0, idle),
            ),
            gpiob: spec_port_write(ports.gpiob, GPIOB_PINS, levels_b(self.data, self.rste)),
            gpioc: spec_port_write(
                ports.gpioc,
                GPIOC_PINS,
                levels_c(self.data, self.sete, self.dteo, self.ctrld),
            ),
            gpiod: spec_port_write(
                spec_port_write(ports.gpiod, GPIOD_PINS, levels_d(self.data)),
                RDY_PIN,
                flag(idle, 10),
            ),
        }
    }

    /// The registers once the strobes follow: RDY and ERRO take the values
    /// of their lines, and no other pin changes.
    pub open spec fn spec_strobe(self, settled: Ports) -> Ports {
        Ports {
            gpioa: spec_port_write(settled.gpioa, ERRO_PIN, flag(self.err, 15)),
            gpiod: spec_port_write(settled.gpiod, RDY_PIN, flag(self.rdy, 10)),
            ..settled
        }
    }

    /// An acknowledgement: RDY alone.
    pub fn ok() -> (output: Self)
        ensures
            output == (Output { rdy: true, ..Self::spec_default() }),
    {
        let mut output = Output::default();
        output.rdy = true;
        output
    }

    /// A fault: ERRO alone.
    pub fn error() -> (output: Self)
        ensures
            output == (Output { err: true, ..Self::spec_default() }),
    {
        let mut output = Output::default();
        output.err = true;
        output
    }

    /// A word for the host: the payload with RDY.
    pub fn data(data: u16) -> (output: Self)
        ensures
            output == (Output { data, rdy: true, ..Self::spec_default() }),
    {
        let mut output = Output::default();
        output.data = data;
        output.rdy = true;
        output
    }
}

impl Default for Output {
    fn default() -> (output: Self)
        ensures
            output == Output::spec_default(),
    {
        Output {
            data: 0,
            ctrlo_0: false,
            ctrlo_1: false,
            rste: false,
            ctrld: false,
            err: false,
            dteo: false,
            rdy: false,
            sete: false,
        }
    }
}

impl Frame {
    /// The lines that a reply asserts: an acknowledgement asserts RDY with
    /// an empty payload, a fault asserts ERRO with its opcode, a data reply
    /// asserts RDY with its word.
    pub open spec fn spec_output(self) -> Output {
        match self {
            Frame::Ack => Output { rdy: true, ..Output::spec_default() },
            Frame::Error(opcode) => Output { data: opcode, err: true, ..Output::spec_default() },
            Frame::Data(data) => Output { data, rdy: true, ..Output::spec_default() },
        }
    }

    pub fn output(&self) -> (output: Output)
        ensures
            output == self.spec_output(),
    {
        match self {
            Frame::Ack => Output::ok(),
            Frame::Error(opcode) => {
                let mut output = Output::error();
                output.data = *opcode;
                output
            },
            Frame::Data(data) => Output::data(*data),
        }
    }
}

proof fn lemma_set_pin(pin: u16)
    by (bit_vector)
    requires
        pin < 16,
    ensures
        1u16 << pin != 0,
        (1u16 << pin) & (1u16 << pin) == 1u16 << pin,
        0u16 & (1u16 << pin) == 0,
        1u16 << 10 == 0x0400,
        1u16 << 15 == 0x8000,
{
}

/// Puts one pin of a register at a level.
fn set_pin(register: u32, pin: u16, high: bool) -> (out: u32)
    requires
        pin < 16,
    ensures
        out == spec_port_write(register, 1u16 << pin, flag(high, pin)),
{
    let mask = 1u16 << pin;
    port_write(register, mask, if high { mask } else { 0 })
}

proof fn lemma_write_data(data: u16)
    by (bit_vector)
    ensures
        ({
            let d = data ^ 0xFFFFu16;
            &&& 0b1000101000000000u16 | ((d & (1u16 << 1)) << 11) | ((d & (1u16 << 2)) << 8) | ((d & (
            1u16 << 3)) << 5) == (((!data >> 1) & 1) << 12) | (((!data >> 2) & 1) << 10) | (((!data
                >> 3) & 1) << 8) | (1u16 << 9) | (1u16 << 11) | (1u16 << 15)
            &&& 0b0001000000000000u16 | ((d & (1u16 << 14)) << 1) == (((!data >> 14) & 1) << 15) | (
            1u16 << 12)
            &&& 0b0001100000001000u16 | ((d & 1) << 10) | ((d & (1u16 << 4)) << 5) | ((d & (1u16
                << 5)) << 3) | ((d & (1u16 << 6)) << 1) | ((d & (1u16 << 9)) >> 3) == (((!data >> 0)
                & 1) << 10) | (((!data >> 4) & 1) << 9) | (((!data >> 5) & 1) << 8) | (((!data >> 6)
                & 1) << 7) | (((!data >> 9) & 1) << 6) | (1u16 << 3) | (1u16 << 11) | (1u16 << 12)
            &&& ((d & (1u16 << 7)) << 8) | ((d & (1u16 << 8)) << 6) | ((d & (1u16 << 10)) << 3) | ((d
                & (1u16 << 11)) >> 3) | ((d & (1u16 << 12)) >> 1) | ((d & (1u16 << 13)) >> 1) | ((d
                & (1u16 << 15)) >> 6) == (((!data >> 7) & 1) << 15) | (((!data >> 8) & 1) << 14) | (((
            !data >> 10) & 1) << 13) | (((!data >> 11) & 1) << 8) | (((!data >> 12) & 1) << 11) | (((
            !data >> 13) & 1) << 12) | (((!data >> 15) & 1) << 9)
        }),
{
}

/// The output registers as the bus drives them: first with every line but
/// the strobes at its final level, then with the strobe asserted.
#[derive(Clone, Copy, Debug, PartialEq, Eq)]
pub struct Bus {
    /// The registers to write first.
    pub settled: Ports,
    /// The registers to write after them.
    pub strobed: Ports,
}

impl Bus {
    /// The lines of a reply as levels: an asserted line is low.
    pub open spec fn spec_levels(frame: Frame) -> Output {
        frame.spec_output().spec_invert()
    }

    /// Takes over the registers and puts every owned line but RDY at rest.
    pub fn new(ports: Ports) -> (bus: Self)
        ensures
            bus.settled == bus.strobed,
            bus.strobed.gpioa == spec_port_write(ports.gpioa, GPIOA_PINS, 0xFFFF),
            bus.strobed.gpiob == spec_port_write(ports.gpiob, GPIOB_PINS, 0xFFFF),
            bus.strobed.gpioc == spec_port_write(ports.gpioc, GPIOC_PINS, 0xFFFF),
            bus.strobed.gpiod == spec_port_write(ports.gpiod, GPIOD_PINS, 0xFFFF),
    {
        let rest = write_ack(ports);
        Bus { settled: rest, strobed: rest }
    }

    /// Drives a reply. The payload and the idle control lines settle while
    /// RDY and ERRO are released; only then is the strobe of the reply
    /// asserted: RDY for an acknowledgement or a word, ERRO for a fault.
    pub fn write(&mut self, frame: Frame)
        ensures
            final(self).settled == Self::spec_levels(frame).spec_settle(old(self).strobed, true),
            final(self).strobed == Self::spec_levels(frame).spec_strobe(final(self).settled),
    {
        let mut ports = self.strobed;
        ports.gpiod = set_pin(ports.gpiod, 10, true);
        proof {
            lemma_set_pin(10);
            lemma_set_pin(15);
            lemma_write_data(0);
            lemma_settle_order(self.strobed.gpiod, flag(true, 10), levels_d(!0u16));
        }
        match frame {
            Frame::Ack => {
                let settled = write_data(ports, 0);
                let mut strobed = settled;
                strobed.gpiod = set_pin(strobed.gpiod, 10, false);
                strobed.gpioa = set_pin(strobed.gpioa, 15, true);
                self.settled = settled;
                self.strobed = strobed;
            },
            Frame::Error(opcode) => {
                proof {
                    lemma_settle_order(self.strobed.gpiod, flag(true, 10), levels_d(!opcode));
                }
                let settled = write_data(ports, opcode);
                let mut strobed = settled;
                strobed.gpioa = set_pin(strobed.gpioa, 15, false);
                strobed.gpiod = set_pin(strobed.gpiod, 10, true);
                self.settled = settled;
                self.strobed = strobed;
            },
            Frame::Data(data) => {
                proof {
                    lemma_settle_order(self.strobed.gpiod, flag(true, 10), levels_d(!data));
                }
                let settled = write_data(ports, data);
                let mut strobed = settled;
                strobed.gpiod = set_pin(strobed.gpiod, 10, false);
                strobed.gpioa = set_pin(strobed.gpioa, 15, true);
                self.settled = settled;
                self.strobed = strobed;
            },
        }
    }
}

/// Releasing RDY before or after the payload pins of port D are written
/// gives the same register.
proof fn lemma_settle_order(register: u32, rdy: u16, levels: u16)
    by (bit_vector)
    ensures
        (((register & !(0x0400u16 as u32)) | ((rdy & 0x0400u16) as u32)) & !(0xFB00u16 as u32)) | ((
        levels & 0xFB00u16) as u32) == (((register & !(0xFB00u16 as u32)) | ((levels & 0xFB00u16)
            as u32)) & !(0x0400u16 as u32)) | ((rdy & 0x0400u16) as u32),
        rdy & 0x0400u16 == (rdy & 0x0400u16) & 0x0400u16,
{
}

/// Puts every owned line but RDY at rest: high.
fn write_ack(ports: Ports) -> (out: Ports)
    ensures
        out.gpioa == spec_port_write(ports.gpioa, GPIOA_PINS, 0xFFFF),
        out.gpiob == spec_port_write(ports.gpiob, GPIOB_PINS, 0xFFFF),
        out.gpioc == spec_port_write(ports.gpioc, GPIOC_PINS, 0xFFFF),
        out.gpiod == spec_port_write(ports.gpiod, GPIOD_PINS, 0xFFFF),
{
    Ports {
        gpioa: port_write(ports.gpioa, GPIOA_PINS, u16::MAX),
        gpiob: port_write(ports.gpiob, GPIOB_PINS, u16::MAX),
        gpioc: port_write(ports.gpioc, GPIOC_PINS, u16::MAX),
        gpiod: port_write(ports.gpiod, GPIOD_PINS, u16::MAX),
    }
}

/// Drives the payload lines with the complement of `data` and leaves every
/// control line but RDY at rest.
fn write_data(ports: Ports, data: u16) -> (out: Ports)
    ensures
        out.gpioa == spec_port_write(ports.gpioa, GPIOA_PINS, levels_a(!data, true, true, true)),
        out.gpiob == spec_port_write(ports.gpiob, GPIOB_PINS, levels_b(!data, true)),
        out.gpioc == spec_port_write(ports.gpioc, GPIOC_PINS, levels_c(!data, true, true, true)),
        out.gpiod == spec_port_write(ports.gpiod, GPIOD_PINS, levels_d(!data)),
{
    proof {
        lemma_write_data(data);
    }
    let data = data ^ u16::MAX;

    let mut pa: u16 = 0b1000101000000000;
    pa |= (data & (1u16 << 1)) << 11;
    pa |= (data & (1u16 << 2)) << 8;
    pa |= (data & (1u16 << 3)) << 5;

    let mut pb: u16 = 0b0001000000000000;
    pb |= (data & (1u16 << 14)) << 1;

    let mut pc: u16 = 0b0001100000001000;
    pc |= (data & 1) << 10;
    pc |= (data & (1u16 << 4)) << 5;
    pc |= (data & (1u16 << 5)) << 3;
    pc |= (data & (1u16 << 6)) << 1;
    pc |= (data & (1u16 << 9)) >> 3;

    let mut pd: u16 = (data & (1u16 << 7)) << 8;
    pd |= (data & (1u16 << 8)) << 6;
    pd |= (data & (1u16 << 10)) << 3;
    pd |= (data & (1u16 << 11)) >> 3;
    pd |= (data & (1u16 << 12)) >> 1;
    pd |= (data & (1u16 << 13)) >> 1;
    pd |= (data & (1u16 << 15)) >> 6;

    Ports {
        gpioa: port_write(ports.gpioa, GPIOA_PINS, pa),
        gpiob: port_write(ports.gpiob, GPIOB_PINS, pb),
        gpioc: port_write(ports.gpioc, GPIOC_PINS, pc),
        gpiod: port_write(ports.gpiod, GPIOD_PINS, pd),
    }
}

/// A sink for line values.
pub trait Write {
    fn write(&mut self, output: &Output);
}

/// The output registers of a bus on which a high pin is a set line.
#[derive(Clone, Copy, Debug, PartialEq, Eq)]
pub struct OutputBus {
    /// The registers to write first.
    pub settled: Ports,
    /// The registers to write after them.
    pub strobed: Ports,
}

/// The same registers on a bus where a low pin is a set line.
#[derive(Clone, Copy, Debug, PartialEq, Eq)]
pub struct InvertedOutputBus(pub OutputBus);

/// `to` with bit `dst` set or cleared.
pub open spec fn with_flag(to: u32, dst: u32, flag: bool) -> u32 {
    if flag {
        to | (1u32 << dst)
    } else {
        to & !(1u32 << dst)
    }
}

proof fn lemma_write_flag(to: u32, dst: u32, flag: bool)
    by (bit_vector)
    requires
        dst < 32,
    ensures
        (if (if flag { 1u32 } else { 0u32 } >> 0u32) & 1 == 1 {
            to | (1u32 << dst)
        } else {
            to & !(1u32 << dst)
        }) == (if flag {
            to | (1u32 << dst)
        } else {
            to & !(1u32 << dst)
        }),
{
}

fn write_flag(to: u32, dst: u32, flag: bool) -> (out: u32)
    requires
        dst < 32,
    ensures
        out == with_flag(to, dst, flag),
{
    proof {
        lemma_write_flag(to, dst, flag);
    }
    write_bit(to, dst, if flag { 1 } else { 0 }, 0)
}

proof fn lemma_lines_a(r: u32, w: u16, ctrlo_1: bool, ctrlo_0: bool, err: bool)
    by (bit_vector)
    ensures
        with_flag(
            with_line(
                with_flag(
                    with_line(with_flag(with_line(r, 8, w as u32, 3), 9, ctrlo_1), 10, w as u32, 2),
                    11,
                    ctrlo_0,
                ),
                12,
                w as u32,
                1,
            ),
            15,
            err,
        ) == spec_port_write(r, 0x9F00, levels_a(w, ctrlo_1, ctrlo_0, err)),
{
}

proof fn lemma_lines_b(r: u32, w: u16, rste: bool)
    by (bit_vector)
    ensures
        with_line(with_flag(r, 12, rste), 15, w as u32, 14) == spec_port_write(
            r,
            0x9000,
            levels_b(w, rste),
        ),
{
}

proof fn lemma_lines_c(r: u32, w: u16, sete: bool, dteo: bool, ctrld: bool)
    by (bit_vector)
    ensures
        with_flag(
            with_flag(
                with_line(
                    with_line(
                        with_line(
                            with_line(with_line(with_flag(r, 3, sete), 6, w as u32, 9), 7, w as u32, 6),
                            8,
                            w as u32,
                            5,
                        ),
                        9,
                        w as u32,
                        4,
                    ),
                    10,
                    w as u32,
                    0,
                ),
                11,
                dteo,
            ),
            12,
            ctrld,
        ) == spec_port_write(r, 0x1FC8, levels_c(w, sete, dteo, ctrld)),
{
}

proof fn lemma_lines_d(r: u32, w: u16, idle: bool)
    by (bit_vector)
    ensures
        with_flag(
            with_line(
                with_line(
                    with_line(
                        with_line(
                            with_line(
                                with_line(with_line(r, 8, w as u32, 11), 9, w as u32, 15),
                                11,
                                w as u32,
                                12,
                            ),
                            12,
                            w as u32,
                            13,
                        ),
                        13,
                        w as u32,
                        10,
                    ),
                    14,
                    w as u32,
                    8,
                ),
                15,
                w as u32,
                7,
            ),
            10,
            idle,
        ) == spec_port_write(spec_port_write(r, 0xFB00, levels_d(w)), 0x0400, flag(idle, 10)),
{
}

proof fn lemma_strobes(r: u32, on: bool)
    by (bit_vector)
    ensures
        with_flag(r, 10, on) == spec_port_write(r, 0x0400, flag(on, 10)),
        with_flag(r, 15, on) == spec_port_write(r, 0x8000, flag(on, 15)),
{
}

impl OutputBus {
    /// Takes over the registers as they stand.
    pub fn new(ports: Ports) -> (bus: Self)
        ensures
            bus.settled == ports,
            bus.strobed == ports,
    {
        OutputBus { settled: ports, strobed: ports }
    }

    /// Drives `output` with strobes that rest at `idle`.
    fn drive(&mut self, output: &Output, idle: bool)
        ensures
            final(self).settled == output.spec_settle(old(self).strobed, idle),
            final(self).strobed == output.spec_strobe(final(self).settled),
    {
        let data = output.data as u32;
        let ports = self.strobed;
        proof {
            lemma_lines_a(ports.gpioa, output.data, output.ctrlo_1, output.ctrlo_0, idle);
            lemma_lines_b(ports.gpiob, output.data, output.rste);
            lemma_lines_c(ports.gpioc, output.data, output.sete, output.dteo, output.ctrld);
            lemma_lines_d(ports.gpiod, output.data, idle);
        }

        let mut bits = ports.gpioa;
        bits = write_bit(bits, 8, data, 3);
        bits = write_flag(bits, 9, output.ctrlo_1);
        bits = write_bit(bits, 10, data, 2);
        bits = write_flag(bits, 11, output.ctrlo_0);
        bits = write_bit(bits, 12, data, 1);
        bits = write_flag(bits, 15, idle);
        let gpioa = bits;

        let mut bits = ports.gpiob;
        bits = write_flag(bits, 12, output.rste);
        bits = write_bit(bits, 15, data, 14);
        let gpiob = bits;

        let mut bits = ports.gpioc;
        bits = write_flag(bits, 3, output.sete);
        bits = write_bit(bits, 6, data, 9);
        bits = write_bit(bits, 7, data, 6);
        bits = write_bit(bits, 8, data, 5);
        bits = write_bit(bits, 9, data, 4);
        bits = write_bit(bits, 10, data, 0);
        bits = write_flag(bits, 11, output.dteo);
        bits = write_flag(bits, 12, output.ctrld);
        let gpioc = bits;

        let mut bits = ports.gpiod;
        bits = write_bit(bits, 8, data, 11);
        bits = write_bit(bits, 9, data, 15);
        bits = write_bit(bits, 11, data, 12);
        bits = write_bit(bits, 12, data, 13);
        bits = write_bit(bits, 13, data, 10);
        bits = write_bit(bits, 14, data, 8);
        bits = write_bit(bits, 15, data, 7);
        bits = write_flag(bits, 10, idle);
        let gpiod = bits;

        self.settled = Ports { gpioa, gpiob, gpioc, gpiod };
        proof {
            lemma_strobes(gpioa, output.err);
            lemma_strobes(gpiod, output.rdy);
        }
        // The host samples on the strobe: by then every other line stands.
        self.strobed = Ports {
            gpioa: write_flag(gpioa, 15, output.err),
            gpiob,
            gpioc,
            gpiod: write_flag(gpiod, 10, output.rdy),
        };
    }
}

impl Write for OutputBus {
    /// A set line drives its pin high; the strobes rest low until every
    /// other line stands.
    fn write(&mut self, output: &Output)
        ensures
            final(self).settled == output.spec_settle(old(self).strobed, false),
            final(self).strobed == output.spec_strobe(final(self).settled),
    {
        self.drive(output, false);
    }
}

impl InvertedOutputBus {
    /// Wraps the registers of a bus on which low means set.
    pub fn from(value: OutputBus) -> (bus: Self)
        ensures
            bus.0 == value,
    {
        InvertedOutputBus(value)
    }
}

impl Write for InvertedOutputBus {
    /// A set line drives its pin low; the strobes rest high until every
    /// other line stands.
    fn write(&mut self, output: &Output)
        ensures
            final(self).0.settled == output.spec_invert().spec_settle(old(self).0.strobed, true),
            final(self).0.strobed == output.spec_invert().spec_strobe(final(self).0.settled),
    {
        let inverted = Output {
            data: !output.data,
            rste: !output.rste,
            ctrld: !output.ctrld,
            ctrlo_0: !output.ctrlo_0,
            ctrlo_1: !output.ctrlo_1,
            err: !output.err,
            dteo: !output.dteo,
            rdy: !output.rdy,
            sete: !output.sete,
        };

        self.0.drive(&inverted, true);
    }
}

} // verus!
