//! The cable between the stand-in host and the device: what one side drives
//! is what the other side reads.

use vstd::prelude::*;
use crate::emulator::input::{line_of, pin_set, DataMask as HostInput, Frame as HostFrame};
use crate::emulator::output::{pin_of, DataMask as HostOutput, Frame as HostCommand};
use crate::sm2m::helper::spec_port_write;
use crate::sm2m::input::{level, payload_levels, Action, Bus as DeviceInput};
use crate::sm2m::output::{
    flag, levels_a, levels_b, levels_c, levels_d, Bus as DeviceOutput, Frame as Reply, Ports,
};

verus! {

/// Whether pin `pin` of a sixteen-bit port is high.
pub open spec fn high(port: u16, pin: u16) -> bool {
    (port >> pin) & 1 == 1
}

/// The lines from the host to the device: each pin of the device's input
/// ports B, D and E has the level of the host's pin on the same line.
pub open spec fn wired_to_device(host: HostOutput, pb: u16, pd: u16, pe: u16) -> bool {
    &&& level(pb, 7) == high(host.gpiob, 4)
    &&& level(pe, 1) == high(host.gpiob, 5)
    &&& level(pe, 0) == high(host.gpiob, 6)
    &&& level(pe, 2) == high(host.gpiob, 7)
    &&& level(pe, 3) == high(host.gpiob, 8)
    &&& level(pe, 5) == high(host.gpiob, 9)
    &&& level(pe, 4) == high(host.gpioe, 2)
    &&& level(pe, 6) == high(host.gpioe, 3)
    &&& level(pb, 4) == high(host.gpioe, 4)
    &&& level(pd, 6) == high(host.gpioe, 5)
    &&& level(pd, 5) == high(host.gpioe, 6)
    &&& level(pd, 7) == high(host.gpioc, 13)
    &&& level(pd, 4) == high(host.gpioc, 0)
    &&& level(pd, 1) == high(host.gpioc, 2)
    &&& level(pd, 3) == high(host.gpioc, 3)
    &&& level(pd, 0) == high(host.gpioa, 0)
    &&& level(pb, 14) == high(host.gpioc, 4)
    &&& level(pb, 9) == high(host.gpioc, 5)
}

/// The lines from the device to the host: each pin of the host's input
/// ports has the level of the device's pin on the same line.
pub open spec fn wired_to_host(device: Ports, host: HostInput) -> bool {
    &&& pin_set(host.gpiod, 0) == pin_set(device.gpioc, 10)
    &&& pin_set(host.gpiod, 1) == pin_set(device.gpioa, 12)
    &&& pin_set(host.gpiod, 2) == pin_set(device.gpioa, 10)
    &&& pin_set(host.gpiod, 3) == pin_set(device.gpioa, 8)
    &&& pin_set(host.gpiod, 4) == pin_set(device.gpioc, 9)
    &&& pin_set(host.gpiod, 5) == pin_set(device.gpioc, 8)
    &&& pin_set(host.gpiod, 6) == pin_set(device.gpioc, 7)
    &&& pin_set(host.gpioe, 11) == pin_set(device.gpiod, 15)
    &&& pin_set(host.gpioa, 8) == pin_set(device.gpiod, 14)
    &&& pin_set(host.gpioc, 6) == pin_set(device.gpioc, 6)
    &&& pin_set(host.gpioc, 7) == pin_set(device.gpiod, 13)
    &&& pin_set(host.gpiod, 11) == pin_set(device.gpiod, 8)
    &&& pin_set(host.gpiod, 12) == pin_set(device.gpiod, 11)
    &&& pin_set(host.gpiod, 13) == pin_set(device.gpiod, 12)
    &&& pin_set(host.gpiod, 14) == pin_set(device.gpiob, 15)
    &&& pin_set(host.gpiod, 15) == pin_set(device.gpiod, 9)
    &&& pin_set(host.gpiob, 3) == pin_set(device.gpioa, 15)
    &&& pin_set(host.gpioe, 14) == pin_set(device.gpiob, 12)
    &&& pin_set(host.gpioe, 13) == pin_set(device.gpioc, 3)
    &&& pin_set(host.gpioe, 12) == pin_set(device.gpioc, 11)
}

/// The event that a command of the host is to the device.
pub open spec fn action_of(command: HostCommand) -> Action {
    match command {
        HostCommand::Reset => Action::Reset,
        HostCommand::Stop => Action::Stop,
        _ => Action::Data(command.spec_word()),
    }
}

/// The frame that a reply of the device is to the host: an acknowledgement
/// reads as an empty word.
pub open spec fn frame_of(reply: Reply) -> HostFrame {
    match reply {
        Reply::Ack => HostFrame::Data(0),
        Reply::Error(opcode) => HostFrame::Error(opcode),
        Reply::Data(word) => HostFrame::Data(word),
    }
}

proof fn lemma_wire_to_device(
    a: u16,
    b: u16,
    c: u16,
    e: u16,
    pb: u16,
    pd: u16,
    pe: u16,
    word: u16,
    reset: bool,
    stop: bool,
)
    by (bit_vector)
    requires
        a == pin_of(word, 15, 0),
        b == pin_of(word, 0, 4) | pin_of(word, 1, 5) | pin_of(word, 2, 6) | pin_of(word, 3, 7)
            | pin_of(word, 4, 8) | pin_of(word, 5, 9),
        c == pin_of(word, 11, 13) | pin_of(word, 12, 0) | pin_of(word, 13, 2) | pin_of(word, 14, 3)
            | (if stop { 1u16 << 4 } else { 0 }) | (if reset { 1u16 << 5 } else { 0 }),
        e == pin_of(word, 6, 2) | pin_of(word, 7, 3) | pin_of(word, 8, 4) | pin_of(word, 9, 5)
            | pin_of(word, 10, 6),
        level(pb, 7) == high(!b, 4),
        level(pe, 1) == high(!b, 5),
        level(pe, 0) == high(!b, 6),
        level(pe, 2) == high(!b, 7),
        level(pe, 3) == high(!b, 8),
        level(pe, 5) == high(!b, 9),
        level(pe, 4) == high(!e, 2),
        level(pe, 6) == high(!e, 3),
        level(pb, 4) == high(!e, 4),
        level(pd, 6) == high(!e, 5),
        level(pd, 5) == high(!e, 6),
        level(pd, 7) == high(!c, 13),
        level(pd, 4) == high(!c, 0),
        level(pd, 1) == high(!c, 2),
        level(pd, 3) == high(!c, 3),
        level(pd, 0) == high(!a, 0),
        level(pb, 14) == high(!c, 4),
        level(pb, 9) == high(!c, 5),
    ensures
        !payload_levels(pb, pd, pe) == word,
        level(pb, 9) == !reset,
        level(pb, 14) == !stop,
{
}

proof fn lemma_mask_bits(word: u16)
    by (bit_vector)
    ensures
        0u16 == pin_of(0, 15, 0),
        0u16 == pin_of(0, 0, 4) | pin_of(0, 1, 5) | pin_of(0, 2, 6) | pin_of(0, 3, 7) | pin_of(
            0,
            4,
            8,
        ) | pin_of(0, 5, 9),
        0u16 == pin_of(0, 6, 2) | pin_of(0, 7, 3) | pin_of(0, 8, 4) | pin_of(0, 9, 5) | pin_of(
            0,
            10,
            6,
        ),
        1u16 << 5 == pin_of(0, 11, 13) | pin_of(0, 12, 0) | pin_of(0, 13, 2) | pin_of(0, 14, 3) | 0u16
            | (1u16 << 5),
        1u16 << 4 == pin_of(0, 11, 13) | pin_of(0, 12, 0) | pin_of(0, 13, 2) | pin_of(0, 14, 3) | (
        1u16 << 4) | 0u16,
        pin_of(word, 11, 13) | pin_of(word, 12, 0) | pin_of(word, 13, 2) | pin_of(word, 14, 3)
            == pin_of(word, 11, 13) | pin_of(word, 12, 0) | pin_of(word, 13, 2) | pin_of(word, 14, 3)
            | 0u16 | 0u16,
{
}

/// What the host sends is what the device receives. When the host drives
/// its pins to the complement of a command's asserted lines, as it does on
/// this bus, and the cable carries each level to the device's pin on the
/// same line, the device decodes the event that the command stands for.
pub proof fn lemma_host_to_device(command: HostCommand, pb: u16, pd: u16, pe: u16)
    requires
        wired_to_device(
            HostOutput {
                gpioa: !HostOutput::spec_from(command).gpioa,
                gpiob: !HostOutput::spec_from(command).gpiob,
                gpioc: !HostOutput::spec_from(command).gpioc,
                gpioe: !HostOutput::spec_from(command).gpioe,
            },
            pb,
            pd,
            pe,
        ),
    ensures
        (DeviceInput { gpiob: pb, gpiod: pd, gpioe: pe }).spec_read() == action_of(command),
{
    let mask = HostOutput::spec_from(command);
    let word = command.spec_word();
    lemma_mask_bits(word);
    lemma_wire_to_device(
        mask.gpioa,
        mask.gpiob,
        mask.gpioc,
        mask.gpioe,
        pb,
        pd,
        pe,
        word,
        command is Reset,
        command is Stop,
    );
}

proof fn lemma_wire_to_host(
    ra: u32,
    rb: u32,
    rc: u32,
    rd: u32,
    ha: u32,
    hb: u32,
    hc: u32,
    hd: u32,
    he: u32,
    word: u16,
    rdy: bool,
    err: bool,
)
    by (bit_vector)
    requires
        ({
            let da = spec_port_write(
                spec_port_write(ra, 0x9F00, levels_a(!word, true, true, true)),
                0x8000,
                flag(!err, 15),
            );
            let db = spec_port_write(rb, 0x9000, levels_b(!word, true));
            let dc = spec_port_write(rc, 0x1FC8, levels_c(!word, true, true, true));
            let dd = spec_port_write(
                spec_port_write(
                    spec_port_write(rd, 0xFB00, levels_d(!word)),
                    0x0400,
                    flag(true, 10),
                ),
                0x0400,
                flag(!rdy, 10),
            );
            &&& pin_set(hd, 0) == pin_set(dc, 10)
            &&& pin_set(hd, 1) == pin_set(da, 12)
            &&& pin_set(hd, 2) == pin_set(da, 10)
            &&& pin_set(hd, 3) == pin_set(da, 8)
            &&& pin_set(hd, 4) == pin_set(dc, 9)
            &&& pin_set(hd, 5) == pin_set(dc, 8)
            &&& pin_set(hd, 6) == pin_set(dc, 7)
            &&& pin_set(he, 11) == pin_set(dd, 15)
            &&& pin_set(ha, 8) == pin_set(dd, 14)
            &&& pin_set(hc, 6) == pin_set(dc, 6)
            &&& pin_set(hc, 7) == pin_set(dd, 13)
            &&& pin_set(hd, 11) == pin_set(dd, 8)
            &&& pin_set(hd, 12) == pin_set(dd, 11)
            &&& pin_set(hd, 13) == pin_set(dd, 12)
            &&& pin_set(hd, 14) == pin_set(db, 15)
            &&& pin_set(hd, 15) == pin_set(dd, 9)
            &&& pin_set(hb, 3) == pin_set(da, 15)
            &&& pin_set(he, 14) == pin_set(db, 12)
            &&& pin_set(he, 13) == pin_set(dc, 3)
            &&& pin_set(he, 12) == pin_set(dc, 11)
        }),
    ensures
        (line_of(!hd, 0, 0) | line_of(!hd, 1, 1) | line_of(!hd, 2, 2) | line_of(!hd, 3, 3) | line_of(
            !hd,
            4,
            4,
        ) | line_of(!hd, 5, 5) | line_of(!hd, 6, 6) | line_of(!he, 11, 7) | line_of(!ha, 8, 8)
            | line_of(!hc, 6, 9) | line_of(!hc, 7, 10) | line_of(!hd, 11, 11) | line_of(!hd, 12, 12)
            | line_of(!hd, 13, 13) | line_of(!hd, 14, 14) | line_of(!hd, 15, 15)) as u16 == word,
        !pin_set(!he, 14),
        !pin_set(!he, 13),
        !pin_set(!he, 12),
        pin_set(!hb, 3) == err,
{
}

proof fn lemma_not_zero(word: u16)
    by (bit_vector)
    ensures
        !(!word) == word,
        !0u16 == 0xFFFFu16,
{
}

/// What the device replies is what the host reads. When the device has
/// driven a reply and asserted its strobe, and the cable carries each level
/// to the host's pin on the same line, the host, reversing the levels it
/// reads, decodes the reply: a word, a fault with its opcode, or, for an
/// acknowledgement, an empty word.
pub proof fn lemma_device_to_host(ports: Ports, reply: Reply, host: HostInput)
    requires
        wired_to_host(
            DeviceOutput::spec_levels(reply).spec_strobe(
                DeviceOutput::spec_levels(reply).spec_settle(ports, true),
            ),
            host,
        ),
    ensures
        (HostInput {
            gpioa: !host.gpioa,
            gpiob: !host.gpiob,
            gpioc: !host.gpioc,
            gpiod: !host.gpiod,
            gpioe: !host.gpioe,
        }).spec_frame() == frame_of(reply),
{
    let output = reply.spec_output();
    lemma_not_zero(output.data);
    lemma_wire_to_host(
        ports.gpioa,
        ports.gpiob,
        ports.gpioc,
        ports.gpiod,
        host.gpioa,
        host.gpiob,
        host.gpioc,
        host.gpiod,
        host.gpioe,
        output.data,
        output.rdy,
        output.err,
    );
}

} // verus!
