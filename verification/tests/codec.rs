use sm2m_adapter::emulator::input::{DataMask as HostInput, Frame as HostFrame};
use sm2m_adapter::emulator::output::{DataMask as HostOutput, Frame as HostCommand};
use sm2m_adapter::sm2m::bus::{
    SM2MBus, SM2MGPIOAMap, SM2MGPIOBMap, SM2MGPIOCMap, SM2MGPIODMap, SM2MGPIOEMap,
};
use sm2m_adapter::sm2m::helper::{port_write, write_bit};
use sm2m_adapter::sm2m::input::{
    Action, Bus as InputPorts, Command, Frame, Input, InputBus, InvertedInputBus, Read,
};
use sm2m_adapter::sm2m::io::{InputData, OutputData, SM2MBusRead, SM2MBusWrite};
use sm2m_adapter::sm2m::output::{
    Bus as OutputPorts, Frame as Reply, InvertedOutputBus, Output, OutputBus, Ports, Write,
};

/// Port letter and pin of each payload line at the device's inputs.
const DEVICE_IN: [(char, u16); 16] = [
    ('B', 7),
    ('E', 1),
    ('E', 0),
    ('E', 2),
    ('E', 3),
    ('E', 5),
    ('E', 4),
    ('E', 6),
    ('B', 4),
    ('D', 6),
    ('D', 5),
    ('D', 7),
    ('D', 4),
    ('D', 1),
    ('D', 3),
    ('D', 0),
];

/// Port letter and pin of each payload line at the device's outputs.
const DEVICE_OUT: [(char, u32); 16] = [
    ('C', 10),
    ('A', 12),
    ('A', 10),
    ('A', 8),
    ('C', 9),
    ('C', 8),
    ('C', 7),
    ('D', 15),
    ('D', 14),
    ('C', 6),
    ('D', 13),
    ('D', 8),
    ('D', 11),
    ('D', 12),
    ('B', 15),
    ('D', 9),
];

/// Port letter and pin of each payload line at the host's outputs.
const HOST_OUT: [(char, u16); 16] = [
    ('B', 4),
    ('B', 5),
    ('B', 6),
    ('B', 7),
    ('B', 8),
    ('B', 9),
    ('E', 2),
    ('E', 3),
    ('E', 4),
    ('E', 5),
    ('E', 6),
    ('C', 13),
    ('C', 0),
    ('C', 2),
    ('C', 3),
    ('A', 0),
];

/// Port letter and pin of each payload line at the host's inputs.
const HOST_IN: [(char, u32); 16] = [
    ('D', 0),
    ('D', 1),
    ('D', 2),
    ('D', 3),
    ('D', 4),
    ('D', 5),
    ('D', 6),
    ('E', 11),
    ('A', 8),
    ('C', 6),
    ('C', 7),
    ('D', 11),
    ('D', 12),
    ('D', 13),
    ('D', 14),
    ('D', 15),
];

fn device_input(low: &[(char, u16)]) -> InputPorts {
    let mut pb = 0xFFFFu16;
    let mut pd = 0xFFFFu16;
    let mut pe = 0xFFFFu16;
    for (port, pin) in low {
        match port {
            'B' => pb &= !(1 << pin),
            'D' => pd &= !(1 << pin),
            'E' => pe &= !(1 << pin),
            _ => unreachable!(),
        }
    }
    InputPorts::new(pb, pd, pe)
}

fn host_pin(mask: &HostOutput, port: char, pin: u16) -> bool {
    let bits = match port {
        'A' => mask.gpioa,
        'B' => mask.gpiob,
        'C' => mask.gpioc,
        'E' => mask.gpioe,
        _ => unreachable!(),
    };
    (bits >> pin) & 1 == 1
}

fn device_pin(ports: &Ports, port: char, pin: u32) -> bool {
    let bits = match port {
        'A' => ports.gpioa,
        'B' => ports.gpiob,
        'C' => ports.gpioc,
        'D' => ports.gpiod,
        _ => unreachable!(),
    };
    (bits >> pin) & 1 == 1
}

/// Carries the levels of the host's output pins to the device's input pins.
fn cable_to_device(levels: &HostOutput) -> InputPorts {
    let mut pb = 0u16;
    let mut pd = 0u16;
    let mut pe = 0u16;
    let mut put = |port: char, pin: u16, high: bool| {
        if high {
            match port {
                'B' => pb |= 1 << pin,
                'D' => pd |= 1 << pin,
                'E' => pe |= 1 << pin,
                _ => unreachable!(),
            }
        }
    };
    for line in 0..16 {
        let (from_port, from_pin) = HOST_OUT[line];
        let (to_port, to_pin) = DEVICE_IN[line];
        put(to_port, to_pin, host_pin(levels, from_port, from_pin));
    }
    put('B', 14, host_pin(levels, 'C', 4));
    put('B', 9, host_pin(levels, 'C', 5));
    InputPorts::new(pb, pd, pe)
}

/// Carries the levels of the device's output pins to the host's input pins.
fn cable_to_host(ports: &Ports) -> HostInput {
    let mut mask = HostInput { gpioa: 0, gpiob: 0, gpioc: 0, gpiod: 0, gpioe: 0 };
    let mut put = |port: char, pin: u32, high: bool| {
        if high {
            match port {
                'A' => mask.gpioa |= 1 << pin,
                'B' => mask.gpiob |= 1 << pin,
                'C' => mask.gpioc |= 1 << pin,
                'D' => mask.gpiod |= 1 << pin,
                'E' => mask.gpioe |= 1 << pin,
                _ => unreachable!(),
            }
        }
    };
    for line in 0..16 {
        let (from_port, from_pin) = DEVICE_OUT[line];
        let (to_port, to_pin) = HOST_IN[line];
        put(to_port, to_pin, device_pin(ports, from_port, from_pin));
    }
    put('B', 3, device_pin(ports, 'A', 15));
    put('E', 14, device_pin(ports, 'B', 12));
    put('E', 13, device_pin(ports, 'C', 3));
    put('E', 12, device_pin(ports, 'C', 11));
    mask
}

#[test]
fn command_decode_table() {
    assert_eq!(Frame::from(0x0000), Frame::CheckStatus);
    assert_eq!(Frame::from(0x0001), Frame::Write);
    assert_eq!(Frame::from(0x0002), Frame::Read);
    assert_eq!(Frame::from(0x0403), Frame::Address(1));
    assert_eq!(Frame::from(0x1234), Frame::Data(0x1234));
}

#[test]
fn address_takes_the_six_high_bits() {
    assert_eq!(Frame::from(0x0003), Frame::Address(0));
    assert_eq!(Frame::from(0xFFFF), Frame::Address(63));
    assert_eq!(Frame::from(0xFC03), Frame::Address(63));
    assert_eq!(Frame::from(0x0807), Frame::Address(2));
    assert_eq!(Frame::from(0x0004), Frame::Data(0x0004));
    assert_eq!(Frame::from(0x0402), Frame::Data(0x0402));
}

#[test]
fn command_of_line_values() {
    let input = |data: u16, rst: bool| Input { data, rst, ctrli_0: false, ctrli_1: false, dtei: false };
    assert_eq!(Command::from(input(0x0000, false)), Some(Command::CheckStatus));
    assert_eq!(Command::from(input(0x0001, false)), Some(Command::Write));
    assert_eq!(Command::from(input(0x0002, false)), Some(Command::Read));
    assert_eq!(Command::from(input(0x0403, false)), Some(Command::Address(1)));
    assert_eq!(Command::from(input(0x0003, false)), Some(Command::Address(0)));
    assert_eq!(Command::from(input(0xFFFF, false)), Some(Command::Address(63)));
    assert_eq!(Command::from(input(0x1234, false)), None);
    assert_eq!(Command::from(input(0x1230, false)), None);
    assert_eq!(Command::from(input(0x0004, false)), None);
}

#[test]
fn reset_line_wins_over_the_command() {
    let input = |data: u16, rst: bool| Input { data, rst, ctrli_0: true, ctrli_1: false, dtei: true };
    for data in [0x0000u16, 0x0001, 0x0002, 0x0403, 0x1234, 0xFFFF] {
        assert_eq!(Command::from(input(data, true)), Some(Command::Reset));
    }
    assert_eq!(Command::from(input(0x0000, false)), Some(Command::CheckStatus));
}

#[test]
fn write_bit_moves_one_bit() {
    assert_eq!(write_bit(0, 8, 0b1000, 3), 0x100);
    assert_eq!(write_bit(0xFFFF_FFFF, 8, 0, 3), 0xFFFF_FEFF);
    assert_eq!(write_bit(0x100, 8, 0b1000, 3), 0x100);
    assert_eq!(write_bit(0x0F0F, 31, 1, 0), 0x8000_0F0F);
    assert_eq!(write_bit(0x8000_0F0F, 31, 2, 0), 0x0F0F);
}

#[test]
fn port_write_changes_owned_pins_only() {
    assert_eq!(port_write(0xFFFF_0000, 0x00F0, 0xFFFF), 0xFFFF_00F0);
    assert_eq!(port_write(0x1234_FFFF, 0x00F0, 0x0000), 0x1234_FF0F);
    assert_eq!(port_write(0xABCD, 0, 0x5555), 0xABCD);
    assert_eq!(port_write(0, 0xFFFF, 0x5A5A), 0x5A5A);
}

#[test]
fn input_data_lines() {
    let data = InputData::from_bits(0x0004_1234);
    assert_eq!(data.payload(), 0x1234);
    assert!(data.is_rsti_set());
    assert!(!data.is_ctrli_0_set());
    assert!(!data.is_ctrli_1_set());
    assert!(!data.is_dtei_set());
    let data = InputData::from_bits(0x0023_0000);
    assert!(data.is_ctrli_0_set());
    assert!(data.is_ctrli_1_set());
    assert!(!data.is_rsti_set());
    assert!(data.is_dtei_set());
    assert_eq!(InputData::from_bits(0xFFFF_FFFF).payload(), 0xFFFF);
    assert_eq!(InputData::new().bits(), 0);
    assert_eq!(InputData::from_bits(0x0000_00FF).invert().bits(), 0xFFFF_FF00);
}

#[test]
fn output_data_lines() {
    assert_eq!(OutputData::new().with_payload(0xBEEF).bits(), 0x0000_BEEF);
    assert_eq!(OutputData::new().with_ctrlo_0().bits(), 1 << 16);
    assert_eq!(OutputData::new().with_ctrlo_1().bits(), 1 << 17);
    assert_eq!(OutputData::new().with_rdy().bits(), 1 << 18);
    assert_eq!(OutputData::new().with_ctrld().bits(), 1 << 19);
    assert_eq!(OutputData::new().with_erro().bits(), 1 << 20);
    assert_eq!(OutputData::new().with_rste().bits(), 1 << 21);
    assert_eq!(OutputData::new().with_sete().bits(), 1 << 22);
    assert_eq!(OutputData::new().with_dteo().bits(), 1 << 23);
    assert_eq!(OutputData::new().with_payload(1).with_rdy().invert().bits(), 0xFFFB_FFFE);
}

#[test]
fn device_reads_each_payload_line_from_its_pin() {
    assert_eq!(device_input(&[]).read(), Action::Data(0));
    for line in 0..16 {
        assert_eq!(device_input(&[DEVICE_IN[line]]).read(), Action::Data(1 << line));
    }
    assert_eq!(InputPorts::new(0x4200, 0, 0).read(), Action::Data(0xFFFF));
}

#[test]
fn control_lines_win_over_the_payload() {
    assert_eq!(device_input(&[('B', 9)]).read(), Action::Reset);
    assert_eq!(device_input(&[('B', 14)]).read(), Action::Stop);
    assert_eq!(device_input(&[('B', 9), ('B', 14), ('B', 7)]).read(), Action::Reset);
    assert_eq!(device_input(&[('B', 14), ('D', 0)]).read(), Action::Stop);
    assert_eq!(InputPorts::new(0, 0, 0).read(), Action::Reset);
}

#[test]
fn plain_and_inverted_input_buses() {
    let bus = InputBus { gpiob: 0x0200 | 0x0080, gpiod: 0x0004 | 0x0001, gpioe: 0x0002 };
    let input = bus.read();
    assert_eq!(input.data, 0x8003);
    assert!(input.rst);
    assert!(input.ctrli_0);
    assert!(!input.ctrli_1);
    assert!(!input.dtei);
    let inverted = InvertedInputBus::from(bus).read();
    assert_eq!(inverted.data, 0x7FFC);
    assert!(!inverted.rst);
    assert!(!inverted.ctrli_0);
    assert!(inverted.ctrli_1);
    assert!(inverted.dtei);
    let all = InputBus { gpiob: 0x4390, gpiod: 0x00FF, gpioe: 0x007F }.read();
    assert_eq!(all, Input { data: 0xFFFF, rst: true, ctrli_0: true, ctrli_1: true, dtei: true });
}

#[test]
fn output_constructors() {
    let ok = Output::ok();
    assert!(ok.rdy && !ok.err && ok.data == 0);
    let error = Output::error();
    assert!(error.err && !error.rdy && error.data == 0);
    let data = Output::data(0x1234);
    assert!(data.rdy && !data.err && data.data == 0x1234);
    assert_eq!(Reply::Ack.output(), ok);
    assert_eq!(Reply::Data(0x1234).output(), data);
    let fault = Reply::Error(27).output();
    assert!(fault.err && !fault.rdy && fault.data == 27);
    assert_eq!(Output::default().data, 0);
}

#[test]
fn idle_bus_after_power_up() {
    let bus = OutputPorts::new(Ports { gpioa: 0, gpiob: 0, gpioc: 0, gpiod: 0 });
    assert_eq!(bus.strobed, Ports { gpioa: 0x9F00, gpiob: 0x9000, gpioc: 0x1FC8, gpiod: 0xFB00 });
    assert_eq!(bus.settled, bus.strobed);
    let bus = OutputPorts::new(Ports { gpioa: 0x00FF, gpiob: 0x0001, gpioc: 0x0400, gpiod: 0x0400 });
    assert_eq!(bus.strobed, Ports { gpioa: 0x9FFF, gpiob: 0x9001, gpioc: 0x1FC8, gpiod: 0xFF00 });
}

#[test]
fn reply_settles_before_it_strobes() {
    let mut bus = OutputPorts::new(Ports { gpioa: 0, gpiob: 0, gpioc: 0, gpiod: 0 });
    bus.write(Reply::Data(0xFFFF));
    assert_eq!(bus.settled, Ports { gpioa: 0x8A00, gpiob: 0x1000, gpioc: 0x1808, gpiod: 0x0400 });
    assert_eq!(bus.strobed, Ports { gpioa: 0x8A00, gpiob: 0x1000, gpioc: 0x1808, gpiod: 0x0000 });
    bus.write(Reply::Error(0));
    assert_eq!(bus.settled, Ports { gpioa: 0x9F00, gpiob: 0x9000, gpioc: 0x1FC8, gpiod: 0xFF00 });
    assert_eq!(bus.strobed, Ports { gpioa: 0x1F00, gpiob: 0x9000, gpioc: 0x1FC8, gpiod: 0xFF00 });
    bus.write(Reply::Ack);
    assert_eq!(bus.settled, Ports { gpioa: 0x9F00, gpiob: 0x9000, gpioc: 0x1FC8, gpiod: 0xFF00 });
    assert_eq!(bus.strobed, Ports { gpioa: 0x9F00, gpiob: 0x9000, gpioc: 0x1FC8, gpiod: 0xFB00 });
    bus.write(Reply::Data(0x0001));
    assert_eq!(bus.strobed, Ports { gpioa: 0x9F00, gpiob: 0x9000, gpioc: 0x1BC8, gpiod: 0xFB00 });
}

#[test]
fn device_drives_each_payload_line_on_its_pin() {
    for line in 0..16 {
        let mut bus = OutputPorts::new(Ports { gpioa: 0, gpiob: 0, gpioc: 0, gpiod: 0 });
        bus.write(Reply::Data(1 << line));
        for other in 0..16 {
            let (port, pin) = DEVICE_OUT[other];
            assert_eq!(device_pin(&bus.strobed, port, pin), other != line, "line {line} pin of {other}");
        }
        assert!(!device_pin(&bus.strobed, 'D', 10));
        assert!(device_pin(&bus.strobed, 'A', 15));
    }
}

#[test]
fn write_keeps_foreign_pins() {
    let mut bus = OutputPorts::new(Ports {
        gpioa: 0xFFFF_00FF,
        gpiob: 0x0000_6FFF,
        gpioc: 0x0000_E037,
        gpiod: 0x1234_00FF,
    });
    bus.write(Reply::Data(0xFFFF));
    assert_eq!(bus.strobed.gpioa & !0x9F00, 0xFFFF_00FF);
    assert_eq!(bus.strobed.gpiob & !0x9000, 0x0000_6FFF);
    assert_eq!(bus.strobed.gpioc & !0x1FC8, 0x0000_E037);
    assert_eq!(bus.strobed.gpiod & !0xFF00, 0x1234_00FF);
}

#[test]
fn plain_and_inverted_output_buses() {
    let zero = Ports { gpioa: 0, gpiob: 0, gpioc: 0, gpiod: 0 };
    let mut plain = OutputBus::new(zero);
    plain.write(&Output::data(0xFFFF));
    assert_eq!(plain.settled, Ports { gpioa: 0x1500, gpiob: 0x8000, gpioc: 0x07C0, gpiod: 0xFB00 });
    assert_eq!(plain.strobed, Ports { gpioa: 0x1500, gpiob: 0x8000, gpioc: 0x07C0, gpiod: 0xFF00 });
    plain.write(&Output::error());
    assert_eq!(plain.settled, zero);
    assert_eq!(plain.strobed, Ports { gpioa: 0x8000, gpiob: 0, gpioc: 0, gpiod: 0 });

    let mut inverted = InvertedOutputBus::from(OutputBus::new(zero));
    let mut replies = OutputPorts::new(zero);
    for reply in [Reply::Data(0xA5C3), Reply::Ack, Reply::Error(44), Reply::Data(0)] {
        inverted.write(&reply.output());
        replies.write(reply);
        assert_eq!(inverted.0.settled, replies.settled);
        assert_eq!(inverted.0.strobed, replies.strobed);
    }
}

#[test]
fn port_maps_agree_with_the_buses() {
    let mut bus = SM2MBus::configure(
        SM2MGPIOAMap { odr: 0 },
        SM2MGPIOBMap { idr: 0x4390, odr: 0 },
        SM2MGPIOCMap { odr: 0 },
        SM2MGPIODMap { idr: 0x00FF, odr: 0 },
        SM2MGPIOEMap { idr: 0x007F },
    );
    let input = bus.read(InputData::new());
    assert_eq!(input.bits(), 0x0027_FFFF);
    assert_eq!(input.payload(), 0xFFFF);
    assert!(input.is_rsti_set() && input.is_dtei_set());
    assert!(input.is_ctrli_0_set() && input.is_ctrli_1_set());

    bus.gpiob_map.idr = 0x0080;
    bus.gpiod_map.idr = 0x0081;
    bus.gpioe_map.idr = 0x0001;
    assert_eq!(bus.read(InputData::new()).bits(), 0x8805);
    assert_eq!(bus.read(InputData::from_bits(0x0002)).bits(), 0x8807);

    let mut plain = OutputBus::new(Ports { gpioa: 0, gpiob: 0, gpioc: 0, gpiod: 0 });
    plain.write(&Output::data(0xA5C3));
    bus.write(&OutputData::new().with_payload(0xA5C3).with_rdy());
    assert_eq!(bus.gpioa_map.odr, plain.strobed.gpioa);
    assert_eq!(bus.gpiob_map.odr, plain.strobed.gpiob);
    assert_eq!(bus.gpioc_map.odr, plain.strobed.gpioc);
    assert_eq!(bus.gpiod_map.odr, plain.strobed.gpiod);

    bus.write(
        &OutputData::new().with_erro().with_ctrlo_0().with_ctrlo_1().with_rste().with_sete()
            .with_dteo().with_ctrld(),
    );
    assert_eq!(bus.gpioa_map.odr, 0x8A00);
    assert_eq!(bus.gpiob_map.odr, 0x1000);
    assert_eq!(bus.gpioc_map.odr, 0x1808);
    assert_eq!(bus.gpiod_map.odr, 0x0000);
}

#[test]
fn host_mask_of_each_frame() {
    assert_eq!(
        HostOutput::from(HostCommand::Reset),
        HostOutput { gpioa: 0, gpiob: 0, gpioc: 1 << 5, gpioe: 0 }
    );
    assert_eq!(
        HostOutput::from(HostCommand::Stop),
        HostOutput { gpioa: 0, gpiob: 0, gpioc: 1 << 4, gpioe: 0 }
    );
    assert_eq!(HostOutput::from(HostCommand::CheckStatus), HostOutput::new());
    assert_eq!(HostOutput::from(HostCommand::ReadData), HostOutput::new());
    assert_eq!(
        HostOutput::from(HostCommand::Write),
        HostOutput { gpioa: 0, gpiob: 1 << 4, gpioc: 0, gpioe: 0 }
    );
    assert_eq!(
        HostOutput::from(HostCommand::Read),
        HostOutput { gpioa: 0, gpiob: 1 << 5, gpioc: 0, gpioe: 0 }
    );
    assert_eq!(
        HostOutput::from(HostCommand::Address(1)),
        HostOutput { gpioa: 0, gpiob: 0b11 << 4, gpioc: 0, gpioe: 1 << 6 }
    );
    assert_eq!(
        HostOutput::from(HostCommand::Address(63)),
        HostOutput { gpioa: 1, gpiob: 0b11 << 4, gpioc: 0x200D, gpioe: 1 << 6 }
    );
    assert_eq!(
        HostOutput::from(HostCommand::WriteData(0xFFFF)),
        HostOutput { gpioa: 0x0001, gpiob: 0x03F0, gpioc: 0x200D, gpioe: 0x007C }
    );
    assert_eq!(HostCommand::Address(1).word(), 0x0403);
    assert_eq!(HostCommand::Address(65).word(), 0x0403);
    assert_eq!(HostCommand::WriteData(0x1234).word(), 0x1234);
    assert_eq!(
        HostOutput { gpioa: 1, gpiob: 0, gpioc: 0xFFFF, gpioe: 0x00F0 }.reverse_bits(),
        HostOutput { gpioa: 0xFFFE, gpiob: 0xFFFF, gpioc: 0, gpioe: 0xFF0F }
    );
}

#[test]
fn host_places_each_payload_line_on_its_pin() {
    for line in 0..16 {
        let mask = HostOutput::of_word(1 << line);
        for other in 0..16 {
            let (port, pin) = HOST_OUT[other];
            assert_eq!(host_pin(&mask, port, pin), other == line);
        }
    }
}

#[test]
fn host_reads_each_payload_line_from_its_pin() {
    let zero = HostInput { gpioa: 0, gpiob: 0, gpioc: 0, gpiod: 0, gpioe: 0 };
    assert_eq!(zero.data(), 0);
    assert_eq!(HostFrame::from(zero), HostFrame::Data(0));
    for line in 0..16 {
        let (port, pin) = HOST_IN[line];
        let mut mask = zero;
        match port {
            'A' => mask.gpioa = 1 << pin,
            'C' => mask.gpioc = 1 << pin,
            'D' => mask.gpiod = 1 << pin,
            'E' => mask.gpioe = 1 << pin,
            _ => unreachable!(),
        }
        assert_eq!(mask.data(), 1 << line);
    }
    let all = HostInput { gpioa: !0, gpiob: !0, gpioc: !0, gpiod: !0, gpioe: 0x0800 };
    assert_eq!(all.data(), 0xFFFF);
    assert_eq!(all.reverse_bits().gpioe, 0xFFFF_F7FF);
}

#[test]
fn host_control_lines_win_over_the_payload() {
    let with = |gpiob: u32, gpioe: u32| HostInput { gpioa: 0, gpiob, gpioc: 0, gpiod: 5, gpioe };
    assert_eq!(HostFrame::from(with(0, 1 << 14)), HostFrame::Reset);
    assert_eq!(HostFrame::from(with(1 << 3, 7 << 12)), HostFrame::Reset);
    assert_eq!(HostFrame::from(with(0, 1 << 13)), HostFrame::Sete);
    assert_eq!(HostFrame::from(with(0, 3 << 12)), HostFrame::Sete);
    assert_eq!(HostFrame::from(with(1 << 3, 1 << 12)), HostFrame::End);
    assert_eq!(HostFrame::from(with(1 << 3, 0)), HostFrame::Error(5));
    assert_eq!(HostFrame::from(with(0, 0)), HostFrame::Data(5));
    assert!(with(0, 1 << 12).dteo() && with(0, 1 << 13).sete() && with(0, 1 << 14).rste());
    assert!(with(1 << 3, 0).erro() && !with(0, 0).erro());
}

#[test]
fn host_commands_cross_the_cable() {
    let cases = [
        (HostCommand::Reset, Action::Reset),
        (HostCommand::Stop, Action::Stop),
        (HostCommand::CheckStatus, Action::Data(0x0000)),
        (HostCommand::Write, Action::Data(0x0001)),
        (HostCommand::Read, Action::Data(0x0002)),
        (HostCommand::ReadData, Action::Data(0x0000)),
        (HostCommand::Address(1), Action::Data(0x0403)),
        (HostCommand::Address(63), Action::Data(0xFC03)),
        (HostCommand::WriteData(0xA5C3), Action::Data(0xA5C3)),
        (HostCommand::WriteData(0xFFFF), Action::Data(0xFFFF)),
    ];
    for (command, action) in cases {
        let levels = HostOutput::from(command).reverse_bits();
        assert_eq!(cable_to_device(&levels).read(), action);
    }
    for line in 0..16 {
        let levels = HostOutput::from(HostCommand::WriteData(1 << line)).reverse_bits();
        assert_eq!(cable_to_device(&levels).read(), Action::Data(1 << line));
    }
}

#[test]
fn device_replies_cross_the_cable() {
    let cases = [
        (Reply::Ack, HostFrame::Data(0)),
        (Reply::Data(0xA5C3), HostFrame::Data(0xA5C3)),
        (Reply::Data(0xFFFF), HostFrame::Data(0xFFFF)),
        (Reply::Error(1), HostFrame::Error(1)),
        (Reply::Error(46), HostFrame::Error(46)),
    ];
    let mut bus = OutputPorts::new(Ports { gpioa: 0x55, gpiob: 0xAA, gpioc: 0x01, gpiod: 0xFF });
    for (reply, frame) in cases {
        bus.write(reply);
        assert_eq!(HostFrame::from(cable_to_host(&bus.strobed).reverse_bits()), frame);
    }
    for line in 0..16 {
        bus.write(Reply::Data(1 << line));
        let seen = HostFrame::from(cable_to_host(&bus.strobed).reverse_bits());
        assert_eq!(seen, HostFrame::Data(1 << line));
    }
}

#[test]
fn defaults_assert_nothing() {
    assert_eq!(InputData::default().bits(), 0);
    assert_eq!(OutputData::default().bits(), 0);
    assert_eq!(HostOutput::default(), HostOutput::new());
    assert_eq!(HostOutput::default().reverse_bits().gpioa, 0xFFFF);
}
