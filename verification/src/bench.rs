//! The stand-in host against the device: a whole session, round by round.

use vstd::prelude::*;
use crate::adapter::State;
use crate::buffer::{lemma_words_len, word_bytes, words_bytes};
use crate::emulator::input::Frame as HostFrame;
use crate::emulator::machine::{
    lemma_step_ignores_debug, low_word, next_address, Machine, Mode as Kind, State as Sent,
};
use crate::emulator::output::{address_word, Frame as HostCommand};
use crate::sdmmc::file::{digits, lemma_name_of_address};
use crate::sdmmc::request::Card;
use crate::session::{
    acks, data_frames, handshake, lemma_check_status, lemma_handshake_wf, lemma_open_read,
    lemma_open_write, lemma_read_word, lemma_reset, lemma_select, lemma_stop, lemma_stop_flushes,
    lemma_write_word, reading, record,
};
use crate::sm2m::input::{select_word, Action};
use crate::sm2m::output::Frame as Reply;
use crate::wire::{action_of, frame_of};

verus! {

/// The host, the device and the card between two rounds, with what the host
/// last read from the bus, every command of the host and every reply of the
/// device so far.
pub struct Bench {
    pub machine: Machine,
    pub state: State,
    pub card: Card,
    pub seen: HostFrame,
    pub sent: Seq<HostCommand>,
    pub replies: Seq<Reply>,
}

/// The bench once the host, now `machine`, has sent `command`: the device
/// takes it as one handshake and the host reads the reply. Both codecs and
/// the cable stand between the two; they carry every command and every
/// reply unchanged, as the laws of the cable say.
pub open spec fn send(bench: Bench, machine: Machine, command: HostCommand) -> Bench {
    Bench {
        machine,
        state: handshake(bench.state, bench.card, action_of(command)).0,
        card: handshake(bench.state, bench.card, action_of(command)).1,
        seen: frame_of(handshake(bench.state, bench.card, action_of(command)).2),
        sent: bench.sent.push(command),
        replies: bench.replies.push(handshake(bench.state, bench.card, action_of(command)).2),
    }
}

/// The bench after the operator starts a session of `kind`: the host
/// begins its run and its opening reset crosses the bus.
pub open spec fn started(bench: Bench, kind: Kind, debug: bool) -> Bench {
    send(bench, bench.machine.spec_start(kind, debug), HostCommand::Reset)
}

/// The bench after the operator stops the host by hand: the stop crosses
/// the bus.
pub open spec fn stopped(bench: Bench) -> Bench {
    send(bench, bench.machine.spec_stop(), HostCommand::Stop)
}

/// One round: the host steps on what it last read; if it sends a command,
/// the device answers it.
pub open spec fn round(bench: Bench) -> Bench {
    match bench.machine.spec_step(bench.seen).1 {
        Some(command) => send(bench, bench.machine.spec_step(bench.seen).0, command),
        None => Bench { machine: bench.machine.spec_step(bench.seen).0, ..bench },
    }
}

/// `n` rounds.
pub open spec fn rounds(bench: Bench, n: nat) -> Bench
    decreases n,
{
    if n == 0 {
        bench
    } else {
        round(rounds(bench, (n - 1) as nat))
    }
}

/// The words that a session moves: 0, 1, 2 and so on, wrapping at sixteen
/// bits.
pub open spec fn count_words(n: nat) -> Seq<u16> {
    Seq::new(n, |i: int| low_word(i))
}

/// A bench on which a session can run: the host moves at least one word
/// and no more than a record can hold, the record after its last has a
/// number that the bus can carry, the device is within its bounds with no
/// call out, and a card is attached. The host may be in any state and the
/// device in any mode.
pub open spec fn fit(bench: Bench) -> bool {
    &&& 1 <= bench.machine.transfers
    &&& 2 * bench.machine.transfers <= u32::MAX
    &&& bench.machine.last_address < 63
    &&& bench.state.wf()
    &&& bench.state.pending is None
    &&& bench.card.attached
}

/// The commands that open a session on record `address`.
pub open spec fn opening(kind: Kind, address: u16) -> Seq<HostCommand> {
    seq![
        HostCommand::Reset,
        HostCommand::CheckStatus,
        HostCommand::Address(address),
        if kind is Write {
            HostCommand::Write
        } else {
            HostCommand::Read
        },
    ]
}

/// The data commands of a write: one per word, each with its word.
pub open spec fn write_commands(n: nat) -> Seq<HostCommand> {
    Seq::new(n, |i: int| HostCommand::WriteData(low_word(i)))
}

/// The data commands of a read: one continuation per word.
pub open spec fn read_commands(n: nat) -> Seq<HostCommand> {
    Seq::new(n, |i: int| HostCommand::ReadData)
}

proof fn lemma_address_word(address: u16)
    by (bit_vector)
    requires
        address < 64,
    ensures
        ((address & 0x3F) << 10) | 0x0003u16 == (address << 10) | 0x0003u16,
{
}

proof fn lemma_count_words(n: nat)
    ensures
        words_bytes(count_words(n + 1)) == words_bytes(count_words(n)) + word_bytes(
            low_word(n as int),
        ),
{
    assert(count_words(n + 1).drop_last() =~= count_words(n));
    assert(count_words(n + 1).last() == low_word(n as int));
}

/// The start of a session and its first three rounds: reset, status check,
/// record selection and the command that opens the transfer, each
/// acknowledged, whatever the host and the device were doing before.
proof fn lemma_opening(bench: Bench, kind: Kind, debug: bool)
    requires
        fit(bench),
        kind is Write || bench.card.records.dom().contains(
            digits(next_address(bench.machine.last_address) as nat),
        ),
    ensures
        ({
            let end = rounds(started(bench, kind, debug), 3);
            let name = digits(next_address(bench.machine.last_address) as nat);
            &&& end.machine == (Machine {
                state: if kind is Write {
                    Sent::Write
                } else {
                    Sent::Read
                },
                last_address: next_address(bench.machine.last_address),
                ..bench.machine.spec_start(kind, debug)
            })
            &&& end.seen == HostFrame::Data(0)
            &&& end.sent == bench.sent + opening(kind, next_address(bench.machine.last_address))
            &&& end.replies == bench.replies + acks(4)
            &&& end.state.wf()
            &&& end.state.pending is None
            &&& end.state.name == name
            &&& end.card.attached
            &&& kind is Write ==> end.state.mode is Write && end.state.buffer.bytes.len() == 0
                && !end.card.records.dom().contains(name)
            &&& kind is Read ==> end.card == bench.card && reading_from_start(end.state, end.card)
        }),
{
    let address = next_address(bench.machine.last_address);
    assert(address == bench.machine.last_address + 1);
    lemma_address_word(address);
    lemma_name_of_address(address);
    assert(address_word(address) == select_word(address));

    let b1 = started(bench, kind, debug);
    lemma_reset(bench.state, bench.card);
    lemma_handshake_wf(bench.state, bench.card, Action::Reset);
    assert(b1.replies =~= bench.replies + acks(1));

    let b2 = round(b1);
    assert(b1.machine.spec_step(b1.seen).1 == Some(HostCommand::CheckStatus));
    lemma_check_status(b1.state, b1.card);
    assert(b2.replies =~= bench.replies + acks(2));

    let b3 = round(b2);
    assert(b2.machine.spec_step(b2.seen).1 == Some(HostCommand::Address(address)));
    lemma_select(b2.state, b2.card, address);
    lemma_handshake_wf(b2.state, b2.card, Action::Data(select_word(address)));
    assert(b3.replies =~= bench.replies + acks(3));

    let b4 = round(b3);
    if kind is Write {
        assert(b3.machine.spec_step(b3.seen).1 == Some(HostCommand::Write));
        lemma_open_write(b3.state, b3.card);
        lemma_handshake_wf(b3.state, b3.card, Action::Data(0x0001));
    } else {
        assert(b3.machine.spec_step(b3.seen).1 == Some(HostCommand::Read));
        lemma_open_read(b3.state, b3.card);
        lemma_handshake_wf(b3.state, b3.card, Action::Data(0x0002));
    }
    assert(b4.replies =~= bench.replies + acks(4));
    assert(b4.sent =~= bench.sent + opening(kind, address));

    assert(rounds(b1, 3) == b4) by {
        assert(rounds(b1, 0) == b1);
        assert(rounds(b1, 1) == b2);
        assert(rounds(b1, 2) == b3);
    }
}

/// A read has just been opened: the buffer holds the start of the record,
/// as much as fits, and nothing of it is read yet.
pub open spec fn reading_from_start(state: State, card: Card) -> bool {
    &&& state.mode is Read
    &&& card.records.dom().contains(state.name)
    &&& state.buffer.bytes == card.records[state.name].subrange(0, state.file_pos as int)
    &&& state.buffer.cursor == 0
    &&& state.file_pos == (if state.buffer.capacity <= card.records[state.name].len() {
        state.buffer.capacity
    } else {
        card.records[state.name].len()
    })
}

/// What holds of a write session once `count` words are sent.
spec fn writing(start: Bench, debug: bool, bench: Bench, count: nat) -> bool {
    let address = next_address(start.machine.last_address);
    let name = digits(address as nat);
    &&& bench.machine == (Machine {
        state: if count == 0 {
            Sent::Write
        } else {
            Sent::WriteData(count as usize)
        },
        last_address: address,
        ..start.machine.spec_start(Kind::Write, debug)
    })
    &&& bench.seen == HostFrame::Data(0)
    &&& bench.sent == start.sent + opening(Kind::Write, address) + write_commands(count)
    &&& bench.replies == start.replies + acks(4 + count)
    &&& bench.state.wf()
    &&& bench.state.pending is None
    &&& bench.state.mode is Write
    &&& bench.state.name == name
    &&& bench.card.attached
    &&& record(bench.card, name) + bench.state.buffer.bytes == words_bytes(count_words(count))
}

proof fn lemma_writing(start: Bench, debug: bool, count: nat)
    requires
        fit(start),
        count <= start.machine.transfers,
    ensures
        writing(start, debug, rounds(started(start, Kind::Write, debug), 3 + count), count),
    decreases count,
{
    let address = next_address(start.machine.last_address);
    let name = digits(address as nat);
    let first = started(start, Kind::Write, debug);
    if count == 0 {
        lemma_opening(start, Kind::Write, debug);
        let end = rounds(first, 3);
        assert(record(end.card, name) + end.state.buffer.bytes =~= words_bytes(count_words(0)));
        assert(end.sent =~= start.sent + opening(Kind::Write, address) + write_commands(0));
    } else {
        let before = rounds(first, (3 + count - 1) as nat);
        lemma_writing(start, debug, (count - 1) as nat);
        let word = low_word(count - 1);
        assert(before.machine.spec_step(before.seen).1 == Some(HostCommand::WriteData(word)));
        lemma_write_word(before.state, before.card, word);
        lemma_count_words((count - 1) as nat);
        let after = round(before);
        assert(after.replies =~= start.replies + acks(4 + count));
        assert(after.sent =~= start.sent + opening(Kind::Write, address) + write_commands(count));
        assert(record(after.card, name) + after.state.buffer.bytes =~= words_bytes(
            count_words(count),
        ));
    }
}

/// A write session runs to its end. Whatever the host and the device were
/// doing, once the operator starts a write on a bench that is fit for it,
/// as many rounds as the session has words, and four more, leave the host
/// at its stop without a fault. The host has sent the opening commands, one
/// data command per word and a stop; every reply is an acknowledgement; the
/// device is ready again; and the record after the host's last holds the
/// words 0, 1, 2 and so on, low byte first.
pub proof fn lemma_write_session(bench: Bench, debug: bool)
    requires
        fit(bench),
    ensures
        ({
            let count = bench.machine.transfers as nat;
            let address = next_address(bench.machine.last_address);
            let end = rounds(started(bench, Kind::Write, debug), count + 4);
            &&& end.machine == (Machine {
                state: Sent::Stop,
                last_address: address,
                ..bench.machine.spec_start(Kind::Write, debug)
            })
            &&& !end.machine.fault
            &&& end.sent == bench.sent + opening(Kind::Write, address) + write_commands(count)
                + seq![HostCommand::Stop]
            &&& end.replies == bench.replies + acks(count + 5)
            &&& end.state.mode is Ready
            &&& end.state.wf()
            &&& end.state.pending is None
            &&& end.card.attached
            &&& end.card.records.dom().contains(digits(address as nat))
            &&& end.card.records[digits(address as nat)] == words_bytes(count_words(count))
        }),
{
    let count = bench.machine.transfers as nat;
    let address = next_address(bench.machine.last_address);
    let name = digits(address as nat);
    lemma_writing(bench, debug, count);
    let before = rounds(started(bench, Kind::Write, debug), 3 + count);
    assert(before.machine.spec_step(before.seen).1 == Some(HostCommand::Stop));
    lemma_stop_flushes(before.state, before.card);
    let end = round(before);
    assert(end.replies =~= bench.replies + acks(count + 5));
    assert(end.sent =~= bench.sent + opening(Kind::Write, address) + write_commands(count) + seq![
        HostCommand::Stop,
    ]);
    lemma_words_len(count_words(count));
    assert(record(end.card, name) =~= words_bytes(count_words(count)));
}

/// What holds of a read session once `count` words are received.
spec fn receiving(start: Bench, debug: bool, bench: Bench, count: nat) -> bool {
    let address = next_address(start.machine.last_address);
    let words = count_words(start.machine.transfers as nat);
    &&& bench.machine.state == (if count == 0 {
        Sent::Read
    } else {
        Sent::ReadData(count as usize)
    })
    &&& bench.machine.transfers == start.machine.transfers
    &&& bench.machine.mode == Kind::Read
    &&& bench.machine.last_address == address
    &&& !bench.machine.fault
    &&& count >= 2 ==> bench.machine.last_received == low_word(count - 2)
    &&& bench.seen == (if count == 0 {
        HostFrame::Data(0)
    } else {
        HostFrame::Data(low_word(count - 1))
    })
    &&& bench.sent == start.sent + opening(Kind::Read, address) + read_commands(count)
    &&& bench.replies == start.replies + acks(4) + data_frames(words.take(count as int))
    &&& bench.card == start.card
    &&& reading(bench.state, bench.card, words, count)
}

proof fn lemma_receiving(start: Bench, debug: bool, count: nat)
    requires
        fit(start),
        start.card.records.dom().contains(digits(next_address(start.machine.last_address) as nat)),
        start.card.records[digits(next_address(start.machine.last_address) as nat)] == words_bytes(
            count_words(start.machine.transfers as nat),
        ),
        count <= start.machine.transfers,
    ensures
        receiving(start, debug, rounds(started(start, Kind::Read, debug), 3 + count), count),
    decreases count,
{
    let address = next_address(start.machine.last_address);
    let words = count_words(start.machine.transfers as nat);
    let first = started(start, Kind::Read, debug);
    if count == 0 {
        lemma_opening(start, Kind::Read, debug);
        let end = rounds(first, 3);
        lemma_words_len(words);
        assert(end.replies =~= start.replies + acks(4) + data_frames(words.take(0)));
        assert(end.sent =~= start.sent + opening(Kind::Read, address) + read_commands(0));
    } else {
        let before = rounds(first, (3 + count - 1) as nat);
        lemma_receiving(start, debug, (count - 1) as nat);
        assert(before.machine.spec_step(before.seen).1 == Some(HostCommand::ReadData));
        lemma_read_word(before.state, before.card, words, (count - 1) as nat, 0);
        let after = round(before);
        assert(after.replies =~= start.replies + acks(4) + data_frames(words.take(count as int)));
        assert(after.sent =~= start.sent + opening(Kind::Read, address) + read_commands(count));
    }
}

/// A read session runs to its end. Whatever the host and the device were
/// doing, once the operator starts a read on a bench that is fit for it and
/// whose record after the host's last holds the words 0, 1, 2 and so on, as
/// many rounds as the session has words, and four more, leave the host at
/// its stop without a fault and with the last word received. The host has
/// sent the opening commands, one continuation per word and a stop; the
/// device has replied with four acknowledgements, the words in order and
/// one more acknowledgement, with no fault among them; and the card is as
/// it was.
pub proof fn lemma_read_session(bench: Bench, debug: bool)
    requires
        fit(bench),
        bench.card.records.dom().contains(digits(next_address(bench.machine.last_address) as nat)),
        bench.card.records[digits(next_address(bench.machine.last_address) as nat)] == words_bytes(
            count_words(bench.machine.transfers as nat),
        ),
    ensures
        ({
            let count = bench.machine.transfers as nat;
            let address = next_address(bench.machine.last_address);
            let end = rounds(started(bench, Kind::Read, debug), count + 4);
            &&& end.machine.state is Stop
            &&& !end.machine.fault
            &&& end.machine.last_received == low_word(count - 1)
            &&& end.sent == bench.sent + opening(Kind::Read, address) + read_commands(count) + seq![
                HostCommand::Stop,
            ]
            &&& end.replies == bench.replies + acks(4) + data_frames(count_words(count)) + acks(1)
            &&& end.state.mode is Ready
            &&& end.card == bench.card
        }),
{
    let count = bench.machine.transfers as nat;
    let address = next_address(bench.machine.last_address);
    let words = count_words(count);
    lemma_receiving(bench, debug, count);
    let before = rounds(started(bench, Kind::Read, debug), 3 + count);
    assert(before.machine.spec_step(before.seen).1 == Some(HostCommand::Stop));
    lemma_stop(before.state, before.card);
    let end = round(before);
    assert(words.take(count as int) =~= words);
    assert(end.replies =~= bench.replies + acks(4) + data_frames(words) + acks(1));
    assert(end.sent =~= bench.sent + opening(Kind::Read, address) + read_commands(count) + seq![
        HostCommand::Stop,
    ]);
}

/// The bench after a write session, the operator's stop and a read
/// session, each session run to its last round.
pub open spec fn written_and_read(bench: Bench, writing: bool, reading: bool) -> Bench {
    let count = bench.machine.transfers as nat;
    rounds(
        started(
            stopped(rounds(started(bench, Kind::Write, writing), count + 4)),
            Kind::Read,
            reading,
        ),
        count + 4,
    )
}

/// What is written is read back. On a bench that is fit for a session and
/// whose host points before the first record, as a new host does and every
/// host after a stop by hand, let the operator start a write, let it run,
/// stop the host by hand, start a read and let it run. Then both sessions
/// end at the host's stop without a fault; no reply of the device is a
/// fault; the words that the read brings are the words that the write
/// sent, in order; and the first record holds them. The drive modes of the
/// two sessions have no say in it.
pub proof fn lemma_write_then_read_back(bench: Bench, writing: bool, reading: bool)
    requires
        fit(bench),
        bench.machine.last_address == 0,
    ensures
        ({
            let count = bench.machine.transfers as nat;
            let written = rounds(started(bench, Kind::Write, writing), count + 4);
            let end = written_and_read(bench, writing, reading);
            &&& written.machine.state is Stop
            &&& !written.machine.fault
            &&& end.machine.state is Stop
            &&& !end.machine.fault
            &&& end.machine.last_received == low_word(count - 1)
            &&& end.sent == bench.sent + opening(Kind::Write, 1) + write_commands(count) + seq![
                HostCommand::Stop,
                HostCommand::Stop,
            ] + opening(Kind::Read, 1) + read_commands(count) + seq![HostCommand::Stop]
            &&& end.replies == bench.replies + acks(count + 10) + data_frames(count_words(count))
                + acks(1)
            &&& forall|i: int|
                bench.replies.len() <= i < end.replies.len() ==> !(#[trigger] end.replies[i]
                    is Error)
            &&& end.card.records.dom().contains(digits(1))
            &&& end.card.records[digits(1)] == words_bytes(count_words(count))
        }),
{
    let count = bench.machine.transfers as nat;
    let words = count_words(count);
    assert(next_address(0) == 1);
    lemma_write_session(bench, writing);
    let written = rounds(started(bench, Kind::Write, writing), count + 4);
    let halted = stopped(written);
    lemma_stop(written.state, written.card);
    lemma_handshake_wf(written.state, written.card, Action::Stop);
    assert(halted.card == written.card);
    assert(halted.machine.last_address == 0);
    assert(fit(halted));
    assert(halted.replies =~= bench.replies + acks(count + 6));
    assert(halted.sent =~= bench.sent + opening(Kind::Write, 1) + write_commands(count) + seq![
        HostCommand::Stop,
        HostCommand::Stop,
    ]);
    lemma_read_session(halted, reading);
    let end = written_and_read(bench, writing, reading);
    assert(end == rounds(started(halted, Kind::Read, reading), count + 4));
    assert(end.sent =~= bench.sent + opening(Kind::Write, 1) + write_commands(count) + seq![
        HostCommand::Stop,
        HostCommand::Stop,
    ] + opening(Kind::Read, 1) + read_commands(count) + seq![HostCommand::Stop]);
    let tail = acks(count + 10) + data_frames(words) + acks(1);
    assert(end.replies =~= bench.replies + tail) by {
        assert(acks(count + 6) + acks(4) =~= acks(count + 10));
        assert(end.replies =~= bench.replies + acks(count + 6) + acks(4) + data_frames(words)
            + acks(1));
    }
    assert(end.replies == bench.replies + acks(count + 10) + data_frames(words) + acks(1));
    assert forall|i: int| 0 <= i < tail.len() implies !(#[trigger] tail[i] is Error) by {
        if i < count + 10 {
            assert(tail[i] == Reply::Ack);
        } else if i < count + 10 + count {
            assert(tail[i] == Reply::Data(words[i - (count + 10)]));
        } else {
            assert(tail[i] == Reply::Ack);
        }
    }
}

/// The drive mode has no say in a session: with the host stepped by hand or
/// by the device's ready edge, the same rounds send the same commands, get
/// the same replies and leave the device and the card in the same state.
pub proof fn lemma_rounds_ignore_debug(bench: Bench, debug: bool, n: nat)
    ensures
        rounds(Bench { machine: Machine { debug, ..bench.machine }, ..bench }, n) == (Bench {
            machine: Machine { debug, ..rounds(bench, n).machine },
            ..rounds(bench, n)
        }),
    decreases n,
{
    if n > 0 {
        lemma_rounds_ignore_debug(bench, debug, (n - 1) as nat);
        let before = rounds(bench, (n - 1) as nat);
        lemma_step_ignores_debug(before.machine, debug, before.seen);
    }
}

} // verus!
