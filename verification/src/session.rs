//! The device against a card in the abstract: what holds of every exchange.

use vstd::prelude::*;
use crate::adapter::{Mode, Move, State};
use crate::error::AppError;
use crate::indicators::Lamps;
use crate::buffer::{lemma_words_bytes, lemma_words_len, word_bytes, words_bytes, Contents};
use crate::sdmmc::file::{digits, lemma_name_of_address};
use crate::sdmmc::request::{Answer, Call, Card};
use crate::sm2m::input::{lemma_address_frame, select_word, Action};
use crate::sm2m::input::Frame as InputFrame;
use crate::sm2m::output::Frame;

verus! {

/// One handshake: the device takes the event, the card performs the call
/// that the device asks for, if any, and the device replies.
#[verifier::opaque]
pub open spec fn handshake(state: State, card: Card, action: Action) -> (State, Card, Frame) {
    match state.execute(action).1 {
        Move::Reply(frame) => (state.execute(action).0, card, frame),
        Move::Storage(call) => (
            state.execute(action).0.complete(card.perform(call).1).0,
            card.perform(call).0,
            state.execute(action).0.complete(card.perform(call).1).1,
        ),
    }
}

/// A run of handshakes, one per event, and the replies in order.
pub open spec fn run(state: State, card: Card, actions: Seq<Action>) -> (State, Card, Seq<Frame>)
    decreases actions.len(),
{
    if actions.len() == 0 {
        (state, card, Seq::empty())
    } else {
        let before = run(state, card, actions.drop_last());
        let last = handshake(before.0, before.1, actions.last());
        (last.0, last.1, before.2.push(last.2))
    }
}

/// A handshake leaves the session within its bounds and with no call out.
pub proof fn lemma_handshake_wf(state: State, card: Card, action: Action)
    requires
        state.wf(),
        state.pending is None,
    ensures
        handshake(state, card, action).0.wf(),
        handshake(state, card, action).0.pending is None,
{
    reveal(handshake);
    lemma_execute_wf(state, action);
    match state.execute(action).1 {
        Move::Reply(_) => {},
        Move::Storage(call) => {
            lemma_complete_wf(state.execute(action).0, card.perform(call).1);
        },
    }
}

/// An event leaves the session within its bounds, and a call is out
/// afterwards exactly when the device asks for one.
pub proof fn lemma_execute_wf(state: State, action: Action)
    requires
        state.wf(),
        state.pending is None,
    ensures
        state.execute(action).0.wf(),
        state.execute(action).1 is Storage <==> state.execute(action).0.pending is Some,
{
    match action {
        Action::Data(payload) => {
            match InputFrame::spec_from(payload) {
                InputFrame::Address(address) => {
                    lemma_name_of_address(address);
                },
                _ => {},
            }
        },
        _ => {},
    }
}

/// The outcome of a call leaves the session within its bounds and with no
/// call out.
pub proof fn lemma_complete_wf(state: State, answer: Answer)
    requires
        state.wf(),
        state.pending is Some,
    ensures
        state.complete(answer).0.wf(),
        state.complete(answer).0.pending is None,
{
}

/// Every event gets exactly one reply: a run of handshakes yields as many
/// replies as it took events, and leaves the session ready for the next.
pub proof fn lemma_one_reply_per_event(state: State, card: Card, actions: Seq<Action>)
    requires
        state.wf(),
        state.pending is None,
    ensures
        run(state, card, actions).2.len() == actions.len(),
        run(state, card, actions).0.wf(),
        run(state, card, actions).0.pending is None,
    decreases actions.len(),
{
    if actions.len() > 0 {
        lemma_one_reply_per_event(state, card, actions.drop_last());
        let before = run(state, card, actions.drop_last());
        lemma_handshake_wf(before.0, before.1, actions.last());
    }
}

/// A reset from any mode, faults included, leaves the session ready, the
/// buffer empty and every lamp off, is acknowledged, and does not touch the
/// card. A second reset changes nothing more.
pub proof fn lemma_reset(state: State, card: Card)
    requires
        state.pending is None,
    ensures
        handshake(state, card, Action::Reset) == (state.reset(), card, Frame::Ack),
        state.reset().mode is Ready,
        state.reset().buffer.bytes.len() == 0,
        state.reset().buffer.cursor == 0,
        state.reset().lamps == Lamps::dark(),
        state.reset().reset() == state.reset(),
{
    reveal(handshake);
}

/// Once at fault the session answers every word with the latched opcode and
/// stays as it is.
pub proof fn lemma_error_latch(state: State, card: Card, opcode: u16, payload: u16)
    requires
        state.mode == Mode::Error(opcode),
        state.pending is None,
    ensures
        handshake(state, card, Action::Data(payload)) == (state, card, Frame::Error(opcode)),
{
    reveal(handshake);
}

/// However many words follow a fault, each is answered with the latched
/// opcode, and neither the session nor the card changes.
pub proof fn lemma_error_latch_holds(state: State, card: Card, opcode: u16, actions: Seq<Action>)
    requires
        state.mode == Mode::Error(opcode),
        state.pending is None,
        forall|i: int| 0 <= i < actions.len() ==> actions[i] is Data,
    ensures
        run(state, card, actions).0 == state,
        run(state, card, actions).1 == card,
        run(state, card, actions).2 == Seq::new(actions.len(), |i: int| Frame::Error(opcode)),
    decreases actions.len(),
{
    if actions.len() > 0 {
        lemma_error_latch_holds(state, card, opcode, actions.drop_last());
        lemma_error_latch(state, card, opcode, actions.last()->0);
    }
    assert(run(state, card, actions).2 =~= Seq::new(actions.len(), |i: int| Frame::Error(opcode)));
}

/// The lamps show the session at every moment of a run: the fault lamp is
/// lit for as long as a fault is latched, the write lamp and no other during
/// a write, the read lamp and no other during a read, and none while the
/// session is ready or addressed.
pub proof fn lemma_lamps_follow_mode(state: State, card: Card, actions: Seq<Action>)
    requires
        state.wf(),
        state.pending is None,
    ensures
        run(state, card, actions).0.lamps_follow_mode(),
        run(state, card, actions).0.mode is Error ==> run(state, card, actions).0.lamps.system_error,
{
    lemma_one_reply_per_event(state, card, actions);
}

/// A status check while no card is attached latches the session on the
/// opcode of a detached card; with a card it is acknowledged and the session
/// stays ready.
pub proof fn lemma_check_status(state: State, card: Card)
    requires
        state.mode is Ready,
        state.pending is None,
    ensures
        !card.attached ==> handshake(state, card, Action::Data(0x0000)).2 == Frame::Error(
            AppError::SdmmcDetached.spec_opcode(),
        ) && handshake(state, card, Action::Data(0x0000)).0.mode == Mode::Error(
            AppError::SdmmcDetached.spec_opcode(),
        ),
        card.attached ==> handshake(state, card, Action::Data(0x0000)) == (
            state,
            card,
            Frame::Ack,
        ),
{
    reveal(handshake);
}

/// While the host writes, a word causes a flush exactly when it fills the
/// buffer. The flush carries the whole buffer, as many bytes as the buffer's
/// capacity, and leaves the buffer empty; any other word is only buffered.
pub proof fn lemma_flush_when_full(state: State, card: Card, payload: u16)
    requires
        state.wf(),
        state.mode is Write,
        state.pending is None,
        card.attached,
    ensures
        state.execute(Action::Data(payload)).1 is Storage <==> state.buffer.bytes.len() + 2
            == state.buffer.capacity,
        state.execute(Action::Data(payload)).1 is Storage ==> {
            &&& state.execute(Action::Data(payload)).1 == Move::Storage(
                Call::Append { name: state.name, data: state.buffer.pushed(payload).bytes },
            )
            &&& state.buffer.pushed(payload).bytes.len() == state.buffer.capacity
            &&& handshake(state, card, Action::Data(payload)).0.buffer.bytes.len() == 0
        },
        state.execute(Action::Data(payload)).1 is Reply ==> handshake(
            state,
            card,
            Action::Data(payload),
        ).0.buffer == state.buffer.pushed(payload) && handshake(
            state,
            card,
            Action::Data(payload),
        ).1 == card,
        handshake(state, card, Action::Data(payload)).2 == Frame::Ack,
{
    reveal(handshake);
}

/// A stop flushes what a write has left in the buffer, and only that: with
/// nothing buffered, or outside a write, the card is not called.
pub proof fn lemma_stop(state: State, card: Card)
    requires
        state.wf(),
        state.pending is None,
    ensures
        state.execute(Action::Stop).1 is Storage <==> state.mode is Write
            && state.buffer.bytes.len() > 0,
        state.execute(Action::Stop).1 is Storage ==> state.execute(Action::Stop).1
            == Move::Storage(Call::Append { name: state.name, data: state.buffer.bytes }),
        state.execute(Action::Stop).1 is Reply ==> handshake(state, card, Action::Stop).1 == card,
        card.attached ==> handshake(state, card, Action::Stop).0 == state.reset() && handshake(
            state,
            card,
            Action::Stop,
        ).2 == Frame::Ack,
        !card.attached && state.execute(Action::Stop).1 is Storage ==> handshake(
            state,
            card,
            Action::Stop,
        ).2 == Frame::Error(AppError::SdmmcDetached.spec_opcode()),
{
    reveal(handshake);
}

/// The session sees an event only through what the event means in its
/// mode: two events that decode alike are treated alike.
pub proof fn lemma_execute_by_frame(state: State, first: Action, second: Action)
    requires
        state.mode.spec_decode(first) == state.mode.spec_decode(second),
    ensures
        state.execute(first) == state.execute(second),
{
}

/// The bytes of the record `name`; a record that does not exist has none.
pub open spec fn record(card: Card, name: Seq<u8>) -> Seq<u8> {
    if card.records.dom().contains(name) {
        card.records[name]
    } else {
        Seq::empty()
    }
}

/// One data event per word.
pub open spec fn data_actions(words: Seq<u16>) -> Seq<Action> {
    Seq::new(words.len(), |i: int| Action::Data(words[i]))
}

/// One data reply per word.
pub open spec fn data_frames(words: Seq<u16>) -> Seq<Frame> {
    Seq::new(words.len(), |i: int| Frame::Data(words[i]))
}

/// `n` acknowledgements.
pub open spec fn acks(n: nat) -> Seq<Frame> {
    Seq::new(n, |i: int| Frame::Ack)
}

/// A run over two sequences of events is the run over the first followed by
/// the run over the second.
pub proof fn lemma_run_concat(state: State, card: Card, first: Seq<Action>, second: Seq<Action>)
    ensures
        run(state, card, first + second) == ({
            let a = run(state, card, first);
            let b = run(a.0, a.1, second);
            (b.0, b.1, a.2 + b.2)
        }),
    decreases second.len(),
{
    let a = run(state, card, first);
    if second.len() == 0 {
        assert(first + second =~= first);
        assert(a.2 + Seq::<Frame>::empty() =~= a.2);
    } else {
        assert((first + second).drop_last() =~= first + second.drop_last());
        assert((first + second).last() == second.last());
        lemma_run_concat(state, card, first, second.drop_last());
        let b = run(a.0, a.1, second.drop_last());
        let last = handshake(b.0, b.1, second.last());
        assert((a.2 + b.2).push(last.2) =~= a.2 + b.2.push(last.2));
    }
}

/// A run over one event is one handshake.
pub proof fn lemma_run_one(state: State, card: Card, action: Action)
    ensures
        run(state, card, seq![action]) == (
            handshake(state, card, action).0,
            handshake(state, card, action).1,
            seq![handshake(state, card, action).2],
        ),
{
    let actions = seq![action];
    assert(actions.drop_last() =~= Seq::<Action>::empty());
    assert(run(state, card, actions.drop_last()).2 =~= Seq::<Frame>::empty());
    assert(Seq::<Frame>::empty().push(handshake(state, card, action).2) =~= seq![
        handshake(state, card, action).2,
    ]);
}

/// A ready session answers the word that selects record `address` by
/// taking the record's name, and acknowledges; the card is not called.
pub proof fn lemma_select(state: State, card: Card, address: u16)
    requires
        state.pending is None,
        state.mode is Ready,
        address < 64,
    ensures
        handshake(state, card, Action::Data(select_word(address))) == (
            State { mode: Mode::Address, name: digits(address as nat), ..state },
            card,
            Frame::Ack,
        ),
{
    reveal(handshake);
    lemma_address_frame(0, address);
}

/// An addressed session opens a write by having the record removed: no
/// record of the name is left, the buffer is empty, the write lamp is lit,
/// and the command is acknowledged.
pub proof fn lemma_open_write(state: State, card: Card)
    requires
        state.pending is None,
        state.mode is Address,
        card.attached,
    ensures
        handshake(state, card, Action::Data(0x0001)) == (
            State {
                mode: Mode::Write,
                buffer: state.buffer.cleared(),
                lamps: Lamps { write: true, ..state.lamps },
                ..state
            },
            Card { records: card.records.remove(state.name), ..card },
            Frame::Ack,
        ),
{
    reveal(handshake);
}

/// An addressed session opens a read by fetching the first chunk of the
/// record: the buffer holds the start of the record, as much as fits, the
/// read lamp is lit, the card is as it was, and the command is
/// acknowledged.
pub proof fn lemma_open_read(state: State, card: Card)
    requires
        state.wf(),
        state.pending is None,
        state.mode is Address,
        card.attached,
        card.records.dom().contains(state.name),
    ensures
        ({
            let held = card.records[state.name];
            let taken = if state.buffer.capacity <= held.len() {
                state.buffer.capacity
            } else {
                held.len()
            };
            handshake(state, card, Action::Data(0x0002)) == (
                State {
                    mode: Mode::Read,
                    buffer: Contents {
                        bytes: held.subrange(0, taken as int),
                        cursor: 0,
                        ..state.buffer
                    },
                    file_pos: taken,
                    lamps: Lamps { read: true, ..state.lamps },
                    ..state
                },
                card,
                Frame::Ack,
            )
        }),
{
    reveal(handshake);
    let held = card.records[state.name];
    let taken = if state.buffer.capacity <= held.len() {
        state.buffer.capacity
    } else {
        held.len()
    };
    assert(held.skip(0).take(taken as int) =~= held.subrange(0, taken as int));
    let chunk = held.skip(0).take(taken as int);
    assert(chunk.take(state.buffer.taken(chunk) as int) =~= chunk);
}

/// While the host writes, a word is acknowledged and its two bytes follow,
/// in the record or in the buffer, the bytes that were there before.
pub proof fn lemma_write_word(state: State, card: Card, word: u16)
    requires
        state.wf(),
        state.pending is None,
        state.mode is Write,
        card.attached,
    ensures
        ({
            let after = handshake(state, card, Action::Data(word));
            &&& after.0.wf()
            &&& after.0.pending is None
            &&& after.0.mode is Write
            &&& after.0.name == state.name
            &&& after.0.buffer.capacity == state.buffer.capacity
            &&& after.1.attached
            &&& record(after.1, state.name) + after.0.buffer.bytes == record(card, state.name)
                + state.buffer.bytes + word_bytes(word)
            &&& after.2 == Frame::Ack
        }),
{
    reveal(handshake);
    lemma_handshake_wf(state, card, Action::Data(word));
    let after = handshake(state, card, Action::Data(word));
    assert(record(after.1, state.name) + after.0.buffer.bytes =~= record(card, state.name)
        + state.buffer.bytes + word_bytes(word));
}

/// While the host writes, every word is acknowledged, and the bytes of the
/// words follow, first in the record and then in the buffer, the bytes that
/// were there before.
pub proof fn lemma_write_words(state: State, card: Card, words: Seq<u16>)
    requires
        state.wf(),
        state.pending is None,
        state.mode is Write,
        card.attached,
    ensures
        ({
            let end = run(state, card, data_actions(words));
            &&& end.0.wf()
            &&& end.0.pending is None
            &&& end.0.mode is Write
            &&& end.0.name == state.name
            &&& end.0.buffer.capacity == state.buffer.capacity
            &&& end.1.attached
            &&& record(end.1, state.name) + end.0.buffer.bytes == record(card, state.name)
                + state.buffer.bytes + words_bytes(words)
            &&& end.2 == acks(words.len())
        }),
    decreases words.len(),
{
    let end = run(state, card, data_actions(words));
    if words.len() == 0 {
        assert(record(card, state.name) + state.buffer.bytes + words_bytes(words) =~= record(
            card,
            state.name,
        ) + state.buffer.bytes);
        assert(end.2 =~= acks(0));
    } else {
        let init = words.drop_last();
        assert(data_actions(words).drop_last() =~= data_actions(init));
        lemma_write_words(state, card, init);
        let before = run(state, card, data_actions(init));
        let word = words.last();
        assert(data_actions(words).last() == Action::Data(word));
        lemma_write_word(before.0, before.1, word);
        let after = handshake(before.0, before.1, Action::Data(word));
        assert(end.0 == after.0 && end.1 == after.1);
        let name = state.name;
        assert(record(card, name) + state.buffer.bytes + words_bytes(words) =~= record(card, name)
            + state.buffer.bytes + words_bytes(init) + word_bytes(word));
        assert(end.2 =~= acks(words.len()));
    }
}

/// What holds while the host reads a record of `words`, `count` words in:
/// the buffer holds the stretch of the record that ends at the offset
/// reached, and the cursor stands at the next word.
pub open spec fn reading(state: State, card: Card, words: Seq<u16>, count: nat) -> bool {
    &&& state.wf()
    &&& state.pending is None
    &&& state.mode is Read
    &&& card.attached
    &&& card.records.dom().contains(state.name)
    &&& card.records[state.name] == words_bytes(words)
    &&& 2 * words.len() <= u32::MAX
    &&& count <= words.len()
    &&& state.file_pos <= 2 * words.len()
    &&& state.file_pos % 2 == 0
    &&& state.buffer.bytes.len() <= state.file_pos
    &&& state.buffer.bytes.len() % 2 == 0
    &&& state.buffer.bytes == words_bytes(words).subrange(
        state.file_pos - state.buffer.bytes.len(),
        state.file_pos as int,
    )
    &&& state.file_pos - state.buffer.bytes.len() + state.buffer.cursor == 2 * count
}

/// While the host reads, the next continuation is answered with the next
/// word of the record.
pub proof fn lemma_read_word(state: State, card: Card, words: Seq<u16>, count: nat, probe: u16)
    requires
        reading(state, card, words, count),
        count < words.len(),
    ensures
        handshake(state, card, Action::Data(probe)).2 == Frame::Data(words[count as int]),
        handshake(state, card, Action::Data(probe)).1 == card,
        handshake(state, card, Action::Data(probe)).0.name == state.name,
        reading(
            handshake(state, card, Action::Data(probe)).0,
            card,
            words,
            count + 1,
        ),
{
    reveal(handshake);
    let bytes = words_bytes(words);
    lemma_words_bytes(words, count as int);
    lemma_handshake_wf(state, card, Action::Data(probe));
    let after = handshake(state, card, Action::Data(probe));
    if state.buffer.exhausted() {
        let offset = state.file_pos;
        assert(offset == 2 * count);
        let call = Call::Fetch { name: state.name, offset, len: state.buffer.capacity };
        assert(state.execute(Action::Data(probe)).1 == Move::Storage(call));
        let left = (bytes.len() - offset) as nat;
        let len = if state.buffer.capacity <= left {
            state.buffer.capacity
        } else {
            left
        };
        let chunk = bytes.skip(offset as int).take(len as int);
        assert(card.perform(call).1 == Ok::<Seq<u8>, AppError>(chunk));
        assert(chunk.len() == len);
        assert(chunk =~= bytes.subrange(offset as int, (offset + len) as int));
        assert(after.0.buffer.bytes =~= chunk);
        assert(chunk[0] == bytes[2 * count as int]);
        assert(chunk[1] == bytes[2 * count as int + 1]);
    } else {
        let start = state.file_pos - state.buffer.bytes.len();
        let cursor = state.buffer.cursor as int;
        assert(state.buffer.bytes[cursor] == bytes[start + cursor]);
        assert(state.buffer.bytes[cursor + 1] == bytes[start + cursor + 1]);
    }
}

/// While the host reads, its continuations are answered with the words of
/// the record, in order.
pub proof fn lemma_read_words(
    state: State,
    card: Card,
    words: Seq<u16>,
    count: nat,
    probes: Seq<u16>,
)
    requires
        reading(state, card, words, count),
        count + probes.len() <= words.len(),
    ensures
        ({
            let end = run(state, card, data_actions(probes));
            &&& reading(end.0, end.1, words, count + probes.len())
            &&& end.1 == card
            &&& end.2 == data_frames(words.subrange(count as int, (count + probes.len()) as int))
        }),
    decreases probes.len(),
{
    let end = run(state, card, data_actions(probes));
    if probes.len() == 0 {
        assert(end.2 =~= data_frames(words.subrange(count as int, (count + probes.len()) as int)));
    } else {
        let init = probes.drop_last();
        assert(data_actions(probes).drop_last() =~= data_actions(init));
        lemma_read_words(state, card, words, count, init);
        let before = run(state, card, data_actions(init));
        assert(data_actions(probes).last() == Action::Data(probes.last()));
        lemma_read_word(before.0, before.1, words, count + init.len(), probes.last());
        assert(end.2 =~= data_frames(words.subrange(count as int, (count + probes.len()) as int)));
    }
}

/// A whole write: from a ready session and with a card attached, selecting
/// record `address`, opening it for a write, sending the words and stopping
/// is acknowledged at every step, leaves the session at rest, and leaves
/// the bytes of the words in the record.
pub proof fn lemma_write_record(state: State, card: Card, address: u16, words: Seq<u16>)
    requires
        state.wf(),
        state.pending is None,
        state.mode is Ready,
        card.attached,
        address < 64,
        0 < words.len(),
    ensures
        ({
            let select = Action::Data(select_word(address));
            let written = run(
                state,
                card,
                seq![select, Action::Data(0x0001)] + data_actions(words) + seq![Action::Stop],
            );
            &&& written.2 == acks(words.len() + 3)
            &&& written.0.wf()
            &&& written.0.pending is None
            &&& written.0.mode is Ready
            &&& written.1.attached
            &&& written.1.records.dom().contains(digits(address as nat))
            &&& written.1.records[digits(address as nat)] == words_bytes(words)
        }),
{
    let select = Action::Data(select_word(address));
    let name = digits(address as nat);
    lemma_name_of_address(address);

    lemma_run_one(state, card, select);
    lemma_select(state, card, address);
    lemma_handshake_wf(state, card, select);
    let s1 = handshake(state, card, select);
    lemma_run_one(s1.0, s1.1, Action::Data(0x0001));
    lemma_open_write(s1.0, s1.1);
    lemma_handshake_wf(s1.0, s1.1, Action::Data(0x0001));
    let s2 = handshake(s1.0, s1.1, Action::Data(0x0001));
    assert(s2.0.buffer.bytes =~= Seq::<u8>::empty());
    lemma_write_words(s2.0, s2.1, words);
    let s3 = run(s2.0, s2.1, data_actions(words));
    lemma_words_len(words);
    assert(record(s2.1, name) + s2.0.buffer.bytes =~= Seq::<u8>::empty());
    assert(record(s3.1, name) + s3.0.buffer.bytes =~= words_bytes(words));
    lemma_run_one(s3.0, s3.1, Action::Stop);
    lemma_stop_flushes(s3.0, s3.1);
    let s4 = handshake(s3.0, s3.1, Action::Stop);

    let opening = seq![select, Action::Data(0x0001)];
    assert(opening =~= seq![select] + seq![Action::Data(0x0001)]);
    lemma_run_concat(state, card, seq![select], seq![Action::Data(0x0001)]);
    lemma_run_concat(state, card, opening, data_actions(words));
    lemma_run_concat(state, card, opening + data_actions(words), seq![Action::Stop]);
    let written = run(state, card, opening + data_actions(words) + seq![Action::Stop]);
    assert(written.0 == s4.0 && written.1 == s4.1);
    assert(written.2 =~= acks(words.len() + 3));
}

/// A stop during a write leaves in the record what was there followed by
/// what was buffered, puts the session at rest and is acknowledged.
pub proof fn lemma_stop_flushes(state: State, card: Card)
    requires
        state.wf(),
        state.pending is None,
        state.mode is Write,
        card.attached,
    ensures
        ({
            let after = handshake(state, card, Action::Stop);
            &&& after.0 == state.reset()
            &&& after.0.wf()
            &&& after.1.attached
            &&& record(after.1, state.name) == record(card, state.name) + state.buffer.bytes
            &&& record(after.1, state.name).len() > 0 ==> after.1.records.dom().contains(state.name)
            &&& after.2 == Frame::Ack
        }),
{
    reveal(handshake);
    let after = handshake(state, card, Action::Stop);
    assert(record(after.1, state.name) =~= record(card, state.name) + state.buffer.bytes);
}

/// A whole read: from a ready session and with a card that holds the bytes
/// of `words` in record `address`, selecting the record, opening it for a
/// read and sending one continuation per word is answered with two
/// acknowledgements and then the words, in order; the card is as it was.
pub proof fn lemma_read_record(
    state: State,
    card: Card,
    address: u16,
    words: Seq<u16>,
    probes: Seq<u16>,
)
    requires
        state.wf(),
        state.pending is None,
        state.mode is Ready,
        card.attached,
        address < 64,
        card.records.dom().contains(digits(address as nat)),
        card.records[digits(address as nat)] == words_bytes(words),
        2 * words.len() <= u32::MAX,
        probes.len() == words.len(),
    ensures
        ({
            let select = Action::Data(select_word(address));
            let read = run(state, card, seq![select, Action::Data(0x0002)] + data_actions(probes));
            &&& read.2 == acks(2) + data_frames(words)
            &&& read.1 == card
        }),
{
    let select = Action::Data(select_word(address));
    lemma_name_of_address(address);
    lemma_words_len(words);

    lemma_run_one(state, card, select);
    lemma_select(state, card, address);
    lemma_handshake_wf(state, card, select);
    let r1 = handshake(state, card, select);
    lemma_run_one(r1.0, r1.1, Action::Data(0x0002));
    lemma_open_read(r1.0, r1.1);
    lemma_handshake_wf(r1.0, r1.1, Action::Data(0x0002));
    let r2 = handshake(r1.0, r1.1, Action::Data(0x0002));
    assert(reading(r2.0, r2.1, words, 0));
    lemma_read_words(r2.0, r2.1, words, 0, probes);
    assert(words.subrange(0, words.len() as int) =~= words);

    let asking = seq![select, Action::Data(0x0002)];
    assert(asking =~= seq![select] + seq![Action::Data(0x0002)]);
    lemma_run_concat(state, card, seq![select], seq![Action::Data(0x0002)]);
    lemma_run_concat(state, card, asking, data_actions(probes));
    let read = run(state, card, asking + data_actions(probes));
    assert(read.2 =~= acks(2) + data_frames(words));
}

/// Words written to a record are read back from it. From a ready session
/// and with a card attached, selecting record `address`, opening it for a
/// write, sending the words and stopping is acknowledged at every step and
/// leaves the bytes of the words in the record; selecting the record again,
/// opening it for a read and sending one continuation per word is answered
/// with the same words in the same order.
pub proof fn lemma_write_then_read(
    state: State,
    card: Card,
    address: u16,
    words: Seq<u16>,
    probes: Seq<u16>,
)
    requires
        state.wf(),
        state.pending is None,
        state.mode is Ready,
        card.attached,
        address < 64,
        0 < words.len(),
        2 * words.len() <= u32::MAX,
        probes.len() == words.len(),
    ensures
        ({
            let select = Action::Data(select_word(address));
            let written = run(
                state,
                card,
                seq![select, Action::Data(0x0001)] + data_actions(words) + seq![Action::Stop],
            );
            let read = run(
                written.0,
                written.1,
                seq![select, Action::Data(0x0002)] + data_actions(probes),
            );
            &&& written.2 == acks(words.len() + 3)
            &&& record(written.1, digits(address as nat)) == words_bytes(words)
            &&& read.2 == acks(2) + data_frames(words)
            &&& read.1 == written.1
        }),
{
    lemma_write_record(state, card, address, words);
    let select = Action::Data(select_word(address));
    let written = run(
        state,
        card,
        seq![select, Action::Data(0x0001)] + data_actions(words) + seq![Action::Stop],
    );
    lemma_read_record(written.0, written.1, address, words, probes);
}

/// Whether the device answers this event by having the card append.
pub open spec fn flushes_on(state: State, action: Action) -> bool {
    match state.execute(action).1 {
        Move::Storage(Call::Append { .. }) => true,
        _ => false,
    }
}

/// How many appends a run of handshakes asks of the card.
pub open spec fn flushes(state: State, card: Card, actions: Seq<Action>) -> nat
    decreases actions.len(),
{
    if actions.len() == 0 {
        0
    } else {
        let before = run(state, card, actions.drop_last());
        flushes(state, card, actions.drop_last()) + (if flushes_on(before.0, actions.last()) {
            1nat
        } else {
            0nat
        })
    }
}

/// The appends of a run over two sequences of events are those of the run
/// over the first and those of the run over the second.
pub proof fn lemma_flushes_concat(
    state: State,
    card: Card,
    first: Seq<Action>,
    second: Seq<Action>,
)
    ensures
        flushes(state, card, first + second) == flushes(state, card, first) + flushes(
            run(state, card, first).0,
            run(state, card, first).1,
            second,
        ),
    decreases second.len(),
{
    if second.len() == 0 {
        assert(first + second =~= first);
    } else {
        assert((first + second).drop_last() =~= first + second.drop_last());
        assert((first + second).last() == second.last());
        lemma_flushes_concat(state, card, first, second.drop_last());
        lemma_run_concat(state, card, first, second.drop_last());
    }
}

/// The appends of a run over one event: one if the event causes a flush,
/// else none.
pub proof fn lemma_flushes_one(state: State, card: Card, action: Action)
    ensures
        flushes(state, card, seq![action]) == (if flushes_on(state, action) {
            1nat
        } else {
            0nat
        }),
{
    let actions = seq![action];
    assert(actions.drop_last() =~= Seq::<Action>::empty());
    assert(flushes(state, card, actions.drop_last()) == 0);
    assert(run(state, card, actions.drop_last()).0 == state);
}

/// While the host writes, every flush takes a full buffer: the appends so
/// far, each of as many bytes as the buffer's capacity, and the bytes still
/// buffered make up the bytes that were buffered at first and two for every
/// word since.
pub proof fn lemma_flushes_of_words(state: State, card: Card, words: Seq<u16>)
    requires
        state.wf(),
        state.pending is None,
        state.mode is Write,
        card.attached,
    ensures
        flushes(state, card, data_actions(words)) * state.buffer.capacity + run(
            state,
            card,
            data_actions(words),
        ).0.buffer.bytes.len() == state.buffer.bytes.len() + 2 * words.len(),
    decreases words.len(),
{
    let capacity = state.buffer.capacity as int;
    if words.len() == 0 {
        assert(flushes(state, card, data_actions(words)) == 0);
        assert(run(state, card, data_actions(words)).0 == state);
    } else {
        let init = words.drop_last();
        let word = words.last();
        assert(data_actions(words).drop_last() =~= data_actions(init));
        assert(data_actions(words).last() == Action::Data(word));
        lemma_flushes_of_words(state, card, init);
        lemma_write_words(state, card, init);
        let before = run(state, card, data_actions(init));
        let after = handshake(before.0, before.1, Action::Data(word));
        assert(run(state, card, data_actions(words)).0 == after.0);
        lemma_flush_when_full(before.0, before.1, word);
        let held = before.0.buffer.bytes.len() as int;
        let count = flushes(state, card, data_actions(init)) as int;
        assert(before.0.buffer.capacity == capacity);
        assert(count * capacity + held == state.buffer.bytes.len() + 2 * init.len());
        assert(before.0.buffer.pushed(word).bytes.len() == held + 2);
        if before.0.execute(Action::Data(word)).1 is Storage {
            assert(flushes_on(before.0, Action::Data(word)));
            assert(flushes(state, card, data_actions(words)) == count + 1);
            assert(after.0.buffer.bytes.len() == 0);
            assert((count + 1) * capacity == count * capacity + capacity) by (nonlinear_arith);
        } else {
            assert(!flushes_on(before.0, Action::Data(word)));
            assert(flushes(state, card, data_actions(words)) == count);
            assert(after.0.buffer.bytes.len() == held + 2);
        }
    }
}

/// The buffer's boundary over a whole write. From a ready session and with
/// a card attached, selecting a record, opening it for a write, sending the
/// words and stopping asks the card for as many appends as the bytes of the
/// words fill buffers, the last of them perhaps in part. So words that fill
/// the buffer exactly cause one append, and one word more causes two.
pub proof fn lemma_buffer_boundary(state: State, card: Card, address: u16, words: Seq<u16>)
    requires
        state.wf(),
        state.pending is None,
        state.mode is Ready,
        card.attached,
        address < 64,
    ensures
        ({
            let session = seq![Action::Data(select_word(address)), Action::Data(0x0001)]
                + data_actions(words) + seq![Action::Stop];
            let count = flushes(state, card, session);
            let capacity = state.buffer.capacity;
            &&& (count - 1) * capacity < 2 * words.len() <= count * capacity
            &&& 2 * words.len() == capacity ==> count == 1
            &&& 2 * words.len() == capacity + 2 ==> count == 2
        }),
{
    let select = Action::Data(select_word(address));
    let capacity = state.buffer.capacity as int;
    lemma_name_of_address(address);
    reveal(handshake);

    lemma_select(state, card, address);
    lemma_handshake_wf(state, card, select);
    lemma_address_frame(0, address);
    let s1 = handshake(state, card, select);
    assert(!flushes_on(state, select));
    lemma_open_write(s1.0, s1.1);
    lemma_handshake_wf(s1.0, s1.1, Action::Data(0x0001));
    let s2 = handshake(s1.0, s1.1, Action::Data(0x0001));
    assert(!flushes_on(s1.0, Action::Data(0x0001)));
    assert(s2.0.buffer.bytes.len() == 0);

    lemma_write_words(s2.0, s2.1, words);
    lemma_flushes_of_words(s2.0, s2.1, words);
    let s3 = run(s2.0, s2.1, data_actions(words));
    lemma_stop(s3.0, s3.1);

    let opening = seq![select, Action::Data(0x0001)];
    assert(opening =~= seq![select] + seq![Action::Data(0x0001)]);
    lemma_run_one(state, card, select);
    lemma_run_one(s1.0, s1.1, Action::Data(0x0001));
    lemma_run_concat(state, card, seq![select], seq![Action::Data(0x0001)]);
    lemma_run_concat(state, card, opening, data_actions(words));
    lemma_flushes_one(state, card, select);
    lemma_flushes_one(s1.0, s1.1, Action::Data(0x0001));
    lemma_flushes_one(s3.0, s3.1, Action::Stop);
    lemma_flushes_concat(state, card, seq![select], seq![Action::Data(0x0001)]);
    lemma_flushes_concat(state, card, opening, data_actions(words));
    lemma_flushes_concat(state, card, opening + data_actions(words), seq![Action::Stop]);

    let full = flushes(s2.0, s2.1, data_actions(words)) as int;
    let left = s3.0.buffer.bytes.len() as int;
    let count = flushes(state, card, opening + data_actions(words) + seq![Action::Stop]) as int;
    assert(count == full + (if left > 0 { 1int } else { 0int }));
    assert(full * capacity + left == 2 * words.len());
    assert(0 <= left < capacity);
    let bytes = 2 * words.len() as int;
    assert((count - 1) * capacity < bytes <= count * capacity) by (nonlinear_arith)
        requires
            full * capacity + left == bytes,
            0 <= left < capacity,
            count == full + (if left > 0 { 1int } else { 0int }),
    ;
    assert(bytes == capacity ==> count == 1) by (nonlinear_arith)
        requires
            (count - 1) * capacity < bytes <= count * capacity,
            capacity >= 2,
            count >= 0,
    ;
    assert(bytes == capacity + 2 ==> count == 2) by (nonlinear_arith)
        requires
            (count - 1) * capacity < bytes <= count * capacity,
            capacity >= 2,
            count >= 0,
    ;
}

} // verus!
