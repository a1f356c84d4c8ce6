//! What holds of the driver as a whole.
//!
//! Each law is stated over what the functions of the library promise: [`SerialView`] and
//! [`SerialMultiPlayerView`] and what becomes of them.

use vstd::prelude::*;

use crate::interrupt::SerialView;
use crate::multiplayer::SerialMultiPlayerView;
use crate::registers::{
    SerialMultiPlayerReg, SerialReg, SERIAL_CNT_BIT_IRQ, SERIAL_CNT_BIT_MULTIPLAYER,
    SERIAL_CNT_BIT_START, SERIAL_MAX_PLAYERS, SERIAL_RCNT_BIT_GPIO_H, SERIAL_RCNT_BIT_GPIO_L,
    SIO_INVALID_PLAYER_ID, SIO_MULTI_PLAY_EMPTY_DATA,
    SIO_MULTI_PLAY_OFFLINE_DATA,
};

verus! {

use crate::fifo::{fifo_append, fifo_front, fifo_lost, fifo_pop, fifo_push, FIFO_CAPACITY};
use crate::interrupt::received_wf;
use crate::registers::has_bit;

// The queues.

/// A queue takes offered words in order until it is full: it then holds the first sixteen of
/// what it held before followed by what was offered.
pub proof fn law_queue_keeps_the_first_words(queue: Seq<u16>, words: Seq<u16>)
    requires
        queue.len() <= FIFO_CAPACITY,
    ensures
        fifo_append(queue, words) == (if (queue + words).len() <= FIFO_CAPACITY {
            queue + words
        } else {
            (queue + words).take(FIFO_CAPACITY as int)
        }),
{
    if (queue + words).len() > FIFO_CAPACITY {
        assert(fifo_append(queue, words) =~= (queue + words).take(FIFO_CAPACITY as int));
    }
}

/// It makes no difference whether words are offered to a queue in two batches or in one.
pub proof fn law_queue_takes_batches(queue: Seq<u16>, first: Seq<u16>, second: Seq<u16>)
    requires
        queue.len() <= FIFO_CAPACITY,
    ensures
        fifo_append(fifo_append(queue, first), second) == fifo_append(queue, first + second),
{
    assert(fifo_append(fifo_append(queue, first), second) =~= fifo_append(queue, first + second));
}

/// What is left of a queue once its front word has been taken out `n` times.
pub open spec fn fifo_popped(queue: Seq<u16>, n: nat) -> Seq<u16>
    decreases n,
{
    if n == 0 {
        queue
    } else {
        fifo_pop(fifo_popped(queue, (n - 1) as nat))
    }
}

/// Words leave a queue in the order in which they are in it.
pub proof fn law_queue_is_read_in_order(queue: Seq<u16>, n: nat)
    ensures
        fifo_front(fifo_popped(queue, n)) == (if n < queue.len() {
            Some(queue[n as int])
        } else {
            None
        }),
        fifo_popped(queue, n) == (if n < queue.len() {
            queue.skip(n as int)
        } else {
            Seq::empty()
        }),
    decreases n,
{
    if n > 0 {
        law_queue_is_read_in_order(queue, (n - 1) as nat);
    }
    assert(fifo_popped(queue, n) =~= (if n < queue.len() {
        queue.skip(n as int)
    } else {
        Seq::empty()
    }));
}

// Transfers.

/// The interrupt side after a series of serial interrupts, given the registers as they read at
/// each of them.
pub open spec fn after_interrupts(serial: SerialView, readings: Seq<SerialReg>) -> SerialView
    decreases readings.len(),
{
    if readings.len() == 0 {
        serial
    } else {
        after_interrupts(serial, readings.drop_last()).with_registers(
            readings.last(),
        ).after_serial_irq()
    }
}

/// How many interrupts of a series find the outcome of a transfer.
pub open spec fn transfers(readings: Seq<SerialReg>) -> nat
    decreases readings.len(),
{
    if readings.len() == 0 {
        0
    } else if readings.last().multiplay_mode_reg.transferred() {
        transfers(readings.drop_last()) + 1
    } else {
        transfers(readings.drop_last())
    }
}

/// The word in SIOMLT_SEND after `n` transfers: the queued words follow the one that was there at
/// first, and when none is left it is the mark for "nothing sent".
pub open spec fn word_up(serial: SerialView, n: nat) -> u16 {
    if n == 0 {
        serial.serial_reg.multiplay_mode_reg.sio_multi_data_send
    } else if n <= serial.fifo_send.len() {
        serial.fifo_send[n - 1]
    } else {
        SIO_MULTI_PLAY_EMPTY_DATA
    }
}

/// Whether the port keeps the word to send: at each interrupt of a series it still reads as it was
/// left at the one before.
pub open spec fn word_is_kept(serial: SerialView, readings: Seq<SerialReg>) -> bool {
    forall|k: int|
        0 <= k < readings.len() ==> (
        #[trigger] readings[k]).multiplay_mode_reg.sio_multi_data_send == after_interrupts(
            serial,
            readings.take(k),
        ).serial_reg.multiplay_mode_reg.sio_multi_data_send
}

/// The words that a series of serial interrupts brings from `player`, in order.
pub open spec fn words_heard(readings: Seq<SerialReg>, player: int) -> Seq<u16>
    decreases readings.len(),
{
    if readings.len() == 0 {
        Seq::empty()
    } else {
        let reg = readings.last().multiplay_mode_reg;
        let before = words_heard(readings.drop_last(), player);
        match reg.word_from(player) {
            Some(word) if reg.transferred() => before.push(word),
            _ => before,
        }
    }
}

/// What holds of the interrupt side at all times holds after any series of interrupts.
pub proof fn law_interrupts_keep_wf(serial: SerialView, readings: Seq<SerialReg>)
    requires
        serial.wf(),
    ensures
        after_interrupts(serial, readings).wf(),
    decreases readings.len(),
{
    if readings.len() > 0 {
        law_interrupts_keep_wf(serial, readings.drop_last());
        let before = after_interrupts(serial, readings.drop_last());
        before.with_registers(readings.last()).lemma_serial_irq_keeps_wf();
    }
}

/// Queued words go out one per transfer and in order, and when none is left the mark for
/// "nothing sent" goes out.
pub proof fn law_words_go_out_in_order(serial: SerialView, readings: Seq<SerialReg>)
    ensures
        after_interrupts(serial, readings).fifo_send == fifo_popped(
            serial.fifo_send,
            transfers(readings),
        ),
        readings.len() > 0 && readings.last().multiplay_mode_reg.transferred() ==> after_interrupts(
            serial,
            readings,
        ).serial_reg.multiplay_mode_reg.sio_multi_data_send == word_up(
            serial,
            transfers(readings),
        ),
    decreases readings.len(),
{
    if readings.len() > 0 {
        let earlier = readings.drop_last();
        law_words_go_out_in_order(serial, earlier);
        law_queue_is_read_in_order(serial.fifo_send, transfers(earlier));
    }
}

/// Interrupts that do not find the outcome of a transfer leave the order as it is: on a port that
/// keeps the word to send, how many transfers there were says which word is up.
pub proof fn law_failed_transfers_keep_the_order(serial: SerialView, readings: Seq<SerialReg>)
    requires
        word_is_kept(serial, readings),
    ensures
        after_interrupts(serial, readings).serial_reg.multiplay_mode_reg.sio_multi_data_send
            == word_up(serial, transfers(readings)),
    decreases readings.len(),
{
    if readings.len() > 0 {
        let earlier = readings.drop_last();
        assert forall|k: int| 0 <= k < earlier.len() implies (
        #[trigger] earlier[k]).multiplay_mode_reg.sio_multi_data_send == after_interrupts(
            serial,
            earlier.take(k),
        ).serial_reg.multiplay_mode_reg.sio_multi_data_send by {
            assert(earlier[k] == readings[k]);
            assert(earlier.take(k) =~= readings.take(k));
        }
        law_failed_transfers_keep_the_order(serial, earlier);
        law_words_go_out_in_order(serial, readings);
        assert(earlier =~= readings.take(readings.len() - 1));
        assert(readings[readings.len() - 1].multiplay_mode_reg.sio_multi_data_send
            == after_interrupts(serial, earlier).serial_reg.multiplay_mode_reg.sio_multi_data_send);
    }
}

/// The words of a player come in in order, as far as there is room for them: exactly those that
/// were sent while the player was connected and that are not the mark for "nothing sent".
pub proof fn law_words_come_in_in_order(
    serial: SerialView,
    readings: Seq<SerialReg>,
    player: int,
)
    requires
        serial.wf(),
        0 <= player < SERIAL_MAX_PLAYERS,
    ensures
        after_interrupts(serial, readings).fifo_received[player] == fifo_append(
            serial.fifo_received[player],
            words_heard(readings, player),
        ),
    decreases readings.len(),
{
    let queue = serial.fifo_received[player];
    assert(received_wf(queue));
    if readings.len() == 0 {
        assert(fifo_append(queue, Seq::empty()) =~= queue);
    } else {
        let earlier = readings.drop_last();
        let reg = readings.last().multiplay_mode_reg;
        law_words_come_in_in_order(serial, earlier, player);
        if reg.transferred() {
            if let Some(word) = reg.word_from(player) {
                let heard = words_heard(earlier, player);
                law_queue_takes_batches(queue, heard, seq![word]);
                assert(heard + seq![word] =~= heard.push(word));
                assert(fifo_append(fifo_append(queue, heard), seq![word]) =~= fifo_push(
                    fifo_append(queue, heard),
                    word,
                ));
            }
        }
    }
}

/// An interrupt that does not find the outcome of a transfer brings no words and takes none, and
/// leaves the word to send as it is; all that changes is that no player is known any more.
pub proof fn law_failed_transfer_loses_nothing(serial: SerialView)
    requires
        !serial.serial_reg.multiplay_mode_reg.transferred(),
    ensures
        serial.after_serial_irq().serial_reg == serial.serial_reg,
        serial.after_serial_irq().fifo_send == serial.fifo_send,
        serial.after_serial_irq().fifo_received == serial.fifo_received,
        serial.after_serial_irq().player_id == SIO_INVALID_PLAYER_ID,
        serial.after_serial_irq().players_online == 0,
{
}

// From one program to another.

/// Whether two consoles are on one link during a series of interrupts, the first of them in the
/// place `player`. Either both find the outcome of a transfer or neither does, and the port of the
/// first keeps the word to send. At each transfer the second finds in that place the word that the
/// first had up, and all places before it are connected.
pub open spec fn on_one_link(
    sender: SerialView,
    sender_readings: Seq<SerialReg>,
    receiver_readings: Seq<SerialReg>,
    player: int,
) -> bool {
    &&& sender_readings.len() == receiver_readings.len()
    &&& word_is_kept(sender, sender_readings)
    &&& forall|k: int|
        0 <= k < receiver_readings.len() ==> shared_transfer(
            after_interrupts(sender, sender_readings.take(k)),
            sender_readings[k],
            #[trigger] receiver_readings[k],
            player,
        )
}

/// Whether two consoles see the same transfer, or both see none.
pub open spec fn shared_transfer(
    sender: SerialView,
    sender_reading: SerialReg,
    receiver_reading: SerialReg,
    player: int,
) -> bool {
    let reg = receiver_reading.multiplay_mode_reg;
    &&& sender_reading.multiplay_mode_reg.transferred() <==> reg.transferred()
    &&& reg.transferred() ==> reg.sio_multi_data_i[player]
        == sender.serial_reg.multiplay_mode_reg.sio_multi_data_send
    &&& reg.transferred() ==> forall|j: int|
        0 <= j < player ==> reg.sio_multi_data_i[j] != SIO_MULTI_PLAY_OFFLINE_DATA
}

/// The words that go out in `n` transfers: the one that is up at first, unless it is the mark for
/// "nothing sent", and then the queued ones.
pub open spec fn words_sent(sender: SerialView, n: nat) -> Seq<u16> {
    let queued = if n <= sender.fifo_send.len() {
        sender.fifo_send.take(n - 1)
    } else {
        sender.fifo_send
    };
    if n == 0 {
        Seq::empty()
    } else {
        word_up_at_first(sender) + queued
    }
}

/// The word that is up at first, unless it is the mark for "nothing sent".
pub open spec fn word_up_at_first(sender: SerialView) -> Seq<u16> {
    let word = sender.serial_reg.multiplay_mode_reg.sio_multi_data_send;
    if word == SIO_MULTI_PLAY_EMPTY_DATA {
        Seq::empty()
    } else {
        seq![word]
    }
}

/// Whether a queue holds only words that can be told from the marks for "nothing sent" and "not
/// connected".
pub open spec fn sendable(queue: Seq<u16>) -> bool {
    forall|i: int|
        0 <= i < queue.len() ==> #[trigger] queue[i] != SIO_MULTI_PLAY_EMPTY_DATA && queue[i]
            != SIO_MULTI_PLAY_OFFLINE_DATA
}

/// What one console hears from another is what the other sends, in order and without gaps.
pub proof fn law_words_sent_are_heard(
    sender: SerialView,
    sender_readings: Seq<SerialReg>,
    receiver_readings: Seq<SerialReg>,
    player: int,
)
    requires
        0 <= player < SERIAL_MAX_PLAYERS,
        on_one_link(sender, sender_readings, receiver_readings, player),
        sender.serial_reg.multiplay_mode_reg.sio_multi_data_send != SIO_MULTI_PLAY_OFFLINE_DATA,
        sendable(sender.fifo_send),
    ensures
        transfers(sender_readings) == transfers(receiver_readings),
        words_heard(receiver_readings, player) == words_sent(sender, transfers(receiver_readings)),
    decreases receiver_readings.len(),
{
    let len = receiver_readings.len() as int;
    if len > 0 {
        let earlier_sent = sender_readings.drop_last();
        let earlier = receiver_readings.drop_last();
        assert(earlier_sent =~= sender_readings.take(len - 1));
        assert forall|k: int| 0 <= k < earlier_sent.len() implies (
        #[trigger] earlier_sent[k]).multiplay_mode_reg.sio_multi_data_send == after_interrupts(
            sender,
            earlier_sent.take(k),
        ).serial_reg.multiplay_mode_reg.sio_multi_data_send by {
            assert(earlier_sent[k] == sender_readings[k]);
            assert(earlier_sent.take(k) =~= sender_readings.take(k));
        }
        assert forall|k: int| 0 <= k < earlier.len() implies shared_transfer(
            after_interrupts(sender, earlier_sent.take(k)),
            earlier_sent[k],
            #[trigger] earlier[k],
            player,
        ) by {
            assert(earlier[k] == receiver_readings[k]);
            assert(earlier_sent.take(k) =~= sender_readings.take(k));
        }
        law_words_sent_are_heard(sender, earlier_sent, earlier, player);
        law_failed_transfers_keep_the_order(sender, earlier_sent);
        let reg = receiver_readings[len - 1].multiplay_mode_reg;
        let before = transfers(earlier);
        let queue = sender.fifo_send;
        if reg.transferred() {
            assert(reg.sio_multi_data_i[player] == word_up(sender, before));
            assert(word_up(sender, before) != SIO_MULTI_PLAY_OFFLINE_DATA);
            law_connected_players_are_counted(reg, player);
            if 0 < before <= queue.len() {
                assert(queue[before - 1] != SIO_MULTI_PLAY_EMPTY_DATA);
                assert(queue.take(before as int) =~= queue.take(before - 1).push(
                    queue[before - 1],
                ));
            }
            assert(words_heard(receiver_readings, player) =~= words_sent(sender, before + 1));
        }
    }
}

/// What becomes of a word that one program sends: it goes to the queue of its interrupt side, over
/// the link, and by way of the interrupt side of another console to that console's program. Each
/// queue on the way takes words in order as long as it has room.
pub proof fn law_words_reach_the_other_program(
    sender_program: SerialMultiPlayerView,
    sender: SerialView,
    sender_readings: Seq<SerialReg>,
    receiver_program: SerialMultiPlayerView,
    receiver: SerialView,
    receiver_readings: Seq<SerialReg>,
    player: int,
)
    requires
        0 <= player < SERIAL_MAX_PLAYERS,
        receiver.wf(),
        on_one_link(sender.synced(sender_program), sender_readings, receiver_readings, player),
        sender.serial_reg.multiplay_mode_reg.sio_multi_data_send != SIO_MULTI_PLAY_OFFLINE_DATA,
        sendable(sender.fifo_send),
        sendable(sender_program.fifo_send),
    ensures
        receiver_program.synced(
            after_interrupts(receiver, receiver_readings),
        ).fifo_received[player] == fifo_append(
            receiver_program.fifo_received[player],
            fifo_append(
                receiver.fifo_received[player],
                words_sent(sender.synced(sender_program), transfers(receiver_readings)),
            ),
        ),
{
    let synced = sender.synced(sender_program);
    law_words_sent_are_heard(synced, sender_readings, receiver_readings, player);
    law_words_come_in_in_order(receiver, receiver_readings, player);
}

/// What one program sends is what another reads: where the queues on the way have room, and after
/// enough transfers, the other program finds all words that were on the way, in order, and
/// nothing else.
pub proof fn law_what_is_sent_is_read(
    sender_program: SerialMultiPlayerView,
    sender: SerialView,
    sender_readings: Seq<SerialReg>,
    receiver_program: SerialMultiPlayerView,
    receiver: SerialView,
    receiver_readings: Seq<SerialReg>,
    player: int,
)
    requires
        0 <= player < SERIAL_MAX_PLAYERS,
        receiver.wf(),
        on_one_link(sender.synced(sender_program), sender_readings, receiver_readings, player),
        sender.serial_reg.multiplay_mode_reg.sio_multi_data_send != SIO_MULTI_PLAY_OFFLINE_DATA,
        sendable(sender.fifo_send),
        sendable(sender_program.fifo_send),
        sender.fifo_send.len() + sender_program.fifo_send.len() <= FIFO_CAPACITY,
        transfers(receiver_readings) > sender.fifo_send.len() + sender_program.fifo_send.len(),
        receiver_program.fifo_received[player].len() + receiver.fifo_received[player].len()
            + word_up_at_first(sender).len() + sender.fifo_send.len()
            + sender_program.fifo_send.len() <= FIFO_CAPACITY,
    ensures
        receiver_program.synced(
            after_interrupts(receiver, receiver_readings),
        ).fifo_received[player] == receiver_program.fifo_received[player]
            + receiver.fifo_received[player] + word_up_at_first(sender) + sender.fifo_send
            + sender_program.fifo_send,
{
    law_words_reach_the_other_program(
        sender_program,
        sender,
        sender_readings,
        receiver_program,
        receiver,
        receiver_readings,
        player,
    );
    let words = words_sent(sender.synced(sender_program), transfers(receiver_readings));
    assert(words =~= word_up_at_first(sender) + (sender.fifo_send + sender_program.fifo_send));
    assert(receiver_program.fifo_received[player] + (receiver.fifo_received[player] + words)
        =~= receiver_program.fifo_received[player] + receiver.fifo_received[player]
        + word_up_at_first(sender) + sender.fifo_send + sender_program.fifo_send);
}

// The players.

/// A player is counted if and only if neither that player's data register nor one before it reads
/// as offline.
pub proof fn law_connected_players_are_counted(reg: SerialMultiPlayerReg, player: int)
    requires
        0 <= player < SERIAL_MAX_PLAYERS,
    ensures
        player < reg.players() <==> forall|j: int|
            0 <= j <= player ==> reg.sio_multi_data_i[j] != SIO_MULTI_PLAY_OFFLINE_DATA,
        0 <= reg.players() <= SERIAL_MAX_PLAYERS,
{
}

/// After a sync that follows a transfer, exactly those players are online whose data register and
/// all before it did not read as offline.
pub proof fn law_online_players_are_connected(
    program: SerialMultiPlayerView,
    serial: SerialView,
    player: int,
)
    requires
        program.is_enabled,
        serial.serial_reg.multiplay_mode_reg.transferred(),
        player >= 0,
    ensures
        program.synced(serial.after_serial_irq()).online(player) <==> {
            &&& player < SERIAL_MAX_PLAYERS
            &&& forall|j: int|
                0 <= j <= player
                    ==> serial.serial_reg.multiplay_mode_reg.sio_multi_data_i[j]
                    != SIO_MULTI_PLAY_OFFLINE_DATA
        },
{
    if player < SERIAL_MAX_PLAYERS {
        law_connected_players_are_counted(serial.serial_reg.multiplay_mode_reg, player);
    }
}

// The timer interrupt.

/// A timer interrupt leaves a transfer going on if one was going on already or if this console may
/// start one, and only then. It does nothing else.
pub proof fn law_timer_starts_transfers(serial: SerialView)
    ensures
        serial.after_timer_irq() == serial.with_registers(
            serial.serial_reg.with_cnt(
                serial.after_timer_irq().serial_reg.multiplay_mode_reg.sio_cnt,
            ),
        ),
        serial.after_timer_irq().serial_reg.multiplay_mode_reg.sio_cnt | SERIAL_CNT_BIT_START
            == serial.serial_reg.multiplay_mode_reg.sio_cnt | SERIAL_CNT_BIT_START,
        serial.after_timer_irq().serial_reg.multiplay_mode_reg.sending() <==> {
            ||| serial.serial_reg.multiplay_mode_reg.sending()
            ||| serial.serial_reg.multiplay_mode_reg.may_start()
        },
{
    let cnt = serial.serial_reg.multiplay_mode_reg.sio_cnt;
    assert((cnt | 0x0080) & 0x0080 != 0 && (cnt | 0x0080) | 0x0080 == cnt | 0x0080) by (bit_vector);
}

/// A slave never starts a transfer: a timer interrupt changes nothing there.
pub proof fn law_slaves_never_start(serial: SerialView)
    requires
        serial.serial_reg.multiplay_mode_reg.slave(),
    ensures
        serial.after_timer_irq() == serial,
{
}

/// A transfer that goes on is not started again: a second timer interrupt changes nothing.
pub proof fn law_transfers_start_once(serial: SerialView)
    ensures
        serial.after_timer_irq().after_timer_irq() == serial.after_timer_irq(),
{
    law_timer_starts_transfers(serial);
}

// Activation.

/// What activation writes: general-purpose mode is left, multiplayer mode and the serial interrupt
/// are on, the two low bits of SIOCNT hold the baud rate, no transfer is started and there is
/// nothing to send.
pub proof fn law_activation_sets_up_the_port(
    program: SerialMultiPlayerView,
    serial_reg: SerialReg,
)
    ensures
        ({
            let written = program.activation_registers(serial_reg);
            let cnt = written.multiplay_mode_reg.sio_cnt;
            &&& !has_bit(written.gpio_mode_reg.rcnt, SERIAL_RCNT_BIT_GPIO_H)
            &&& has_bit(cnt, SERIAL_CNT_BIT_MULTIPLAYER)
            &&& has_bit(cnt, SERIAL_CNT_BIT_IRQ)
            &&& !has_bit(cnt, SERIAL_CNT_BIT_START)
            &&& cnt % 4 == program.baudrate.bits()
            &&& written.multiplay_mode_reg.sio_multi_data_send == SIO_MULTI_PLAY_EMPTY_DATA
        }),
{
    let rcnt = serial_reg.gpio_mode_reg.rcnt;
    let rate = program.baudrate.bits();
    assert((rcnt & !0x8000) & 0x8000 == 0) by (bit_vector);
    assert(rate < 4 ==> {
        let cnt = (0x2000 | rate) | 0x4000;
        &&& cnt & 0x2000 != 0
        &&& cnt & 0x4000 != 0
        &&& cnt & 0x0080 == 0
        &&& cnt % 4 == rate
    }) by (bit_vector);
}

/// What deactivation does to the port: it is in general-purpose mode, the serial interrupt is off,
/// and nothing else has changed.
pub proof fn law_deactivation_frees_the_port(serial: SerialView)
    ensures
        ({
            let before = serial.serial_reg;
            let after = serial.deactivated().serial_reg;
            let mode_bits = SERIAL_RCNT_BIT_GPIO_H | SERIAL_RCNT_BIT_GPIO_L;
            &&& has_bit(after.gpio_mode_reg.rcnt, SERIAL_RCNT_BIT_GPIO_H)
            &&& !has_bit(after.gpio_mode_reg.rcnt, SERIAL_RCNT_BIT_GPIO_L)
            &&& after.gpio_mode_reg.rcnt & !mode_bits == before.gpio_mode_reg.rcnt & !mode_bits
            &&& !has_bit(after.multiplay_mode_reg.sio_cnt, SERIAL_CNT_BIT_IRQ)
            &&& after.multiplay_mode_reg.sio_cnt | SERIAL_CNT_BIT_IRQ
                == before.multiplay_mode_reg.sio_cnt | SERIAL_CNT_BIT_IRQ
            &&& after.multiplay_mode_reg.sio_multi_data_send
                == before.multiplay_mode_reg.sio_multi_data_send
            &&& after.multiplay_mode_reg.sio_multi_data_i
                == before.multiplay_mode_reg.sio_multi_data_i
        }),
{
    let rcnt = serial.serial_reg.gpio_mode_reg.rcnt;
    let cnt = serial.serial_reg.multiplay_mode_reg.sio_cnt;
    assert({
        let new = (rcnt & !0x4000) | 0x8000;
        &&& new & 0x8000 != 0
        &&& new & 0x4000 == 0
        &&& new & !(0x8000u16 | 0x4000u16) == rcnt & !(0x8000u16 | 0x4000u16)
    }) by (bit_vector);
    assert({
        let new = cnt & !0x4000;
        &&& new & 0x4000 == 0
        &&& new | 0x4000 == cnt | 0x4000
    }) by (bit_vector);
}

/// Activation and then deactivation leave the program's side inactive and the timer stopped, with
/// all queues as they were.
pub proof fn law_deactivation_undoes_activation(
    program: SerialMultiPlayerView,
    reg: SerialMultiPlayerReg,
)
    requires
        program.wf(),
    ensures
        ({
            let after = program.activated(reg).deactivated();
            &&& !after.is_enabled
            &&& !after.interrupt_timer.enabled
            &&& forall|player: int| !after.online(player)
            &&& after.fifo_send == program.fifo_send
            &&& after.fifo_received == program.fifo_received
            &&& after.wf()
        }),
{
}

// Syncing.

/// A sync hands everything over: one that follows at once, with no interrupt in between, changes
/// nothing.
pub proof fn law_sync_hands_over_everything(program: SerialMultiPlayerView, serial: SerialView)
    requires
        program.wf(),
        serial.wf(),
    ensures
        program.synced(serial).synced(serial.synced(program)) == program.synced(serial),
        serial.synced(program).synced(program.synced(serial)) == serial.synced(program),
{
    program.lemma_sync_keeps_wf(serial);
    let once = program.synced(serial);
    let twice = once.synced(serial.synced(program));
    assert forall|i: int| 0 <= i < SERIAL_MAX_PLAYERS implies twice.fifo_received[i]
        == once.fifo_received[i] by {
        assert(received_wf(once.fifo_received[i]));
        assert(fifo_append(once.fifo_received[i], Seq::empty()) =~= once.fifo_received[i]);
    }
    assert(twice =~~= once);
    assert(serial.synced(program).synced(once) =~~= serial.synced(program));
}

/// While there is room on the other side, a sync loses nothing.
pub proof fn law_sync_loses_nothing(
    program: SerialMultiPlayerView,
    serial: SerialView,
    player: int,
)
    requires
        0 <= player < SERIAL_MAX_PLAYERS,
    ensures
        serial.fifo_send.len() + program.fifo_send.len() <= FIFO_CAPACITY ==> serial.synced(
            program,
        ).fifo_send == serial.fifo_send + program.fifo_send,
        program.fifo_received[player].len() + serial.fifo_received[player].len() <= FIFO_CAPACITY
            ==> program.synced(serial).fifo_received[player] == program.fifo_received[player]
            + serial.fifo_received[player],
{
}

/// A sync accounts for every word to send: those that were queued on either side are queued on the
/// interrupt side now, or they are counted as lost.
pub proof fn law_sync_counts_what_it_loses(program: SerialMultiPlayerView, serial: SerialView)
    requires
        program.wf(),
        serial.wf(),
    ensures
        serial.fifo_send.len() + program.fifo_send.len() == serial.synced(program).fifo_send.len()
            + fifo_lost(serial.fifo_send.len(), program.fifo_send.len()),
{
}

} // verus!
