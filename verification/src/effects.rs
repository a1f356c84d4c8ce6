//! What each operation does, down to the bits of the registers.
//!
//! The laws here are stated over the raw words of the registers, the contents of the queues and the
//! numbers that the program sees, so that each of them says on its own what comes out of an
//! operation for whatever goes in.

use vstd::prelude::*;

use crate::interrupt::{Serial, SerialView};
use crate::multiplayer::{SerialMultiPlayerView, TimerSettings};
use crate::registers::{
    SerialBaudRate, SerialGpio, SerialMultiPlayerReg, SerialReg, SERIAL_MAX_PLAYERS,
    SIO_INVALID_PLAYER_ID, SIO_MULTI_PLAY_EMPTY_DATA, SIO_MULTI_PLAY_OFFLINE_DATA,
};

verus! {

use crate::dump::{hex_digit, lower_hex, register_dump};
use crate::fifo::{fifo_append, fifo_front, fifo_lost, fifo_pop, fifo_push, FIFO_CAPACITY};
use crate::interrupt::link_view;

// The control register.

/// Bits 2, 3, 6 and 7 of SIOCNT say whether the console is a slave, whether all are ready, whether
/// there is an error and whether a transfer is going on, each on its own; bits 4 and 5 are the
/// player id.
pub proof fn law_status_is_read_from_the_control_bits(reg: SerialMultiPlayerReg)
    ensures
        reg.slave() <==> (reg.sio_cnt / 0x0004) % 2 == 1,
        reg.ready() <==> (reg.sio_cnt / 0x0008) % 2 == 1,
        reg.error() <==> (reg.sio_cnt / 0x0040) % 2 == 1,
        reg.sending() <==> (reg.sio_cnt / 0x0080) % 2 == 1,
        reg.player_id() == (reg.sio_cnt & 0x0030) >> 4,
        0 <= reg.player_id() < 4,
{
    let cnt: u16 = reg.sio_cnt;
    assert((cnt & 0x0004 != 0) <==> (cnt / 0x0004) % 2 == 1) by (bit_vector);
    assert((cnt & 0x0008 != 0) <==> (cnt / 0x0008) % 2 == 1) by (bit_vector);
    assert((cnt & 0x0040 != 0) <==> (cnt / 0x0040) % 2 == 1) by (bit_vector);
    assert((cnt & 0x0080 != 0) <==> (cnt / 0x0080) % 2 == 1) by (bit_vector);
    assert((cnt & 0x0030) >> 4 == (cnt / 16) % 4) by (bit_vector);
}

/// The registers hold the outcome of a transfer exactly when the ready bit of SIOCNT is set and its
/// error and start bits are clear.
pub proof fn law_outcome_is_told_by_three_bits(reg: SerialMultiPlayerReg)
    ensures
        reg.transferred() <==> reg.sio_cnt & 0x00C8 == 0x0008,
{
    let cnt: u16 = reg.sio_cnt;
    assert((cnt & 0x00C8 == 0x0008) <==> (cnt & 0x0008 != 0 && cnt & 0x0040 == 0 && cnt & 0x0080
        == 0)) by (bit_vector);
}

/// A console may start a transfer exactly when the ready bit of SIOCNT is set and its slave, error
/// and start bits are clear.
pub proof fn law_start_is_allowed_by_four_bits(reg: SerialMultiPlayerReg)
    ensures
        reg.may_start() <==> reg.sio_cnt & 0x00CC == 0x0008,
{
    let cnt: u16 = reg.sio_cnt;
    assert((cnt & 0x00CC == 0x0008) <==> (cnt & 0x0004 == 0 && cnt & 0x0008 != 0 && cnt & 0x0040
        == 0 && cnt & 0x0080 == 0)) by (bit_vector);
}

/// What the status of the port is depends on SIOCNT alone: two sets of registers with the same
/// SIOCNT agree on it, whatever words the other registers hold.
pub proof fn law_status_ignores_the_words(a: SerialMultiPlayerReg, b: SerialMultiPlayerReg)
    requires
        a.sio_cnt == b.sio_cnt,
    ensures
        a.transferred() == b.transferred(),
        a.may_start() == b.may_start(),
        a.slave() == b.slave(),
        a.player_id() == b.player_id(),
{
    law_outcome_is_told_by_three_bits(a);
    law_outcome_is_told_by_three_bits(b);
    law_start_is_allowed_by_four_bits(a);
    law_start_is_allowed_by_four_bits(b);
}

/// Exchanging one register leaves the others alone.
pub proof fn law_registers_are_independent(reg: SerialReg, word: u16)
    ensures
        reg.with_cnt(word).multiplay_mode_reg.sio_cnt == word,
        reg.with_cnt(word).multiplay_mode_reg.sio_multi_data_send
            == reg.multiplay_mode_reg.sio_multi_data_send,
        reg.with_cnt(word).multiplay_mode_reg.sio_multi_data_i
            == reg.multiplay_mode_reg.sio_multi_data_i,
        reg.with_cnt(word).gpio_mode_reg.rcnt == reg.gpio_mode_reg.rcnt,
        reg.with_data(word).multiplay_mode_reg.sio_multi_data_send == word,
        reg.with_data(word).multiplay_mode_reg.sio_cnt == reg.multiplay_mode_reg.sio_cnt,
        reg.with_data(word).multiplay_mode_reg.sio_multi_data_i
            == reg.multiplay_mode_reg.sio_multi_data_i,
        reg.with_data(word).gpio_mode_reg.rcnt == reg.gpio_mode_reg.rcnt,
        reg.multiplay_mode_reg.with_cnt(word) == reg.with_cnt(word).multiplay_mode_reg,
        reg.multiplay_mode_reg.with_data(word) == reg.with_data(word).multiplay_mode_reg,
{
}

/// Multiplayer mode at a baud rate: SIOCNT holds the mode bit and the number of the rate and
/// nothing else, SIOMLT_SEND is zero, the data registers stay, and of RCNT only the high bit is
/// cleared. The rates are numbered 0 to 3.
pub proof fn law_multi_player_mode_is_set(
    reg: SerialMultiPlayerReg,
    gpio: SerialGpio,
    baud_rate: SerialBaudRate,
)
    ensures
        ({
            let number: int = match baud_rate {
                SerialBaudRate::BaudRate0 => 0,
                SerialBaudRate::BaudRate1 => 1,
                SerialBaudRate::BaudRate2 => 2,
                SerialBaudRate::BaudRate3 => 3,
            };
            &&& baud_rate.bits() == number
            &&& reg.in_multi_player_mode(baud_rate).sio_cnt == 0x2000 + number
        }),
        reg.in_multi_player_mode(baud_rate).sio_multi_data_send == 0,
        reg.in_multi_player_mode(baud_rate).sio_multi_data_i == reg.sio_multi_data_i,
        gpio.out_of_gpio_mode().rcnt == gpio.rcnt % 0x8000,
{
    let rate: u16 = baud_rate.bits();
    let rcnt: u16 = gpio.rcnt;
    assert(rate < 4 ==> 0x2000 | rate == 0x2000 + rate) by (bit_vector);
    assert(rcnt & !0x8000 == rcnt % 0x8000) by (bit_vector);
}

/// General-purpose mode: the high bit of RCNT is set, the next one is cleared, and the fourteen low
/// ones stay.
pub proof fn law_gpio_mode_is_set(gpio: SerialGpio)
    ensures
        gpio.in_gpio_mode().rcnt == 0x8000 + gpio.rcnt % 0x4000,
{
    let rcnt: u16 = gpio.rcnt;
    assert((rcnt & !0x4000) | 0x8000 == 0x8000 + rcnt % 0x4000) by (bit_vector);
}

// The queues.

/// An offered word goes to the back of a queue of fewer than sixteen words, and any other queue
/// stays as it is; the front word is the one that leaves.
pub proof fn law_queue_steps(queue: Seq<u16>, word: u16)
    ensures
        queue.len() < 16 ==> fifo_push(queue, word) == queue + seq![word],
        queue.len() >= 16 ==> fifo_push(queue, word) == queue,
        queue.len() <= 16 ==> fifo_push(queue, word) == fifo_append(queue, seq![word]),
        fifo_front(seq![word] + queue) == Some(word),
        fifo_pop(seq![word] + queue) == queue,
        fifo_front(Seq::empty()) == None::<u16>,
        fifo_pop(Seq::empty()) == Seq::<u16>::empty(),
{
    if queue.len() < 16 {
        assert(fifo_push(queue, word) =~= queue + seq![word]);
    }
    if queue.len() <= 16 {
        assert(fifo_push(queue, word) =~= fifo_append(queue, seq![word]));
    }
    assert((seq![word] + queue).skip(1) =~= queue);
}

/// Offering many words keeps the queue as a prefix and adds a prefix of the words: all of them if
/// they fit, and else as many as bring the queue to sixteen. The others are those counted as lost.
pub proof fn law_queue_fills_up(queue: Seq<u16>, words: Seq<u16>)
    requires
        queue.len() <= 16,
    ensures
        ({
            let filled = fifo_append(queue, words);
            let taken = filled.len() - queue.len();
            &&& 0 <= taken <= words.len()
            &&& filled == queue + words.take(taken)
            &&& filled.len() <= 16
            &&& taken < words.len() ==> filled.len() == 16
            &&& fifo_lost(queue.len(), words.len()) == words.len() - taken
        }),
{
    let filled = fifo_append(queue, words);
    assert(filled =~= queue + words.take(filled.len() - queue.len()));
}

// The timer interrupt.

/// A timer interrupt with the ready bit of SIOCNT set and its slave, error and start bits clear sets
/// the start bit, whatever the words in the registers are; any other changes nothing. Nothing else
/// ever changes.
pub proof fn law_timer_interrupt_sets_the_start_bit(serial: SerialView)
    ensures
        ({
            let cnt = serial.serial_reg.multiplay_mode_reg.sio_cnt;
            let after = serial.after_timer_irq();
            &&& after.serial_reg.multiplay_mode_reg.sio_cnt == (if cnt & 0x00CC == 0x0008 {
                cnt + 0x0080
            } else {
                cnt as int
            })
            &&& after.serial_reg.multiplay_mode_reg.sio_multi_data_send
                == serial.serial_reg.multiplay_mode_reg.sio_multi_data_send
            &&& after.serial_reg.multiplay_mode_reg.sio_multi_data_i
                == serial.serial_reg.multiplay_mode_reg.sio_multi_data_i
            &&& after.serial_reg.gpio_mode_reg == serial.serial_reg.gpio_mode_reg
            &&& after.fifo_send == serial.fifo_send
            &&& after.fifo_received == serial.fifo_received
            &&& after.player_id == serial.player_id
            &&& after.players_online == serial.players_online
        }),
{
    let cnt: u16 = serial.serial_reg.multiplay_mode_reg.sio_cnt;
    law_start_is_allowed_by_four_bits(serial.serial_reg.multiplay_mode_reg);
    assert(cnt & 0x00CC == 0x0008 ==> cnt | 0x0080 == cnt + 0x0080) by (bit_vector);
}

// The serial interrupt.

/// Whether neither the data register of `player` nor one before it reads 0xFFFF.
pub open spec fn connected(reg: SerialMultiPlayerReg, player: int) -> bool {
    forall|j: int| 0 <= j <= player ==> #[trigger] reg.sio_multi_data_i[j] != 0xFFFF
}

/// With the ready bit of SIOCNT set and its error and start bits clear, a serial interrupt sets up
/// the front word of the send queue, or zero if there is none, and takes it out of the queue. No
/// other register changes.
pub proof fn law_serial_interrupt_sets_up_the_next_word(serial: SerialView)
    requires
        serial.serial_reg.multiplay_mode_reg.sio_cnt & 0x00C8 == 0x0008,
    ensures
        ({
            let before = serial.serial_reg;
            let after = serial.after_serial_irq();
            &&& serial.fifo_send.len() > 0 ==> seq![
                after.serial_reg.multiplay_mode_reg.sio_multi_data_send,
            ] + after.fifo_send == serial.fifo_send
            &&& serial.fifo_send.len() == 0
                ==> after.serial_reg.multiplay_mode_reg.sio_multi_data_send == 0
                && after.fifo_send.len() == 0
            &&& after.serial_reg.multiplay_mode_reg.sio_cnt == before.multiplay_mode_reg.sio_cnt
            &&& after.serial_reg.multiplay_mode_reg.sio_multi_data_i
                == before.multiplay_mode_reg.sio_multi_data_i
            &&& after.serial_reg.gpio_mode_reg == before.gpio_mode_reg
        }),
{
    law_outcome_is_told_by_three_bits(serial.serial_reg.multiplay_mode_reg);
    let after = serial.after_serial_irq();
    if serial.fifo_send.len() > 0 {
        assert(seq![after.serial_reg.multiplay_mode_reg.sio_multi_data_send] + after.fifo_send
            =~= serial.fifo_send);
    }
}

/// With the ready bit of SIOCNT set and its error and start bits clear, a serial interrupt queues
/// the word of each connected player unless it is zero or the queue holds sixteen words already. All
/// other queues stay as they are, and so does what was queued before.
pub proof fn law_serial_interrupt_queues_the_words(serial: SerialView, player: int)
    requires
        serial.serial_reg.multiplay_mode_reg.sio_cnt & 0x00C8 == 0x0008,
        0 <= player < 4,
    ensures
        ({
            let reg = serial.serial_reg.multiplay_mode_reg;
            let word = reg.sio_multi_data_i[player];
            let queue = serial.fifo_received[player];
            let after = serial.after_serial_irq().fifo_received;
            &&& after.len() == 4
            &&& connected(reg, player) && word != 0 && queue.len() < 16 ==> after[player] == queue
                + seq![word]
            &&& !(connected(reg, player) && word != 0 && queue.len() < 16) ==> after[player]
                == queue
        }),
{
    let reg = serial.serial_reg.multiplay_mode_reg;
    law_outcome_is_told_by_three_bits(reg);
    law_players_are_the_connected_ones(reg, player);
    let word: u16 = reg.sio_multi_data_i[player];
    let queue = serial.fifo_received[player];
    if connected(reg, player) && word != 0 && queue.len() < 16 {
        assert(queue.push(word) =~= queue + seq![word]);
    }
}

/// With the ready bit of SIOCNT set and its error and start bits clear, a serial interrupt counts
/// the connected players and takes the own id from bits 4 and 5 of SIOCNT.
pub proof fn law_serial_interrupt_counts_the_players(serial: SerialView, player: int)
    requires
        serial.serial_reg.multiplay_mode_reg.sio_cnt & 0x00C8 == 0x0008,
        player >= 0,
    ensures
        ({
            let reg = serial.serial_reg.multiplay_mode_reg;
            let after = serial.after_serial_irq();
            &&& player < after.players_online <==> player < 4 && connected(reg, player)
            &&& after.player_id == (reg.sio_cnt & 0x0030) >> 4
        }),
{
    let reg = serial.serial_reg.multiplay_mode_reg;
    law_outcome_is_told_by_three_bits(reg);
    law_status_is_read_from_the_control_bits(reg);
    if player < 4 {
        law_players_are_the_connected_ones(reg, player);
    }
}

/// With the ready bit of SIOCNT clear, or its error or start bit set, a serial interrupt forgets the
/// players and the own id, and changes nothing else.
pub proof fn law_serial_interrupt_without_outcome(serial: SerialView)
    requires
        serial.serial_reg.multiplay_mode_reg.sio_cnt & 0x00C8 != 0x0008,
    ensures
        ({
            let after = serial.after_serial_irq();
            &&& after.players_online == 0
            &&& after.player_id == 0xDEADBEEF
            &&& after.serial_reg == serial.serial_reg
            &&& after.fifo_send == serial.fifo_send
            &&& after.fifo_received == serial.fifo_received
        }),
{
    law_outcome_is_told_by_three_bits(serial.serial_reg.multiplay_mode_reg);
}

/// A player is among the players of a transfer exactly when connected, and brings a word exactly
/// when it is not zero.
pub proof fn law_players_are_the_connected_ones(reg: SerialMultiPlayerReg, player: int)
    requires
        0 <= player < 4,
    ensures
        player < reg.players() <==> connected(reg, player),
        0 <= reg.players() <= 4,
        forall|word: u16|
            reg.word_from(player) == Some(word) <==> connected(reg, player) && word != 0 && word
                == reg.sio_multi_data_i[player],
{
    if player < reg.players() {
        assert(connected(reg, player));
    } else {
        assert(reg.sio_multi_data_i[reg.players()] == 0xFFFF);
        assert(!connected(reg, player));
    }
}

// Activation.

/// A reading after the switch with the slave bit of SIOCNT clear makes the console the master: its
/// id is 0 and its timer runs. With that bit set it is a slave: its id is not known and its timer
/// does not run. No other bit and no other register matters; either way the mode is active, and
/// nothing else changes.
pub proof fn law_master_is_told_by_one_bit(
    program: SerialMultiPlayerView,
    reg: SerialMultiPlayerReg,
)
    ensures
        ({
            let after = program.activated(reg);
            let master = (reg.sio_cnt / 0x0004) % 2 == 0;
            &&& after.is_enabled
            &&& after.is_master == master
            &&& after.interrupt_timer.enabled == master
            &&& after.player_id == (if master {
                0
            } else {
                0xDEADBEEFint
            })
            &&& same_timer(after.interrupt_timer, program.interrupt_timer)
            &&& after.baudrate == program.baudrate
            &&& after.fifo_send == program.fifo_send
            &&& after.fifo_received == program.fifo_received
            &&& after.players_online == program.players_online
        }),
{
    law_status_is_read_from_the_control_bits(reg);
}

/// Whether two settings are those of the same timer, running or not.
pub open spec fn same_timer(a: TimerSettings, b: TimerSettings) -> bool {
    &&& a.timer == b.timer
    &&& a.cascade == b.cascade
    &&& a.divider == b.divider
    &&& a.interrupt == b.interrupt
    &&& a.overflow_amount == b.overflow_amount
}

/// A link starts at the rate that it was asked for, with nothing queued, nobody known, not active,
/// and with timer 2 set to an interrupt every 0x1FF ticks of 64 cycles but not running.
pub proof fn law_new_link(baud_rate: SerialBaudRate, serial_reg: SerialReg, player: int)
    requires
        0 <= player < 4,
    ensures
        ({
            let program = SerialMultiPlayerView::initial(baud_rate);
            let timer = program.interrupt_timer;
            &&& program.baudrate == baud_rate
            &&& program.fifo_send.len() == 0
            &&& program.fifo_received.len() == 4
            &&& program.fifo_received[player].len() == 0
            &&& program.players_online == 0
            &&& program.player_id == 0xDEADBEEF
            &&& !program.is_enabled
            &&& !program.is_master
            &&& timer.timer == 2 && !timer.cascade && timer.divider == 64 && timer.interrupt
                && timer.overflow_amount == 0x1FF && !timer.enabled
            &&& program.wf()
        }),
        ({
            let serial = SerialView::initial(serial_reg);
            &&& serial.serial_reg == serial_reg
            &&& serial.fifo_send.len() == 0
            &&& serial.fifo_received.len() == 4
            &&& serial.fifo_received[player].len() == 0
            &&& serial.players_online == 0
            &&& serial.player_id == 0xDEADBEEF
            &&& serial.wf()
        }),
{
}

/// What activation writes: SIOCNT is the mode bit, the interrupt bit and the number of the baud
/// rate, SIOMLT_SEND is zero, and of RCNT only the high bit is cleared.
pub proof fn law_activation_writes_the_rate(program: SerialMultiPlayerView, serial_reg: SerialReg)
    ensures
        ({
            let written = program.activation_registers(serial_reg);
            &&& written.multiplay_mode_reg.sio_cnt == (match program.baudrate {
                SerialBaudRate::BaudRate0 => 0x6000int,
                SerialBaudRate::BaudRate1 => 0x6001,
                SerialBaudRate::BaudRate2 => 0x6002,
                SerialBaudRate::BaudRate3 => 0x6003,
            })
            &&& written.multiplay_mode_reg.sio_multi_data_send == 0
            &&& written.multiplay_mode_reg.sio_multi_data_i
                == serial_reg.multiplay_mode_reg.sio_multi_data_i
            &&& written.gpio_mode_reg.rcnt == serial_reg.gpio_mode_reg.rcnt % 0x8000
        }),
{
    let reg = serial_reg.multiplay_mode_reg;
    let rate: u16 = program.baudrate.bits();
    law_multi_player_mode_is_set(reg, serial_reg.gpio_mode_reg, program.baudrate);
    assert(rate < 4 ==> (0x2000 | rate) | 0x4000 == 0x6000 + rate) by (bit_vector);
}

/// The first activation of a link writes the number of the rate that the link was set up with, from
/// 0 for the slowest to 3 for the fastest, in the two low bits of SIOCNT.
pub proof fn law_first_activation_uses_the_chosen_rate(
    baud_rate: SerialBaudRate,
    serial_reg: SerialReg,
)
    ensures
        SerialMultiPlayerView::initial(baud_rate).activation_registers(
            SerialView::initial(serial_reg).serial_reg,
        ).multiplay_mode_reg.sio_cnt == (match baud_rate {
            SerialBaudRate::BaudRate0 => 0x6000int,
            SerialBaudRate::BaudRate1 => 0x6001,
            SerialBaudRate::BaudRate2 => 0x6002,
            SerialBaudRate::BaudRate3 => 0x6003,
        }),
{
    law_activation_writes_the_rate(SerialMultiPlayerView::initial(baud_rate), serial_reg);
}

/// Nothing that happens later changes the rate: each activation writes that of the one before.
pub proof fn law_rate_is_kept(
    program: SerialMultiPlayerView,
    serial: SerialView,
    reg: SerialMultiPlayerReg,
    serial_reg: SerialReg,
)
    ensures
        program.activated(reg).activation_registers(serial_reg)
            == program.activation_registers(serial_reg),
        program.deactivated().activation_registers(serial_reg)
            == program.activation_registers(serial_reg),
        program.synced(serial).activation_registers(serial_reg)
            == program.activation_registers(serial_reg),
{
}

/// Deactivation clears bit 14 of SIOCNT and puts RCNT in general-purpose mode, and no other bit of
/// the registers changes; the queues and what is known of the players stay. The mode is no longer
/// active and the timer does not run, and nothing else changes on the program's side.
pub proof fn law_deactivation_changes_two_registers(
    program: SerialMultiPlayerView,
    serial: SerialView,
)
    ensures
        ({
            let before = serial.serial_reg;
            let cnt = before.multiplay_mode_reg.sio_cnt;
            let after = serial.deactivated();
            &&& after.serial_reg.multiplay_mode_reg.sio_cnt == (if (cnt / 0x4000) % 2 == 1 {
                cnt - 0x4000
            } else {
                cnt as int
            })
            &&& after.serial_reg.gpio_mode_reg.rcnt == 0x8000 + before.gpio_mode_reg.rcnt % 0x4000
            &&& after.serial_reg.multiplay_mode_reg.sio_multi_data_send
                == before.multiplay_mode_reg.sio_multi_data_send
            &&& after.serial_reg.multiplay_mode_reg.sio_multi_data_i
                == before.multiplay_mode_reg.sio_multi_data_i
            &&& after.fifo_send == serial.fifo_send
            &&& after.fifo_received == serial.fifo_received
            &&& after.player_id == serial.player_id
            &&& after.players_online == serial.players_online
        }),
        ({
            let after = program.deactivated();
            &&& !after.is_enabled
            &&& !after.interrupt_timer.enabled
            &&& same_timer(after.interrupt_timer, program.interrupt_timer)
            &&& after.baudrate == program.baudrate
            &&& after.fifo_send == program.fifo_send
            &&& after.fifo_received == program.fifo_received
            &&& after.players_online == program.players_online
            &&& after.is_master == program.is_master
            &&& after.player_id == program.player_id
        }),
{
    let cnt: u16 = serial.serial_reg.multiplay_mode_reg.sio_cnt;
    law_gpio_mode_is_set(serial.serial_reg.gpio_mode_reg);
    assert((cnt / 0x4000) % 2 == 1 ==> cnt & !0x4000 == cnt - 0x4000) by (bit_vector);
    assert((cnt / 0x4000) % 2 != 1 ==> cnt & !0x4000 == cnt) by (bit_vector);
}

// Syncing.

/// A sync tells the program the number of players and the own id as the interrupt side has them,
/// whatever the registers read and whatever the program knew before.
pub proof fn law_sync_tells_the_players(program: SerialMultiPlayerView, serial: SerialView)
    ensures
        program.synced(serial).players_online == serial.players_online,
        program.synced(serial).player_id == serial.player_id,
        serial.synced(program).players_online == serial.players_online,
        serial.synced(program).player_id == serial.player_id,
{
}

/// A sync empties the queues that it takes words from, and adds the words to those on the other side
/// as far as there is room: what was there stays in front, and then come the words in order.
pub proof fn law_sync_moves_the_words(
    program: SerialMultiPlayerView,
    serial: SerialView,
    player: int,
)
    requires
        0 <= player < 4,
        serial.fifo_send.len() <= 16,
        program.fifo_received[player].len() <= 16,
    ensures
        program.synced(serial).fifo_send.len() == 0,
        program.synced(serial).fifo_received.len() == 4,
        serial.synced(program).fifo_received.len() == 4,
        serial.synced(program).fifo_received[player].len() == 0,
        filled_from(
            serial.synced(program).fifo_send,
            serial.fifo_send,
            program.fifo_send,
        ),
        filled_from(
            program.synced(serial).fifo_received[player],
            program.fifo_received[player],
            serial.fifo_received[player],
        ),
{
    law_queue_fills_up(serial.fifo_send, program.fifo_send);
    law_queue_fills_up(program.fifo_received[player], serial.fifo_received[player]);
}

/// Whether `after` is `before` followed by the first of `words`: all of them, or as many as bring
/// it to sixteen.
pub open spec fn filled_from(after: Seq<u16>, before: Seq<u16>, words: Seq<u16>) -> bool {
    &&& before.len() <= after.len() <= before.len() + words.len()
    &&& after.len() <= 16
    &&& after == before + words.take(after.len() - before.len())
    &&& after.len() == before.len() + words.len() || after.len() == 16
}

/// A sync changes neither the registers nor the role of the console, its rate, its timer or whether
/// the mode is active.
pub proof fn law_sync_leaves_the_rest(program: SerialMultiPlayerView, serial: SerialView)
    ensures
        serial.synced(program).serial_reg == serial.serial_reg,
        program.synced(serial).interrupt_timer == program.interrupt_timer,
        program.synced(serial).baudrate == program.baudrate,
        program.synced(serial).is_master == program.is_master,
        program.synced(serial).is_enabled == program.is_enabled,
{
}

/// What the registers read makes no difference to a sync.
pub proof fn law_sync_ignores_the_registers(
    program: SerialMultiPlayerView,
    serial: SerialView,
    serial_reg: SerialReg,
)
    ensures
        program.synced(serial.with_registers(serial_reg)) == program.synced(serial),
        serial.with_registers(serial_reg).synced(program) == serial.synced(program).with_registers(
            serial_reg,
        ),
        serial.with_registers(serial_reg).serial_reg == serial_reg,
        serial.with_registers(serial_reg).with_registers(serial.serial_reg) == serial,
{
    assert(program.synced(serial.with_registers(serial_reg)) =~~= program.synced(serial));
    assert(serial.with_registers(serial_reg).synced(program) =~~= serial.synced(
        program,
    ).with_registers(serial_reg));
}

/// A timer interrupt makes no difference to a sync, and the two can change places: a transfer on
/// the wire does not hide the players or the words of the one before.
pub proof fn law_sync_ignores_the_timer(program: SerialMultiPlayerView, serial: SerialView)
    ensures
        program.synced(serial.after_timer_irq()) == program.synced(serial),
        serial.after_timer_irq().synced(program) == serial.synced(program).after_timer_irq(),
{
    law_sync_ignores_the_registers(program, serial, serial.after_timer_irq().serial_reg);
}

/// A player is online exactly while the mode is active and the player is below the number of
/// players.
pub proof fn law_online_means_counted(program: SerialMultiPlayerView, player: int)
    ensures
        program.is_enabled ==> (program.online(player) <==> player < program.players_online),
        !program.is_enabled ==> !program.online(player),
{
}

/// From the registers to the program: a serial interrupt with the ready bit of SIOCNT set and its
/// error and start bits clear, followed by any number of readings, a timer interrupt and a sync.
/// The program then sees the id in bits 4 and 5 of that SIOCNT, counts the connected players, and
/// finds the word of each connected player behind the ones it had, if there is room and the word is
/// not zero.
pub proof fn law_transfer_reaches_the_program(
    program: SerialMultiPlayerView,
    serial: SerialView,
    later: SerialReg,
    player: int,
)
    requires
        0 <= player < 4,
        serial.serial_reg.multiplay_mode_reg.sio_cnt & 0x00C8 == 0x0008,
        serial.fifo_received[player].len() == 0,
        program.fifo_received[player].len() < 16,
    ensures
        ({
            let reg = serial.serial_reg.multiplay_mode_reg;
            let word = reg.sio_multi_data_i[player];
            let after = program.synced(
                serial.after_serial_irq().with_registers(later).after_timer_irq(),
            );
            &&& after.player_id == (reg.sio_cnt & 0x0030) >> 4
            &&& player < after.players_online <==> connected(reg, player)
            &&& connected(reg, player) && word != 0 ==> after.fifo_received[player]
                == program.fifo_received[player].push(word)
            &&& !(connected(reg, player) && word != 0) ==> after.fifo_received[player]
                == program.fifo_received[player]
        }),
{
    let interrupted = serial.after_serial_irq();
    law_sync_ignores_the_timer(program, interrupted.with_registers(later));
    law_sync_ignores_the_registers(program, interrupted, later);
    law_serial_interrupt_queues_the_words(serial, player);
    law_serial_interrupt_counts_the_players(serial, player);
    let reg = serial.serial_reg.multiplay_mode_reg;
    let word: u16 = reg.sio_multi_data_i[player];
    let queue = program.fifo_received[player];
    let heard = interrupted.fifo_received[player];
    if connected(reg, player) && word != 0 {
        assert(heard =~= seq![word]);
        assert(fifo_append(queue, heard) =~= queue.push(word));
    } else {
        assert(fifo_append(queue, heard) =~= queue);
    }
}

/// What a link stands for is what its interrupt side stands for.
pub proof fn law_link_is_its_interrupt_side(link: Option<Serial>)
    ensures
        link is None <==> link_view(link) is None,
        link matches Some(serial) ==> link_view(link) == Some(serial@),
{
}

/// The marks and limits of the link.
pub proof fn law_marks_and_limits()
    ensures
        SIO_MULTI_PLAY_OFFLINE_DATA == 0xFFFF,
        SIO_MULTI_PLAY_EMPTY_DATA == 0,
        SIO_INVALID_PLAYER_ID == 0xDEADBEEF,
        SERIAL_MAX_PLAYERS == 4,
        FIFO_CAPACITY == 16,
{
}

// The register dump.

/// The number that a hexadecimal digit in lower case stands for, or -1 for any other character.
pub open spec fn digit_value(digit: char) -> int {
    if '0' <= digit && digit <= '9' {
        digit as int - '0' as int
    } else if 'a' <= digit && digit <= 'f' {
        digit as int - 'a' as int + 10
    } else {
        -1
    }
}

/// The number that a row of hexadecimal digits stands for.
pub open spec fn hex_value(digits: Seq<char>) -> int
    decreases digits.len(),
{
    if digits.len() == 0 {
        0
    } else {
        hex_value(digits.drop_last()) * 16 + digit_value(digits.last())
    }
}

/// Whether a text is the number `value` in hexadecimal: lower-case digits that stand for it, without
/// leading zeros.
pub open spec fn reads_as(text: Seq<char>, value: int) -> bool {
    &&& text.len() > 0
    &&& forall|i: int| 0 <= i < text.len() ==> 0 <= digit_value(#[trigger] text[i]) < 16
    &&& text.len() > 1 ==> text[0] != '0'
    &&& hex_value(text) == value
}

/// A number written in hexadecimal reads back as that number.
pub proof fn law_hexadecimal_reads_back(value: int)
    requires
        value >= 0,
    ensures
        reads_as(lower_hex(value), value),
        value > 0 ==> lower_hex(value)[0] != '0',
    decreases value,
{
    let text = lower_hex(value);
    if value < 16 {
        assert(text.drop_last() =~= Seq::empty());
        assert(hex_value(text.drop_last()) == 0);
        assert(digit_value(hex_digit(value)) == value);
    } else {
        let front = lower_hex(value / 16);
        law_hexadecimal_reads_back(value / 16);
        assert(text.drop_last() =~= front);
        assert(digit_value(hex_digit(value % 16)) == value % 16);
        assert forall|i: int| 0 <= i < text.len() implies 0 <= digit_value(#[trigger] text[i])
            < 16 by {
            if i < front.len() {
                assert(text[i] == front[i]);
            }
        }
        assert(text[0] == front[0]);
    }
}

/// The register dump is seven labels, each followed by digits that read as the value of its
/// register.
pub proof fn law_dump_tells_the_registers(gpio: SerialGpio, reg: SerialMultiPlayerReg)
    ensures
        exists|digits: Seq<Seq<char>>|
            {
                &&& #[trigger] digits.len() == 7
                &&& reads_as(digits[0], gpio.rcnt as int)
                &&& forall|i: int|
                    0 <= i < 4 ==> #[trigger] reads_as(
                        digits[i + 1],
                        reg.sio_multi_data_i[i] as int,
                    )
                &&& reads_as(digits[5], reg.sio_cnt as int)
                &&& reads_as(digits[6], reg.sio_multi_data_send as int)
                &&& register_dump(gpio, reg) == "SERIAL_RCNT: "@ + digits[0]
                    + "\nSERIAL_SIOMULTI0: "@ + digits[1] + "\nSERIAL_SIOMULTI1: "@ + digits[2]
                    + "\nSERIAL_SIOMULTI2: "@ + digits[3] + "\nSERIAL_SIOMULTI3: "@ + digits[4]
                    + "\nSERIAL_SIOCNT: "@ + digits[5] + "\nSERIAL_SERIAL_SIOMLT_SEND: "@
                    + digits[6]
            },
{
    let data = reg.sio_multi_data_i;
    let digits = seq![
        lower_hex(gpio.rcnt as int),
        lower_hex(data[0] as int),
        lower_hex(data[1] as int),
        lower_hex(data[2] as int),
        lower_hex(data[3] as int),
        lower_hex(reg.sio_cnt as int),
        lower_hex(reg.sio_multi_data_send as int),
    ];
    law_hexadecimal_reads_back(gpio.rcnt as int);
    law_hexadecimal_reads_back(data[0] as int);
    law_hexadecimal_reads_back(data[1] as int);
    law_hexadecimal_reads_back(data[2] as int);
    law_hexadecimal_reads_back(data[3] as int);
    law_hexadecimal_reads_back(reg.sio_cnt as int);
    law_hexadecimal_reads_back(reg.sio_multi_data_send as int);
    assert(digits.len() == 7);
    assert forall|i: int| 0 <= i < 4 implies #[trigger] reads_as(
        digits[i + 1],
        reg.sio_multi_data_i[i] as int,
    ) by {
        assert(digits[i + 1] == lower_hex(data[i] as int));
    }
    assert(register_dump(gpio, reg) =~= "SERIAL_RCNT: "@ + digits[0] + "\nSERIAL_SIOMULTI0: "@
        + digits[1] + "\nSERIAL_SIOMULTI1: "@ + digits[2] + "\nSERIAL_SIOMULTI2: "@ + digits[3]
        + "\nSERIAL_SIOMULTI3: "@ + digits[4] + "\nSERIAL_SIOCNT: "@ + digits[5]
        + "\nSERIAL_SERIAL_SIOMLT_SEND: "@ + digits[6]);
}

} // verus!
