//! The interrupt side of the driver: what happens on a timer interrupt and at the end of a
//! transfer.
//!
//! A handler works on one reading of the registers, which [`Serial::load_registers`] hands in, and
//! leaves in [`Serial::registers`] what is to be written back.

use heapless::Deque;
use vstd::prelude::*;

use crate::fifo::{fifo_new, fifo_pop_front, fifo_push_back};
use crate::registers::{
    SerialMultiPlayerReg, SerialReg, SerialResponse, SERIAL_CNT_BIT_START, SERIAL_MAX_PLAYERS,
    SIO_INVALID_PLAYER_ID, SIO_MULTI_PLAY_EMPTY_DATA, SIO_MULTI_PLAY_OFFLINE_DATA,
};

verus! {

use crate::fifo::{fifo_contents, fifo_front, fifo_pop, fifo_push, FIFO_CAPACITY};

impl SerialMultiPlayerReg {
    /// Whether this console may start a transfer: it is the master, all consoles are ready, there
    /// is no error and no transfer is going on.
    pub open spec fn may_start(self) -> bool {
        !self.slave() && self.ready() && !self.error() && !self.sending()
    }

    /// Whether the registers hold the outcome of a transfer: all consoles are ready, there is no
    /// error and no transfer is going on.
    pub open spec fn transferred(self) -> bool {
        self.ready() && !self.error() && !self.sending()
    }

    /// Returns `true` if the registers hold the outcome of a transfer, and `false` if not.
    #[must_use]
    pub fn has_transferred(&self) -> (transferred: bool)
        ensures
            transferred == self.transferred(),
    {
        self.is_ready() && !self.is_error() && !self.is_sending()
    }

    /// How many players took part in the last transfer: the data registers up to the first one
    /// that reads as offline.
    pub open spec fn players(self) -> int {
        let data = self.sio_multi_data_i;
        if data[0] == SIO_MULTI_PLAY_OFFLINE_DATA {
            0
        } else if data[1] == SIO_MULTI_PLAY_OFFLINE_DATA {
            1
        } else if data[2] == SIO_MULTI_PLAY_OFFLINE_DATA {
            2
        } else if data[3] == SIO_MULTI_PLAY_OFFLINE_DATA {
            3
        } else {
            4
        }
    }

    /// The word that `player` sent in the last transfer, if the player took part in it and had
    /// something to send.
    pub open spec fn word_from(self, player: int) -> Option<u16> {
        if player < self.players() && self.sio_multi_data_i[player] != SIO_MULTI_PLAY_EMPTY_DATA {
            Some(self.sio_multi_data_i[player])
        } else {
            None
        }
    }
}

impl SerialReg {
    /// The registers with another word to send.
    pub open spec fn with_data(self, data: u16) -> SerialReg {
        SerialReg { multiplay_mode_reg: self.multiplay_mode_reg.with_data(data), ..self }
    }

    /// The registers with another value in SIOCNT.
    pub open spec fn with_cnt(self, sio_cnt: u16) -> SerialReg {
        SerialReg { multiplay_mode_reg: self.multiplay_mode_reg.with_cnt(sio_cnt), ..self }
    }
}

/// A queue of received words as the driver keeps it: it never holds the marks for "nothing sent"
/// and "not connected".
pub open spec fn received_wf(queue: Seq<u16>) -> bool {
    &&& queue.len() <= FIFO_CAPACITY
    &&& forall|i: int|
        0 <= i < queue.len() ==> #[trigger] queue[i] != SIO_MULTI_PLAY_EMPTY_DATA && queue[i]
            != SIO_MULTI_PLAY_OFFLINE_DATA
}

/// What a queue of received words holds once `word` has come in.
pub open spec fn received(queue: Seq<u16>, word: Option<u16>) -> Seq<u16> {
    match word {
        Some(word) => fifo_push(queue, word),
        None => queue,
    }
}

/// What [`Serial`] stands for.
#[verifier::ext_equal]
pub struct SerialView {
    /// The registers, as last read.
    pub serial_reg: SerialReg,
    /// The words to send, the next one first.
    pub fifo_send: Seq<u16>,
    /// For each player, the words received from there, the oldest first.
    pub fifo_received: Seq<Seq<u16>>,
    /// The id of this console.
    pub player_id: usize,
    /// How many players there are.
    pub players_online: usize,
}

impl SerialView {
    /// What holds of the interrupt side at all times.
    pub open spec fn wf(self) -> bool {
        &&& self.fifo_send.len() <= FIFO_CAPACITY
        &&& self.fifo_received.len() == SERIAL_MAX_PLAYERS
        &&& forall|i: int|
            0 <= i < SERIAL_MAX_PLAYERS ==> received_wf(#[trigger] self.fifo_received[i])
        &&& self.players_online <= SERIAL_MAX_PLAYERS
        &&& self.player_id < SERIAL_MAX_PLAYERS || self.player_id == SIO_INVALID_PLAYER_ID
        &&& self.player_id == SIO_INVALID_PLAYER_ID ==> self.players_online == 0
    }

    /// A link on which nothing has happened yet.
    pub open spec fn initial(serial_reg: SerialReg) -> SerialView {
        SerialView {
            serial_reg,
            fifo_send: Seq::empty(),
            fifo_received: Seq::new(4, |i: int| Seq::<u16>::empty()),
            player_id: SIO_INVALID_PLAYER_ID,
            players_online: 0,
        }
    }

    /// The same link with other registers.
    pub open spec fn with_registers(self, serial_reg: SerialReg) -> SerialView {
        SerialView { serial_reg, ..self }
    }

    /// The link after a timer interrupt: a transfer is started if this console may start one.
    pub open spec fn after_timer_irq(self) -> SerialView {
        let reg = self.serial_reg.multiplay_mode_reg;
        if reg.may_start() {
            self.with_registers(self.serial_reg.with_cnt(reg.sio_cnt | SERIAL_CNT_BIT_START))
        } else {
            self
        }
    }

    /// The link after a serial interrupt. If the registers hold the outcome of a transfer, the
    /// words in them are queued for their players and the next word to send is set up. If they do
    /// not, only the players are forgotten.
    pub open spec fn after_serial_irq(self) -> SerialView {
        let reg = self.serial_reg.multiplay_mode_reg;
        if reg.transferred() {
            SerialView {
                serial_reg: self.serial_reg.with_data(
                    match fifo_front(self.fifo_send) {
                        Some(word) => word,
                        None => SIO_MULTI_PLAY_EMPTY_DATA,
                    },
                ),
                fifo_send: fifo_pop(self.fifo_send),
                fifo_received: Seq::new(
                    4,
                    |i: int| received(self.fifo_received[i], reg.word_from(i)),
                ),
                player_id: reg.player_id() as usize,
                players_online: reg.players() as usize,
            }
        } else {
            SerialView { player_id: SIO_INVALID_PLAYER_ID, players_online: 0, ..self }
        }
    }
}

/// The interrupt side of the link.
pub struct Serial {
    pub(crate) serial_reg: SerialReg,
    pub(crate) fifo_send: Deque<u16, 16>,
    pub(crate) fifo_received: [Deque<u16, 16>; 4],
    pub(crate) player_id: usize,
    pub(crate) players_online: usize,
}

impl View for Serial {
    type V = SerialView;

    open(crate) spec fn view(&self) -> SerialView {
        SerialView {
            serial_reg: self.serial_reg,
            fifo_send: fifo_contents(self.fifo_send),
            fifo_received: Seq::new(4, |i: int| fifo_contents(self.fifo_received[i])),
            player_id: self.player_id,
            players_online: self.players_online,
        }
    }
}

impl Serial {
    /// What holds of the interrupt side at all times.
    pub open spec fn wf(&self) -> bool {
        self@.wf()
    }

    /// A link on which nothing has happened yet, on a port with the given registers.
    pub fn new(serial_reg: SerialReg) -> (serial: Serial)
        ensures
            serial.wf(),
            serial@ == SerialView::initial(serial_reg),
    {
        let serial = Serial {
            serial_reg,
            fifo_send: fifo_new(),
            fifo_received: [fifo_new(), fifo_new(), fifo_new(), fifo_new()],
            player_id: SIO_INVALID_PLAYER_ID,
            players_online: 0,
        };
        assert(serial@ =~~= SerialView::initial(serial_reg));
        serial
    }

    /// The registers, as last read and with what has been done to them since.
    pub fn registers(&self) -> (serial_reg: SerialReg)
        ensures
            serial_reg == self@.serial_reg,
    {
        self.serial_reg
    }

    /// Takes over the registers as the port has them now.
    pub fn load_registers(&mut self, serial_reg: SerialReg)
        requires
            old(self).wf(),
        ensures
            final(self).wf(),
            final(self)@ == old(self)@.with_registers(serial_reg),
    {
        self.serial_reg = serial_reg;
    }

    /// On a timer interrupt: starts a transfer if this console is the master, all consoles are
    /// ready, there is no error and no transfer is going on. Otherwise nothing changes.
    pub fn handle_hblank_multiplay_irq(&mut self)
        requires
            old(self).wf(),
        ensures
            final(self).wf(),
            final(self)@ == old(self)@.after_timer_irq(),
    {
        if !self.serial_reg.multiplay_mode_reg.is_slave()
            && self.serial_reg.multiplay_mode_reg.is_ready()
            && !self.serial_reg.multiplay_mode_reg.is_error()
            && !self.serial_reg.multiplay_mode_reg.is_sending() {
            self.serial_reg.multiplay_mode_reg.start_transmission();
        }
    }

    /// At the end of a transfer: stores the words that came in, counts the players, and sets up
    /// the next word to send. If the registers do not hold the outcome of a transfer, the players
    /// are forgotten and nothing else changes.
    pub fn handle_serial_multiplay_irq(&mut self)
        requires
            old(self).wf(),
        ensures
            final(self).wf(),
            final(self)@ == old(self)@.after_serial_irq(),
    {
        let ghost reg = self.serial_reg.multiplay_mode_reg;
        let mut response = SerialResponse {
            sio_data: [SIO_MULTI_PLAY_OFFLINE_DATA; 4],
            sio_player_id: SIO_INVALID_PLAYER_ID,
        };
        if self.serial_reg.multiplay_mode_reg.has_transferred() {
            self.serial_reg.multiplay_mode_reg.get_data(&mut response);
            self.serial_reg.multiplay_mode_reg.set_data(SIO_MULTI_PLAY_EMPTY_DATA);
        }
        self.players_online = 0;
        self.player_id = response.sio_player_id;
        if self.player_id != SIO_INVALID_PLAYER_ID {
            let mut i: usize = 0;
            while i < SERIAL_MAX_PLAYERS
                invariant
                    i <= SERIAL_MAX_PLAYERS,
                    i <= reg.players(),
                    self.players_online == i,
                    response.sio_data@ == reg.sio_multi_data_i@,
                    self.serial_reg == old(self).serial_reg.with_data(SIO_MULTI_PLAY_EMPTY_DATA),
                    self.fifo_send == old(self).fifo_send,
                    self.player_id == reg.player_id(),
                    forall|j: int|
                        0 <= j < i ==> fifo_contents(#[trigger] self.fifo_received[j]) == received(
                            fifo_contents(old(self).fifo_received[j]),
                            reg.word_from(j),
                        ),
                    forall|j: int|
                        i <= j < 4 ==> #[trigger] self.fifo_received[j]
                            == old(self).fifo_received[j],
                ensures
                    self.players_online == reg.players(),
                    self.serial_reg == old(self).serial_reg.with_data(SIO_MULTI_PLAY_EMPTY_DATA),
                    self.fifo_send == old(self).fifo_send,
                    self.player_id == reg.player_id(),
                    forall|j: int|
                        0 <= j < 4 ==> fifo_contents(#[trigger] self.fifo_received[j]) == received(
                            fifo_contents(old(self).fifo_received[j]),
                            reg.word_from(j),
                        ),
                decreases SERIAL_MAX_PLAYERS - i,
            {
                let data: u16 = response.sio_data[i];
                assert(data == reg.sio_multi_data_i[i as int]);
                if data == SIO_MULTI_PLAY_OFFLINE_DATA {
                    break;
                } else if data == SIO_MULTI_PLAY_EMPTY_DATA {
                    self.players_online = self.players_online + 1;
                } else {
                    let _ = fifo_push_back(&mut self.fifo_received[i], data);
                    self.players_online = self.players_online + 1;
                }
                i = i + 1;
            }
            let data: u16 = match fifo_pop_front(&mut self.fifo_send) {
                Some(word) => word,
                None => SIO_MULTI_PLAY_EMPTY_DATA,
            };
            self.serial_reg.multiplay_mode_reg.set_data(data);
        }
        proof {
            old(self)@.lemma_serial_irq_keeps_wf();
            assert(self@ =~~= old(self)@.after_serial_irq());
        }
    }
}

impl SerialView {
    /// A serial interrupt keeps what holds of the interrupt side at all times.
    pub proof fn lemma_serial_irq_keeps_wf(self)
        requires
            self.wf(),
        ensures
            self.after_serial_irq().wf(),
    {
        let after = self.after_serial_irq();
        assert forall|i: int| 0 <= i < SERIAL_MAX_PLAYERS implies received_wf(
            #[trigger] after.fifo_received[i],
        ) by {
            assert(received_wf(self.fifo_received[i]));
        }
    }
}

/// What the timer interrupt does to the link, if there is one.
pub fn on_timer_interrupt(link: &mut Option<Serial>)
    requires
        link_wf(*old(link)),
    ensures
        link_wf(*final(link)),
        link_view(*final(link)) == (match link_view(*old(link)) {
            Some(serial) => Some(serial.after_timer_irq()),
            None => None,
        }),
{
    if let Some(serial) = link {
        serial.handle_hblank_multiplay_irq();
    }
}

/// What the serial interrupt does to the link, if there is one.
pub fn on_serial_interrupt(link: &mut Option<Serial>)
    requires
        link_wf(*old(link)),
    ensures
        link_wf(*final(link)),
        link_view(*final(link)) == (match link_view(*old(link)) {
            Some(serial) => Some(serial.after_serial_irq()),
            None => None,
        }),
{
    if let Some(serial) = link {
        serial.handle_serial_multiplay_irq();
    }
}

/// What a link stands for, if there is one.
pub open spec fn link_view(link: Option<Serial>) -> Option<SerialView> {
    match link {
        Some(serial) => Some(serial@),
        None => None,
    }
}

/// What holds of a link at all times.
pub open spec fn link_wf(link: Option<Serial>) -> bool {
    match link {
        Some(serial) => serial.wf(),
        None => true,
    }
}

} // verus!
