//! The program's side of the driver.

use core::marker::PhantomData;

use heapless::Deque;
use vstd::prelude::*;

use crate::fifo::{fifo_drain, fifo_new, fifo_pop_front, fifo_push_back};
use crate::interrupt::Serial;
use crate::registers::{
    SerialBaudRate, SerialMultiPlayerReg, SerialReg, SERIAL_CNT_BIT_IRQ, SERIAL_MAX_PLAYERS,
    SIO_INVALID_PLAYER_ID, SIO_MULTI_PLAY_EMPTY_DATA, SIO_MULTI_PLAY_OFFLINE_DATA,
};

verus! {

use crate::dump::register_dump;
use crate::fifo::{
    fifo_append, fifo_contents, fifo_front, fifo_lost, fifo_pop, fifo_push, FIFO_CAPACITY,
};
use crate::interrupt::{link_view, link_wf, received_wf, SerialView};

/// How the timer is set up whose interrupt makes the master poll the link.
#[derive(Debug, PartialEq, Eq, Structural, Clone, Copy)]
pub struct TimerSettings {
    /// Which timer it is.
    pub timer: u8,
    /// Whether it counts the overflows of the timer before it.
    pub cascade: bool,
    /// How many clock cycles make one tick.
    pub divider: u16,
    /// Whether it raises an interrupt when it overflows.
    pub interrupt: bool,
    /// After how many ticks it overflows.
    pub overflow_amount: u16,
    /// Whether it runs.
    pub enabled: bool,
}

impl TimerSettings {
    /// The settings that the driver starts with: timer 2 with an interrupt every 0x1FF ticks of
    /// 64 cycles each, and not running yet.
    pub open spec fn initial() -> TimerSettings {
        TimerSettings {
            timer: 2,
            cascade: false,
            divider: 64,
            interrupt: true,
            overflow_amount: 0x1FF,
            enabled: false,
        }
    }
}

/// What [`SerialMultiPlayer`] stands for.
#[verifier::ext_equal]
pub struct SerialMultiPlayerView {
    /// The timer whose interrupt makes the master poll the link.
    pub interrupt_timer: TimerSettings,
    /// The baud rate of the link.
    pub baudrate: SerialBaudRate,
    /// The words to hand over for sending at the next sync, in order.
    pub fifo_send: Seq<u16>,
    /// For each player, the words received from there, the oldest first.
    pub fifo_received: Seq<Seq<u16>>,
    /// How many players there were at the last sync.
    pub players_online: usize,
    /// Whether this console was the master when the mode was last activated.
    pub is_master: bool,
    /// Whether multiplayer mode is active.
    pub is_enabled: bool,
    /// The id of this console.
    pub player_id: usize,
}

impl SerialMultiPlayerView {
    /// What holds of the program's side at all times. In particular the timer runs exactly while
    /// multiplayer mode is active on the master.
    pub open spec fn wf(self) -> bool {
        &&& self.fifo_send.len() <= FIFO_CAPACITY
        &&& self.fifo_received.len() == SERIAL_MAX_PLAYERS
        &&& forall|i: int|
            0 <= i < SERIAL_MAX_PLAYERS ==> received_wf(#[trigger] self.fifo_received[i])
        &&& self.players_online <= SERIAL_MAX_PLAYERS
        &&& self.player_id < SERIAL_MAX_PLAYERS || self.player_id == SIO_INVALID_PLAYER_ID
        &&& self.interrupt_timer == TimerSettings {
            enabled: self.is_enabled && self.is_master,
            ..TimerSettings::initial()
        }
    }

    /// The program's side before anything has happened.
    pub open spec fn initial(baudrate: SerialBaudRate) -> SerialMultiPlayerView {
        SerialMultiPlayerView {
            interrupt_timer: TimerSettings::initial(),
            baudrate,
            fifo_send: Seq::empty(),
            fifo_received: Seq::new(4, |i: int| Seq::<u16>::empty()),
            players_online: 0,
            is_master: false,
            is_enabled: false,
            player_id: SIO_INVALID_PLAYER_ID,
        }
    }

    /// The registers that activation writes: multiplayer mode at the chosen baud rate, the serial
    /// interrupt on, nothing to send.
    pub open spec fn activation_registers(self, serial_reg: SerialReg) -> SerialReg {
        let reg = serial_reg.multiplay_mode_reg.in_multi_player_mode(self.baudrate);
        SerialReg {
            gpio_mode_reg: serial_reg.gpio_mode_reg.out_of_gpio_mode(),
            multiplay_mode_reg: reg.with_cnt(reg.sio_cnt | SERIAL_CNT_BIT_IRQ),
        }
    }

    /// The program's side once the mode is active and `reg` has been read back: the master takes
    /// id 0 and runs the timer, a slave has no id yet and does not.
    pub open spec fn activated(self, reg: SerialMultiPlayerReg) -> SerialMultiPlayerView {
        SerialMultiPlayerView {
            interrupt_timer: TimerSettings { enabled: !reg.slave(), ..self.interrupt_timer },
            is_master: !reg.slave(),
            is_enabled: true,
            player_id: if reg.slave() {
                SIO_INVALID_PLAYER_ID
            } else {
                0
            },
            ..self
        }
    }

    /// The program's side once the mode is no longer active: the timer does not run.
    pub open spec fn deactivated(self) -> SerialMultiPlayerView {
        SerialMultiPlayerView {
            interrupt_timer: TimerSettings { enabled: false, ..self.interrupt_timer },
            is_enabled: false,
            ..self
        }
    }

    /// The program's side after a sync with `serial`.
    pub open spec fn synced(self, serial: SerialView) -> SerialMultiPlayerView {
        SerialMultiPlayerView {
            players_online: serial.players_online,
            player_id: serial.player_id,
            fifo_received: Seq::new(
                4,
                |i: int| fifo_append(self.fifo_received[i], serial.fifo_received[i]),
            ),
            fifo_send: Seq::empty(),
            ..self
        }
    }

    /// Whether `player` is connected: the mode is active and the player is among those counted at
    /// the last sync.
    pub open spec fn online(self, player: int) -> bool {
        self.is_enabled && player < self.players_online
    }
}

impl SerialView {
    /// The registers and queues once the mode is no longer active: the serial interrupt is off
    /// and the port is in general-purpose mode.
    pub open spec fn deactivated(self) -> SerialView {
        let reg = self.serial_reg.multiplay_mode_reg;
        self.with_registers(
            SerialReg {
                gpio_mode_reg: self.serial_reg.gpio_mode_reg.in_gpio_mode(),
                multiplay_mode_reg: reg.with_cnt(reg.sio_cnt & !SERIAL_CNT_BIT_IRQ),
            },
        )
    }

    /// The interrupt side after a sync with `player`: the received words have been handed over,
    /// and the words to send have been taken as far as there was room.
    pub open spec fn synced(self, player: SerialMultiPlayerView) -> SerialView {
        SerialView {
            fifo_send: fifo_append(self.fifo_send, player.fifo_send),
            fifo_received: Seq::new(4, |i: int| Seq::<u16>::empty()),
            ..self
        }
    }
}

impl SerialMultiPlayerView {
    /// A sync keeps what holds of both sides at all times.
    pub proof fn lemma_sync_keeps_wf(self, serial: SerialView)
        requires
            self.wf(),
            serial.wf(),
        ensures
            self.synced(serial).wf(),
            serial.synced(self).wf(),
    {
        assert forall|i: int| 0 <= i < SERIAL_MAX_PLAYERS implies received_wf(
            #[trigger] self.synced(serial).fifo_received[i],
        ) by {
            assert(received_wf(self.fifo_received[i]));
            assert(received_wf(serial.fifo_received[i]));
        }
    }
}

/// The multiplayer mode of the serial link.
///
/// The consoles on the link exchange words in the background. The master starts a transfer on
/// each timer interrupt, which polls the slaves, so all players can send and receive; at the end
/// of a transfer every console stores the words that came in and sets up the next word to send.
/// The program exchanges words with the interrupt side in [`SerialMultiPlayer::sync`].
///
/// The interrupt side of the link is what the interrupt handlers share with the program. It is
/// handed to the methods that need it, and may be missing.
pub struct SerialMultiPlayer<'gba> {
    pub(crate) interrupt_timer: TimerSettings,
    pub(crate) baudrate: SerialBaudRate,
    pub(crate) fifo_send: Deque<u16, 16>,
    pub(crate) fifo_received: [Deque<u16, 16>; 4],
    pub(crate) players_online: usize,
    pub(crate) is_master: bool,
    pub(crate) is_enabled: bool,
    pub(crate) player_id: usize,
    pub(crate) phantom: PhantomData<&'gba ()>,
}

impl<'gba> View for SerialMultiPlayer<'gba> {
    type V = SerialMultiPlayerView;

    open(crate) spec fn view(&self) -> SerialMultiPlayerView {
        SerialMultiPlayerView {
            interrupt_timer: self.interrupt_timer,
            baudrate: self.baudrate,
            fifo_send: fifo_contents(self.fifo_send),
            fifo_received: Seq::new(4, |i: int| fifo_contents(self.fifo_received[i])),
            players_online: self.players_online,
            is_master: self.is_master,
            is_enabled: self.is_enabled,
            player_id: self.player_id,
        }
    }
}

impl<'gba> SerialMultiPlayer<'gba> {
    /// What holds of the program's side at all times.
    pub open spec fn wf(&self) -> bool {
        self@.wf()
    }

    /// Sets up both sides of the link on a port with the given registers. A link that was there
    /// before is replaced.
    pub(crate) fn new(
        baud_rate: SerialBaudRate,
        link: &mut Option<Serial>,
        serial_reg: SerialReg,
    ) -> (player: SerialMultiPlayer<'gba>)
        ensures
            player.wf(),
            player@ == SerialMultiPlayerView::initial(baud_rate),
            link_wf(*final(link)),
            link_view(*final(link)) == Some(SerialView::initial(serial_reg)),
    {
        *link = Some(Serial::new(serial_reg));
        let player = SerialMultiPlayer {
            interrupt_timer: TimerSettings {
                timer: 2,
                cascade: false,
                divider: 64,
                interrupt: true,
                overflow_amount: 0x1FF,
                enabled: false,
            },
            fifo_send: fifo_new(),
            fifo_received: [fifo_new(), fifo_new(), fifo_new(), fifo_new()],
            baudrate: baud_rate,
            is_master: false,
            phantom: PhantomData,
            is_enabled: false,
            players_online: 0,
            player_id: SIO_INVALID_PLAYER_ID,
        };
        assert(player@ =~~= SerialMultiPlayerView::initial(baud_rate));
        player
    }

    /// How the timer is to be set up whose interrupt makes the master poll the link.
    pub fn interrupt_timer(&self) -> (settings: TimerSettings)
        ensures
            settings == self@.interrupt_timer,
    {
        self.interrupt_timer
    }

    /// Activates multiplayer mode. Without a link nothing happens.
    ///
    /// `exchange` writes the registers to the port and reads them back: only after the write does
    /// the port say whether this console is the master.
    pub fn activate<F: Fn(SerialReg) -> SerialReg>(
        &mut self,
        link: &mut Option<Serial>,
        exchange: F,
    )
        requires
            old(self).wf(),
            link_wf(*old(link)),
            link_view(*old(link)) matches Some(serial) ==> call_requires(
                exchange,
                (old(self)@.activation_registers(serial.serial_reg),),
            ),
        ensures
            final(self).wf(),
            link_wf(*final(link)),
            match link_view(*old(link)) {
                Some(serial) => exists|serial_reg: SerialReg|
                    {
                        &&& #[trigger] call_ensures(
                            exchange,
                            (old(self)@.activation_registers(serial.serial_reg),),
                            serial_reg,
                        )
                        &&& link_view(*final(link)) == Some(serial.with_registers(serial_reg))
                        &&& final(self)@ == old(self)@.activated(serial_reg.multiplay_mode_reg)
                    },
                None => link_view(*final(link)) is None && final(self)@ == old(self)@,
            },
    {
        if let Some(serial) = link {
            let mut serial_reg = serial.registers();
            serial_reg.multiplay_mode_reg.set_multi_player_mode(
                &mut serial_reg.gpio_mode_reg,
                self.baudrate,
            );
            serial_reg.multiplay_mode_reg.enable_interrupt();
            let serial_reg = exchange(serial_reg);
            serial.load_registers(serial_reg);
            self.complete_activation(&serial_reg.multiplay_mode_reg);
        }
    }

    /// Takes note that multiplayer mode is active, `reg` being what the port reads after the
    /// switch: it says whether this console is the master.
    pub fn complete_activation(&mut self, reg: &SerialMultiPlayerReg)
        requires
            old(self).wf(),
        ensures
            final(self).wf(),
            final(self)@ == old(self)@.activated(*reg),
    {
        self.is_master = !reg.is_slave();
        self.player_id = if self.is_master {
            0
        } else {
            SIO_INVALID_PLAYER_ID
        };
        self.is_enabled = true;
        self.interrupt_timer.enabled = self.is_master;
    }

    /// Deactivates multiplayer mode. Without a link nothing happens.
    pub fn deactivate(&mut self, link: &mut Option<Serial>)
        requires
            old(self).wf(),
            link_wf(*old(link)),
        ensures
            final(self).wf(),
            link_wf(*final(link)),
            match link_view(*old(link)) {
                Some(serial) => link_view(*final(link)) == Some(serial.deactivated())
                    && final(self)@ == old(self)@.deactivated(),
                None => link_view(*final(link)) is None && final(self)@ == old(self)@,
            },
    {
        if let Some(serial) = link {
            serial.serial_reg.multiplay_mode_reg.disable_interrupt();
            serial.serial_reg.gpio_mode_reg.set_gpio_mode();
            self.is_enabled = false;
            self.interrupt_timer.enabled = false;
        }
    }

    /// Returns `true` if multiplayer mode is active, and `false` if not.
    pub fn is_active(&self) -> (active: bool)
        ensures
            active == self@.is_enabled,
    {
        self.is_enabled
    }

    /// Exchanges words and the state of the link with the interrupt side. While the mode is not
    /// active, or without a link, nothing happens.
    ///
    /// All words are handed over, in order; those that find the queue on the other side full are
    /// lost. Returns how many of the words to send were lost.
    pub fn sync(&mut self, link: &mut Option<Serial>) -> (lost: usize)
        requires
            old(self).wf(),
            link_wf(*old(link)),
        ensures
            final(self).wf(),
            link_wf(*final(link)),
            match link_view(*old(link)) {
                Some(serial) if old(self)@.is_enabled => {
                    &&& link_view(*final(link)) == Some(serial.synced(old(self)@))
                    &&& final(self)@ == old(self)@.synced(serial)
                    &&& lost == fifo_lost(serial.fifo_send.len(), old(self)@.fifo_send.len())
                    &&& lost > 0 <==> serial.fifo_send.len() + old(self)@.fifo_send.len()
                        > FIFO_CAPACITY
                },
                _ => {
                    &&& link_view(*final(link)) == link_view(*old(link))
                    &&& final(self)@ == old(self)@
                    &&& lost == 0
                },
            },
    {
        if self.is_enabled {
            if let Some(serial) = link {
                return self.sync_with(serial);
            }
        }
        0
    }

    /// Exchanges words and the state of the link with the interrupt side. Returns how many of the
    /// words to send were lost.
    fn sync_with(&mut self, serial: &mut Serial) -> (lost: usize)
        requires
            old(self).wf(),
            old(serial).wf(),
        ensures
            final(self).wf(),
            final(self)@ == old(self)@.synced(old(serial)@),
            final(serial).wf(),
            final(serial)@ == old(serial)@.synced(old(self)@),
            lost == fifo_lost(old(serial)@.fifo_send.len(), old(self)@.fifo_send.len()),
    {
        self.players_online = serial.players_online;
        self.player_id = serial.player_id;
        let mut i: usize = 0;
        while i < SERIAL_MAX_PLAYERS
            invariant
                i <= SERIAL_MAX_PLAYERS,
                old(self).wf(),
                old(serial).wf(),
                self.interrupt_timer == old(self).interrupt_timer,
                self.baudrate == old(self).baudrate,
                self.fifo_send == old(self).fifo_send,
                self.players_online == old(serial).players_online,
                self.is_master == old(self).is_master,
                self.is_enabled == old(self).is_enabled,
                self.player_id == old(serial).player_id,
                serial.serial_reg == old(serial).serial_reg,
                serial.fifo_send == old(serial).fifo_send,
                serial.player_id == old(serial).player_id,
                serial.players_online == old(serial).players_online,
                forall|j: int|
                    0 <= j < i ==> fifo_contents(#[trigger] self.fifo_received[j]) == fifo_append(
                        fifo_contents(old(self).fifo_received[j]),
                        fifo_contents(old(serial).fifo_received[j]),
                    ),
                forall|j: int|
                    i <= j < 4 ==> #[trigger] self.fifo_received[j] == old(self).fifo_received[j],
                forall|j: int|
                    0 <= j < i ==> fifo_contents(#[trigger] serial.fifo_received[j]) == Seq::<
                        u16,
                    >::empty(),
                forall|j: int|
                    i <= j < 4 ==> #[trigger] serial.fifo_received[j]
                        == old(serial).fifo_received[j],
            decreases SERIAL_MAX_PLAYERS - i,
        {
            assert(received_wf(old(serial)@.fifo_received[i as int]));
            assert(received_wf(old(self)@.fifo_received[i as int]));
            let _ = fifo_drain(&mut serial.fifo_received[i], &mut self.fifo_received[i]);
            i = i + 1;
        }
        let lost: usize = fifo_drain(&mut self.fifo_send, &mut serial.fifo_send);
        proof {
            old(self)@.lemma_sync_keeps_wf(old(serial)@);
            assert(self@ =~~= old(self)@.synced(old(serial)@));
            assert(serial@ =~~= old(serial)@.synced(old(self)@));
        }
        lost
    }

    /// Returns `true` if the player `player_id` is connected, and `false` if not.
    pub fn is_online(&self, player_id: usize) -> (online: bool)
        ensures
            online == self@.online(player_id as int),
    {
        if self.is_enabled {
            player_id < self.players_online
        } else {
            false
        }
    }

    /// Returns the number of players connected at the last sync.
    pub fn get_nb_players_online(&self) -> (players: usize)
        ensures
            players == self@.players_online,
    {
        self.players_online
    }

    /// Queues a word for sending. It is handed over at the next sync; it is lost if the queue is
    /// full.
    pub fn send_data(&mut self, data: u16)
        requires
            old(self).wf(),
        ensures
            final(self).wf(),
            final(self)@ == (SerialMultiPlayerView {
                fifo_send: fifo_push(old(self)@.fifo_send, data),
                ..old(self)@
            }),
    {
        let _ = fifo_push_back(&mut self.fifo_send, data);
    }

    /// Takes out the oldest word received from `player_id`, if there is one.
    pub fn get_player_rsp(&mut self, player_id: usize) -> (word: Option<u16>)
        requires
            old(self).wf(),
            player_id < SERIAL_MAX_PLAYERS,
        ensures
            final(self).wf(),
            word == fifo_front(old(self)@.fifo_received[player_id as int]),
            final(self)@ == (SerialMultiPlayerView {
                fifo_received: old(self)@.fifo_received.update(
                    player_id as int,
                    fifo_pop(old(self)@.fifo_received[player_id as int]),
                ),
                ..old(self)@
            }),
            word matches Some(data) ==> data != SIO_MULTI_PLAY_EMPTY_DATA && data
                != SIO_MULTI_PLAY_OFFLINE_DATA,
    {
        assert(received_wf(self@.fifo_received[player_id as int]));
        let word = fifo_pop_front(&mut self.fifo_received[player_id]);
        proof {
            assert(self@.fifo_received =~~= old(self)@.fifo_received.update(
                player_id as int,
                fifo_pop(old(self)@.fifo_received[player_id as int]),
            ));
            assert forall|i: int| 0 <= i < SERIAL_MAX_PLAYERS implies received_wf(
                #[trigger] self@.fifo_received[i],
            ) by {
                assert(received_wf(old(self)@.fifo_received[i]));
            }
        }
        word
    }

    /// Returns the id of this console.
    pub fn get_player_id(&self) -> (id: usize)
        ensures
            id == self@.player_id,
    {
        self.player_id
    }

    /// The registers of the link as text; without a link, no text.
    pub fn fmt(&self, link: &Option<Serial>) -> (text: String)
        ensures
            text@ == (match link_view(*link) {
                Some(serial) => register_dump(
                    serial.serial_reg.gpio_mode_reg,
                    serial.serial_reg.multiplay_mode_reg,
                ),
                None => Seq::empty(),
            }),
    {
        match link {
            Some(serial) => {
                let serial_reg = serial.registers();
                serial_reg.multiplay_mode_reg.fmt(&serial_reg.gpio_mode_reg)
            },
            None => String::new(),
        }
    }
}

/// Controls access to the serial port. The link that it gives out borrows it, so there is never
/// more than one.
#[non_exhaustive]
pub struct SerialController {}

impl SerialController {
    /// The controller of the port. A program makes one of them.
    pub fn new() -> (controller: Self)
        ensures
            controller == (SerialController {  }),
    {
        SerialController {  }
    }

    /// Sets up a [`SerialMultiPlayer`] at the given baud rate, and `link` as its interrupt side,
    /// on a port with the given registers.
    pub fn serial_multi_player<'a>(
        &'a mut self,
        baud_rate: SerialBaudRate,
        link: &mut Option<Serial>,
        serial_reg: SerialReg,
    ) -> (player: SerialMultiPlayer<'a>)
        ensures
            player.wf(),
            player@ == SerialMultiPlayerView::initial(baud_rate),
            link_wf(*final(link)),
            link_view(*final(link)) == Some(SerialView::initial(serial_reg)),
    {
        SerialMultiPlayer::new(baud_rate, link, serial_reg)
    }
}

} // verus!
