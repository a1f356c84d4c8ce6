//! The registers of the serial port, as plain values.

use vstd::prelude::*;

verus! {

/// RCNT: GPIO mode, low bit.
pub const SERIAL_RCNT_BIT_GPIO_L: u16 = 0x4000;

/// RCNT: GPIO mode, high bit.
pub const SERIAL_RCNT_BIT_GPIO_H: u16 = 0x8000;

/// SIOCNT: this console is a slave (read only).
pub const SERIAL_CNT_BIT_SLAVE: u16 = 0x0004;

/// SIOCNT: all consoles on the link are ready (read only).
pub const SERIAL_CNT_BIT_CHILD_READY: u16 = 0x0008;

/// SIOCNT: player id, low bit (read only).
pub const SERIAL_CNT_BITS_PLAYER_ID0: u16 = 0x0010;

/// SIOCNT: player id, high bit (read only).
pub const SERIAL_CNT_BITS_PLAYER_ID1: u16 = 0x0020;

/// SIOCNT: an error occurred (read only).
pub const SERIAL_CNT_BIT_ERROR: u16 = 0x0040;

/// SIOCNT: setting this bit starts a transfer; it reads as set while the line is busy (the master
/// reads and writes it, a slave only reads it).
pub const SERIAL_CNT_BIT_START: u16 = 0x0080;

/// SIOCNT: multiplayer mode.
pub const SERIAL_CNT_BIT_MULTIPLAYER: u16 = 0x2000;

/// SIOCNT: raise an interrupt at the end of each transfer.
pub const SERIAL_CNT_BIT_IRQ: u16 = 0x4000;

/// Where the player id starts in SIOCNT.
pub const SERIAL_CNT_BITS_PLAYER_BIT_IDX: usize = 4;

/// The two player id bits of SIOCNT.
pub const SERIAL_CNT_BITS_PLAYER_ID_MASK: u16 = SERIAL_CNT_BITS_PLAYER_ID0
    | SERIAL_CNT_BITS_PLAYER_ID1;

/// What a data register reads where no console is connected.
pub const SIO_MULTI_PLAY_OFFLINE_DATA: u16 = 0xFFFF;

/// What a console sends when it has nothing to send. A slave cannot tell the master that it has
/// data, so the master polls all the time and everybody sends something.
pub const SIO_MULTI_PLAY_EMPTY_DATA: u16 = 0x0000;

/// How many consoles share a link at most, the master included.
pub const SERIAL_MAX_PLAYERS: usize = 4;

/// Stands for a player id that is not known.
pub const SIO_INVALID_PLAYER_ID: usize = 0xDEADBEEF;

/// Whether any bit of `mask` is set in `value`.
pub open spec fn has_bit(value: u16, mask: u16) -> bool {
    value & mask != 0
}

/// The baud rates of the link.
#[derive(Debug, PartialEq, Eq, PartialOrd, Ord, Clone, Copy)]
pub enum SerialBaudRate {
    /// 9600 bps
    BaudRate0,
    /// 38400 bps
    BaudRate1,
    /// 57600 bps
    BaudRate2,
    /// 115200 bps
    BaudRate3,
}

impl SerialBaudRate {
    /// The number that stands for this rate in the two low bits of SIOCNT.
    pub open spec fn bits(self) -> u16 {
        match self {
            SerialBaudRate::BaudRate0 => 0,
            SerialBaudRate::BaudRate1 => 1,
            SerialBaudRate::BaudRate2 => 2,
            SerialBaudRate::BaudRate3 => 3,
        }
    }

    /// The number that stands for this rate in the two low bits of SIOCNT.
    pub fn discriminant(&self) -> (value: u16)
        ensures
            value == self.bits(),
    {
        match self {
            SerialBaudRate::BaudRate0 => 0,
            SerialBaudRate::BaudRate1 => 1,
            SerialBaudRate::BaudRate2 => 2,
            SerialBaudRate::BaudRate3 => 3,
        }
    }
}

/// The register that selects what the port is used for.
#[derive(Debug, Clone, Copy)]
pub struct SerialGpio {
    /// 4000134h - RCNT - mode selection
    pub rcnt: u16,
}

impl SerialGpio {
    /// RCNT with general-purpose mode selected: the high mode bit set and the low one cleared.
    pub open spec fn in_gpio_mode(self) -> SerialGpio {
        SerialGpio { rcnt: (self.rcnt & !SERIAL_RCNT_BIT_GPIO_L) | SERIAL_RCNT_BIT_GPIO_H }
    }

    /// RCNT with general-purpose mode left: the high mode bit cleared.
    pub open spec fn out_of_gpio_mode(self) -> SerialGpio {
        SerialGpio { rcnt: self.rcnt & !SERIAL_RCNT_BIT_GPIO_H }
    }

    /// Puts the port in general-purpose mode, which ends the link.
    pub fn set_gpio_mode(&mut self)
        ensures
            *final(self) == old(self).in_gpio_mode(),
    {
        self.rcnt = (self.rcnt & !SERIAL_RCNT_BIT_GPIO_L) | SERIAL_RCNT_BIT_GPIO_H;
    }
}

/// What a transfer brought.
#[derive(Debug, Clone, Copy)]
pub struct SerialResponse {
    /// The words of the four players.
    pub sio_data: [u16; 4],
    /// The id of this console.
    pub sio_player_id: usize,
}

/// The registers of the port in multiplayer mode.
#[derive(Debug, Clone, Copy)]
pub struct SerialMultiPlayerReg {
    /// 4000120h to 4000126h - SIOMULTI0 to SIOMULTI3 - the words of the four players
    pub sio_multi_data_i: [u16; 4],
    /// 4000128h - SIOCNT - control
    pub sio_cnt: u16,
    /// 400012Ah - SIOMLT_SEND - the word to send
    pub sio_multi_data_send: u16,
}

impl SerialMultiPlayerReg {
    /// Whether a transfer is going on.
    pub open spec fn sending(self) -> bool {
        has_bit(self.sio_cnt, SERIAL_CNT_BIT_START)
    }

    /// Whether all consoles on the link are ready.
    pub open spec fn ready(self) -> bool {
        has_bit(self.sio_cnt, SERIAL_CNT_BIT_CHILD_READY)
    }

    /// Whether this console is a slave.
    pub open spec fn slave(self) -> bool {
        has_bit(self.sio_cnt, SERIAL_CNT_BIT_SLAVE)
    }

    /// Whether the port reports an error.
    pub open spec fn error(self) -> bool {
        has_bit(self.sio_cnt, SERIAL_CNT_BIT_ERROR)
    }

    /// The id of this console: bits 4 and 5 of SIOCNT.
    pub open spec fn player_id(self) -> int {
        (self.sio_cnt as int / 16) % 4
    }

    /// The registers with another value in SIOCNT.
    pub open spec fn with_cnt(self, sio_cnt: u16) -> SerialMultiPlayerReg {
        SerialMultiPlayerReg { sio_cnt, ..self }
    }

    /// The registers with another word to send.
    pub open spec fn with_data(self, data: u16) -> SerialMultiPlayerReg {
        SerialMultiPlayerReg { sio_multi_data_send: data, ..self }
    }

    /// The registers with multiplayer mode selected at `baud_rate`, and nothing to send.
    pub open spec fn in_multi_player_mode(self, baud_rate: SerialBaudRate) -> SerialMultiPlayerReg {
        self.with_cnt(SERIAL_CNT_BIT_MULTIPLAYER | baud_rate.bits()).with_data(0)
    }

    /// Puts the port in multiplayer mode: RCNT leaves general-purpose mode, SIOCNT is set to
    /// multiplayer mode at `baud_rate` with all else off, and the word to send is cleared.
    pub fn set_multi_player_mode(&mut self, gpio: &mut SerialGpio, baud_rate: SerialBaudRate)
        ensures
            *final(self) == old(self).in_multi_player_mode(baud_rate),
            *final(gpio) == old(gpio).out_of_gpio_mode(),
    {
        gpio.rcnt = gpio.rcnt & !SERIAL_RCNT_BIT_GPIO_H;
        self.sio_cnt = SERIAL_CNT_BIT_MULTIPLAYER | baud_rate.discriminant();
        self.sio_multi_data_send = 0;
    }

    /// Sets the word that goes out in the next transfer.
    pub fn set_data(&mut self, data: u16)
        ensures
            *final(self) == old(self).with_data(data),
    {
        self.sio_multi_data_send = data;
    }

    /// Turns the serial interrupt on.
    pub fn enable_interrupt(&mut self)
        ensures
            *final(self) == old(self).with_cnt(old(self).sio_cnt | SERIAL_CNT_BIT_IRQ),
    {
        self.sio_cnt = self.sio_cnt | SERIAL_CNT_BIT_IRQ;
    }

    /// Turns the serial interrupt off.
    pub fn disable_interrupt(&mut self)
        ensures
            *final(self) == old(self).with_cnt(old(self).sio_cnt & !SERIAL_CNT_BIT_IRQ),
    {
        self.sio_cnt = self.sio_cnt & !SERIAL_CNT_BIT_IRQ;
    }

    /// Returns `true` if a transfer is going on, and `false` if not.
    #[must_use]
    pub fn is_sending(&self) -> (sending: bool)
        ensures
            sending == self.sending(),
    {
        self.sio_cnt & SERIAL_CNT_BIT_START != 0
    }

    /// Returns `true` if all consoles on the link are ready, and `false` if not.
    #[must_use]
    pub fn is_ready(&self) -> (ready: bool)
        ensures
            ready == self.ready(),
    {
        self.sio_cnt & SERIAL_CNT_BIT_CHILD_READY != 0
    }

    /// Returns `true` if this console is a slave, and `false` if it is the master.
    #[must_use]
    pub fn is_slave(&self) -> (slave: bool)
        ensures
            slave == self.slave(),
    {
        self.sio_cnt & SERIAL_CNT_BIT_SLAVE != 0
    }

    /// Returns `true` if an error occurred, and `false` if not.
    #[must_use]
    pub fn is_error(&self) -> (error: bool)
        ensures
            error == self.error(),
    {
        self.sio_cnt & SERIAL_CNT_BIT_ERROR != 0
    }

    /// Returns the id of this console, between 0 and 3.
    #[must_use]
    pub fn get_player_id(&self) -> (id: usize)
        ensures
            id == self.player_id(),
            id < SERIAL_MAX_PLAYERS,
    {
        let cnt = self.sio_cnt;
        proof {
            assert((cnt & (0x0010u16 | 0x0020u16)) as usize >> 4usize == (cnt / 16u16) % 4u16)
                by (bit_vector);
        }
        (cnt & SERIAL_CNT_BITS_PLAYER_ID_MASK) as usize >> SERIAL_CNT_BITS_PLAYER_BIT_IDX
    }

    /// Stores in `rsp` what the last transfer brought.
    pub fn get_data(&self, rsp: &mut SerialResponse)
        ensures
            final(rsp).sio_data@ == self.sio_multi_data_i@,
            final(rsp).sio_player_id == self.player_id(),
    {
        let mut i: usize = 0;
        while i < SERIAL_MAX_PLAYERS
            invariant
                i <= SERIAL_MAX_PLAYERS,
                forall|j: int| 0 <= j < i ==> rsp.sio_data[j] == self.sio_multi_data_i[j],
            decreases SERIAL_MAX_PLAYERS - i,
        {
            rsp.sio_data[i] = self.sio_multi_data_i[i];
            i = i + 1;
        }
        rsp.sio_player_id = self.get_player_id();
    }

    /// Starts a transfer. The master does this.
    pub fn start_transmission(&mut self)
        ensures
            *final(self) == old(self).with_cnt(old(self).sio_cnt | SERIAL_CNT_BIT_START),
    {
        self.sio_cnt = self.sio_cnt | SERIAL_CNT_BIT_START;
    }
}

/// All registers of the port that the driver uses.
#[derive(Debug, Clone, Copy)]
pub struct SerialReg {
    /// The mode selection register.
    pub gpio_mode_reg: SerialGpio,
    /// The registers of multiplayer mode.
    pub multiplay_mode_reg: SerialMultiPlayerReg,
}

} // verus!
