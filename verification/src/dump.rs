//! The registers of the port as text.

use vstd::prelude::*;
use vstd::string::*;

use crate::registers::{SerialGpio, SerialMultiPlayerReg};

verus! {

/// The hexadecimal digit for a number below sixteen, in lower case.
pub open spec fn hex_digit(value: int) -> char {
    if value < 10 {
        (value + '0' as int) as char
    } else {
        (value - 10 + 'a' as int) as char
    }
}

/// A number in hexadecimal, in lower case and without leading zeros.
pub open spec fn lower_hex(value: int) -> Seq<char>
    decreases value,
{
    if value < 16 {
        seq![hex_digit(value)]
    } else {
        lower_hex(value / 16).push(hex_digit(value % 16))
    }
}

/// The hexadecimal digit for a number below sixteen.
fn digit_text(value: u16) -> (text: &'static str)
    requires
        value < 16,
    ensures
        text@ == seq![hex_digit(value as int)],
{
    proof {
        reveal_strlit("0");
        reveal_strlit("1");
        reveal_strlit("2");
        reveal_strlit("3");
        reveal_strlit("4");
        reveal_strlit("5");
        reveal_strlit("6");
        reveal_strlit("7");
        reveal_strlit("8");
        reveal_strlit("9");
        reveal_strlit("a");
        reveal_strlit("b");
        reveal_strlit("c");
        reveal_strlit("d");
        reveal_strlit("e");
        reveal_strlit("f");
    }
    match value {
        0 => "0",
        1 => "1",
        2 => "2",
        3 => "3",
        4 => "4",
        5 => "5",
        6 => "6",
        7 => "7",
        8 => "8",
        9 => "9",
        10 => "a",
        11 => "b",
        12 => "c",
        13 => "d",
        14 => "e",
        _ => "f",
    }
}

/// Appends a number in hexadecimal.
fn append_hex(text: &mut String, value: u16)
    ensures
        final(text)@ == old(text)@ + lower_hex(value as int),
    decreases value,
{
    if value >= 16 {
        append_hex(text, value / 16);
    }
    text.append(digit_text(value % 16));
    proof {
        assert(lower_hex(value as int) =~= (if value < 16 {
            Seq::empty()
        } else {
            lower_hex(value as int / 16)
        }) + seq![hex_digit(value as int % 16)]);
    }
}

/// Appends a register: its label, then its value in hexadecimal.
fn append_register(text: &mut String, label: &str, value: u16)
    ensures
        final(text)@ == old(text)@ + (label@ + lower_hex(value as int)),
{
    text.append(label);
    append_hex(text, value);
    proof {
        assert(old(text)@ + label@ + lower_hex(value as int) =~= old(text)@ + (label@ + lower_hex(
            value as int,
        )));
    }
}

/// The text for a set of registers: one line for each register, its label and then its value in
/// hexadecimal.
pub open spec fn register_dump(gpio: SerialGpio, reg: SerialMultiPlayerReg) -> Seq<char> {
    "SERIAL_RCNT: "@ + lower_hex(gpio.rcnt as int)
        + ("\nSERIAL_SIOMULTI0: "@ + lower_hex(reg.sio_multi_data_i[0] as int))
        + ("\nSERIAL_SIOMULTI1: "@ + lower_hex(reg.sio_multi_data_i[1] as int))
        + ("\nSERIAL_SIOMULTI2: "@ + lower_hex(reg.sio_multi_data_i[2] as int))
        + ("\nSERIAL_SIOMULTI3: "@ + lower_hex(reg.sio_multi_data_i[3] as int))
        + ("\nSERIAL_SIOCNT: "@ + lower_hex(reg.sio_cnt as int))
        + ("\nSERIAL_SERIAL_SIOMLT_SEND: "@ + lower_hex(reg.sio_multi_data_send as int))
}

impl SerialMultiPlayerReg {
    /// The registers as text, together with the mode selection register: one line for each
    /// register, its label and then its value in hexadecimal.
    pub fn fmt(&self, gpio: &SerialGpio) -> (text: String)
        ensures
            text@ == register_dump(*gpio, *self),
    {
        let mut text = String::new();
        append_register(&mut text, "SERIAL_RCNT: ", gpio.rcnt);
        proof {
            assert(text@ =~= "SERIAL_RCNT: "@ + lower_hex(gpio.rcnt as int));
        }
        append_register(&mut text, "\nSERIAL_SIOMULTI0: ", self.sio_multi_data_i[0]);
        append_register(&mut text, "\nSERIAL_SIOMULTI1: ", self.sio_multi_data_i[1]);
        append_register(&mut text, "\nSERIAL_SIOMULTI2: ", self.sio_multi_data_i[2]);
        append_register(&mut text, "\nSERIAL_SIOMULTI3: ", self.sio_multi_data_i[3]);
        append_register(&mut text, "\nSERIAL_SIOCNT: ", self.sio_cnt);
        append_register(&mut text, "\nSERIAL_SERIAL_SIOMLT_SEND: ", self.sio_multi_data_send);
        text
    }
}

} // verus!
