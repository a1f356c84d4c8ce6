use agb_serial::registers::{
    SerialBaudRate, SerialGpio, SerialMultiPlayerReg, SerialResponse, SERIAL_CNT_BITS_PLAYER_ID_MASK,
    SERIAL_CNT_BIT_CHILD_READY, SERIAL_CNT_BIT_ERROR, SERIAL_CNT_BIT_IRQ,
    SERIAL_CNT_BIT_MULTIPLAYER, SERIAL_CNT_BIT_SLAVE, SERIAL_CNT_BIT_START, SERIAL_MAX_PLAYERS,
    SERIAL_RCNT_BIT_GPIO_H, SERIAL_RCNT_BIT_GPIO_L, SIO_INVALID_PLAYER_ID,
    SIO_MULTI_PLAY_EMPTY_DATA, SIO_MULTI_PLAY_OFFLINE_DATA,
};

fn registers(sio_cnt: u16) -> SerialMultiPlayerReg {
    SerialMultiPlayerReg {
        sio_multi_data_i: [0x1111, 0x2222, 0x3333, 0x4444],
        sio_cnt,
        sio_multi_data_send: 0x5555,
    }
}

#[test]
fn constants_are_those_of_the_port() {
    assert_eq!(SERIAL_RCNT_BIT_GPIO_L, 1 << 14);
    assert_eq!(SERIAL_RCNT_BIT_GPIO_H, 1 << 15);
    assert_eq!(SERIAL_CNT_BIT_SLAVE, 1 << 2);
    assert_eq!(SERIAL_CNT_BIT_CHILD_READY, 1 << 3);
    assert_eq!(SERIAL_CNT_BITS_PLAYER_ID_MASK, 0x30);
    assert_eq!(SERIAL_CNT_BIT_ERROR, 1 << 6);
    assert_eq!(SERIAL_CNT_BIT_START, 1 << 7);
    assert_eq!(SERIAL_CNT_BIT_MULTIPLAYER, 1 << 13);
    assert_eq!(SERIAL_CNT_BIT_IRQ, 1 << 14);
    assert_eq!(SIO_MULTI_PLAY_OFFLINE_DATA, 0xFFFF);
    assert_eq!(SIO_MULTI_PLAY_EMPTY_DATA, 0);
    assert_eq!(SERIAL_MAX_PLAYERS, 4);
    assert_eq!(SIO_INVALID_PLAYER_ID, 0xDEADBEEF);
}

#[test]
fn baud_rates_are_numbered_from_slow_to_fast() {
    assert_eq!(SerialBaudRate::BaudRate0.discriminant(), 0);
    assert_eq!(SerialBaudRate::BaudRate1.discriminant(), 1);
    assert_eq!(SerialBaudRate::BaudRate2.discriminant(), 2);
    assert_eq!(SerialBaudRate::BaudRate3.discriminant(), 3);
    assert!(SerialBaudRate::BaudRate0 < SerialBaudRate::BaudRate3);
}

#[test]
fn multi_player_mode_leaves_gpio_mode_and_clears_the_rest() {
    let mut gpio = SerialGpio { rcnt: 0xC00F };
    let mut reg = registers(0xFFFF);
    reg.set_multi_player_mode(&mut gpio, SerialBaudRate::BaudRate3);
    assert_eq!(gpio.rcnt, 0x400F);
    assert_eq!(reg.sio_cnt, 0x2003);
    assert_eq!(reg.sio_multi_data_send, 0);
    assert_eq!(reg.sio_multi_data_i, [0x1111, 0x2222, 0x3333, 0x4444]);
}

#[test]
fn gpio_mode_sets_the_high_mode_bit_and_clears_the_low_one() {
    let mut gpio = SerialGpio { rcnt: 0x400F };
    gpio.set_gpio_mode();
    assert_eq!(gpio.rcnt, 0x800F);
    gpio.set_gpio_mode();
    assert_eq!(gpio.rcnt, 0x800F);
}

#[test]
fn status_bits_are_told_apart() {
    for bit in 0..16 {
        let reg = registers(1 << bit);
        assert_eq!(reg.is_slave(), bit == 2);
        assert_eq!(reg.is_ready(), bit == 3);
        assert_eq!(reg.is_error(), bit == 6);
        assert_eq!(reg.is_sending(), bit == 7);
    }
}

#[test]
fn a_transfer_has_an_outcome_when_ready_without_error_and_idle() {
    assert!(registers(0x0008).has_transferred());
    assert!(registers(0xFF3F).has_transferred());
    assert!(!registers(0x0000).has_transferred());
    assert!(!registers(0x0048).has_transferred());
    assert!(!registers(0x0088).has_transferred());
    assert!(!registers(0xFFFF).has_transferred());
}

#[test]
fn player_id_is_bits_4_and_5() {
    assert_eq!(registers(0x0000).get_player_id(), 0);
    assert_eq!(registers(0x0010).get_player_id(), 1);
    assert_eq!(registers(0x0020).get_player_id(), 2);
    assert_eq!(registers(0x0030).get_player_id(), 3);
    assert_eq!(registers(0xFFCF).get_player_id(), 0);
    assert_eq!(registers(0xFFFF).get_player_id(), 3);
}

#[test]
fn the_interrupt_bit_is_switched_alone() {
    let mut reg = registers(0x2083);
    reg.enable_interrupt();
    assert_eq!(reg.sio_cnt, 0x6083);
    reg.enable_interrupt();
    assert_eq!(reg.sio_cnt, 0x6083);
    reg.disable_interrupt();
    assert_eq!(reg.sio_cnt, 0x2083);
    reg.disable_interrupt();
    assert_eq!(reg.sio_cnt, 0x2083);
    assert_eq!(reg.sio_multi_data_send, 0x5555);
}

#[test]
fn starting_sets_the_start_bit_alone() {
    let mut reg = registers(0x6008);
    reg.start_transmission();
    assert_eq!(reg.sio_cnt, 0x6088);
    assert!(reg.is_sending());
}

#[test]
fn setting_data_changes_the_word_to_send_alone() {
    let mut reg = registers(0x6008);
    reg.set_data(0xBEEF);
    assert_eq!(reg.sio_multi_data_send, 0xBEEF);
    assert_eq!(reg.sio_cnt, 0x6008);
    assert_eq!(reg.sio_multi_data_i, [0x1111, 0x2222, 0x3333, 0x4444]);
}

#[test]
fn a_response_holds_all_words_and_the_player_id() {
    let mut rsp = SerialResponse { sio_data: [0xFFFF; 4], sio_player_id: SIO_INVALID_PLAYER_ID };
    registers(0x0028).get_data(&mut rsp);
    assert_eq!(rsp.sio_data, [0x1111, 0x2222, 0x3333, 0x4444]);
    assert_eq!(rsp.sio_player_id, 2);
}

#[test]
fn registers_are_written_in_hexadecimal() {
    let reg = SerialMultiPlayerReg {
        sio_multi_data_i: [0x0, 0xF, 0x10, 0xFFFF],
        sio_cnt: 0x60A8,
        sio_multi_data_send: 0xD0D0,
    };
    assert_eq!(
        reg.fmt(&SerialGpio { rcnt: 0x8009 }),
        "SERIAL_RCNT: 8009\nSERIAL_SIOMULTI0: 0\nSERIAL_SIOMULTI1: f\nSERIAL_SIOMULTI2: 10\n\
         SERIAL_SIOMULTI3: ffff\nSERIAL_SIOCNT: 60a8\nSERIAL_SERIAL_SIOMLT_SEND: d0d0"
    );
}

#[test]
fn hexadecimal_digits_are_those_of_the_standard_library() {
    for value in [0x0u16, 0x9, 0xA, 0xF, 0x10, 0xFF, 0x100, 0x1234, 0x5678, 0x9ABC, 0xDEF0, 0xFFFF] {
        let reg = registers(value);
        let text = reg.fmt(&SerialGpio { rcnt: value });
        assert_eq!(
            text,
            format!(
                "SERIAL_RCNT: {:x}\nSERIAL_SIOMULTI0: 1111\nSERIAL_SIOMULTI1: 2222\n\
                 SERIAL_SIOMULTI2: 3333\nSERIAL_SIOMULTI3: 4444\nSERIAL_SIOCNT: {:x}\n\
                 SERIAL_SERIAL_SIOMLT_SEND: 5555",
                value, value
            )
        );
    }
}
