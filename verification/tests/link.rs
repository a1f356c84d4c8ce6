use std::cell::Cell;

use agb_serial::interrupt::{on_serial_interrupt, on_timer_interrupt, Serial};
use agb_serial::multiplayer::{SerialController, SerialMultiPlayer, TimerSettings};
use agb_serial::registers::{
    SerialBaudRate, SerialGpio, SerialMultiPlayerReg, SerialReg, SIO_INVALID_PLAYER_ID,
};

const READY: u16 = 0x0008;
const SLAVE: u16 = 0x0004;
const ERROR: u16 = 0x0040;
const START: u16 = 0x0080;

fn port() -> SerialReg {
    SerialReg {
        gpio_mode_reg: SerialGpio { rcnt: 0x8000 },
        multiplay_mode_reg: SerialMultiPlayerReg {
            sio_multi_data_i: [0; 4],
            sio_cnt: 0,
            sio_multi_data_send: 0,
        },
    }
}

fn as_master(reg: SerialReg) -> SerialReg {
    reg
}

fn as_slave(mut reg: SerialReg) -> SerialReg {
    reg.multiplay_mode_reg.sio_cnt |= SLAVE;
    reg
}

/// A master with an active link.
fn active(controller: &mut SerialController) -> (SerialMultiPlayer<'_>, Option<Serial>) {
    let mut link = None;
    let mut player = controller.serial_multi_player(SerialBaudRate::BaudRate3, &mut link, port());
    player.activate(&mut link, as_master);
    (player, link)
}

/// A serial interrupt at which the port reads the given words and status.
fn transfer(link: &mut Option<Serial>, data: [u16; 4], status: u16) {
    if let Some(serial) = link {
        let mut reg = serial.registers();
        reg.multiplay_mode_reg.sio_multi_data_i = data;
        reg.multiplay_mode_reg.sio_cnt = 0x6003 | status;
        serial.load_registers(reg);
    }
    on_serial_interrupt(link);
}

fn registers(link: &Option<Serial>) -> SerialReg {
    link.as_ref().unwrap().registers()
}

fn word_to_send(link: &Option<Serial>) -> u16 {
    registers(link).multiplay_mode_reg.sio_multi_data_send
}

fn drain(player: &mut SerialMultiPlayer<'_>, id: usize) -> Vec<u16> {
    let mut words = Vec::new();
    while let Some(word) = player.get_player_rsp(id) {
        words.push(word);
    }
    words
}

#[test]
fn a_new_link_is_inactive_and_empty() {
    let mut controller = SerialController::new();
    let mut link = None;
    let mut player = controller.serial_multi_player(SerialBaudRate::BaudRate0, &mut link, port());
    assert!(link.is_some());
    assert!(!player.is_active());
    assert_eq!(player.get_player_id(), SIO_INVALID_PLAYER_ID);
    assert_eq!(player.get_nb_players_online(), 0);
    for id in 0..4 {
        assert!(!player.is_online(id));
        assert_eq!(player.get_player_rsp(id), None);
    }
    assert_eq!(
        player.interrupt_timer(),
        TimerSettings {
            timer: 2,
            cascade: false,
            divider: 64,
            interrupt: true,
            overflow_amount: 0x1FF,
            enabled: false,
        }
    );
}

#[test]
fn a_new_link_replaces_the_one_before() {
    let mut controller = SerialController::new();
    let (mut player, mut link) = active(&mut controller);
    player.send_data(7);
    player.sync(&mut link);
    transfer(&mut link, [1, 2, 3, 4], READY);
    assert_eq!(word_to_send(&link), 7);
    let mut player = controller.serial_multi_player(SerialBaudRate::BaudRate0, &mut link, port());
    player.activate(&mut link, as_master);
    assert_eq!(word_to_send(&link), 0);
    player.sync(&mut link);
    assert_eq!(player.get_nb_players_online(), 0);
    assert_eq!(player.get_player_rsp(0), None);
}

#[test]
fn activation_on_the_master() {
    let mut controller = SerialController::new();
    let mut link = None;
    let mut player = controller.serial_multi_player(SerialBaudRate::BaudRate2, &mut link, port());
    let written = Cell::new(None);
    player.activate(&mut link, |reg: SerialReg| {
        written.set(Some(reg));
        reg
    });
    let written = written.get().unwrap();
    assert_eq!(written.gpio_mode_reg.rcnt, 0x0000);
    assert_eq!(written.multiplay_mode_reg.sio_cnt, 0x6002);
    assert_eq!(written.multiplay_mode_reg.sio_multi_data_send, 0);
    assert!(player.is_active());
    assert_eq!(player.get_player_id(), 0);
    assert!(player.interrupt_timer().enabled);
}

#[test]
fn activation_on_a_slave() {
    let mut controller = SerialController::new();
    let mut link = None;
    let mut player = controller.serial_multi_player(SerialBaudRate::BaudRate1, &mut link, port());
    player.activate(&mut link, as_slave);
    assert_eq!(registers(&link).multiplay_mode_reg.sio_cnt, 0x6005);
    assert!(player.is_active());
    assert_eq!(player.get_player_id(), SIO_INVALID_PLAYER_ID);
    assert!(!player.interrupt_timer().enabled);
}

#[test]
fn completing_an_activation_goes_by_the_slave_bit() {
    let mut controller = SerialController::new();
    let mut link = None;
    let mut player = controller.serial_multi_player(SerialBaudRate::BaudRate1, &mut link, port());
    let mut reg = port().multiplay_mode_reg;
    reg.sio_cnt = 0xFFFB;
    player.complete_activation(&reg);
    assert_eq!(player.get_player_id(), 0);
    assert!(player.interrupt_timer().enabled);
    reg.sio_cnt = SLAVE;
    player.complete_activation(&reg);
    assert_eq!(player.get_player_id(), SIO_INVALID_PLAYER_ID);
    assert!(!player.interrupt_timer().enabled);
}

#[test]
fn without_a_link_nothing_happens() {
    let mut controller = SerialController::new();
    let mut link = None;
    let mut player = controller.serial_multi_player(SerialBaudRate::BaudRate1, &mut link, port());
    let mut none = None;
    player.activate(&mut none, as_master);
    assert!(none.is_none());
    assert!(!player.is_active());
    player.activate(&mut link, as_master);
    player.send_data(9);
    player.deactivate(&mut none);
    assert!(player.is_active());
    player.sync(&mut none);
    on_timer_interrupt(&mut none);
    on_serial_interrupt(&mut none);
    assert!(none.is_none());
    player.sync(&mut link);
    transfer(&mut link, [0; 4], READY);
    assert_eq!(word_to_send(&link), 9);
}

#[test]
fn deactivation_frees_the_port_and_stops_the_timer() {
    let mut controller = SerialController::new();
    let (mut player, mut link) = active(&mut controller);
    assert_eq!(registers(&link).multiplay_mode_reg.sio_cnt, 0x6003);
    player.deactivate(&mut link);
    assert_eq!(registers(&link).multiplay_mode_reg.sio_cnt, 0x2003);
    assert_eq!(registers(&link).gpio_mode_reg.rcnt, 0x8000);
    assert!(!player.is_active());
    assert!(!player.interrupt_timer().enabled);
}

#[test]
fn the_timer_starts_a_transfer_only_when_it_may() {
    let mut controller = SerialController::new();
    let (_player, mut link) = active(&mut controller);
    for status in 0..16u16 {
        let status = (if status & 1 != 0 { SLAVE } else { 0 })
            | (if status & 2 != 0 { READY } else { 0 })
            | (if status & 4 != 0 { ERROR } else { 0 })
            | (if status & 8 != 0 { START } else { 0 });
        let serial = link.as_mut().unwrap();
        let mut reg = serial.registers();
        reg.multiplay_mode_reg.sio_cnt = 0x6003 | status;
        serial.load_registers(reg);
        on_timer_interrupt(&mut link);
        let expected = if status == READY { 0x6003 | READY | START } else { 0x6003 | status };
        assert_eq!(registers(&link).multiplay_mode_reg.sio_cnt, expected);
        on_timer_interrupt(&mut link);
        assert_eq!(registers(&link).multiplay_mode_reg.sio_cnt, expected);
    }
}

#[test]
fn a_failed_transfer_loses_nothing() {
    for status in [0, READY | ERROR, READY | START, ERROR | START] {
        let mut controller = SerialController::new();
        let (mut player, mut link) = active(&mut controller);
        player.send_data(0x0A);
        player.send_data(0x0B);
        player.sync(&mut link);
        transfer(&mut link, [1, 2, 3, 4], READY);
        player.sync(&mut link);
        assert_eq!(player.get_nb_players_online(), 4);
        assert_eq!(word_to_send(&link), 0x0A);
        transfer(&mut link, [5, 6, 7, 8], status);
        assert_eq!(word_to_send(&link), 0x0A);
        player.sync(&mut link);
        assert_eq!(player.get_nb_players_online(), 0);
        assert_eq!(player.get_player_id(), SIO_INVALID_PLAYER_ID);
        assert_eq!(drain(&mut player, 0), vec![1]);
        transfer(&mut link, [0, 0, 0, 0], READY);
        assert_eq!(word_to_send(&link), 0x0B);
    }
}

#[test]
fn players_are_counted_up_to_the_first_offline_word() {
    let off = 0xFFFF;
    let cases: [([u16; 4], usize); 7] = [
        ([off, 1, 1, 1], 0),
        ([1, off, 1, 1], 1),
        ([1, 0, off, 1], 2),
        ([0, 0, 1, off], 3),
        ([0, 0, 0, 0], 4),
        ([1, 2, 3, 4], 4),
        ([off, off, off, off], 0),
    ];
    for (data, players) in cases {
        let mut controller = SerialController::new();
        let (mut player, mut link) = active(&mut controller);
        transfer(&mut link, data, READY | 0x0010);
        player.sync(&mut link);
        assert_eq!(player.get_nb_players_online(), players);
        assert_eq!(player.get_player_id(), 1);
        for id in 0..6 {
            assert_eq!(player.is_online(id), id < players);
        }
        for id in 0..4 {
            let expected = if id < players && data[id] != 0 { vec![data[id]] } else { vec![] };
            assert_eq!(drain(&mut player, id), expected);
        }
        player.deactivate(&mut link);
        for id in 0..6 {
            assert!(!player.is_online(id));
        }
    }
}

#[test]
fn words_go_out_in_order_and_then_nothing() {
    let mut controller = SerialController::new();
    let (mut player, mut link) = active(&mut controller);
    for word in [3, 1, 2] {
        player.send_data(word);
    }
    transfer(&mut link, [0; 4], READY);
    assert_eq!(word_to_send(&link), 0);
    player.sync(&mut link);
    let mut sent = Vec::new();
    for _ in 0..5 {
        transfer(&mut link, [0; 4], READY);
        sent.push(word_to_send(&link));
    }
    assert_eq!(sent, vec![3, 1, 2, 0, 0]);
}

#[test]
fn words_come_in_in_order() {
    let mut controller = SerialController::new();
    let (mut player, mut link) = active(&mut controller);
    for k in 1..=5u16 {
        transfer(&mut link, [k, 0x100 + k, 0, if k % 2 == 0 { 0x300 + k } else { 0 }], READY);
    }
    assert_eq!(player.get_player_rsp(1), None);
    player.sync(&mut link);
    assert_eq!(drain(&mut player, 0), vec![1, 2, 3, 4, 5]);
    assert_eq!(drain(&mut player, 1), vec![0x101, 0x102, 0x103, 0x104, 0x105]);
    assert_eq!(drain(&mut player, 2), vec![]);
    assert_eq!(drain(&mut player, 3), vec![0x302, 0x304]);
}

#[test]
fn a_full_queue_of_received_words_drops_the_newest() {
    let mut controller = SerialController::new();
    let (mut player, mut link) = active(&mut controller);
    for k in 1..=18u16 {
        transfer(&mut link, [k, 0xFFFF, 0xFFFF, 0xFFFF], READY);
    }
    player.sync(&mut link);
    assert_eq!(player.get_nb_players_online(), 1);
    assert_eq!(player.get_player_rsp(0), Some(1));
    for k in 101..=103u16 {
        transfer(&mut link, [k, 0xFFFF, 0xFFFF, 0xFFFF], READY);
    }
    player.sync(&mut link);
    let mut expected: Vec<u16> = (2..=16).collect();
    expected.push(101);
    assert_eq!(drain(&mut player, 0), expected);
    player.sync(&mut link);
    assert_eq!(player.get_player_rsp(0), None);
}

#[test]
fn a_full_queue_of_words_to_send_drops_the_newest() {
    let mut controller = SerialController::new();
    let (mut player, mut link) = active(&mut controller);
    for k in 1..=10u16 {
        player.send_data(k);
    }
    assert_eq!(player.sync(&mut link), 0);
    for k in 11..=28u16 {
        player.send_data(k);
    }
    assert_eq!(player.sync(&mut link), 10);
    assert_eq!(player.sync(&mut link), 0);
    let mut sent = Vec::new();
    for _ in 0..17 {
        transfer(&mut link, [0; 4], READY);
        sent.push(word_to_send(&link));
    }
    let mut expected: Vec<u16> = (1..=16).collect();
    expected.push(0);
    assert_eq!(sent, expected);
}

#[test]
fn an_inactive_link_does_not_sync() {
    let mut controller = SerialController::new();
    let (mut player, mut link) = active(&mut controller);
    transfer(&mut link, [1, 2, 3, 4], READY);
    player.send_data(9);
    player.deactivate(&mut link);
    player.sync(&mut link);
    assert_eq!(player.get_nb_players_online(), 0);
    assert_eq!(player.get_player_rsp(2), None);
    transfer(&mut link, [0; 4], READY);
    assert_eq!(word_to_send(&link), 0);
    player.activate(&mut link, as_master);
    player.sync(&mut link);
    assert_eq!(player.get_nb_players_online(), 4);
    assert_eq!(player.get_player_rsp(2), Some(3));
    transfer(&mut link, [0; 4], READY);
    assert_eq!(word_to_send(&link), 9);
}

#[test]
fn the_link_is_written_as_its_registers() {
    let mut controller = SerialController::new();
    let (player, mut link) = active(&mut controller);
    transfer(&mut link, [0xAB, 0, 0x1234, 0xFFFF], READY);
    assert_eq!(
        player.fmt(&link),
        "SERIAL_RCNT: 0\nSERIAL_SIOMULTI0: ab\nSERIAL_SIOMULTI1: 0\nSERIAL_SIOMULTI2: 1234\n\
         SERIAL_SIOMULTI3: ffff\nSERIAL_SIOCNT: 600b\nSERIAL_SERIAL_SIOMLT_SEND: 0"
    );
    assert_eq!(player.fmt(&None), "");
}

#[test]
fn a_sync_tells_how_many_words_it_lost() {
    for (queued, offered, lost) in [(0, 16, 0), (15, 1, 0), (16, 0, 0), (16, 1, 1), (16, 16, 16)] {
        let mut controller = SerialController::new();
        let (mut player, mut link) = active(&mut controller);
        for _ in 0..queued {
            player.send_data(1);
        }
        assert_eq!(player.sync(&mut link), 0);
        for _ in 0..offered {
            player.send_data(2);
        }
        let mut none = None;
        assert_eq!(player.sync(&mut none), 0);
        player.deactivate(&mut link);
        assert_eq!(player.sync(&mut link), 0);
        player.activate(&mut link, as_master);
        assert_eq!(player.sync(&mut link), lost);
    }
}

/// Three consoles on one link, each with its place.
#[test]
fn what_is_sent_is_read_on_all_consoles() {
    let mut controllers = [SerialController::new(), SerialController::new(), SerialController::new()];
    let mut consoles = Vec::new();
    for (id, controller) in controllers.iter_mut().enumerate() {
        let mut link = None;
        let mut player =
            controller.serial_multi_player(SerialBaudRate::BaudRate3, &mut link, port());
        player.activate(&mut link, if id == 0 { as_master } else { as_slave });
        assert_eq!(player.interrupt_timer().enabled, id == 0);
        consoles.push((player, link));
    }
    let words: [Vec<u16>; 3] = [vec![0x11, 0x12, 0x13], vec![], (1..=16).collect()];
    for (id, (player, link)) in consoles.iter_mut().enumerate() {
        for word in &words[id] {
            player.send_data(*word);
        }
        player.sync(link);
    }
    for _ in 0..17 {
        let mut data = [0xFFFF; 4];
        for (id, (_, link)) in consoles.iter().enumerate() {
            data[id] = word_to_send(link);
        }
        for (id, (_, link)) in consoles.iter_mut().enumerate() {
            let role = if id == 0 { 0 } else { SLAVE };
            transfer(link, data, READY | role | ((id as u16) << 4));
        }
    }
    for (id, (player, link)) in consoles.iter_mut().enumerate() {
        player.sync(link);
        assert_eq!(player.get_player_id(), id);
        assert_eq!(player.get_nb_players_online(), 3);
        assert!(player.is_online(2) && !player.is_online(3));
        for other in 0..3 {
            assert_eq!(drain(player, other), words[other]);
        }
        assert_eq!(drain(player, 3), vec![]);
    }
}

/// A game that shares the place of its player: each coordinate goes out behind a tag.
#[test]
fn tagged_coordinates_cross_the_link() {
    fn send(player: &mut SerialMultiPlayer<'_>, x: i32, y: i32) {
        player.send_data(0xD0D0);
        let data = (x as u32 & 0xFFFF) as u16;
        player.send_data(if data == 0 { 0xDEAD } else { data });
        player.send_data(0xDADA);
        let data = (y as u32 & 0xFFFF) as u16;
        player.send_data(if data == 0 { 0xDEAD } else { data });
    }
    fn receive(player: &mut SerialMultiPlayer<'_>, id: usize, x: &mut i32, y: &mut i32) {
        let mut tag = player.get_player_rsp(id).unwrap_or(0);
        let mut data = player.get_player_rsp(id).unwrap_or(0);
        while tag != 0 {
            let plain = data != 0xD0D0 && data != 0xDADA && data != 0xDEAD && data != 0;
            if tag == 0xD0D0 && plain {
                *x = ((*x as u32 & 0xFFFF0000) | data as u32) as i32;
            } else if tag == 0xDADA && plain {
                *y = ((*y as u32 & 0xFFFF0000) | data as u32) as i32;
            }
            tag = player.get_player_rsp(id).unwrap_or(0);
            data = player.get_player_rsp(id).unwrap_or(0);
        }
    }
    let mut first = SerialController::new();
    let mut second = SerialController::new();
    let (mut sender, mut sender_link) = active(&mut first);
    let (mut receiver, mut receiver_link) = active(&mut second);
    send(&mut sender, 0x123, 0);
    sender.sync(&mut sender_link);
    for _ in 0..6 {
        let data = [word_to_send(&sender_link), 0, 0xFFFF, 0xFFFF];
        transfer(&mut sender_link, data, READY);
        transfer(&mut receiver_link, data, READY | SLAVE | 0x0010);
    }
    receiver.sync(&mut receiver_link);
    let (mut x, mut y) = (25 << 4, 25 << 4);
    for id in 0..receiver.get_nb_players_online() {
        if id != receiver.get_player_id() {
            receive(&mut receiver, id, &mut x, &mut y);
        }
    }
    assert_eq!((x, y), (0x123, 25 << 4));
}

#[test]
fn a_second_sync_changes_nothing() {
    let mut controller = SerialController::new();
    let (mut player, mut link) = active(&mut controller);
    transfer(&mut link, [1, 2, 0xFFFF, 0xFFFF], READY | 0x0010);
    player.send_data(5);
    player.send_data(6);
    for _ in 0..3 {
        player.sync(&mut link);
        assert_eq!(player.get_nb_players_online(), 2);
        assert_eq!(player.get_player_id(), 1);
    }
    assert_eq!(drain(&mut player, 0), vec![1]);
    assert_eq!(drain(&mut player, 1), vec![2]);
    let mut sent = Vec::new();
    for _ in 0..3 {
        transfer(&mut link, [0; 4], READY);
        sent.push(word_to_send(&link));
    }
    assert_eq!(sent, vec![5, 6, 0]);
}

#[test]
fn shared_failures_keep_the_order() {
    let mut first = SerialController::new();
    let mut second = SerialController::new();
    let (mut sender, mut sender_link) = active(&mut first);
    let (mut receiver, mut receiver_link) = active(&mut second);
    for word in [10, 20, 30] {
        sender.send_data(word);
    }
    sender.sync(&mut sender_link);
    for status in [READY, ERROR, READY, READY | ERROR, READY | START, READY, 0, READY] {
        let data = [word_to_send(&sender_link), 0xFFFF, 0xFFFF, 0xFFFF];
        transfer(&mut sender_link, data, status);
        transfer(&mut receiver_link, data, status | SLAVE);
        on_timer_interrupt(&mut receiver_link);
        receiver.sync(&mut receiver_link);
    }
    assert_eq!(drain(&mut receiver, 0), vec![10, 20, 30]);
}
