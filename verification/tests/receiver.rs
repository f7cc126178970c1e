use nocat::led::Color;
use nocat::packet::Address;
use nocat::receiver::hid::{HidAction, HidEvent, HidPhase, HidTask, KeyboardReport, KEY_MAP};
use nocat::receiver::neopixel::{NeoPixel, PixelEvent};
use nocat::receiver::radio::{decode, own_address, receive, Output, Reception};
use nocat::receiver::{orchestrate, rssi_to_brightness, Events, State};
use nocat::sender::keyboard::Scanner;
use nocat::sender::radio::RadioPacket;

/// Plays keys into the task with every write working, and returns the reports.
fn type_keys(keys: &[u8]) -> Vec<KeyboardReport> {
    let mut task = HidTask::new();
    let mut reports = Vec::new();
    for key in keys {
        task.advance(HidEvent::Key(*key));
        loop {
            match task.action() {
                HidAction::AwaitKey => break,
                HidAction::Write(report) => {
                    reports.push(report);
                    task.advance(HidEvent::Written(true));
                }
                HidAction::Hold(ms) => {
                    assert_eq!(ms, 30);
                    task.advance(HidEvent::Held);
                }
            }
        }
    }
    reports
}

fn down(keycode: u8) -> KeyboardReport {
    KeyboardReport { modifier: 0, reserved: 0, leds: 0, keycodes: [keycode, 0, 0, 0, 0, 0] }
}

fn up() -> KeyboardReport {
    KeyboardReport { modifier: 0, reserved: 0, leds: 0, keycodes: [0; 6] }
}

#[test]
fn receiver_brightness_follows_the_documented_range() {
    assert_eq!(rssi_to_brightness(-120), 1);
    assert_eq!(rssi_to_brightness(-100), 1);
    assert_eq!(rssi_to_brightness(-99), 4);
    assert_eq!(rssi_to_brightness(-70), 127);
    assert_eq!(rssi_to_brightness(-40), 255);
    assert_eq!(rssi_to_brightness(i16::MAX), 255);
}

#[test]
fn receiver_state_counts_and_follows_events() {
    let mut state = State::new();
    assert_eq!(state, State { key0_pressed: false, key1_pressed: false, packets_received: 0 });
    orchestrate(&mut state, Events::RadioReceived(1, true));
    orchestrate(&mut state, Events::RadioReceived(0xFF, true));
    assert_eq!(state, State { key0_pressed: false, key1_pressed: true, packets_received: 2 });
    orchestrate(&mut state, Events::RadioReceived(1, false));
    orchestrate(&mut state, Events::RadioReceived(0, true));
    assert_eq!(state, State { key0_pressed: true, key1_pressed: false, packets_received: 4 });
}

#[test]
fn payloads_are_decoded() {
    assert_eq!(decode(&[], Some(-3)), None);
    assert_eq!(decode(&[1], Some(-3)), None);
    assert_eq!(
        decode(&[1, 0], Some(-3)),
        Some(Reception { event: Events::RadioReceived(1, false), rssi: Some(-3), tap: None })
    );
    assert_eq!(
        decode(&[9, 7, 5], None),
        Some(Reception { event: Events::RadioReceived(9, true), rssi: None, tap: Some(9) })
    );
}

fn outputs(received: &Reception) -> Vec<Output> {
    let mut all = Vec::new();
    while let Some(output) = received.output(all.len()) {
        all.push(output);
    }
    all
}

#[test]
fn a_packet_is_handed_on_as_event_strength_and_key() {
    let press = Output::Event(Events::RadioReceived(1, true));
    let release = Output::Event(Events::RadioReceived(1, false));
    let handed_on = |data: &[u8], rssi: Option<i16>| outputs(&decode(data, rssi).unwrap());
    assert_eq!(handed_on(&[1, 1], Some(-7)), vec![press, Output::Rssi(-7), Output::Tap(1)]);
    assert_eq!(handed_on(&[1, 1], None), vec![press, Output::Tap(1)]);
    assert_eq!(handed_on(&[1, 0], Some(-7)), vec![release, Output::Rssi(-7)]);
    assert_eq!(handed_on(&[1, 0], None), vec![release]);
}

#[test]
fn an_event_comes_before_its_tap() {
    let payloads: [&[u8]; 5] = [&[0, 1], &[0, 0], &[9], &[1, 1], &[0xFF, 0xFF]];
    let mut pressed = Vec::new();
    let mut taps = Vec::new();
    for data in payloads {
        if let Some(received) = decode(data, Some(-50)) {
            for output in outputs(&received) {
                match output {
                    Output::Event(Events::RadioReceived(key, true)) => pressed.push(key),
                    Output::Event(_) | Output::Rssi(_) => {}
                    Output::Tap(key) => taps.push(key),
                }
                assert!(taps == pressed || taps == pressed[..pressed.len() - 1]);
            }
            assert_eq!(taps, pressed);
        }
    }
    assert_eq!(taps, vec![0, 1, 0xFF]);
}

#[test]
fn driver_packets_are_received() {
    let packet = rfm69_async::Packet::from_rx_data(5, &[1, 255, 0, 1, 1], -91).unwrap();
    assert_eq!(
        receive(&packet),
        Some(Reception { event: Events::RadioReceived(1, true), rssi: Some(-91), tap: Some(1) })
    );
    let short = rfm69_async::Packet::from_rx_data(4, &[1, 255, 0, 1], -91).unwrap();
    assert_eq!(receive(&short), None);
}

#[test]
fn what_the_sender_packs_the_receiver_reads() {
    for key in 0..=255 {
        for pressed in [false, true] {
            let packet = RadioPacket::KeyEvent(key, pressed).to_packet(Address::Unicast(1));
            assert_eq!(
                receive(&packet),
                Some(Reception {
                    event: Events::RadioReceived(key, pressed),
                    rssi: None,
                    tap: if pressed { Some(key) } else { None },
                })
            );
        }
    }
}

#[test]
fn the_receiver_has_an_address_of_its_own() {
    assert_eq!(own_address(), Address::Unicast(2));
}

#[test]
fn a_tap_is_down_hold_up() {
    assert_eq!(KEY_MAP, [0x50, 0x4F]);
    let mut task = HidTask::new();
    assert_eq!(task.action(), HidAction::AwaitKey);
    task.advance(HidEvent::Key(0));
    assert_eq!(task.action(), HidAction::Write(down(0x50)));
    task.advance(HidEvent::Written(true));
    assert_eq!(task.action(), HidAction::Hold(30));
    task.advance(HidEvent::Held);
    assert_eq!(task.action(), HidAction::Write(up()));
    task.advance(HidEvent::Written(true));
    assert_eq!(task.action(), HidAction::AwaitKey);
}

#[test]
fn failed_writes_give_up_the_tap() {
    let mut task = HidTask::new();
    task.advance(HidEvent::Key(1));
    assert_eq!(task.action(), HidAction::Write(down(0x4F)));
    task.advance(HidEvent::Written(false));
    assert_eq!(task.phase, HidPhase::Idle);

    let mut task = HidTask { phase: HidPhase::Releasing };
    task.advance(HidEvent::Written(false));
    assert_eq!(task.phase, HidPhase::Idle);
}

#[test]
fn keys_outside_the_map_are_passed_over() {
    for key in 2..=255 {
        let mut task = HidTask::new();
        task.advance(HidEvent::Key(key));
        assert_eq!(task.action(), HidAction::AwaitKey);
    }
}

#[test]
fn an_answer_that_was_not_asked_for_is_ignored() {
    let mut task = HidTask::new();
    task.advance(HidEvent::Held);
    task.advance(HidEvent::Written(true));
    assert_eq!(task.phase, HidPhase::Idle);
    task.advance(HidEvent::Key(0));
    task.advance(HidEvent::Key(1));
    assert_eq!(task.phase, HidPhase::Pressing(0x50));
}

#[test]
fn each_key_of_the_map_is_typed_whole() {
    assert_eq!(type_keys(&[]), vec![]);
    assert_eq!(
        type_keys(&[1, 5, 0, 0]),
        vec![down(0x4F), up(), down(0x50), up(), down(0x50), up()]
    );
}

#[test]
fn no_key_is_left_down_when_key_down_reports_fail() {
    let mut task = HidTask::new();
    let mut last = up();
    let outcomes = [true, false, false, true, true];
    for ok in outcomes {
        task.advance(HidEvent::Key(1));
        if ok {
            last = down(0x4F);
        }
        task.advance(HidEvent::Written(ok));
        if task.action() == HidAction::Hold(30) {
            task.advance(HidEvent::Held);
            assert_eq!(task.action(), HidAction::Write(up()));
            last = up();
            task.advance(HidEvent::Written(true));
        }
        assert_eq!(task.action(), HidAction::AwaitKey);
        assert_eq!(last, up());
    }
}

#[test]
fn a_lost_release_changes_nothing_for_the_host() {
    let payloads: [[u8; 2]; 5] = [[0, 1], [0, 0], [1, 1], [1, 0], [0, 1]];
    let taps = |payloads: &[[u8; 2]]| -> Vec<u8> {
        payloads.iter().filter_map(|p| decode(p, None).unwrap().tap).collect()
    };
    let all = type_keys(&taps(&payloads));
    let without_releases = type_keys(&taps(&[[0, 1], [1, 1], [0, 1]]));
    assert_eq!(all, without_releases);
    assert_eq!(all, vec![down(0x50), up(), down(0x4F), up(), down(0x50), up()]);
}

#[test]
fn alerts_and_announcements_type_nothing() {
    for packet in [RadioPacket::BatteryLow, RadioPacket::Boot] {
        let received = receive(&packet.to_packet(Address::Unicast(1))).unwrap();
        let keys: Vec<u8> = received.tap.into_iter().collect();
        assert_eq!(keys, vec![packet.payload()[0]]);
        assert_eq!(type_keys(&keys), vec![]);
    }
}

#[test]
fn presses_reach_the_host_and_the_boards_agree() {
    let mut scanner = Scanner::new();
    let mut state = State::new();
    let mut keys = Vec::new();
    // Key 0 down, key 1 down, both up, key 1 down.
    for row in [[false, true], [false, false], [true, true], [true, false]] {
        for change in scanner.scan(row).into_iter().flatten() {
            let packet = change.radio_packet().to_packet(Address::Unicast(3));
            let received = receive(&packet).unwrap();
            orchestrate(&mut state, received.event);
            keys.extend(received.tap);
        }
        assert_eq!([state.key0_pressed, state.key1_pressed], scanner.prev);
    }
    assert_eq!(state.packets_received, 5);
    assert_eq!(
        type_keys(&keys),
        vec![down(0x50), up(), down(0x4F), up(), down(0x4F), up()]
    );
}

#[test]
fn the_receiver_pixel_shows_the_signal_in_green_and_goes_dark() {
    let (mut task, color) = NeoPixel::new();
    assert_eq!(task.request(), 3000);
    assert_eq!(task, NeoPixel { brightness: 8 });
    assert_eq!(color, Color { r: 0, g: 8, b: 0 });
    assert_eq!(task.advance(PixelEvent::Rssi(-70)), Some(Color { r: 0, g: 127, b: 0 }));
    assert_eq!(task.advance(PixelEvent::Rssi(-70)), None);
    assert_eq!(task.advance(PixelEvent::Rssi(-30)), Some(Color { r: 0, g: 255, b: 0 }));
    assert_eq!(task.advance(PixelEvent::Quiet), Some(Color { r: 0, g: 0, b: 0 }));
    assert_eq!(task.advance(PixelEvent::Quiet), None);
    assert_eq!(task.advance(PixelEvent::Rssi(-120)), Some(Color { r: 0, g: 1, b: 0 }));
}
