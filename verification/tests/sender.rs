use nocat::bring_up::{BringUp, BringUpAction};
use nocat::led::{scale_rssi, Color, Frame};
use nocat::packet::{broadcast, Address};
use nocat::sender::battery::{battery_low, battery_step, BatteryOutput, BatteryStep};
use nocat::sender::keyboard::{message, KeyChange, Message, Scanner};
use nocat::sender::neopixel::{NeoPixel, PixelEvent, PixelPhase, PixelRequest, Show};
use nocat::sender::radio::{
    decode_reply, RadioAction, RadioEvent, RadioPacket, RadioPhase, RadioTask, Reply,
    ReplyOutput,
};
use nocat::sender::startup::{own_address, startup_step, StartupStep};
use nocat::sender::{orchestrate, rssi_to_brightness, Events, State};

fn frames(show: &Show) -> Vec<Frame> {
    let mut all = Vec::new();
    while let Some(frame) = show.frame(all.len()) {
        all.push(frame);
    }
    all
}

fn frame(color: Color, hold_ms: u64) -> Frame {
    Frame { color, hold_ms }
}

#[test]
fn sender_brightness_follows_the_documented_range() {
    assert_eq!(rssi_to_brightness(-90), 1);
    assert_eq!(rssi_to_brightness(-89), 5);
    assert_eq!(rssi_to_brightness(-65), 127);
    assert_eq!(rssi_to_brightness(-41), 249);
    assert_eq!(rssi_to_brightness(-40), 255);
    assert_eq!(rssi_to_brightness(-30), 255);
    assert_eq!(rssi_to_brightness(i16::MIN), 1);
    assert_eq!(rssi_to_brightness(i16::MAX), 255);
}

#[test]
fn brightness_never_falls_with_a_stronger_signal() {
    let mut last = 0;
    for rssi in -200..100 {
        let level = scale_rssi(rssi, -90, -40);
        assert!(level >= last && level >= 1);
        last = level;
    }
    assert_eq!(last, 255);
}

#[test]
fn a_scale_may_span_more_than_255_db() {
    assert_eq!(scale_rssi(-299, -300, 300), 1);
    assert_eq!(scale_rssi(-298, -300, 300), 1);
    assert_eq!(scale_rssi(0, -300, 300), 127);
    assert_eq!(scale_rssi(299, -300, 300), 254);
    assert_eq!(scale_rssi(i16::MAX - 1, i16::MIN, i16::MAX), 254);
}

#[test]
fn sender_state_follows_events() {
    let mut state = State::new();
    assert_eq!(state, State { key0_pressed: false, key1_pressed: false });
    orchestrate(&mut state, Events::KeyPressed(0, true));
    assert_eq!(state, State { key0_pressed: true, key1_pressed: false });
    orchestrate(&mut state, Events::KeyPressed(1, true));
    orchestrate(&mut state, Events::KeyPressed(0, false));
    assert_eq!(state, State { key0_pressed: false, key1_pressed: true });
    orchestrate(&mut state, Events::KeyPressed(2, true));
    assert_eq!(state, State { key0_pressed: false, key1_pressed: true });
}

#[test]
fn a_low_row_is_a_pressed_key() {
    let mut scanner = Scanner::new();
    assert_eq!(scanner.scan([true, true]), [None, None]);
    assert_eq!(
        scanner.scan([false, true]),
        [Some(KeyChange { key: 0, pressed: true }), None]
    );
    assert_eq!(scanner.scan([false, true]), [None, None]);
    assert_eq!(
        scanner.scan([true, false]),
        [
            Some(KeyChange { key: 0, pressed: false }),
            Some(KeyChange { key: 1, pressed: true })
        ]
    );
    assert_eq!(scanner.prev, [false, true]);
}

#[test]
fn a_key_change_becomes_an_event_and_a_packet() {
    let change = KeyChange { key: 1, pressed: true };
    assert_eq!(change.event(), Events::KeyPressed(1, true));
    assert_eq!(change.radio_packet(), RadioPacket::KeyEvent(1, true));
}

fn messages(changes: &[Option<KeyChange>; 2]) -> Vec<Message> {
    let mut all = Vec::new();
    while let Some(next) = message(changes, all.len()) {
        all.push(next);
    }
    all
}

#[test]
fn each_change_is_handed_out_as_event_and_then_packet() {
    let down0 = KeyChange { key: 0, pressed: true };
    let up1 = KeyChange { key: 1, pressed: false };
    let first = [
        Message::Event(Events::KeyPressed(0, true)),
        Message::Radio(RadioPacket::KeyEvent(0, true)),
    ];
    let second = [
        Message::Event(Events::KeyPressed(1, false)),
        Message::Radio(RadioPacket::KeyEvent(1, false)),
    ];
    assert_eq!(messages(&[None, None]), vec![]);
    assert_eq!(messages(&[Some(down0), None]), first.to_vec());
    assert_eq!(messages(&[None, Some(up1)]), second.to_vec());
    assert_eq!(messages(&[Some(down0), Some(up1)]), [first, second].concat());
    assert_eq!(message(&[Some(down0), Some(up1)], usize::MAX), None);
}

#[test]
fn the_queues_pair_up_over_scans() {
    let mut scanner = Scanner::new();
    let mut events = Vec::new();
    let mut packets = Vec::new();
    for row in [[false, true], [true, false], [true, false], [true, true]] {
        for next in messages(&scanner.scan(row)) {
            match next {
                Message::Event(Events::KeyPressed(key, pressed)) => events.push((key, pressed)),
                Message::Radio(RadioPacket::KeyEvent(key, pressed)) => {
                    packets.push((key, pressed))
                }
                Message::Radio(_) => panic!("not a key event"),
            }
            assert!(packets.len() <= events.len() && events.len() <= packets.len() + 1);
            assert_eq!(events[..packets.len()], packets[..]);
        }
    }
    assert_eq!(events, vec![(0, true), (0, false), (1, true), (1, false)]);
    assert_eq!(packets, events);
}

#[test]
fn scans_keep_the_state_in_step_and_reports_alternate() {
    let mut scanner = Scanner::new();
    let mut state = State::new();
    let mut reports = Vec::new();
    let rows = [
        [false, true],
        [false, false],
        [false, false],
        [true, false],
        [false, true],
        [true, true],
    ];
    for row in rows {
        for change in scanner.scan(row).into_iter().flatten() {
            orchestrate(&mut state, change.event());
            if change.key == 0 {
                reports.push(change.pressed);
            }
        }
        assert_eq!([state.key0_pressed, state.key1_pressed], [!row[0], !row[1]]);
    }
    assert_eq!(reports, vec![true, false, true, false]);
}

#[test]
fn payload_bytes() {
    assert_eq!(RadioPacket::KeyEvent(0, true).payload(), [0, 1]);
    assert_eq!(RadioPacket::KeyEvent(1, false).payload(), [1, 0]);
    assert_eq!(RadioPacket::BatteryLow.payload(), [0xFF, 0xFF]);
    assert_eq!(RadioPacket::Boot.payload(), [0xFE, 0xFE]);
}

#[test]
fn payloads_are_told_apart() {
    let all = [
        RadioPacket::KeyEvent(0, false),
        RadioPacket::KeyEvent(0, true),
        RadioPacket::KeyEvent(0xFF, true),
        RadioPacket::KeyEvent(0xFE, true),
        RadioPacket::BatteryLow,
        RadioPacket::Boot,
    ];
    for a in all {
        for b in all {
            assert_eq!(a.payload() == b.payload(), a == b);
        }
    }
}

#[test]
fn packets_are_broadcasts_without_acknowledgement() {
    let packet = RadioPacket::KeyEvent(1, true).to_packet(Address::Unicast(3));
    assert_eq!(packet.src, rfm69_async::Address::Unicast(3));
    assert_eq!(packet.dst, rfm69_async::Address::Broadcast);
    assert_eq!(packet.flags, rfm69_async::Flags::None);
    assert_eq!(packet.data.as_slice(), &[1, 1]);
    assert_eq!(packet.rssi, None);

    let packet = broadcast(Address::Broadcast, [7, 9]);
    assert_eq!(packet.src, rfm69_async::Address::Broadcast);
    assert_eq!(packet.data.as_slice(), &[7, 9]);
}

#[test]
fn replies_are_read() {
    assert_eq!(decode_reply(&[]), None);
    assert_eq!(decode_reply(&[0xC0]), None);
    assert_eq!(decode_reply(&[0xC0, 0]), Some(Reply { rssi: -64, flash: Some(0) }));
    assert_eq!(decode_reply(&[0x80, 1, 9]), Some(Reply { rssi: -128, flash: Some(1) }));
    assert_eq!(decode_reply(&[0x7F, 2]), Some(Reply { rssi: 127, flash: None }));
    assert_eq!(decode_reply(&[0xFF, 0xFF]), Some(Reply { rssi: -1, flash: None }));
    for rssi in i8::MIN..=i8::MAX {
        let reply = decode_reply(&[rssi as u8, 1]).unwrap();
        assert_eq!(reply.rssi, rssi as i16);
    }
}

#[test]
fn one_packet_takes_one_round_of_the_radio() {
    let mut task = RadioTask::new();
    assert_eq!(task.action(), RadioAction::AwaitPacket);
    let packet = RadioPacket::KeyEvent(1, true);
    assert_eq!(task.advance(RadioEvent::Dequeued(packet)), None);
    assert_eq!(task.action(), RadioAction::Transmit(packet));
    assert_eq!(task.advance(RadioEvent::Slept), None);
    assert_eq!(task.action(), RadioAction::Transmit(packet));
    assert_eq!(task.advance(RadioEvent::Transmitted), None);
    assert_eq!(task.action(), RadioAction::Listen(500));
    // Reply from node 2 to node 1: -64 dBm, key 1.
    let heard = rfm69_async::Packet::from_rx_data(5, &[2, 1, 0, 0xC0, 1], -50).unwrap();
    assert_eq!(
        task.advance(RadioEvent::Listened(Some(&heard))),
        Some(Reply { rssi: -64, flash: Some(1) })
    );
    assert_eq!(task.action(), RadioAction::Sleep);
    assert_eq!(task.advance(RadioEvent::Slept), None);
    assert_eq!(task.action(), RadioAction::AwaitPacket);
}

#[test]
fn the_radio_goes_to_sleep_without_a_reply() {
    let mut task = RadioTask::new();
    task.advance(RadioEvent::Dequeued(RadioPacket::BatteryLow));
    assert_eq!(task.action(), RadioAction::Transmit(RadioPacket::BatteryLow));
    task.advance(RadioEvent::Transmitted);
    assert_eq!(task.advance(RadioEvent::Listened(None)), None);
    assert_eq!(task.phase, RadioPhase::Retiring);
    assert_eq!(task.action(), RadioAction::Sleep);

    let short = rfm69_async::Packet::from_rx_data(4, &[2, 1, 0, 0xC0], -50).unwrap();
    let mut task = RadioTask { phase: RadioPhase::Listening };
    assert_eq!(task.advance(RadioEvent::Listened(Some(&short))), None);
    assert_eq!(task.action(), RadioAction::Sleep);
}

#[test]
fn a_queued_boot_packet_is_not_transmitted() {
    let mut task = RadioTask::new();
    task.advance(RadioEvent::Dequeued(RadioPacket::Boot));
    assert_eq!(task.action(), RadioAction::Listen(500));
}

#[test]
fn five_green_flashes_at_boot() {
    let (task, show) = NeoPixel::new();
    assert_eq!(task, NeoPixel { brightness: 0, phase: PixelPhase::Checking });
    let mut expected = vec![frame(Color::off(), 0)];
    for _ in 0..5 {
        expected.push(frame(Color { r: 0, g: 32, b: 0 }, 150));
        expected.push(frame(Color { r: 0, g: 0, b: 0 }, 150));
    }
    assert_eq!(frames(&show), expected);
}

#[test]
fn the_sender_pixel_shows_the_signal_in_blue_and_goes_dark() {
    let (mut task, _) = NeoPixel::new();
    assert_eq!(task.request(), PixelRequest::PollBattery);
    let well = PixelEvent::BatteryPolled { low: false, now_us: 0 };
    assert_eq!(task.advance(well), Show::Nothing);
    assert_eq!(task.request(), PixelRequest::AwaitSignal(1000));
    let show = task.advance(PixelEvent::Rssi(-65));
    assert_eq!(frames(&show), vec![frame(Color { r: 0, g: 0, b: 127 }, 0)]);
    task.advance(well);
    assert_eq!(task.advance(PixelEvent::Rssi(-65)), Show::Nothing);
    task.advance(well);
    let show = task.advance(PixelEvent::Quiet);
    assert_eq!(frames(&show), vec![frame(Color::off(), 0)]);
    assert_eq!(task.brightness, 0);
    task.advance(well);
    assert_eq!(task.advance(PixelEvent::Quiet), Show::Nothing);
}

#[test]
fn a_key_flash_gives_the_signal_back() {
    let mut task = NeoPixel { brightness: 77, phase: PixelPhase::Waiting };
    let show = task.advance(PixelEvent::Key(0));
    assert_eq!(
        frames(&show),
        vec![frame(Color { r: 32, g: 0, b: 0 }, 200), frame(Color { r: 0, g: 0, b: 77 }, 0)]
    );
    assert_eq!(task, NeoPixel { brightness: 77, phase: PixelPhase::Checking });
    task.phase = PixelPhase::Waiting;
    let show = task.advance(PixelEvent::Key(1));
    assert_eq!(
        frames(&show),
        vec![frame(Color { r: 0, g: 32, b: 0 }, 200), frame(Color { r: 0, g: 0, b: 77 }, 0)]
    );
}

#[test]
fn the_alarm_flashes_until_ninety_seconds_after_the_last_alert() {
    let second = 1_000_000;
    let mut task = NeoPixel { brightness: 9, phase: PixelPhase::Checking };
    let alert = PixelEvent::BatteryPolled { low: true, now_us: 10 * second };
    assert_eq!(task.advance(alert), Show::Nothing);
    assert_eq!(task.request(), PixelRequest::PollAlarm);

    let show = task.advance(PixelEvent::AlarmPolled { low: false, key: None, now_us: 10 * second });
    let red = frame(Color { r: 32, g: 0, b: 0 }, 300);
    let dark = frame(Color::off(), 300);
    assert_eq!(frames(&show), vec![red, dark]);
    assert_eq!(task.request(), PixelRequest::ReadClock);
    assert_eq!(task.advance(PixelEvent::Clock { now_us: 100 * second }), Show::Nothing);
    assert_eq!(task.request(), PixelRequest::PollAlarm);

    // A new alert starts the ninety seconds again; a key flashes ahead of the alarm.
    let polled = PixelEvent::AlarmPolled { low: true, key: Some(1), now_us: 101 * second };
    let show = task.advance(polled);
    assert_eq!(frames(&show), vec![frame(Color { r: 0, g: 32, b: 0 }, 200), red, dark]);
    assert_eq!(task.advance(PixelEvent::Clock { now_us: 191 * second }), Show::Nothing);

    task.advance(PixelEvent::AlarmPolled { low: false, key: Some(0), now_us: 191 * second });
    let show = task.advance(PixelEvent::Clock { now_us: 191 * second + 1 });
    assert_eq!(frames(&show), vec![frame(Color { r: 0, g: 0, b: 9 }, 0)]);
    assert_eq!(task, NeoPixel { brightness: 9, phase: PixelPhase::Checking });
}

#[test]
fn a_key_in_the_alarm_flashes_first() {
    let mut task = NeoPixel { brightness: 0, phase: PixelPhase::Alarm { last_alert_us: 5 } };
    let show = task.advance(PixelEvent::AlarmPolled { low: false, key: Some(0), now_us: 6 });
    assert_eq!(frames(&show)[0], frame(Color { r: 32, g: 0, b: 0 }, 200));
    assert_eq!(frames(&show).len(), 3);
    assert_eq!(task.phase, PixelPhase::Flashed { last_alert_us: 5 });
}

#[test]
fn alerts_a_minute_apart_keep_the_alarm_on() {
    let mut task = NeoPixel { brightness: 1, phase: PixelPhase::Alarm { last_alert_us: 0 } };
    for round in 1..1000u64 {
        let now_us = round * 600_000;
        let low = round % 100 == 0;
        task.advance(PixelEvent::AlarmPolled { low, key: None, now_us });
        assert_eq!(task.advance(PixelEvent::Clock { now_us: now_us + 600_000 }), Show::Nothing);
        assert_eq!(task.request(), PixelRequest::PollAlarm);
    }
}

#[test]
fn an_event_that_was_not_asked_for_changes_nothing() {
    let mut task = NeoPixel { brightness: 5, phase: PixelPhase::Checking };
    assert_eq!(task.advance(PixelEvent::Key(0)), Show::Nothing);
    assert_eq!(task.advance(PixelEvent::Clock { now_us: 1 }), Show::Nothing);
    assert_eq!(task, NeoPixel { brightness: 5, phase: PixelPhase::Checking });
}

#[test]
fn the_battery_threshold_agrees_with_the_voltage_formula() {
    for adc in 0..=u16::MAX {
        let voltage = (adc as f32) * 3.3 * 2.0 / 4096.0;
        assert_eq!(battery_low(adc), voltage <= 3.2);
    }
    assert!(battery_low(1985));
    assert!(!battery_low(1986));
}

#[test]
fn the_battery_monitor_alerts_or_rests() {
    assert_eq!(battery_step(None), BatteryStep::Rest(60_000));
    assert_eq!(battery_step(Some(1900)), BatteryStep::Alert(60_000));
    assert_eq!(battery_step(Some(2500)), BatteryStep::Rest(60_000));
}

#[test]
fn the_converter_is_read_once_a_minute() {
    let readings = [None, Some(1900), None, None, Some(4095), Some(0)];
    let mut waited = 0;
    for reading in readings {
        waited += match battery_step(reading) {
            BatteryStep::Alert(ms) => ms,
            BatteryStep::Rest(ms) => ms,
        };
    }
    assert_eq!(waited, 6 * 60_000);
}

#[test]
fn an_alert_warns_the_pixel_then_the_radio_then_rests() {
    let alert = battery_step(Some(1900));
    assert_eq!(alert.output(0), Some(BatteryOutput::WarnPixel));
    assert_eq!(alert.output(1), Some(BatteryOutput::Radio(RadioPacket::BatteryLow)));
    assert_eq!(alert.output(2), Some(BatteryOutput::Wait(60_000)));
    assert_eq!(alert.output(3), None);
    for reading in [None, Some(2500)] {
        let rest = battery_step(reading);
        assert_eq!(rest.output(0), Some(BatteryOutput::Wait(60_000)));
        assert_eq!(rest.output(1), None);
    }
}

#[test]
fn a_reply_tells_the_strength_and_then_the_key() {
    let reply = Reply { rssi: -60, flash: Some(1) };
    assert_eq!(reply.output(0), Some(ReplyOutput::Rssi(-60)));
    assert_eq!(reply.output(1), Some(ReplyOutput::Flash(1)));
    assert_eq!(reply.output(2), None);
    let reply = Reply { rssi: -60, flash: None };
    assert_eq!(reply.output(0), Some(ReplyOutput::Rssi(-60)));
    assert_eq!(reply.output(1), None);
}

#[test]
fn the_jumper_selects_the_address() {
    assert_eq!(own_address(false), Address::Unicast(1));
    assert_eq!(own_address(true), Address::Unicast(3));
}

#[test]
fn the_start_up_announces_the_boot_and_retries_three_times() {
    let mut steps = Vec::new();
    while let Some(step) = startup_step(steps.len()) {
        steps.push(step);
    }
    let mut expected = vec![StartupStep::BoostPower, StartupStep::Sleep];
    for _ in 0..4 {
        expected.push(StartupStep::Send(RadioPacket::Boot));
        expected.push(StartupStep::Sleep);
        expected.push(StartupStep::Pause(2000));
    }
    assert_eq!(steps, expected);
}

#[test]
fn the_radio_comes_up_or_the_board_stops() {
    let mut stage = BringUp::new();
    assert_eq!(stage.action(), BringUpAction::Reset);
    stage.advance(true);
    assert_eq!(
        stage.action(),
        BringUpAction::Configure { network_id: 42, frequency_hz: 915_000_000 }
    );
    stage.advance(true);
    assert_eq!(stage.action(), BringUpAction::Proceed);

    let mut stage = BringUp::new();
    stage.advance(false);
    assert_eq!(stage.action(), BringUpAction::Halt(5000));
    stage.advance(true);
    assert_eq!(stage.action(), BringUpAction::Halt(5000));

    let mut stage = BringUp::new();
    stage.advance(true);
    stage.advance(false);
    assert_eq!(stage.action(), BringUpAction::Halt(5000));
}
