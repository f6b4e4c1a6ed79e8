use flask_macro::config::{MacroConfiguration, MacroStep};
use flask_macro::dispatch::{
    dispatch_loop_step, handle_event, route_press, BindingMode, EventRoute, LoopOutcome,
};
use flask_macro::input::{DeviceClass, InputTransition, LogicalInput};
use flask_macro::listener::{CaptureInitError, Listener, RawEvent};
use flask_macro::scheduler::{
    injection_params, schedule_batch, PendingInjection, JITTER_MAX_MS, RELEASE_FLAG,
};
use rand::SeedableRng;

fn new_jitter_source(seed: u64) -> rand::rngs::SmallRng {
    rand::rngs::SmallRng::seed_from_u64(seed)
}

fn label_string(k: &LogicalInput) -> String {
    k.label().into_iter().collect()
}

fn parse(s: &str) -> Option<LogicalInput> {
    let chars: Vec<char> = s.chars().collect();
    LogicalInput::parse_label(&chars)
}

#[test]
fn logical_input_equality_needs_class_and_code() {
    let a = LogicalInput::keyboard(65);
    let b = LogicalInput::keyboard(65);
    let c = LogicalInput::keyboard(66);
    let d = LogicalInput::mouse(65);
    assert_eq!(a, b);
    assert_ne!(a, c);
    assert_ne!(a, d);
    assert_ne!(c, d);
    assert_eq!(LogicalInput::mouse(3), LogicalInput::mouse(3));
    assert_ne!(LogicalInput::mouse(3), LogicalInput::mouse(4));
}

#[test]
fn labels_are_readable() {
    assert_eq!(label_string(&LogicalInput::keyboard(65)), "key:65");
    assert_eq!(label_string(&LogicalInput::keyboard(0)), "key:0");
    assert_eq!(label_string(&LogicalInput::mouse(3)), "mouse:3");
    assert_eq!(label_string(&LogicalInput::keyboard(65535)), "key:65535");
}

#[test]
fn labels_round_trip() {
    for k in [
        LogicalInput::keyboard(0),
        LogicalInput::keyboard(65),
        LogicalInput::keyboard(65535),
        LogicalInput::mouse(1),
        LogicalInput::mouse(5),
        LogicalInput::mouse(60000),
    ] {
        assert_eq!(LogicalInput::parse_label(&k.label()), Some(k));
    }
}

#[test]
fn parse_label_rejects_non_labels() {
    assert_eq!(parse(""), None);
    assert_eq!(parse("key"), None);
    assert_eq!(parse("key:"), None);
    assert_eq!(parse("mouse:"), None);
    assert_eq!(parse("key:07"), None);
    assert_eq!(parse("key:9x"), None);
    assert_eq!(parse("key:65536"), None);
    assert_eq!(parse("key:999999999999"), None);
    assert_eq!(parse("mouse:65536"), None);
    assert_eq!(parse("pad:1"), None);
    assert_eq!(parse("KEY:1"), None);
    assert_eq!(parse("key:1 "), None);
}

#[test]
fn schedule_batch_one_record_per_step_within_jitter_window() {
    let k1 = LogicalInput::keyboard(10);
    let k2 = LogicalInput::keyboard(20);
    let steps = vec![
        MacroStep { key: k1, delay_ms: 100 },
        MacroStep { key: k2, delay_ms: 200 },
    ];
    let mut rng = new_jitter_source(7);
    let trigger: u64 = 1000;
    let batch = schedule_batch(&steps, InputTransition::Pressed, trigger, &mut rng);
    assert_eq!(batch.len(), 2);
    assert_eq!(batch[0].key, k1);
    assert_eq!(batch[1].key, k2);
    for (record, step) in batch.iter().zip(steps.iter()) {
        assert_eq!(record.direction, InputTransition::Pressed);
        let earliest = trigger + step.delay_ms;
        assert!(earliest <= record.fire_at_ms);
        assert!(record.fire_at_ms < earliest + JITTER_MAX_MS);
    }
}

#[test]
fn schedule_batch_zero_delay_fires_within_jitter_of_trigger() {
    let steps = vec![MacroStep { key: LogicalInput::mouse(1), delay_ms: 0 }];
    let mut rng = new_jitter_source(1);
    let batch = schedule_batch(&steps, InputTransition::Released, 50, &mut rng);
    assert_eq!(batch.len(), 1);
    assert_eq!(batch[0].direction, InputTransition::Released);
    assert!(50 <= batch[0].fire_at_ms && batch[0].fire_at_ms < 50 + JITTER_MAX_MS);
}

fn two_step_config(hotkey: LogicalInput) -> (MacroConfiguration, LogicalInput, LogicalInput) {
    let k1 = LogicalInput::keyboard(10);
    let k2 = LogicalInput::keyboard(20);
    let mut config = MacroConfiguration::new();
    config.add_step(MacroStep { key: k1, delay_ms: 100 });
    config.add_step(MacroStep { key: k2, delay_ms: 200 });
    config.set_hotkey(Some(hotkey));
    config.set_armed(true);
    (config, k1, k2)
}

#[test]
fn press_release_pairing_from_one_trigger() {
    let hotkey = LogicalInput::keyboard(112);
    let (config, k1, k2) = two_step_config(hotkey);
    let mut rng = new_jitter_source(42);
    let now: u64 = 5000;
    let batch = handle_event(&config, hotkey, InputTransition::Pressed, now, &mut rng);
    assert_eq!(batch.len(), 4);
    let expect = [
        (k1, InputTransition::Pressed, 100),
        (k2, InputTransition::Pressed, 200),
        (k1, InputTransition::Released, 100),
        (k2, InputTransition::Released, 200),
    ];
    for (record, (key, direction, delay)) in batch.iter().zip(expect.iter()) {
        assert_eq!(record.key, *key);
        assert_eq!(record.direction, *direction);
        assert!(now + delay <= record.fire_at_ms);
        assert!(record.fire_at_ms < now + delay + JITTER_MAX_MS);
    }
}

#[test]
fn non_match_and_unarmed_produce_nothing() {
    let hotkey = LogicalInput::keyboard(112);
    let (config, _, _) = two_step_config(hotkey);
    let mut rng = new_jitter_source(3);

    let other = LogicalInput::keyboard(113);
    assert!(handle_event(&config, other, InputTransition::Pressed, 0, &mut rng).is_empty());
    let mouse_same_code = LogicalInput::mouse(112);
    assert!(handle_event(&config, mouse_same_code, InputTransition::Pressed, 0, &mut rng)
        .is_empty());
    assert!(handle_event(&config, hotkey, InputTransition::Released, 0, &mut rng).is_empty());

    let (mut unarmed, _, _) = two_step_config(hotkey);
    unarmed.set_armed(false);
    assert!(handle_event(&unarmed, hotkey, InputTransition::Pressed, 0, &mut rng).is_empty());

    let (mut no_hotkey, _, _) = two_step_config(hotkey);
    no_hotkey.set_hotkey(None);
    assert!(handle_event(&no_hotkey, hotkey, InputTransition::Pressed, 0, &mut rng).is_empty());
}

#[test]
fn two_quick_triggers_schedule_two_full_batches() {
    let hotkey = LogicalInput::keyboard(112);
    let (config, _, _) = two_step_config(hotkey);
    let mut rng = new_jitter_source(9);
    let first = handle_event(&config, hotkey, InputTransition::Pressed, 1000, &mut rng);
    let second = handle_event(&config, hotkey, InputTransition::Pressed, 1003, &mut rng);
    assert_eq!(first.len(), 4);
    assert_eq!(second.len(), 4);
    assert_eq!(first.len() + second.len(), 2 * 2 * 2);
    for record in first.iter() {
        assert!(1000 <= record.fire_at_ms && record.fire_at_ms < 1000 + 200 + JITTER_MAX_MS);
    }
    for record in second.iter() {
        assert!(1003 <= record.fire_at_ms && record.fire_at_ms < 1003 + 200 + JITTER_MAX_MS);
    }
}

#[test]
fn dispatch_loop_stops_only_when_stream_ends() {
    let hotkey = LogicalInput::keyboard(112);
    let (config, _, _) = two_step_config(hotkey);
    let mut rng = new_jitter_source(11);
    match dispatch_loop_step(&config, None, 0, &mut rng) {
        LoopOutcome::Stop => {}
        LoopOutcome::Continue(_) => panic!("stream end must stop the loop"),
    }
    match dispatch_loop_step(
        &config,
        Some((hotkey, InputTransition::Pressed)),
        0,
        &mut rng,
    ) {
        LoopOutcome::Continue(batch) => assert_eq!(batch.len(), 4),
        LoopOutcome::Stop => panic!("an event must keep the loop running"),
    }
    match dispatch_loop_step(
        &config,
        Some((hotkey, InputTransition::Released)),
        0,
        &mut rng,
    ) {
        LoopOutcome::Continue(batch) => assert!(batch.is_empty()),
        LoopOutcome::Stop => panic!("an event must keep the loop running"),
    }
}

#[test]
fn listener_emits_in_order_without_coalescing() {
    let mut listener = Listener::new();
    assert_eq!(listener.next(), None);
    // Rapid repeats of the same key, then one mouse packet carrying a press
    // and a release of button 1, then another key.
    listener.push_raw(RawEvent::Keyboard { vkey: 65, flags: 0 });
    listener.push_raw(RawEvent::Keyboard { vkey: 65, flags: 0 });
    listener.push_raw(RawEvent::Keyboard { vkey: 65, flags: 1 });
    listener.push_raw(RawEvent::Mouse { button_flags: 0x3 });
    listener.push_raw(RawEvent::Keyboard { vkey: 66, flags: 0 });
    assert_eq!(listener.pending(), 6);
    let expect = [
        (LogicalInput::keyboard(65), InputTransition::Pressed),
        (LogicalInput::keyboard(65), InputTransition::Pressed),
        (LogicalInput::keyboard(65), InputTransition::Released),
        (LogicalInput::mouse(1), InputTransition::Pressed),
        (LogicalInput::mouse(1), InputTransition::Released),
        (LogicalInput::keyboard(66), InputTransition::Pressed),
    ];
    for event in expect.iter() {
        assert_eq!(listener.next(), Some(*event));
    }
    assert_eq!(listener.next(), None);
}

#[test]
fn burst_feed_drains_in_arrival_order() {
    let mut listener = Listener::new();
    let raws = vec![
        RawEvent::Keyboard { vkey: 65, flags: 0 },
        // One packet carrying button 2 down and button 3 down together.
        RawEvent::Mouse { button_flags: 0x14 },
        RawEvent::Keyboard { vkey: 65, flags: 1 },
    ];
    listener.push_all(&raws);
    let events = listener.drain_all();
    assert_eq!(
        events,
        vec![
            (LogicalInput::keyboard(65), InputTransition::Pressed),
            (LogicalInput::mouse(2), InputTransition::Pressed),
            (LogicalInput::mouse(3), InputTransition::Pressed),
            (LogicalInput::keyboard(65), InputTransition::Released),
        ]
    );
    assert_eq!(listener.next(), None);
    assert_eq!(listener.pending(), 0);
}

#[test]
fn mouse_decoding_covers_all_five_buttons() {
    let mut listener = Listener::new();
    // Down bits are the even bits, up bits the odd bits, two per button.
    listener.push_raw(RawEvent::Mouse { button_flags: 0x155 });
    for button in 1..=5u16 {
        assert_eq!(
            listener.next(),
            Some((LogicalInput::mouse(button), InputTransition::Pressed))
        );
    }
    listener.push_raw(RawEvent::Mouse { button_flags: 0x2AA });
    for button in 1..=5u16 {
        assert_eq!(
            listener.next(),
            Some((LogicalInput::mouse(button), InputTransition::Released))
        );
    }
    listener.push_raw(RawEvent::Mouse { button_flags: 0 });
    assert_eq!(listener.next(), None);
}

#[test]
fn capture_init_fails_fast() {
    match Listener::from_hook_registration(false) {
        Err(CaptureInitError::HookRegistrationFailed) => {}
        Ok(_) => panic!("a refused hook registration must not yield a listener"),
    }
    let mut listener = Listener::from_hook_registration(true).unwrap();
    assert_eq!(listener.next(), None);
}

#[test]
fn injection_params_carry_code_and_release_flag() {
    let k = LogicalInput::keyboard(65);
    let press = injection_params(k, InputTransition::Pressed);
    assert_eq!(press.virtual_code, 65);
    assert_eq!(press.flags, 0);
    let release = injection_params(k, InputTransition::Released);
    assert_eq!(release.virtual_code, 65);
    assert_eq!(release.flags, RELEASE_FLAG);
    assert_eq!(injection_params(LogicalInput::mouse(2), InputTransition::Pressed).virtual_code, 2);
}

#[test]
fn remove_first_match_removes_only_the_first() {
    let step_a = MacroStep { key: LogicalInput::keyboard(1), delay_ms: 10 };
    let step_b = MacroStep { key: LogicalInput::keyboard(2), delay_ms: 20 };
    let mut config = MacroConfiguration::new();
    config.add_step(step_a);
    config.add_step(step_b);
    config.add_step(step_a);
    assert!(config.remove_first_match(step_a));
    assert_eq!(config.get_steps(), vec![step_b, step_a]);
    let absent = MacroStep { key: LogicalInput::keyboard(3), delay_ms: 30 };
    assert!(!config.remove_first_match(absent));
    assert_eq!(config.get_steps(), vec![step_b, step_a]);
    assert!(config.remove_first_match(step_a));
    assert_eq!(config.get_steps(), vec![step_b]);
}

#[test]
fn snapshot_is_a_copy() {
    let hotkey = LogicalInput::keyboard(112);
    let (mut config, k1, _) = two_step_config(hotkey);
    let snapshot = config.get_steps();
    config.remove_first_match(MacroStep { key: k1, delay_ms: 100 });
    assert_eq!(snapshot.len(), 2);
    assert_eq!(config.get_steps().len(), 1);
    assert_eq!(config.get_hotkey(), Some(hotkey));
    assert!(config.is_armed());
}

#[test]
fn route_press_gives_each_event_one_owner() {
    let key = LogicalInput::keyboard(65);
    let mut mode = BindingMode { pick_hotkey: true, pick_macro_key: true };
    assert_eq!(route_press(&mut mode, key), EventRoute::BindHotkey(key));
    assert!(!mode.pick_hotkey);
    assert_eq!(route_press(&mut mode, key), EventRoute::BindMacroKey(key));
    assert!(!mode.pick_macro_key);
    assert_eq!(route_press(&mut mode, key), EventRoute::Dispatch(key));
    assert_eq!(
        mode,
        BindingMode { pick_hotkey: false, pick_macro_key: false }
    );
}

#[test]
fn pending_injection_is_plain_data() {
    let record = PendingInjection {
        key: LogicalInput::keyboard(65),
        direction: InputTransition::Pressed,
        fire_at_ms: 123,
    };
    let copy = record;
    assert_eq!(record, copy);
    assert_eq!(record.key.virtual_code(), 65);
    assert_eq!(DeviceClass::Keyboard, record.key.class);
}
