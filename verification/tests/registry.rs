use input_server::axes::{AxisName, PadAxis};
use input_server::buttons::{ButtonCode, PadButton};
use input_server::config::Config;
use input_server::event::{Broadcast, InputEvent, PadEvent};
use input_server::registry::{label_events, DeviceRegistry, PadSnapshot};

#[test]
fn new_registry_is_empty() {
    let reg = DeviceRegistry::new();
    assert_eq!(reg.len(), 0);
    assert_eq!(reg.find(0), None);
    assert!(reg.get(0).is_none());
    assert_eq!(reg.snapshot(), vec![]);
}

#[test]
fn get_or_create_registers_once() {
    let mut reg = DeviceRegistry::new();
    assert_eq!(reg.get_or_create(42, "Pad A"), 0);
    assert_eq!(reg.get_or_create(7, "Pad B"), 1);
    assert_eq!(reg.get_or_create(42, "Other label"), 0);
    assert_eq!(reg.len(), 2);
    assert_eq!(reg.find(7), Some(1));
    assert_eq!(reg.find(8), None);
    assert_eq!(reg.get(42).unwrap().device_name, "Pad A");
    assert!(reg.get(42).unwrap().connected);
}

#[test]
fn startup_registration_announces_new_devices_only() {
    let mut reg = DeviceRegistry::new();
    let first = reg.register_startup(3, "Pad1");
    assert_eq!(first, Some(Broadcast { device: "Pad1".to_string(), event: PadEvent::Connected }));
    let second = reg.register_startup(3, "Pad1");
    assert_eq!(second, None);
    assert_eq!(reg.len(), 1);
}

#[test]
fn snapshot_lists_every_device_in_order() {
    let mut reg = DeviceRegistry::new();
    let cfg = Config::default();
    reg.apply_event(9, "Second seen first", InputEvent::ButtonPressed(PadButton::South), &cfg, 0);
    reg.apply_event(2, "Pad2", InputEvent::AxisChanged(PadAxis::RightStickX, -700_000), &cfg, 0);
    reg.apply_event(9, "Second seen first", InputEvent::Disconnected, &cfg, 1);
    let snap = reg.snapshot();
    let mut buttons = [false; 17];
    buttons[ButtonCode::A.code() as usize] = true;
    let mut axes = [0i32; 6];
    axes[AxisName::RightX.slot()] = -700_000;
    assert_eq!(
        snap,
        vec![
            PadSnapshot { device: "Second seen first".to_string(), buttons, axes: [0; 6] },
            PadSnapshot { device: "Pad2".to_string(), buttons: [false; 17], axes },
        ]
    );
}

#[test]
fn devices_do_not_share_state() {
    let mut reg = DeviceRegistry::new();
    let cfg = Config::default();
    reg.apply_event(1, "Pad1", InputEvent::ButtonPressed(PadButton::South), &cfg, 0);
    let out = reg.apply_event(2, "Pad2", InputEvent::ButtonPressed(PadButton::South), &cfg, 0);
    assert_eq!(out.len(), 1);
    assert!(reg.get(1).unwrap().button(ButtonCode::A));
    assert!(reg.get(2).unwrap().button(ButtonCode::A));
    reg.apply_event(1, "Pad1", InputEvent::ButtonReleased(PadButton::South), &cfg, 1);
    assert!(!reg.get(1).unwrap().button(ButtonCode::A));
    assert!(reg.get(2).unwrap().button(ButtonCode::A));
}

#[test]
fn label_events_puts_each_event_under_the_label() {
    let events = vec![PadEvent::Connected, PadEvent::Axis { axis: AxisName::Lt, value: 5 }];
    assert_eq!(
        label_events("Pad1", &events),
        vec![
            Broadcast { device: "Pad1".to_string(), event: PadEvent::Connected },
            Broadcast { device: "Pad1".to_string(), event: PadEvent::Axis { axis: AxisName::Lt, value: 5 } },
        ]
    );
    assert_eq!(label_events("Pad1", &vec![]), vec![]);
}

#[test]
fn registry_stays_well_formed() {
    let mut reg = DeviceRegistry::new();
    let cfg = Config::default();
    assert!(reg.is_well_formed());
    reg.apply_event(1, "Pad1", InputEvent::AxisChanged(PadAxis::LeftStickX, i32::MAX), &cfg, 0);
    reg.apply_event(2, "Pad2", InputEvent::AxisChanged(PadAxis::LeftZ, i32::MIN), &cfg, 0);
    reg.apply_event(1, "Pad1", InputEvent::ButtonChanged(PadButton::RightTrigger2, -5), &cfg, 0);
    reg.hold_repeat(&cfg, 1);
    assert!(reg.is_well_formed());
    assert_eq!(reg.get(1).unwrap().axis(AxisName::LeftX), 1_000_000);
    assert_eq!(reg.get(2).unwrap().axis(AxisName::Lt), 0);
    assert_eq!(reg.get(1).unwrap().axis(AxisName::Rt), 499_997);
}

#[test]
fn corrupted_registry_is_detected() {
    let mut reg = DeviceRegistry::new();
    reg.get_or_create(1, "Pad1");
    reg.get_or_create(2, "Pad2");
    let mut twice = reg.clone();
    twice.entries[1].id = 1;
    assert!(!twice.is_well_formed());
    let mut wild = reg.clone();
    wild.entries[0].state.axes[0] = 1_000_001;
    assert!(!wild.is_well_formed());
    assert!(!wild.entries[0].state.is_well_formed());
    let mut negative = reg.clone();
    negative.entries[1].state.axes[5] = -1;
    assert!(!negative.is_well_formed());
    let mut fine = reg.clone();
    fine.entries[1].state.axes[3] = -1_000_000;
    fine.entries[1].state.axes[4] = 1_000_000;
    assert!(fine.is_well_formed());
}
