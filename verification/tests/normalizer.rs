use input_server::axes::{AxisName, PadAxis};
use input_server::buttons::{ButtonCode, PadButton};
use input_server::config::Config;
use input_server::event::{Broadcast, InputEvent, PadEvent};
use input_server::registry::DeviceRegistry;
use input_server::state::{AxisSent, GamepadState};

fn button(device: &str, button: ButtonCode, pressed: bool, travel: Option<i32>) -> Broadcast {
    Broadcast { device: device.to_string(), event: PadEvent::Button { button, pressed, travel } }
}

fn axis(device: &str, axis: AxisName, value: i32) -> Broadcast {
    Broadcast { device: device.to_string(), event: PadEvent::Axis { axis, value } }
}

#[test]
fn first_axis_event_registers_device_and_broadcasts() {
    let mut reg = DeviceRegistry::new();
    let cfg = Config::default();
    assert!(reg.get(7).is_none());
    let out = reg.apply_event(7, "Pad1", InputEvent::AxisChanged(PadAxis::LeftStickX, 600_000), &cfg, 1_000);
    assert_eq!(out, vec![axis("Pad1", AxisName::LeftX, 600_000)]);
    assert_eq!(reg.len(), 1);
    let st = reg.get(7).unwrap();
    assert_eq!(st.device_name, "Pad1");
    assert!(st.connected);
    assert_eq!(st.axis(AxisName::LeftX), 600_000);
    assert_eq!(st.last_sent(AxisName::LeftX), Some(AxisSent { value: 600_000, time: 1_000 }));
}

#[test]
fn analog_trigger_button_crossing_threshold() {
    let mut reg = DeviceRegistry::new();
    let cfg = Config::default();
    let out = reg.apply_event(1, "Pad1", InputEvent::ButtonChanged(PadButton::LeftTrigger2, 700_000), &cfg, 0);
    assert_eq!(out, vec![button("Pad1", ButtonCode::LT, true, Some(700_000))]);
    assert_eq!(out.len(), 1);
    match out[0].event {
        PadEvent::Button { button, pressed, travel } => {
            assert_eq!(button.code(), 6);
            assert_eq!(button.name(), "LT");
            assert!(pressed);
            assert_eq!(travel, Some(700_000));
        },
        _ => panic!("expected a button event"),
    }
    let st = reg.get(1).unwrap();
    assert!(st.button(ButtonCode::LT));
    assert_eq!(st.axis(AxisName::Lt), 700_000);
    assert_eq!(st.last_sent(AxisName::Lt), None);
}

#[test]
fn trigger_axis_crossing_sends_button_in_place_of_axis() {
    let mut reg = DeviceRegistry::new();
    let cfg = Config::default();
    let out = reg.apply_event(1, "Pad1", InputEvent::AxisChanged(PadAxis::RightZ, 800_000), &cfg, 10);
    assert_eq!(out, vec![button("Pad1", ButtonCode::RT, true, Some(800_000))]);
    assert_eq!(reg.get(1).unwrap().last_sent(AxisName::Rt), None);
    let out = reg.apply_event(1, "Pad1", InputEvent::AxisChanged(PadAxis::RightZ, 900_000), &cfg, 20);
    assert_eq!(out, vec![axis("Pad1", AxisName::Rt, 900_000)]);
    let out = reg.apply_event(1, "Pad1", InputEvent::AxisChanged(PadAxis::RightZ, 100_000), &cfg, 30);
    assert_eq!(out, vec![button("Pad1", ButtonCode::RT, false, Some(100_000))]);
    let st = reg.get(1).unwrap();
    assert_eq!(st.axis(AxisName::Rt), 100_000);
    assert!(!st.button(ButtonCode::RT));
    assert_eq!(st.last_sent(AxisName::Rt), Some(AxisSent { value: 900_000, time: 20 }));
}

#[test]
fn trigger_axis_at_threshold_is_not_pressed() {
    let mut reg = DeviceRegistry::new();
    let cfg = Config::default();
    let out = reg.apply_event(1, "Pad1", InputEvent::AxisChanged(PadAxis::LeftZ, 500_000), &cfg, 0);
    assert_eq!(out, vec![axis("Pad1", AxisName::Lt, 500_000)]);
    let out = reg.apply_event(1, "Pad1", InputEvent::AxisChanged(PadAxis::LeftZ, 500_001), &cfg, 1);
    assert_eq!(out, vec![button("Pad1", ButtonCode::LT, true, Some(500_001))]);
}

#[test]
fn trigger_axis_from_minus_one_to_one_is_remapped() {
    let mut reg = DeviceRegistry::new();
    let cfg = Config::default();
    let out = reg.apply_event(1, "Pad1", InputEvent::AxisChanged(PadAxis::LeftZ, -500_000), &cfg, 0);
    assert_eq!(out, vec![axis("Pad1", AxisName::Lt, 250_000)]);
}

#[test]
fn repeated_press_sends_one_event() {
    let mut reg = DeviceRegistry::new();
    let cfg = Config::default();
    let first = reg.apply_event(1, "Pad1", InputEvent::ButtonPressed(PadButton::South), &cfg, 0);
    let second = reg.apply_event(1, "Pad1", InputEvent::ButtonPressed(PadButton::South), &cfg, 1);
    let third = reg.apply_event(1, "Pad1", InputEvent::ButtonChanged(PadButton::South, 1_000_000), &cfg, 2);
    assert_eq!(first, vec![button("Pad1", ButtonCode::A, true, None)]);
    assert_eq!(second, vec![]);
    assert_eq!(third, vec![]);
    let released = reg.apply_event(1, "Pad1", InputEvent::ButtonReleased(PadButton::South), &cfg, 3);
    assert_eq!(released, vec![button("Pad1", ButtonCode::A, false, None)]);
    let again = reg.apply_event(1, "Pad1", InputEvent::ButtonReleased(PadButton::South), &cfg, 4);
    assert_eq!(again, vec![]);
}

#[test]
fn release_of_a_button_at_rest_is_silent() {
    let mut reg = DeviceRegistry::new();
    let cfg = Config::default();
    let out = reg.apply_event(1, "Pad1", InputEvent::ButtonReleased(PadButton::East), &cfg, 0);
    assert_eq!(out, vec![]);
    assert!(reg.get(1).is_some());
}

#[test]
fn digital_trigger_button_moves_its_axis_fully() {
    let mut reg = DeviceRegistry::new();
    let cfg = Config::default();
    let out = reg.apply_event(1, "Pad1", InputEvent::ButtonPressed(PadButton::RightTrigger2), &cfg, 0);
    assert_eq!(out, vec![button("Pad1", ButtonCode::RT, true, Some(1_000_000))]);
    assert_eq!(reg.get(1).unwrap().axis(AxisName::Rt), 1_000_000);
    let out = reg.apply_event(1, "Pad1", InputEvent::ButtonReleased(PadButton::RightTrigger2), &cfg, 1);
    assert_eq!(out, vec![button("Pad1", ButtonCode::RT, false, Some(0))]);
    assert_eq!(reg.get(1).unwrap().axis(AxisName::Rt), 0);
}

#[test]
fn analog_reading_of_ordinary_button_is_pressed_from_one_half() {
    let mut reg = DeviceRegistry::new();
    let cfg = Config::default();
    let out = reg.apply_event(1, "Pad1", InputEvent::ButtonChanged(PadButton::West, 499_999), &cfg, 0);
    assert_eq!(out, vec![]);
    let out = reg.apply_event(1, "Pad1", InputEvent::ButtonChanged(PadButton::West, 500_000), &cfg, 1);
    assert_eq!(out, vec![button("Pad1", ButtonCode::X, true, None)]);
}

#[test]
fn analog_trigger_button_below_threshold_stores_travel_only() {
    let mut reg = DeviceRegistry::new();
    let cfg = Config::default();
    let out = reg.apply_event(1, "Pad1", InputEvent::ButtonChanged(PadButton::LeftTrigger2, 300_000), &cfg, 0);
    assert_eq!(out, vec![]);
    assert_eq!(reg.get(1).unwrap().axis(AxisName::Lt), 300_000);
    assert!(!reg.get(1).unwrap().button(ButtonCode::LT));
}

#[test]
fn dpad_axis_becomes_button_edges() {
    let mut reg = DeviceRegistry::new();
    let cfg = Config::default();
    let out = reg.apply_event(1, "Pad1", InputEvent::AxisChanged(PadAxis::DPadX, -1_000_000), &cfg, 0);
    assert_eq!(out, vec![button("Pad1", ButtonCode::DPAD_LEFT, true, None)]);
    let out = reg.apply_event(1, "Pad1", InputEvent::AxisChanged(PadAxis::DPadX, 1_000_000), &cfg, 1);
    assert_eq!(
        out,
        vec![button("Pad1", ButtonCode::DPAD_LEFT, false, None), button("Pad1", ButtonCode::DPAD_RIGHT, true, None)]
    );
    let out = reg.apply_event(1, "Pad1", InputEvent::AxisChanged(PadAxis::DPadX, 0), &cfg, 2);
    assert_eq!(out, vec![button("Pad1", ButtonCode::DPAD_RIGHT, false, None)]);
    let out = reg.apply_event(1, "Pad1", InputEvent::AxisChanged(PadAxis::DPadX, 0), &cfg, 3);
    assert_eq!(out, vec![]);
}

#[test]
fn dpad_y_axis_maps_low_to_up_and_high_to_down() {
    let mut reg = DeviceRegistry::new();
    let cfg = Config::default();
    let out = reg.apply_event(1, "Pad1", InputEvent::AxisChanged(PadAxis::DPadY, -600_000), &cfg, 0);
    assert_eq!(out, vec![button("Pad1", ButtonCode::DPAD_UP, true, None)]);
    let out = reg.apply_event(1, "Pad1", InputEvent::AxisChanged(PadAxis::DPadY, 600_000), &cfg, 1);
    assert_eq!(
        out,
        vec![button("Pad1", ButtonCode::DPAD_UP, false, None), button("Pad1", ButtonCode::DPAD_DOWN, true, None)]
    );
}

#[test]
fn dpad_at_one_half_is_not_pressed() {
    let mut reg = DeviceRegistry::new();
    let cfg = Config::default();
    assert_eq!(reg.apply_event(1, "Pad1", InputEvent::AxisChanged(PadAxis::DPadX, 500_000), &cfg, 0), vec![]);
    assert_eq!(reg.apply_event(1, "Pad1", InputEvent::AxisChanged(PadAxis::DPadX, -500_000), &cfg, 0), vec![]);
}

#[test]
fn stick_inside_deadzone_is_stored_and_sent_as_zero() {
    let mut reg = DeviceRegistry::new();
    let cfg = Config::default();
    let out = reg.apply_event(1, "Pad1", InputEvent::AxisChanged(PadAxis::RightStickY, 100_000), &cfg, 0);
    assert_eq!(out, vec![axis("Pad1", AxisName::RightY, 0)]);
    assert_eq!(reg.get(1).unwrap().axis(AxisName::RightY), 0);
}

#[test]
fn live_axis_events_are_debounced() {
    let mut reg = DeviceRegistry::new();
    let cfg = Config::default();
    let ms = 1_000_000u64;
    let out = reg.apply_event(1, "Pad1", InputEvent::AxisChanged(PadAxis::LeftStickX, 600_000), &cfg, 0);
    assert_eq!(out.len(), 1);
    let out = reg.apply_event(1, "Pad1", InputEvent::AxisChanged(PadAxis::LeftStickX, 610_000), &cfg, ms);
    assert_eq!(out, vec![]);
    assert_eq!(reg.get(1).unwrap().axis(AxisName::LeftX), 610_000);
    let out = reg.apply_event(1, "Pad1", InputEvent::AxisChanged(PadAxis::LeftStickX, 630_000), &cfg, 2 * ms);
    assert_eq!(out, vec![axis("Pad1", AxisName::LeftX, 630_000)]);
    let out = reg.apply_event(1, "Pad1", InputEvent::AxisChanged(PadAxis::LeftStickX, 630_000), &cfg, 30 * ms);
    assert_eq!(out, vec![axis("Pad1", AxisName::LeftX, 630_000)]);
}

#[test]
fn unmapped_inputs_are_dropped() {
    let mut reg = DeviceRegistry::new();
    let cfg = Config::default();
    assert_eq!(reg.apply_event(1, "Pad1", InputEvent::ButtonPressed(PadButton::C), &cfg, 0), vec![]);
    assert_eq!(reg.apply_event(1, "Pad1", InputEvent::ButtonChanged(PadButton::Unknown, 900_000), &cfg, 0), vec![]);
    assert_eq!(reg.apply_event(1, "Pad1", InputEvent::AxisChanged(PadAxis::Unknown, 900_000), &cfg, 0), vec![]);
    assert_eq!(reg.apply_event(1, "Pad1", InputEvent::Other, &cfg, 0), vec![]);
    let st = reg.get(1).unwrap();
    assert_eq!(st.buttons, [false; 17]);
    assert_eq!(st.axes, [0; 6]);
}

#[test]
fn connect_and_disconnect_toggle_the_flag() {
    let mut reg = DeviceRegistry::new();
    let cfg = Config::default();
    let out = reg.apply_event(1, "Pad1", InputEvent::Disconnected, &cfg, 0);
    assert_eq!(out, vec![Broadcast { device: "Pad1".to_string(), event: PadEvent::Disconnected }]);
    assert!(!reg.get(1).unwrap().connected);
    assert_eq!(reg.len(), 1);
    let out = reg.apply_event(1, "Pad One", InputEvent::Connected, &cfg, 1);
    assert_eq!(out, vec![Broadcast { device: "Pad One".to_string(), event: PadEvent::Connected }]);
    assert!(reg.get(1).unwrap().connected);
    assert_eq!(reg.get(1).unwrap().device_name, "Pad One");
}

#[test]
fn disconnect_keeps_the_stored_label() {
    let mut reg = DeviceRegistry::new();
    let cfg = Config::default();
    reg.apply_event(1, "Pad1", InputEvent::Connected, &cfg, 0);
    let out = reg.apply_event(1, "Renamed", InputEvent::Disconnected, &cfg, 1);
    assert_eq!(out, vec![Broadcast { device: "Renamed".to_string(), event: PadEvent::Disconnected }]);
    assert_eq!(reg.get(1).unwrap().device_name, "Pad1");
}

#[test]
fn mapped_input_renews_the_label() {
    let mut reg = DeviceRegistry::new();
    let cfg = Config::default();
    reg.apply_event(1, "Pad1", InputEvent::Other, &cfg, 0);
    let out = reg.apply_event(1, "Pad1b", InputEvent::ButtonPressed(PadButton::Start), &cfg, 1);
    assert_eq!(out, vec![button("Pad1b", ButtonCode::START, true, None)]);
    assert_eq!(reg.get(1).unwrap().device_name, "Pad1b");
    reg.apply_event(1, "Pad1c", InputEvent::ButtonPressed(PadButton::C), &cfg, 2);
    assert_eq!(reg.get(1).unwrap().device_name, "Pad1b");
}

#[test]
fn state_level_apply_matches_registry() {
    let mut st = GamepadState::new("Pad1".to_string());
    let cfg = Config::default();
    let out = st.apply("Pad1", InputEvent::AxisChanged(PadAxis::LeftStickY, -2_000_000), &cfg, 5);
    assert_eq!(out, vec![PadEvent::Axis { axis: AxisName::LeftY, value: -1_000_000 }]);
    assert_eq!(st.axis(AxisName::LeftY), -1_000_000);
}

#[test]
fn events_name_their_kind() {
    assert_eq!(PadEvent::Connected.kind(), "gamepad_connected");
    assert_eq!(PadEvent::Disconnected.kind(), "gamepad_disconnected");
    assert_eq!(PadEvent::Button { button: ButtonCode::A, pressed: true, travel: None }.kind(), "button");
    assert_eq!(PadEvent::Axis { axis: AxisName::Lt, value: 0 }.kind(), "axis");
}
