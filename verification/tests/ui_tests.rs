use boat3_client::remote::net::RemoteError;
use boat3_client::remote::protocol::{GPIOMode, GPIOValue, GPIOValueLevel, RemoteGPIO};
use boat3_client::ui::gpio::{ClientAppGPIO, WriteTarget};
use boat3_client::ui::text::{
    add_failed_message, added_message, decimal_string, deleted_message, finish_ping, mode_text,
    ping_label, set_message, status_line, value_text,
};

fn gpio(pin: u8, mode: GPIOMode, value: GPIOValue) -> RemoteGPIO {
    RemoteGPIO { pin, mode, value }
}

#[test]
fn new_panel_defaults() {
    let g = ClientAppGPIO::new();
    assert!(g.list.is_empty());
    assert_eq!(g.add_mode, GPIOMode::INPUT);
    assert_eq!(g.add_pin, 0);
    assert!(!g.add_forwarding);
    assert_eq!(g.set_pin, 0);
    assert_eq!(g.set_mode, GPIOMode::UNKNOWN);
    assert_eq!(g.set_value, GPIOValue::NONE);
    assert!(!g.set_forwarding);
}

#[test]
fn write_target_of_missing_input_and_output_pins() {
    let mut g = ClientAppGPIO::new();
    g.set_pin = 5;
    let t = g.select_write_target();
    assert_eq!(t, WriteTarget::NotAdded);
    assert_eq!(t.tip(), Some("Pin not added yet".to_string()));
    assert_eq!(g.set_mode, GPIOMode::UNKNOWN);

    g.record_added(5, GPIOMode::INPUT);
    let t = g.select_write_target();
    assert_eq!(t, WriteTarget::Unwritable);
    assert_eq!(t.tip(), Some("Unwriteable Pin".to_string()));
    assert_eq!(g.set_mode, GPIOMode::INPUT);

    g.set_pin = 6;
    g.record_added(6, GPIOMode::OUTPUT);
    let t = g.select_write_target();
    assert_eq!(t, WriteTarget::Writable);
    assert_eq!(t.tip(), None);
    assert_eq!(g.set_mode, GPIOMode::OUTPUT);
}

#[test]
fn first_entry_of_a_pin_decides() {
    let mut g = ClientAppGPIO::new();
    g.record_added(9, GPIOMode::OUTPUT);
    g.record_added(9, GPIOMode::INPUT);
    g.set_pin = 9;
    assert_eq!(g.select_write_target(), WriteTarget::Writable);
    assert_eq!(g.set_mode, GPIOMode::OUTPUT);
    assert_eq!(g.list.len(), 2);
}

#[test]
fn written_values_reach_every_entry_of_the_pin() {
    let mut g = ClientAppGPIO::new();
    g.record_added(1, GPIOMode::OUTPUT);
    g.record_added(2, GPIOMode::OUTPUT);
    g.record_added(1, GPIOMode::INPUT);
    let high = GPIOValue::LEVEL(GPIOValueLevel::HIGH);
    g.record_written(gpio(1, GPIOMode::UNKNOWN, high));
    assert_eq!(
        g.list,
        vec![
            gpio(1, GPIOMode::OUTPUT, high),
            gpio(2, GPIOMode::OUTPUT, GPIOValue::NONE),
            gpio(1, GPIOMode::INPUT, high),
        ]
    );
}

#[test]
fn removing_a_pin_keeps_the_others_in_order() {
    let mut g = ClientAppGPIO::new();
    for (pin, mode) in [(3, GPIOMode::INPUT), (4, GPIOMode::OUTPUT), (3, GPIOMode::OUTPUT), (5, GPIOMode::PWM)] {
        g.record_added(pin, mode);
    }
    let note = g.delete_pin(3);
    assert_eq!(note, "Delete Pin 3");
    assert_eq!(
        g.list,
        vec![gpio(4, GPIOMode::OUTPUT, GPIOValue::NONE), gpio(5, GPIOMode::PWM, GPIOValue::NONE)]
    );
    let once = g.list.clone();
    g.remove_pin(3);
    assert_eq!(g.list, once);
    g.set_pin = 3;
    assert_eq!(g.select_write_target(), WriteTarget::NotAdded);
    g.set_pin = 4;
    assert_eq!(g.select_write_target(), WriteTarget::Writable);
}

#[test]
fn finishing_an_add() {
    let mut g = ClientAppGPIO::new();
    assert_eq!(g.finish_add(12, GPIOMode::OUTPUT, Ok(())), Ok(Some("Added pin 12".to_string())));
    assert_eq!(g.list, vec![gpio(12, GPIOMode::OUTPUT, GPIOValue::NONE)]);
    let failed = g.finish_add(13, GPIOMode::INPUT, Err(RemoteError::RemoteError("pin busy".to_string())));
    assert_eq!(failed, Err("Unable to add pin: pin busy".to_string()));
    assert_eq!(g.list.len(), 1);
}

#[test]
fn finishing_a_write() {
    let mut g = ClientAppGPIO::new();
    g.record_added(7, GPIOMode::OUTPUT);
    let low = GPIOValue::LEVEL(GPIOValueLevel::LOW);
    let target = gpio(7, GPIOMode::OUTPUT, low);
    let failed = g.finish_set(target, Err(RemoteError::ConnectionError("refused".to_string())));
    assert_eq!(failed, Err("refused".to_string()));
    assert_eq!(g.list[0].value, GPIOValue::NONE);
    assert_eq!(g.finish_set(target, Ok(())), Ok(Some("Set pin 7 to LOW".to_string())));
    assert_eq!(g.list[0].value, low);
}

#[test]
fn decimal_texts() {
    assert_eq!(decimal_string(0), "0");
    assert_eq!(decimal_string(9), "9");
    assert_eq!(decimal_string(10), "10");
    assert_eq!(decimal_string(255), "255");
    assert_eq!(decimal_string(u128::MAX), u128::MAX.to_string());
    assert_eq!(added_message(0), "Added pin 0");
    assert_eq!(deleted_message(200), "Delete Pin 200");
    assert_eq!(add_failed_message("x"), "Unable to add pin: x");
    assert_eq!(set_message(255, GPIOValue::LEVEL(GPIOValueLevel::HIGH)), "Set pin 255 to HIGH");
    assert_eq!(set_message(1, GPIOValue::NONE), "Set pin 1 to NONE");
    assert_eq!(ping_label(42), "Ping 42ms");
}

#[test]
fn status_line_shows_errors_in_red() {
    assert_eq!(status_line(&None), ("Done".to_string(), None));
    assert_eq!(status_line(&Some("oops".to_string())), ("oops".to_string(), Some((255, 0, 0, 64))));
}

#[test]
fn finishing_a_ping() {
    assert_eq!(finish_ping::<u64>(Ok(30)), (Some(30), Ok(None)));
    assert_eq!(
        finish_ping::<u64>(Err(RemoteError::ConnectionError("unreachable".to_string()))),
        (None, Err("unreachable".to_string()))
    );
}

#[test]
fn mode_and_value_texts() {
    assert_eq!(mode_text(GPIOMode::UNKNOWN), "UNKNOWN");
    assert_eq!(mode_text(GPIOMode::INPUT), "INPUT");
    assert_eq!(mode_text(GPIOMode::OUTPUT), "OUTPUT");
    assert_eq!(mode_text(GPIOMode::ANALOG), "ANALOG");
    assert_eq!(mode_text(GPIOMode::PWM), "PWM");
    assert_eq!(value_text(GPIOValue::NONE), "NONE");
    assert_eq!(value_text(GPIOValue::LEVEL(GPIOValueLevel::LOW)), "LOW");
    assert_eq!(value_text(GPIOValue::LEVEL(GPIOValueLevel::HIGH)), "HIGH");
}
