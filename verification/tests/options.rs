//! Behaviour of the configuration builders and the candidate device name.

use utuntap::{tap, tun, Mode, OpenOptions};

#[test]
fn defaults() {
    let options = OpenOptions::new();
    assert_eq!(options.mode, Mode::Tun);
    assert_eq!(options.number, None);
    assert!(options.read);
    assert!(options.write);
    assert!(!options.nonblock);
    assert!(!options.packet_info);
}

#[test]
fn default_trait_equals_new() {
    assert_eq!(OpenOptions::default(), OpenOptions::new());
}

#[test]
fn setters_store_values() {
    let mut options = OpenOptions::new();
    options.mode(Mode::Tap);
    options.number(7);
    options.read(false);
    options.write(false);
    options.nonblock(true);
    options.packet_info(true);
    assert_eq!(options.mode, Mode::Tap);
    assert_eq!(options.number, Some(7));
    assert!(!options.read);
    assert!(!options.write);
    assert!(options.nonblock);
    assert!(options.packet_info);
}

#[test]
fn setters_last_write_wins() {
    let mut options = OpenOptions::new();
    options.mode(Mode::Tap);
    options.mode(Mode::Tun);
    options.number(3);
    options.number(250);
    options.nonblock(true);
    options.nonblock(false);
    options.packet_info(true);
    options.packet_info(false);
    assert_eq!(options.mode, Mode::Tun);
    assert_eq!(options.number, Some(250));
    assert!(!options.nonblock);
    assert!(!options.packet_info);
}

#[test]
fn device_name_none_without_number() {
    let options = OpenOptions::new();
    assert_eq!(options.device_name(), None);
    assert_eq!(tun::OpenOptions::new().device_name(), None);
    assert_eq!(tap::OpenOptions::new().device_name(), None);
}

#[test]
fn device_name_tun_zero() {
    let mut options = OpenOptions::new();
    options.number(0);
    assert_eq!(options.device_name(), Some("tun0".to_string()));
}

#[test]
fn device_name_tap_two() {
    let mut options = OpenOptions::new();
    options.mode(Mode::Tap);
    options.number(2);
    assert_eq!(options.device_name(), Some("tap2".to_string()));
}

#[test]
fn device_name_all_numbers() {
    for n in 0..=255u8 {
        let mut options = OpenOptions::new();
        options.number(n);
        assert_eq!(options.device_name(), Some(format!("tun{}", n)));
        options.mode(Mode::Tap);
        assert_eq!(options.device_name(), Some(format!("tap{}", n)));
    }
}

#[test]
fn tun_facade_fixes_mode() {
    let mut options = tun::OpenOptions::new();
    assert_eq!(options.options.mode, Mode::Tun);
    options.number(10);
    options.nonblock(true);
    options.read(true);
    options.write(true);
    options.packet_info(false);
    assert_eq!(options.device_name(), Some("tun10".to_string()));
    assert_eq!(options.options.number, Some(10));
    assert!(options.options.nonblock);
}

#[test]
fn tap_facade_fixes_mode() {
    let mut options = tap::OpenOptions::new();
    assert_eq!(options.options.mode, Mode::Tap);
    options.number(0);
    assert_eq!(options.device_name(), Some("tap0".to_string()));
    assert_eq!(tap::OpenOptions::default().options, tap::OpenOptions::new().options);
}
