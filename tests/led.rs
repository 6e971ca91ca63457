use ble_session::config::Config;
use ble_session::led::{grb_word, wire_bits};

#[test]
fn colour_word_is_green_red_blue() {
    assert_eq!(grb_word(0x12, 0x34, 0x56), 0x341256);
    assert_eq!(grb_word(255, 255, 0), 0xffff00);
}

#[test]
fn bits_go_out_most_significant_first() {
    let bits = wire_bits(0x800001);
    assert_eq!(bits.len(), 24);
    assert!(bits[0]);
    assert!(bits[23]);
    assert!(bits[1..23].iter().all(|b| !b));
    let green = wire_bits(grb_word(0, 255, 0));
    assert!(green[..8].iter().all(|b| *b));
    assert!(green[8..].iter().all(|b| !b));
}

#[test]
fn default_config() {
    let c = Config::default();
    assert_eq!(c.wifi_ssid, "Wokwi-GUEST");
    assert_eq!(c.wifi_psk, "");
}
