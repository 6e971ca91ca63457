use vstd::prelude::*;

verus! {

/// Network credentials of the device.
pub struct Config {
    pub wifi_ssid: String,
    pub wifi_psk: String,
}

impl Default for Config {
    /// The open simulator network, without a key.
    fn default() -> (r: Config)
        ensures
            r.wifi_ssid@ == "Wokwi-GUEST"@,
            r.wifi_psk@ == ""@,
    {
        Config { wifi_ssid: "Wokwi-GUEST".to_string(), wifi_psk: "".to_string() }
    }
}

} // verus!
