use lorelay::params::{Bandwidth, CodingRate, ConfigFault, RadioConfig, SpreadingFactor};

fn base_config() -> RadioConfig {
    RadioConfig {
        frequency_in_hz: 433_220_000,
        spreading_factor: SpreadingFactor::Sf10,
        bandwidth: Bandwidth::Khz250,
        coding_rate: CodingRate::Cr4x8,
        output_power: 20,
        preamble_length: 4,
        max_payload_length: 100,
        crc_on: true,
        iq_inverted: false,
    }
}

#[test]
fn derive_accepts_valid_config() {
    let params = lorelay::params::derive(&base_config()).expect("valid configuration must derive");
    assert_eq!(params.modulation.spreading_factor, SpreadingFactor::Sf10);
    assert_eq!(params.modulation.bandwidth, Bandwidth::Khz250);
    assert_eq!(params.modulation.coding_rate, CodingRate::Cr4x8);
    assert_eq!(params.modulation.frequency_in_hz, 433_220_000);
    assert!(!params.modulation.low_data_rate_optimize);
    assert_eq!(params.tx.preamble_length, 4);
    assert_eq!(params.rx.preamble_length, 4);
    assert_eq!(params.tx.payload_length, 0);
    assert_eq!(params.rx.max_payload_length, 100);
    assert!(params.tx.crc_on && params.rx.crc_on);
    assert!(!params.tx.iq_inverted && !params.rx.iq_inverted);
    assert!(!params.tx.implicit_header && !params.rx.implicit_header);
}

#[test]
fn derive_rejects_wide_bandwidth_below_400mhz() {
    let mut config = base_config();
    config.frequency_in_hz = 200_000_000;
    assert_eq!(lorelay::params::derive(&config), Err(ConfigFault::InvalidParameters));
    config.bandwidth = Bandwidth::Khz500;
    assert_eq!(lorelay::params::derive(&config), Err(ConfigFault::InvalidParameters));
    // A narrower bandwidth is fine at the same frequency.
    config.bandwidth = Bandwidth::Khz125;
    assert!(lorelay::params::derive(&config).is_ok());
}

#[test]
fn derive_rejects_output_power_out_of_range() {
    let mut config = base_config();
    config.output_power = 23;
    assert_eq!(lorelay::params::derive(&config), Err(ConfigFault::InvalidParameters));
    config.output_power = -10;
    assert_eq!(lorelay::params::derive(&config), Err(ConfigFault::InvalidParameters));
    config.output_power = -9;
    assert!(lorelay::params::derive(&config).is_ok());
    config.output_power = 22;
    assert!(lorelay::params::derive(&config).is_ok());
}

#[test]
fn derive_enables_ldro_for_slow_symbols() {
    let mut config = base_config();
    config.bandwidth = Bandwidth::Khz125;
    config.spreading_factor = SpreadingFactor::Sf11;
    assert!(lorelay::params::derive(&config).unwrap().modulation.low_data_rate_optimize);
    config.spreading_factor = SpreadingFactor::Sf12;
    assert!(lorelay::params::derive(&config).unwrap().modulation.low_data_rate_optimize);
    config.spreading_factor = SpreadingFactor::Sf10;
    assert!(!lorelay::params::derive(&config).unwrap().modulation.low_data_rate_optimize);
    config.bandwidth = Bandwidth::Khz250;
    config.spreading_factor = SpreadingFactor::Sf12;
    assert!(lorelay::params::derive(&config).unwrap().modulation.low_data_rate_optimize);
    config.spreading_factor = SpreadingFactor::Sf11;
    assert!(!lorelay::params::derive(&config).unwrap().modulation.low_data_rate_optimize);
}

#[test]
fn derive_raises_short_preambles_for_sf5_and_sf6() {
    let mut config = base_config();
    config.spreading_factor = SpreadingFactor::Sf5;
    let params = lorelay::params::derive(&config).unwrap();
    assert_eq!(params.tx.preamble_length, 12);
    assert_eq!(params.rx.preamble_length, 12);
    config.spreading_factor = SpreadingFactor::Sf6;
    config.preamble_length = 20;
    let params = lorelay::params::derive(&config).unwrap();
    assert_eq!(params.tx.preamble_length, 20);
    config.spreading_factor = SpreadingFactor::Sf7;
    config.preamble_length = 4;
    let params = lorelay::params::derive(&config).unwrap();
    assert_eq!(params.tx.preamble_length, 4);
}

#[test]
fn value_mappings_are_exact() {
    assert_eq!(SpreadingFactor::Sf5.factor(), 5);
    assert_eq!(SpreadingFactor::Sf12.factor(), 12);
    assert_eq!(Bandwidth::Khz7.hz(), 7_810);
    assert_eq!(Bandwidth::Khz125.hz(), 125_000);
    assert_eq!(Bandwidth::Khz250.hz(), 250_000);
    assert_eq!(Bandwidth::Khz500.hz(), 500_000);
    assert_eq!(CodingRate::Cr4x5.denominator(), 5);
    assert_eq!(CodingRate::Cr4x8.denominator(), 8);
}
