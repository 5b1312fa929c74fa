//! Packet parameter factory: derives the modulation and packet-shape
//! parameter bundles for a session from one fixed radio configuration, and
//! rejects configurations the radio hardware would refuse.
//!
//! The rules mirror an SX126x-class transceiver: the two widest bandwidths
//! are only legal at carrier frequencies of 400 MHz and above; output power
//! must lie within the amplifier's range; low-data-rate optimization is
//! switched on for the slowest spreading-factor/bandwidth pairs; and the two
//! shortest spreading factors need at least twelve preamble symbols.
//! A configuration that breaks any of these fails fast at setup — there is
//! no runtime path that proceeds without valid parameters.

use vstd::prelude::*;

verus! {

/// Spreading factor of the LoRa modulation.
#[derive(Clone, Copy, PartialEq, Eq, Structural, Debug)]
pub enum SpreadingFactor {
    Sf5,
    Sf6,
    Sf7,
    Sf8,
    Sf9,
    Sf10,
    Sf11,
    Sf12,
}

/// Channel bandwidth of the LoRa modulation.
#[derive(Clone, Copy, PartialEq, Eq, Structural, Debug)]
pub enum Bandwidth {
    Khz7,
    Khz10,
    Khz15,
    Khz20,
    Khz31,
    Khz41,
    Khz62,
    Khz125,
    Khz250,
    Khz500,
}

/// Forward error correction rate of the LoRa modulation.
#[derive(Clone, Copy, PartialEq, Eq, Structural, Debug)]
pub enum CodingRate {
    Cr4x5,
    Cr4x6,
    Cr4x7,
    Cr4x8,
}

/// Fault raised when a configuration is rejected at setup. Fatal: the caller
/// must supply a corrected configuration and start over.
#[derive(Clone, Copy, PartialEq, Eq, Structural, Debug)]
pub enum ConfigFault {
    InvalidParameters,
}

impl SpreadingFactor {
    /// The factor as a number: chips per symbol are two to this power.
    pub open spec fn spec_factor(self) -> u8 {
        match self {
            SpreadingFactor::Sf5 => 5,
            SpreadingFactor::Sf6 => 6,
            SpreadingFactor::Sf7 => 7,
            SpreadingFactor::Sf8 => 8,
            SpreadingFactor::Sf9 => 9,
            SpreadingFactor::Sf10 => 10,
            SpreadingFactor::Sf11 => 11,
            SpreadingFactor::Sf12 => 12,
        }
    }

    pub fn factor(&self) -> (f: u8)
        ensures
            f == self.spec_factor(),
    {
        match self {
            SpreadingFactor::Sf5 => 5,
            SpreadingFactor::Sf6 => 6,
            SpreadingFactor::Sf7 => 7,
            SpreadingFactor::Sf8 => 8,
            SpreadingFactor::Sf9 => 9,
            SpreadingFactor::Sf10 => 10,
            SpreadingFactor::Sf11 => 11,
            SpreadingFactor::Sf12 => 12,
        }
    }
}

impl Bandwidth {
    /// The bandwidth in hertz.
    pub open spec fn spec_hz(self) -> u32 {
        match self {
            Bandwidth::Khz7 => 7810,
            Bandwidth::Khz10 => 10420,
            Bandwidth::Khz15 => 15630,
            Bandwidth::Khz20 => 20830,
            Bandwidth::Khz31 => 31250,
            Bandwidth::Khz41 => 41670,
            Bandwidth::Khz62 => 62500,
            Bandwidth::Khz125 => 125000,
            Bandwidth::Khz250 => 250000,
            Bandwidth::Khz500 => 500000,
        }
    }

    pub fn hz(&self) -> (h: u32)
        ensures
            h == self.spec_hz(),
    {
        match self {
            Bandwidth::Khz7 => 7810,
            Bandwidth::Khz10 => 10420,
            Bandwidth::Khz15 => 15630,
            Bandwidth::Khz20 => 20830,
            Bandwidth::Khz31 => 31250,
            Bandwidth::Khz41 => 41670,
            Bandwidth::Khz62 => 62500,
            Bandwidth::Khz125 => 125000,
            Bandwidth::Khz250 => 250000,
            Bandwidth::Khz500 => 500000,
        }
    }
}

impl CodingRate {
    /// The denominator of the 4/x coding rate.
    pub open spec fn spec_denominator(self) -> u8 {
        match self {
            CodingRate::Cr4x5 => 5,
            CodingRate::Cr4x6 => 6,
            CodingRate::Cr4x7 => 7,
            CodingRate::Cr4x8 => 8,
        }
    }

    pub fn denominator(&self) -> (d: u8)
        ensures
            d == self.spec_denominator(),
    {
        match self {
            CodingRate::Cr4x5 => 5,
            CodingRate::Cr4x6 => 6,
            CodingRate::Cr4x7 => 7,
            CodingRate::Cr4x8 => 8,
        }
    }
}

/// The fixed radio configuration a session is set up from; immutable once
/// validated.
#[derive(Clone, Copy, PartialEq, Eq, Structural, Debug)]
pub struct RadioConfig {
    pub frequency_in_hz: u32,
    pub spreading_factor: SpreadingFactor,
    pub bandwidth: Bandwidth,
    pub coding_rate: CodingRate,
    /// Transmit power in dBm.
    pub output_power: i32,
    /// Requested preamble length in symbols.
    pub preamble_length: u16,
    /// Largest payload a receive operation accepts.
    pub max_payload_length: u8,
    pub crc_on: bool,
    pub iq_inverted: bool,
}

/// Modulation parameters shared by the transmit and receive directions.
#[derive(Clone, Copy, PartialEq, Eq, Structural, Debug)]
pub struct ModulationParams {
    pub spreading_factor: SpreadingFactor,
    pub bandwidth: Bandwidth,
    pub coding_rate: CodingRate,
    pub low_data_rate_optimize: bool,
    pub frequency_in_hz: u32,
}

/// Packet-shape parameters for the transmit direction.
#[derive(Clone, Copy, PartialEq, Eq, Structural, Debug)]
pub struct TxPacketParams {
    pub preamble_length: u16,
    pub implicit_header: bool,
    pub payload_length: u8,
    pub crc_on: bool,
    pub iq_inverted: bool,
}

/// Packet-shape parameters for the receive direction.
#[derive(Clone, Copy, PartialEq, Eq, Structural, Debug)]
pub struct RxPacketParams {
    pub preamble_length: u16,
    pub implicit_header: bool,
    pub max_payload_length: u8,
    pub crc_on: bool,
    pub iq_inverted: bool,
}

/// The three mutually consistent bundles a session runs on.
#[derive(Clone, Copy, PartialEq, Eq, Structural, Debug)]
pub struct SessionParams {
    pub modulation: ModulationParams,
    pub tx: TxPacketParams,
    pub rx: RxPacketParams,
}

/// Whether the radio accepts the configuration: the two widest bandwidths
/// need a carrier at or above 400 MHz, and the output power must lie in the
/// power amplifier's -9..=22 dBm range.
pub open spec fn config_valid(c: RadioConfig) -> bool {
    &&& (c.bandwidth == Bandwidth::Khz250 || c.bandwidth == Bandwidth::Khz500)
        ==> c.frequency_in_hz >= 400_000_000
    &&& -9 <= c.output_power <= 22
}

/// Low-data-rate optimization is on exactly for the slowest symbol rates:
/// spreading factors 11 and 12 at 125 kHz, and 12 at 250 kHz.
pub open spec fn ldro_enabled(sf: SpreadingFactor, bw: Bandwidth) -> bool {
    ||| (sf == SpreadingFactor::Sf11 || sf == SpreadingFactor::Sf12) && bw == Bandwidth::Khz125
    ||| sf == SpreadingFactor::Sf12 && bw == Bandwidth::Khz250
}

/// Spreading factors 5 and 6 need at least twelve preamble symbols; the
/// requested length is raised to that floor, never lowered.
pub open spec fn effective_preamble(c: RadioConfig) -> u16 {
    if (c.spreading_factor == SpreadingFactor::Sf5 || c.spreading_factor == SpreadingFactor::Sf6)
        && c.preamble_length < 12 {
        12
    } else {
        c.preamble_length
    }
}

pub open spec fn derived_modulation(c: RadioConfig) -> ModulationParams {
    ModulationParams {
        spreading_factor: c.spreading_factor,
        bandwidth: c.bandwidth,
        coding_rate: c.coding_rate,
        low_data_rate_optimize: ldro_enabled(c.spreading_factor, c.bandwidth),
        frequency_in_hz: c.frequency_in_hz,
    }
}

/// Transmit packets start with no payload staged; the length is set per send.
pub open spec fn derived_tx_params(c: RadioConfig) -> TxPacketParams {
    TxPacketParams {
        preamble_length: effective_preamble(c),
        implicit_header: false,
        payload_length: 0,
        crc_on: c.crc_on,
        iq_inverted: c.iq_inverted,
    }
}

pub open spec fn derived_rx_params(c: RadioConfig) -> RxPacketParams {
    RxPacketParams {
        preamble_length: effective_preamble(c),
        implicit_header: false,
        max_payload_length: c.max_payload_length,
        crc_on: c.crc_on,
        iq_inverted: c.iq_inverted,
    }
}

/// Derives the session's parameter bundles from a configuration, or rejects
/// it. Succeeds exactly on valid configurations, and the three bundles are
/// consistent: both directions carry the same preamble, checksum and IQ
/// choices, derived from the one modulation basis.
pub fn derive(config: &RadioConfig) -> (r: Result<SessionParams, ConfigFault>)
    ensures
        r is Ok <==> config_valid(*config),
        r matches Ok(p) ==> p == (SessionParams {
            modulation: derived_modulation(*config),
            tx: derived_tx_params(*config),
            rx: derived_rx_params(*config),
        }),
        !config_valid(*config) ==> r == Err::<SessionParams, ConfigFault>(
            ConfigFault::InvalidParameters,
        ),
{
    if (config.bandwidth == Bandwidth::Khz250 || config.bandwidth == Bandwidth::Khz500)
        && config.frequency_in_hz < 400_000_000 {
        return Err(ConfigFault::InvalidParameters);
    }
    if config.output_power < -9 || config.output_power > 22 {
        return Err(ConfigFault::InvalidParameters);
    }
    let ldro = (config.spreading_factor == SpreadingFactor::Sf11 || config.spreading_factor
        == SpreadingFactor::Sf12) && config.bandwidth == Bandwidth::Khz125
        || config.spreading_factor == SpreadingFactor::Sf12 && config.bandwidth
        == Bandwidth::Khz250;
    let preamble = if (config.spreading_factor == SpreadingFactor::Sf5 || config.spreading_factor
        == SpreadingFactor::Sf6) && config.preamble_length < 12 {
        12
    } else {
        config.preamble_length
    };
    Ok(
        SessionParams {
            modulation: ModulationParams {
                spreading_factor: config.spreading_factor,
                bandwidth: config.bandwidth,
                coding_rate: config.coding_rate,
                low_data_rate_optimize: ldro,
                frequency_in_hz: config.frequency_in_hz,
            },
            tx: TxPacketParams {
                preamble_length: preamble,
                implicit_header: false,
                payload_length: 0,
                crc_on: config.crc_on,
                iq_inverted: config.iq_inverted,
            },
            rx: RxPacketParams {
                preamble_length: preamble,
                implicit_header: false,
                max_payload_length: config.max_payload_length,
                crc_on: config.crc_on,
                iq_inverted: config.iq_inverted,
            },
        },
    )
}

} // verus!
