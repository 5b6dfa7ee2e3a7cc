//! The configuration record of a scale, and the registry entry that pairs a
//! record with the identity of its device.

use crate::device::{Device, DeviceView, Model};
use vstd::prelude::*;

verus! {

/// A binary64 number, held by its bit pattern. The library stores, copies and
/// compares such numbers and never computes with them; two of them are equal
/// when their bits are.
#[derive(Debug, Clone, Copy, PartialEq, Eq, Structural)]
pub struct Double {
    pub bits: u64,
}

impl Double {
    /// The bit pattern of one.
    pub const ONE: u64 = 0x3FF0_0000_0000_0000;

    /// The bit pattern of three.
    pub const THREE: u64 = 0x4008_0000_0000_0000;

    /// The bit pattern of zero.
    pub const ZERO: u64 = 0;

    /// The number with the bit pattern `bits`.
    pub fn from_bits(bits: u64) -> (number: Double)
        ensures
            number.bits == bits,
    {
        Double { bits }
    }

    /// The bit pattern of the number.
    pub fn to_bits(self) -> (bits: u64)
        ensures
            bits == self.bits,
    {
        self.bits
    }
}

/// A span of time: whole seconds and the nanoseconds beyond them.
#[derive(Debug, Clone, Copy, PartialEq, Eq, Structural)]
pub struct Period {
    pub secs: u64,
    pub nanos: u32,
}

impl Period {
    /// A period is well formed when its nanoseconds stay under one second.
    pub open spec fn well_formed(self) -> bool {
        self.nanos < 1_000_000_000
    }

    /// The length of the period in nanoseconds.
    pub open spec fn total_nanos(self) -> nat {
        (self.secs * 1_000_000_000 + self.nanos) as nat
    }

    /// The period of `secs` seconds.
    pub fn from_secs(secs: u64) -> (period: Period)
        ensures
            period == (Period { secs, nanos: 0 }),
            period.well_formed(),
            period.total_nanos() == secs * 1_000_000_000,
    {
        Period { secs, nanos: 0 }
    }

    /// The period of `millis` milliseconds.
    pub fn from_millis(millis: u64) -> (period: Period)
        ensures
            period.secs == millis / 1000,
            period.nanos == (millis % 1000) * 1_000_000,
            period.well_formed(),
            period.total_nanos() == millis * 1_000_000,
    {
        let secs: u64 = millis / 1000;
        let rest: u32 = (millis % 1000) as u32;
        Period { secs, nanos: rest * 1_000_000 }
    }
}

/// The configuration of one scale.
#[derive(Debug, PartialEq)]
pub struct Config {
    pub phidget_id: i32,
    pub load_cell_id: i32,
    pub gain: Double,
    pub offset: Double,
    pub location: String,
    pub ingredient: String,
    pub heartbeat_period: Period,
    pub buffer_length: usize,
    pub max_noise: Double,
    pub phidget_sample_period: Period,
}

/// A configuration as a mathematical value.
pub struct ConfigView {
    pub phidget_id: i32,
    pub load_cell_id: i32,
    pub gain: Double,
    pub offset: Double,
    pub location: Seq<char>,
    pub ingredient: Seq<char>,
    pub heartbeat_period: Period,
    pub buffer_length: usize,
    pub max_noise: Double,
    pub phidget_sample_period: Period,
}

impl View for Config {
    type V = ConfigView;

    open spec fn view(&self) -> ConfigView {
        ConfigView {
            phidget_id: self.phidget_id,
            load_cell_id: self.load_cell_id,
            gain: self.gain,
            offset: self.offset,
            location: self.location@,
            ingredient: self.ingredient@,
            heartbeat_period: self.heartbeat_period,
            buffer_length: self.buffer_length,
            max_noise: self.max_noise,
            phidget_sample_period: self.phidget_sample_period,
        }
    }
}

impl Config {
    /// The configuration that a new registry is seeded with: sensor 0 on load
    /// cell 0, gain one and offset zero, a heartbeat every 60 s, a buffer of
    /// 20 samples taken every 250 ms, and a noise limit of three.
    pub open spec fn seed() -> ConfigView {
        ConfigView {
            phidget_id: 0,
            load_cell_id: 0,
            gain: Double { bits: Double::ONE },
            offset: Double { bits: Double::ZERO },
            location: "Caldo HQ"@,
            ingredient: "Fake Chicken Wings"@,
            heartbeat_period: Period { secs: 60, nanos: 0 },
            buffer_length: 20,
            max_noise: Double { bits: Double::THREE },
            phidget_sample_period: Period { secs: 0, nanos: 250_000_000 },
        }
    }
}

impl Default for Config {
    fn default() -> (config: Self)
        ensures
            config@ == Config::seed(),
    {
        Self {
            phidget_id: 0,
            load_cell_id: 0,
            gain: Double::from_bits(Double::ONE),
            offset: Double::from_bits(Double::ZERO),
            location: "Caldo HQ".to_owned(),
            ingredient: "Fake Chicken Wings".to_owned(),
            heartbeat_period: Period::from_secs(60),
            buffer_length: 20,
            max_noise: Double::from_bits(Double::THREE),
            phidget_sample_period: Period::from_millis(250),
        }
    }
}

impl Clone for Config {
    fn clone(&self) -> (copy: Self)
        ensures
            copy@ == self@,
    {
        Config {
            phidget_id: self.phidget_id,
            load_cell_id: self.load_cell_id,
            gain: self.gain,
            offset: self.offset,
            location: self.location.clone(),
            ingredient: self.ingredient.clone(),
            heartbeat_period: self.heartbeat_period,
            buffer_length: self.buffer_length,
            max_noise: self.max_noise,
            phidget_sample_period: self.phidget_sample_period,
        }
    }
}

/// An entry of the registry: the configuration of a scale under the identity
/// of its device.
#[derive(Debug, PartialEq)]
pub struct Libra {
    pub config: Config,
    pub device: Device,
}

/// A registry entry as a mathematical value.
pub struct LibraView {
    pub config: ConfigView,
    pub device: DeviceView,
}

impl View for Libra {
    type V = LibraView;

    open spec fn view(&self) -> LibraView {
        LibraView { config: self.config@, device: self.device@ }
    }
}

impl Libra {
    /// The entry that a new registry is seeded with: the seed configuration
    /// under the identity `LibraV0-Lib0`.
    pub open spec fn seed() -> LibraView {
        LibraView {
            config: Config::seed(),
            device: DeviceView { model: Model::LibraV0, serial_number: "Lib0"@ },
        }
    }
}

impl Default for Libra {
    fn default() -> (libra: Self)
        ensures
            libra@ == Libra::seed(),
    {
        proof {
            reveal_strlit("Lib0");
        }
        Self { config: Config::default(), device: Device::new(Model::LibraV0, "Lib0") }
    }
}

impl Clone for Libra {
    fn clone(&self) -> (copy: Self)
        ensures
            copy@ == self@,
    {
        Libra { config: self.config.clone(), device: self.device.clone() }
    }
}

} // verus!
