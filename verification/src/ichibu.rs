//! The configuration of a dispensing unit and of its scale.

use crate::device::Device;
use crate::error::Error;
use crate::libra::Double;
use vstd::prelude::*;

verus! {

/// The number of an input or output line.
pub type Io = usize;

/// A motor and how it is driven.
#[derive(Debug, Clone, Copy, PartialEq)]
pub struct Motor {
    pub id: Io,
    pub scale: usize,
    pub acceleration: Double,
    pub velocity: Double,
}

/// How long a dispense may take.
#[derive(Debug, Clone, Copy, PartialEq)]
pub struct Dispense {
    pub timeout: usize,
}

/// The weights at which the unit counts as empty and as in need of filling.
#[derive(Debug, Clone, Copy, PartialEq)]
pub struct Setpoint {
    pub empty: Double,
    pub filling_threshold: Double,
}

/// The hatch: its motor and the inputs that report it open and closed.
#[derive(Debug, Clone, Copy, PartialEq)]
pub struct Hatch {
    pub motor: Motor,
    pub open_input: Io,
    pub close_input: Io,
}

/// The photo eye: its input and how it is sampled.
#[derive(Debug, Clone, Copy, PartialEq)]
pub struct PhotoEye {
    pub input: Io,
    pub sample_number: usize,
    pub sample_period: usize,
}

/// The pins of the three roles.
#[derive(Debug, PartialEq)]
pub struct Pins {
    pub manager: String,
    pub operator: String,
    pub sudo: String,
}

impl Clone for Pins {
    fn clone(&self) -> (copy: Self)
        ensures
            copy.manager@ == self.manager@,
            copy.operator@ == self.operator@,
            copy.sudo@ == self.sudo@,
    {
        Pins {
            manager: self.manager.clone(),
            operator: self.operator.clone(),
            sudo: self.sudo.clone(),
        }
    }
}

/// The configuration of a dispensing unit. It names its device once the
/// device has been given a serial.
#[derive(Debug, PartialEq)]
pub struct Ichibu {
    pub device: Option<Device>,
    pub conveyor_motor: Motor,
    pub hatch: Hatch,
    pub photo_eye: PhotoEye,
    pub pins: Pins,
    pub dispense: Dispense,
    pub setpoint: Setpoint,
}

impl Clone for Ichibu {
    fn clone(&self) -> (copy: Self)
        ensures
            match (copy.device, self.device) {
                (Some(copied), Some(device)) => copied@ == device@,
                (None, None) => true,
                _ => false,
            },
            copy.conveyor_motor == self.conveyor_motor,
            copy.hatch == self.hatch,
            copy.photo_eye == self.photo_eye,
            copy.pins.manager@ == self.pins.manager@,
            copy.pins.operator@ == self.pins.operator@,
            copy.pins.sudo@ == self.pins.sudo@,
            copy.dispense == self.dispense,
            copy.setpoint == self.setpoint,
    {
        Ichibu {
            device: match &self.device {
                Some(device) => Some(device.clone()),
                None => None,
            },
            conveyor_motor: self.conveyor_motor,
            hatch: self.hatch,
            photo_eye: self.photo_eye,
            pins: self.pins.clone(),
            dispense: self.dispense,
            setpoint: self.setpoint,
        }
    }
}

impl Ichibu {
    /// The device of the unit. A configuration that names none is not ready
    /// to be written out, and is refused with `NoSerialNumber`.
    pub fn device(&self) -> (named: Result<&Device, Error>)
        ensures
            match self.device {
                Some(device) => named == Ok::<&Device, Error>(&device),
                None => named == Err::<&Device, Error>(Error::NoSerialNumber),
            },
    {
        match &self.device {
            Some(device) => Ok(device),
            None => Err(Error::NoSerialNumber),
        }
    }
}

/// The configuration of the scale of a unit: its sensor and, once the scale
/// is calibrated, the four coefficients of the calibration.
#[derive(Debug, Clone, Copy, PartialEq)]
pub struct ScaleConfig {
    pub phidget_id: isize,
    pub coefficients: Option<[Double; 4]>,
}

impl ScaleConfig {
    /// Sets the coefficients of the calibration.
    pub fn update_coefficients(&mut self, coefficients: [Double; 4])
        ensures
            final(self).coefficients == Some(coefficients),
            final(self).phidget_id == old(self).phidget_id,
    {
        self.coefficients = Some(coefficients);
    }

    /// Whether the scale is calibrated.
    pub fn has_coefficients(&self) -> (yes: bool)
        ensures
            yes == (self.coefficients is Some),
    {
        self.coefficients.is_some()
    }
}

} // verus!
