//! The decisions of a driver for a humidity and temperature sensor on an
//! I2C bus: what it does at each stage of its life and when a sample is
//! ready.

use vstd::prelude::*;

verus! {

/// The bus address of the sensor.
pub const ADDR: u8 = 0x5F;

/// The stages of a driver's life.
#[derive(Clone, Copy, Debug, PartialEq, Eq, Structural)]
pub enum Lifecycle {
    Initialize,
    Start,
    Stop,
    Sleep,
    Hibernate,
}

/// What the driver does on the bus.
#[derive(Clone, Copy, Debug, PartialEq, Eq, Structural)]
pub enum Step {
    /// Nothing.
    Nothing,
    /// Reboot the sensor's memory, switch it on at one sample per second with
    /// block data update, enable the data-ready line, and read samples until
    /// none is pending.
    Configure,
    /// Read the calibration of the sensor.
    ReadCalibration,
    /// Read one sample and convert it with the calibration.
    ReadSample,
    /// Say that a sample is ready but cannot be converted.
    ReportNoCalibration,
}

/// What the driver does at a stage of its life: it configures the sensor
/// when it is initialized and reads the calibration when it is started, both
/// only if it has a bus; at the other stages it does nothing.
pub open spec fn lifecycle_step(bound: bool, event: Lifecycle) -> Step {
    match event {
        Lifecycle::Initialize => if bound {
            Step::Configure
        } else {
            Step::Nothing
        },
        Lifecycle::Start => if bound {
            Step::ReadCalibration
        } else {
            Step::Nothing
        },
        _ => Step::Nothing,
    }
}

/// What the driver does when a sample is ready: without a bus nothing, with
/// the calibration it reads the sample, without it it says so.
pub open spec fn data_ready_step(bound: bool, calibrated: bool) -> Step {
    if !bound {
        Step::Nothing
    } else if calibrated {
        Step::ReadSample
    } else {
        Step::ReportNoCalibration
    }
}

pub struct Sensor {
    address: u8,
    bound: bool,
    calibrated: bool,
}

impl Sensor {
    /// The bus address that the driver talks to.
    pub closed spec fn address(&self) -> u8 {
        self.address
    }

    /// Whether the driver has been given its bus.
    pub closed spec fn bound(&self) -> bool {
        self.bound
    }

    /// Whether the driver has read the calibration.
    pub closed spec fn calibrated(&self) -> bool {
        self.calibrated
    }

    /// A driver without a bus and without calibration.
    pub fn new() -> (sensor: Self)
        ensures
            sensor.address() == ADDR,
            !sensor.bound(),
            !sensor.calibrated(),
    {
        Self { address: ADDR, bound: false, calibrated: false }
    }

    pub fn bus_address(&self) -> (address: u8)
        ensures
            address == self.address(),
    {
        self.address
    }

    /// Notes that the driver has its bus.
    pub fn on_bind(&mut self)
        ensures
            final(self).bound(),
            final(self).calibrated() == old(self).calibrated(),
            final(self).address() == old(self).address(),
    {
        self.bound = true;
    }

    /// Notes that the calibration has been read.
    pub fn start(&mut self)
        ensures
            final(self).calibrated(),
            final(self).bound() == old(self).bound(),
            final(self).address() == old(self).address(),
    {
        self.calibrated = true;
    }

    /// What the driver does at a stage of its life.
    pub fn on_notification(&self, event: Lifecycle) -> (step: Step)
        ensures
            step == lifecycle_step(self.bound(), event),
    {
        match event {
            Lifecycle::Initialize => if self.bound {
                Step::Configure
            } else {
                Step::Nothing
            },
            Lifecycle::Start => if self.bound {
                Step::ReadCalibration
            } else {
                Step::Nothing
            },
            Lifecycle::Stop => Step::Nothing,
            Lifecycle::Sleep => Step::Nothing,
            Lifecycle::Hibernate => Step::Nothing,
        }
    }

    /// What the driver does when the sensor says that a sample is ready.
    pub fn signal_data_ready(&self) -> (step: Step)
        ensures
            step == data_ready_step(self.bound(), self.calibrated()),
    {
        if self.bound {
            if self.calibrated {
                Step::ReadSample
            } else {
                Step::ReportNoCalibration
            }
        } else {
            Step::Nothing
        }
    }
}

} // verus!
