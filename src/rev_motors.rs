//! The trigger-driven ("rev") motor controller.
//!
//! An interrupt fires on every edge of the trigger input. Each firing
//! samples the trigger level and drives the motor's PWM channel from that
//! level alone: engaged runs the motor at `REV_POWER`, released turns the
//! channel off. There is no state beyond the live level, so a firing with
//! no level change re-applies the same output.
use vstd::prelude::*;

verus! {

/// PWM duty of the motors while the trigger is engaged: 127 of 255.
pub const REV_POWER: u8 = 127;

/// What a handler firing does to the motor's PWM channel.
#[derive(Debug, Copy, Clone, PartialEq, Eq, Structural)]
pub enum MotorDrive {
    /// Enable the channel and set its duty.
    Enable { duty: u8 },
    /// Turn the channel's output driver off, with duty 0.
    Disable,
}

/// The peripheral that a handler firing found missing from its cell.
#[derive(Debug, Copy, Clone, PartialEq, Eq, Structural)]
pub enum MissingPeripheral {
    TriggerPin,
    MotorPin,
}

/// The observable state of the motor's PWM channel.
#[derive(Debug, Copy, Clone, PartialEq, Eq, Structural)]
pub struct MotorOutput {
    pub enabled: bool,
    pub duty: u8,
}

/// The drive for a trigger level: `engaged` is the input reading high.
pub open spec fn rev_drive(engaged: bool) -> MotorDrive {
    if engaged {
        MotorDrive::Enable { duty: REV_POWER }
    } else {
        MotorDrive::Disable
    }
}

/// The channel state after `drive`, whatever it was before.
pub open spec fn driven(drive: MotorDrive) -> MotorOutput {
    match drive {
        MotorDrive::Enable { duty } => MotorOutput { enabled: true, duty },
        MotorDrive::Disable => MotorOutput { enabled: false, duty: 0 },
    }
}

/// The outcome of one handler firing: the drive for the sampled level, or
/// the first peripheral found missing (trigger before motor).
pub open spec fn edge_outcome(trigger_level: Option<bool>, motor_installed: bool) -> Result<
    MotorDrive,
    MissingPeripheral,
> {
    match trigger_level {
        None => Err(MissingPeripheral::TriggerPin),
        Some(engaged) => if motor_installed {
            Ok(rev_drive(engaged))
        } else {
            Err(MissingPeripheral::MotorPin)
        },
    }
}

/// Decides the motor drive from the sampled trigger level.
pub fn set_rev_motors(engaged: bool) -> (r: MotorDrive)
    ensures
        r == rev_drive(engaged),
{
    if engaged {
        MotorDrive::Enable { duty: REV_POWER }
    } else {
        MotorDrive::Disable
    }
}

/// One firing of the trigger-edge handler. `trigger_level` is the sampled
/// level, or `None` when the trigger cell is empty; `motor_installed` says
/// whether the motor cell holds its channel. A missing peripheral is an
/// error, never a skipped cycle: the caller halts on it.
pub fn on_trigger_edge(trigger_level: Option<bool>, motor_installed: bool) -> (r: Result<
    MotorDrive,
    MissingPeripheral,
>)
    ensures
        r == edge_outcome(trigger_level, motor_installed),
{
    match trigger_level {
        None => Err(MissingPeripheral::TriggerPin),
        Some(engaged) => {
            if motor_installed {
                Ok(set_rev_motors(engaged))
            } else {
                Err(MissingPeripheral::MotorPin)
            }
        },
    }
}

impl MotorOutput {
    /// A channel that is off.
    pub fn new() -> (r: Self)
        ensures
            r == driven(MotorDrive::Disable),
    {
        MotorOutput { enabled: false, duty: 0 }
    }

    /// Applies `drive` to the channel.
    pub fn apply(&mut self, drive: MotorDrive)
        ensures
            *final(self) == driven(drive),
    {
        match drive {
            MotorDrive::Enable { duty } => {
                self.enabled = true;
                self.duty = duty;
            },
            MotorDrive::Disable => {
                self.enabled = false;
                self.duty = 0;
            },
        }
    }
}

/// Every firing with both peripherals installed succeeds, and the channel
/// state it leaves (`apply` of its drive) is fixed by the trigger level
/// alone: enabled at `REV_POWER` when engaged, off with duty 0 when
/// released. A repeated firing at an unchanged level therefore reproduces
/// the same state.
pub proof fn lemma_firing_follows_level(engaged: bool)
    ensures
        edge_outcome(Some(engaged), true) == Ok::<MotorDrive, MissingPeripheral>(
            rev_drive(engaged),
        ),
        engaged ==> driven(rev_drive(engaged)) == (MotorOutput { enabled: true, duty: REV_POWER }),
        !engaged ==> driven(rev_drive(engaged)) == (MotorOutput { enabled: false, duty: 0 }),
{
}

/// A firing with a peripheral missing never drives the motor: it reports
/// the trigger pin first, then the motor pin.
pub proof fn lemma_missing_peripheral_is_reported(trigger_level: Option<bool>, motor_installed: bool)
    requires
        trigger_level is None || !motor_installed,
    ensures
        edge_outcome(trigger_level, motor_installed) is Err,
        trigger_level is None ==> edge_outcome(trigger_level, motor_installed)
            == Err::<MotorDrive, MissingPeripheral>(MissingPeripheral::TriggerPin),
{
}

} // verus!
