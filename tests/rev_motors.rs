use blaster_firmware::rev_motors::{
    on_trigger_edge, set_rev_motors, MissingPeripheral, MotorDrive, MotorOutput, REV_POWER,
};
use blaster_firmware::shared_cell::SharedCell;

fn fire(trigger: &mut SharedCell<bool>, motor: &mut SharedCell<MotorOutput>) -> Result<MotorDrive, MissingPeripheral> {
    let level = trigger.try_access().map(|l| *l);
    let drive = on_trigger_edge(level, motor.is_installed())?;
    motor.access().apply(drive);
    Ok(drive)
}

#[test]
fn engaged_released_engaged() {
    let mut trigger = SharedCell::new();
    let mut motor = SharedCell::new();
    trigger.install(true);
    motor.install(MotorOutput::new());
    let mut seen = Vec::new();
    for level in [true, false, true] {
        *trigger.access() = level;
        seen.push((fire(&mut trigger, &mut motor).unwrap(), *motor.access()));
    }
    assert_eq!(
        seen,
        vec![
            (MotorDrive::Enable { duty: 127 }, MotorOutput { enabled: true, duty: 127 }),
            (MotorDrive::Disable, MotorOutput { enabled: false, duty: 0 }),
            (MotorDrive::Enable { duty: 127 }, MotorOutput { enabled: true, duty: 127 }),
        ]
    );
}

#[test]
fn repeated_firing_without_level_change() {
    let mut trigger = SharedCell::new();
    let mut motor = SharedCell::new();
    trigger.install(true);
    motor.install(MotorOutput::new());
    let first = fire(&mut trigger, &mut motor);
    let after_first = *motor.access();
    let second = fire(&mut trigger, &mut motor);
    assert_eq!(first, second);
    assert_eq!(after_first, *motor.access());
    assert_eq!(after_first, MotorOutput { enabled: true, duty: REV_POWER });
}

#[test]
fn drive_follows_level() {
    assert_eq!(set_rev_motors(true), MotorDrive::Enable { duty: 127 });
    assert_eq!(set_rev_motors(false), MotorDrive::Disable);
}

#[test]
fn disable_forces_duty_to_zero() {
    let mut out = MotorOutput::new();
    out.apply(MotorDrive::Enable { duty: 200 });
    assert_eq!(out, MotorOutput { enabled: true, duty: 200 });
    out.apply(MotorDrive::Disable);
    assert_eq!(out, MotorOutput { enabled: false, duty: 0 });
}

#[test]
fn missing_trigger_pin_is_fatal() {
    let mut trigger: SharedCell<bool> = SharedCell::new();
    let mut motor = SharedCell::new();
    motor.install(MotorOutput::new());
    assert_eq!(fire(&mut trigger, &mut motor), Err(MissingPeripheral::TriggerPin));
    assert_eq!(on_trigger_edge(None, false), Err(MissingPeripheral::TriggerPin));
    assert_eq!(*motor.access(), MotorOutput::new());
}

#[test]
fn missing_motor_pin_is_fatal() {
    let mut trigger = SharedCell::new();
    let mut motor: SharedCell<MotorOutput> = SharedCell::new();
    trigger.install(true);
    assert_eq!(fire(&mut trigger, &mut motor), Err(MissingPeripheral::MotorPin));
    assert_eq!(on_trigger_edge(Some(false), false), Err(MissingPeripheral::MotorPin));
}

#[test]
fn cell_starts_empty_and_install_replaces() {
    let mut cell: SharedCell<u8> = SharedCell::new();
    assert!(!cell.is_installed());
    assert!(cell.try_access().is_none());
    cell.install(1);
    cell.install(2);
    assert!(cell.is_installed());
    *cell.access() += 1;
    assert_eq!(cell.try_access().map(|v| *v), Some(3));
}
