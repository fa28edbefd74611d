use modbus::scoped::{CoilDropFunction, RegisterDropFunction};
use modbus::Coil;

#[test]
fn coil_drop_values() {
    assert_eq!(CoilDropFunction::On.drop_value(Coil::Off), Coil::On);
    assert_eq!(CoilDropFunction::On.drop_value(Coil::On), Coil::On);
    assert_eq!(CoilDropFunction::Off.drop_value(Coil::On), Coil::Off);
    assert_eq!(CoilDropFunction::Off.drop_value(Coil::Off), Coil::Off);
    assert_eq!(CoilDropFunction::Toggle.drop_value(Coil::On), Coil::Off);
    assert_eq!(CoilDropFunction::Toggle.drop_value(Coil::Off), Coil::On);
}

#[test]
fn register_drop_values() {
    assert_eq!(RegisterDropFunction::Zero.drop_value(0xbeef), 0);
    assert_eq!(RegisterDropFunction::Increment.drop_value(0), 1);
    assert_eq!(RegisterDropFunction::Decrement.drop_value(2), 1);
    assert_eq!(RegisterDropFunction::Value(0xbeef).drop_value(0), 0xbeef);
}

// Teardown must not panic, so the register arithmetic wraps at the bounds.
#[test]
fn register_drop_wraps() {
    assert_eq!(RegisterDropFunction::Increment.drop_value(0xffff), 0);
    assert_eq!(RegisterDropFunction::Decrement.drop_value(0), 0xffff);
}
