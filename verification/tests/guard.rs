use cowboy_protocol::guard::bounded;
use cowboy_protocol::guard::bounded_max;
use cowboy_protocol::guard::FieldError;

#[test]
fn upper_bound_inclusive() {
    assert_eq!(bounded_max(100, 100), Ok(()));
    assert_eq!(
        bounded_max(101, 100),
        Err(FieldError::InvalidRange { start: 0, end: 100 }),
    );
}

#[test]
fn explicit_bounds_boundary() {
    assert_eq!(bounded(20, 10, 20), Ok(()));
    assert_eq!(
        bounded(21, 10, 20),
        Err(FieldError::InvalidRange { start: 10, end: 20 }),
    );
}

#[test]
fn lower_bound_is_not_enforced() {
    // Only the upper bound is checked: a value below `min` passes. This
    // mirrors the device-facing behaviour and is asserted here so a change
    // to it cannot slip by unnoticed.
    assert_eq!(bounded(5, 10, 20), Ok(()));
}

#[test]
fn zero_maximum() {
    assert_eq!(bounded_max(0, 0), Ok(()));
    assert_eq!(
        bounded_max(1, 0),
        Err(FieldError::InvalidRange { start: 0, end: 0 }),
    );
}

#[test]
fn guarded_value_reaches_the_wire_only_in_range() {
    let t: [u8; 9] = [0x10, 0x20, 0x30, 0x40, 0x50, 0x60, 0x70, 0, 0];
    let value: u16 = 300;
    match bounded_max(value, 1000) {
        Ok(()) => {
            let frame = cowboy_protocol::frame::packetize(
                &cowboy_protocol::frame::write_value(t, value),
            );
            assert_eq!(frame[7], 0x01);
            assert_eq!(frame[8], 0x2C);
        }
        Err(_) => panic!("a value within the bound must pass the guard"),
    }
    assert_eq!(
        bounded_max(2000, 1000),
        Err(FieldError::InvalidRange { start: 0, end: 1000 }),
    );
}
