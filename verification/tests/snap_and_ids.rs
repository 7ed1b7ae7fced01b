use zcad::parametric::{ConstraintId, VariableId};
use zcad::snap::{SnapMask, SnapType};

#[test]
fn test_snap_mask() {
    let mut mask = SnapMask::default();
    assert!(mask.is_enabled(SnapType::Endpoint));
    assert!(mask.is_enabled(SnapType::Midpoint));
    assert!(!mask.is_enabled(SnapType::Nearest));

    mask.set(SnapType::Nearest, true);
    assert!(mask.is_enabled(SnapType::Nearest));

    mask.toggle(SnapType::Endpoint);
    assert!(!mask.is_enabled(SnapType::Endpoint));
}

#[test]
fn snap_mask_toggle_twice_restores() {
    let mut mask = SnapMask::new(0b1010);
    let before = mask.bits();
    mask.toggle(SnapType::Center);
    mask.toggle(SnapType::Center);
    assert_eq!(mask.bits(), before);
    assert_eq!(SnapMask::NONE().bits(), 0);
    assert!(SnapMask::ALL().is_enabled(SnapType::Grid));
    mask.set(SnapType::Grid, false);
    assert!(!mask.is_enabled(SnapType::Grid));
}

#[test]
fn ids_null() {
    assert!(VariableId::null().is_null());
    assert!(!VariableId::new(3).is_null());
    assert!(ConstraintId::null().is_null());
    assert!(!ConstraintId::new(9).is_null());
}
