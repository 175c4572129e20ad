use fcs::components::{AxisContribution, ControlAxis};
use fcs::dimension3::{Dimension3, Vector3};
use fcs::propulsion_control::{
    calculate_available_acceleration, calculate_available_thrust, Thruster, ThrusterMountPoint,
    ThrusterSize,
};

#[test]
fn test_thruster_size_enum_comparison() {
    assert!(ThrusterSize::Small < ThrusterSize::Medium);
    assert!(ThrusterSize::Small < ThrusterSize::Large);

    assert!(ThrusterSize::Medium > ThrusterSize::Small);
    assert!(ThrusterSize::Medium < ThrusterSize::Large);

    assert!(ThrusterSize::Large > ThrusterSize::Small);
    assert!(ThrusterSize::Large > ThrusterSize::Medium);

    assert!(ThrusterSize::Small == ThrusterSize::Small);
    assert!(ThrusterSize::Medium == ThrusterSize::Medium);
    assert!(ThrusterSize::Large == ThrusterSize::Large);
}

#[test]
fn thruster_too_large() {
    let thruster = Thruster::new(20_000, ThrusterSize::Large);
    let mut mount_point = ThrusterMountPoint::new(
        None,
        Vector3::new(0, 0, 0, 1),
        ThrusterSize::Small,
        Dimension3::default(0),
    );

    assert!(mount_point.change_thruster(thruster).is_err());
}

#[test]
fn test_calculate_available_thrust() {
    let thruster_suite: [ThrusterMountPoint; 6] = [
        ThrusterMountPoint::new(
            Some(Thruster::new(20_000, ThrusterSize::Small)),
            Vector3::new(1, 0, 0, 1),
            ThrusterSize::Small,
            Dimension3::default(0),
        ),
        ThrusterMountPoint::new(
            Some(Thruster::new(20_000, ThrusterSize::Small)),
            Vector3::new(-1, 0, 0, 1),
            ThrusterSize::Small,
            Dimension3::default(0),
        ),
        ThrusterMountPoint::new(
            Some(Thruster::new(20_000, ThrusterSize::Small)),
            Vector3::new(0, 1, 0, 1),
            ThrusterSize::Small,
            Dimension3::default(0),
        ),
        ThrusterMountPoint::new(
            Some(Thruster::new(20_000, ThrusterSize::Small)),
            Vector3::new(0, -1, 0, 1),
            ThrusterSize::Small,
            Dimension3::default(0),
        ),
        ThrusterMountPoint::new(
            Some(Thruster::new(20_000, ThrusterSize::Small)),
            Vector3::new(0, 0, 1, 1),
            ThrusterSize::Small,
            Dimension3::default(0),
        ),
        ThrusterMountPoint::new(
            Some(Thruster::new(20_000, ThrusterSize::Small)),
            Vector3::new(0, 0, -1, 1),
            ThrusterSize::Small,
            Dimension3::default(0),
        ),
    ];

    let available_thrust = calculate_available_thrust(&thruster_suite);

    let expected = ControlAxis::new(
        Dimension3::new(
            AxisContribution::new(20_000, 20_000),
            AxisContribution::new(20_000, 20_000),
            AxisContribution::new(20_000, 20_000),
        ),
        Dimension3::new(
            AxisContribution::new(0, 0),
            AxisContribution::new(0, 0),
            AxisContribution::new(0, 0),
        ),
    );

    // print values for debugging
    println!(
        "available thrust linear x positive: {:?}, expected linear x positive: {:?}",
        available_thrust.linear().x().positive(),
        expected.linear().x().positive()
    );
    println!(
        "available thrust linear x negative: {:?}, expected linear x negative: {:?}",
        available_thrust.linear().x().negative(),
        expected.linear().x().negative()
    );

    assert_eq!(available_thrust.linear().x().positive(), expected.linear().x().positive());
    assert_eq!(available_thrust.linear().y().positive(), expected.linear().y().positive());
    assert_eq!(available_thrust.linear().z().positive(), expected.linear().z().positive());

    assert_eq!(
        available_thrust.rotational().x().positive(),
        expected.rotational().x().positive()
    );
    assert_eq!(
        available_thrust.rotational().y().positive(),
        expected.rotational().y().positive()
    );
    assert_eq!(
        available_thrust.rotational().z().positive(),
        expected.rotational().z().positive()
    );

    assert_eq!(available_thrust.linear().x().negative(), expected.linear().x().negative());
    assert_eq!(available_thrust.linear().y().negative(), expected.linear().y().negative());
    assert_eq!(available_thrust.linear().z().negative(), expected.linear().z().negative());

    assert_eq!(
        available_thrust.rotational().x().negative(),
        expected.rotational().x().negative()
    );
    assert_eq!(
        available_thrust.rotational().y().negative(),
        expected.rotational().y().negative()
    );
    assert_eq!(
        available_thrust.rotational().z().negative(),
        expected.rotational().z().negative()
    );
}

#[test]
fn test_calculate_available_acceleration() {
    let available_thrust = ControlAxis::new(
        Dimension3::new(
            AxisContribution::new(20_000, 20_000),
            AxisContribution::new(20_000, 20_000),
            AxisContribution::new(20_000, 20_000),
        ),
        Dimension3::new(
            AxisContribution::new(0, 0),
            AxisContribution::new(0, 0),
            AxisContribution::new(0, 0),
        ),
    );

    let mass: i64 = 2_000;

    let available_acceleration = calculate_available_acceleration(&available_thrust, mass);

    let expected = ControlAxis::new(
        Dimension3::new(
            AxisContribution::new(10, 10),
            AxisContribution::new(10, 10),
            AxisContribution::new(10, 10),
        ),
        Dimension3::new(
            AxisContribution::new(0, 0),
            AxisContribution::new(0, 0),
            AxisContribution::new(0, 0),
        ),
    );

    assert_eq!(
        available_acceleration.linear().x().positive(),
        expected.linear().x().positive()
    );
    assert_eq!(
        available_acceleration.linear().y().positive(),
        expected.linear().y().positive()
    );
    assert_eq!(
        available_acceleration.linear().z().positive(),
        expected.linear().z().positive()
    );

    assert_eq!(
        available_acceleration.rotational().x().positive(),
        expected.rotational().x().positive()
    );
    assert_eq!(
        available_acceleration.rotational().y().positive(),
        expected.rotational().y().positive()
    );
    assert_eq!(
        available_acceleration.rotational().z().positive(),
        expected.rotational().z().positive()
    );

    assert_eq!(
        available_acceleration.linear().x().negative(),
        expected.linear().x().negative()
    );
    assert_eq!(
        available_acceleration.linear().y().negative(),
        expected.linear().y().negative()
    );
    assert_eq!(
        available_acceleration.linear().z().negative(),
        expected.linear().z().negative()
    );

    assert_eq!(
        available_acceleration.rotational().x().negative(),
        expected.rotational().x().negative()
    );
    assert_eq!(
        available_acceleration.rotational().y().negative(),
        expected.rotational().y().negative()
    );
    assert_eq!(
        available_acceleration.rotational().z().negative(),
        expected.rotational().z().negative()
    );
}

#[test]
fn empty_layout_yields_zero_budget() {
    let mounts: [ThrusterMountPoint; 0] = [];
    let available_thrust = calculate_available_thrust(&mounts);
    assert_eq!(available_thrust.linear().x().positive(), 0);
    assert_eq!(available_thrust.linear().x().negative(), 0);
    assert_eq!(available_thrust.linear().y().positive(), 0);
    assert_eq!(available_thrust.linear().y().negative(), 0);
    assert_eq!(available_thrust.linear().z().positive(), 0);
    assert_eq!(available_thrust.linear().z().negative(), 0);
    assert_eq!(available_thrust.rotational().x().positive(), 0);
    assert_eq!(available_thrust.rotational().z().negative(), 0);
}

#[test]
fn unequipped_slots_contribute_nothing() {
    let mounts: [ThrusterMountPoint; 3] = [
        ThrusterMountPoint::new(
            Some(Thruster::new(300, ThrusterSize::Medium)),
            Vector3::new(1, 0, 0, 1),
            ThrusterSize::Large,
            Dimension3::default(0),
        ),
        ThrusterMountPoint::new(
            None,
            Vector3::new(1, 0, 0, 1),
            ThrusterSize::Large,
            Dimension3::default(0),
        ),
        ThrusterMountPoint::new(
            Some(Thruster::new(500, ThrusterSize::Small)),
            Vector3::new(-1, 0, 0, 1),
            ThrusterSize::Small,
            Dimension3::default(0),
        ),
    ];
    let available_thrust = calculate_available_thrust(&mounts);
    // a zero direction component counts toward the positive side but
    // contributes zero thrust there
    assert_eq!(available_thrust.linear().x().positive(), 300);
    assert_eq!(available_thrust.linear().x().negative(), 500);
    assert_eq!(available_thrust.linear().y().positive(), 0);
    assert_eq!(available_thrust.linear().y().negative(), 0);
    assert_eq!(available_thrust.linear().z().positive(), 0);
    assert_eq!(available_thrust.linear().z().negative(), 0);
}

#[test]
fn largest_thruster_fits_largest_mount() {
    let mut mount_point = ThrusterMountPoint::new(
        None,
        Vector3::new(1, 0, 0, 1),
        ThrusterSize::Large,
        Dimension3::default(0),
    );
    assert!(mount_point.change_thruster(Thruster::new(1, ThrusterSize::Large)).is_ok());
    assert!(mount_point.change_thruster(Thruster::new(1, ThrusterSize::Medium)).is_ok());
    assert!(mount_point.change_thruster(Thruster::new(1, ThrusterSize::Small)).is_ok());
}
