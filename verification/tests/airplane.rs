use weight_balance::{
    Airplane, CenterOfGravity, LeverArm, Limits, Mass, MassMoment, Moment, Volume,
};

fn plane_of(moments: Vec<Moment>, mtow: i128, forward: i128, rearward: i128) -> Airplane {
    Airplane::new(
        String::from("PHTST"),
        moments,
        Limits::new(
            Mass::Kilo(0),
            Mass::Kilo(mtow),
            CenterOfGravity::Meter(forward),
            CenterOfGravity::Meter(rearward),
        ),
        Volume::Liter(17_000_000_000),
    )
}

fn load(arm: i128, kg: i128) -> Moment {
    Moment::new("load".to_string(), LeverArm::Meter(arm), Mass::Kilo(kg))
}

#[test]
fn an_empty_airplane_has_no_mass_and_no_center_of_gravity() {
    let plane = plane_of(vec![], 10_000_000_000, 1_000_000_000, 3_000_000_000);
    assert_eq!(Mass::Kilo(0), plane.total_mass());
    assert_eq!(MassMoment::KgM(0), plane.total_mass_moment());
    assert_eq!(None, plane.center_of_gravity());
    assert!(!plane.within_limits());
    assert!(plane.in_range());
}

#[test]
fn loads_that_cancel_leave_no_center_of_gravity() {
    let plane = plane_of(vec![load(2_000_000_000, 1_000_000_000), load(2_500_000_000, -1_000_000_000)], 10_000_000_000, 1_000_000_000, 3_000_000_000);
    assert_eq!(Mass::Kilo(0), plane.total_mass());
    assert_eq!(MassMoment::KgM(-500_000_000_000_000_000), plane.total_mass_moment());
    assert_eq!(None, plane.center_of_gravity());
    assert!(!plane.within_limits());
}

#[test]
fn the_maximum_take_off_weight_is_inclusive() {
    assert!(plane_of(vec![load(2_000_000_000, 10_000_000_000)], 10_000_000_000, 1_000_000_000, 3_000_000_000).within_limits());
    assert!(!plane_of(vec![load(2_000_000_000, 10_000_000_000)], 9_999_999_999, 1_000_000_000, 3_000_000_000).within_limits());
    assert!(!plane_of(vec![load(2_000_000_000, 10_000_000_001)], 10_000_000_000, 1_000_000_000, 3_000_000_000).within_limits());
}

#[test]
fn the_rearward_limit_is_inclusive() {
    assert!(plane_of(vec![load(3_000_000_000, 10_000_000_000)], 10_000_000_000, 1_000_000_000, 3_000_000_000).within_limits());
    assert!(!plane_of(vec![load(3_000_000_001, 10_000_000_000)], 10_000_000_000, 1_000_000_000, 3_000_000_000).within_limits());
    assert!(!plane_of(vec![load(3_000_000_000, 10_000_000_000)], 10_000_000_000, 1_000_000_000, 2_999_999_999).within_limits());
}

#[test]
fn the_forward_limit_is_inclusive() {
    assert!(plane_of(vec![load(1_000_000_000, 10_000_000_000)], 10_000_000_000, 1_000_000_000, 3_000_000_000).within_limits());
    assert!(!plane_of(vec![load(999_999_999, 10_000_000_000)], 10_000_000_000, 1_000_000_000, 3_000_000_000).within_limits());
    assert!(!plane_of(vec![load(1_000_000_000, 10_000_000_000)], 10_000_000_000, 1_000_000_001, 3_000_000_000).within_limits());
}

#[test]
fn the_envelope_is_held_against_the_exact_center_of_gravity() {
    // The centre of gravity lies half a stored unit behind 3 m: its stored
    // value rounds down onto the limit, the airplane is behind it all the
    // same.
    let plane = plane_of(vec![load(3_000_000_000, 1_000_000_000), load(3_000_000_001, 1_000_000_000)], 10_000_000_000, 1_000_000_000, 3_000_000_000);
    assert_eq!(Some(CenterOfGravity::Meter(3_000_000_000)), plane.center_of_gravity());
    assert!(!plane.within_limits());

    let plane = plane_of(vec![load(1_000_000_000, 1_000_000_000), load(999_999_999, 1_000_000_000)], 10_000_000_000, 1_000_000_000, 3_000_000_000);
    assert_eq!(Some(CenterOfGravity::Meter(999_999_999)), plane.center_of_gravity());
    assert!(!plane.within_limits());
}

#[test]
fn a_limit_in_millimeters_is_not_rounded() {
    let plane = Airplane::new(
        String::from("PHTST"),
        vec![load(427_000_000, 10_000_000_000)],
        Limits::new(
            Mass::Kilo(0),
            Mass::Kilo(10_000_000_000),
            CenterOfGravity::Millimeter(427_050_000_000),
            CenterOfGravity::Millimeter(523_000_000_000),
        ),
        Volume::Liter(0),
    );
    assert!(!plane.within_limits());
    let plane = Airplane::new(
        String::from("PHTST"),
        vec![load(427_000_000, 10_000_000_000)],
        Limits::new(
            Mass::Kilo(0),
            Mass::Kilo(10_000_000_000),
            CenterOfGravity::Millimeter(427_000_000_000),
            CenterOfGravity::Millimeter(523_000_000_000),
        ),
        Volume::Liter(0),
    );
    assert!(plane.within_limits());

    // A limit one stored unit of a millimetre behind the centre of gravity.
    let plane = Airplane::new(
        String::from("PHTST"),
        vec![load(427_000_000, 10_000_000_000)],
        Limits::new(
            Mass::Kilo(0),
            Mass::Kilo(10_000_000_000),
            CenterOfGravity::Millimeter(427_000_000_001),
            CenterOfGravity::Millimeter(523_000_000_000),
        ),
        Volume::Liter(0),
    );
    assert!(!plane.within_limits());
    let plane = Airplane::new(
        String::from("PHTST"),
        vec![load(427_000_000, 10_000_000_000)],
        Limits::new(
            Mass::Kilo(0),
            Mass::Kilo(10_000_000_000),
            CenterOfGravity::Millimeter(400_000_000_000),
            CenterOfGravity::Millimeter(426_999_999_999),
        ),
        Volume::Liter(0),
    );
    assert!(!plane.within_limits());
    let plane = Airplane::new(
        String::from("PHTST"),
        vec![load(427_000_000, 10_000_000_000)],
        Limits::new(
            Mass::Kilo(0),
            Mass::Kilo(10_000_000_000),
            CenterOfGravity::Millimeter(400_000_000_000),
            CenterOfGravity::Millimeter(427_000_000_999),
        ),
        Volume::Liter(0),
    );
    assert!(plane.within_limits());
}

#[test]
fn a_negative_total_mass_still_has_a_center_of_gravity() {
    let plane = plane_of(vec![load(2_000_000_000, -1_000_000_000)], 10_000_000_000, 1_000_000_000, 3_000_000_000);
    assert_eq!(Some(CenterOfGravity::Meter(2_000_000_000)), plane.center_of_gravity());
    assert!(plane.within_limits());

    assert!(!plane_of(vec![load(3_500_000_000, -1_000_000_000)], 10_000_000_000, 1_000_000_000, 3_000_000_000).within_limits());
    assert!(!plane_of(vec![load(500_000_000, -1_000_000_000)], 10_000_000_000, 1_000_000_000, 3_000_000_000).within_limits());
}

#[test]
fn the_center_of_gravity_rounds_down() {
    let plane = plane_of(vec![load(1_000_000_000, 1_000_000_000), load(1_000_000_001, 2_000_000_000)], 10_000_000_000, 0, 3_000_000_000);
    assert_eq!(Some(CenterOfGravity::Meter(1_000_000_000)), plane.center_of_gravity());
    let plane = plane_of(vec![load(-1_000_000_000, 1_000_000_000), load(-1_000_000_001, 2_000_000_000)], 10_000_000_000, -3_000_000_000, 0);
    assert_eq!(Some(CenterOfGravity::Meter(-1_000_000_001)), plane.center_of_gravity());
}

#[test]
fn limits_with_the_forward_behind_the_rearward_admit_nothing() {
    assert!(!plane_of(vec![load(2_000_000_000, 10_000_000_000)], 10_000_000_000, 3_000_000_000, 1_000_000_000).within_limits());
}

#[test]
fn the_totals_do_not_depend_on_the_order_of_the_loads() {
    let loads = || {
        vec![
            Moment::new("a".to_string(), LeverArm::Meter(429_400_000), Mass::Kilo(517_000_000_000)),
            Moment::new("b".to_string(), LeverArm::Meter(-515_000_000), Mass::Kilo(80_000_000_000)),
            Moment::new("c".to_string(), LeverArm::Meter(325_000_000), Mass::Avgas(Volume::Gallon(16_378_600_000))),
            Moment::new("d".to_string(), LeverArm::Meter(1_300_000_000), Mass::Mogas(Volume::Liter(-5_000_000_000))),
        ]
    };
    let straight = plane_of(loads(), 750_000_000_000, 427_000_000, 523_000_000);
    let mut turned = loads();
    turned.reverse();
    let reversed = plane_of(turned, 750_000_000_000, 427_000_000, 523_000_000);
    let mut mixed = loads();
    mixed.swap(0, 2);
    mixed.swap(1, 3);
    let swapped = plane_of(mixed, 750_000_000_000, 427_000_000, 523_000_000);

    let inside = straight.within_limits();
    for plane in [straight, reversed, swapped] {
        assert_eq!(Mass::Kilo(637_939_795_682), plane.total_mass());
        assert_eq!(MassMoment::KgM(190_497_733_596_650_000_000), plane.total_mass_moment());
        assert_eq!(inside, plane.within_limits());
    }
}

#[test]
fn add_moment_puts_the_load_behind_the_others() {
    let mut plane = plane_of(vec![load(2_000_000_000, 10_000_000_000)], 40_000_000_000, 1_000_000_000, 3_000_000_000);
    plane.add_moment(Moment::new(
        "fuel".to_string(),
        LeverArm::Meter(3_000_000_000),
        Mass::Avgas(Volume::Liter(10_000_000_000)),
    ));
    assert_eq!(2, plane.moments().len());
    assert_eq!("load", plane.moments()[0].name());
    assert_eq!("fuel", plane.moments()[1].name());
    assert_eq!(Mass::Kilo(17_200_000_000), plane.total_mass());
    assert_eq!(MassMoment::KgM(41_600_000_000_000_000_000), plane.total_mass_moment());
    assert_eq!("PHTST", plane.callsign());
}

#[test]
fn add_moment_does_not_hold_the_load_against_the_envelope() {
    let mut plane = plane_of(vec![load(2_000_000_000, 10_000_000_000)], 10_000_000_000, 1_000_000_000, 3_000_000_000);
    plane.add_moment(load(9_000_000_000, 90_000_000_000));
    assert_eq!(Mass::Kilo(100_000_000_000), plane.total_mass());
    assert!(!plane.within_limits());
    assert!(plane.in_range());
    plane.add_moment(load(100_000_000_000_001, 0));
    assert!(!plane.in_range());
}

#[test]
fn landing_burns_the_trip_fuel_from_the_last_load() {
    let plane = Airplane::new(
        String::from("PHDHA"),
        vec![
            Moment::new("test".to_string(), LeverArm::Meter(429_400_000), Mass::Kilo(517_000_000_000)),
            Moment::new("test".to_string(), LeverArm::Meter(515_000_000), Mass::Kilo(80_000_000_000)),
            Moment::new("test".to_string(), LeverArm::Meter(515_000_000), Mass::Kilo(89_000_000_000)),
            Moment::new("test".to_string(), LeverArm::Meter(1_300_000_000), Mass::Kilo(5_000_000_000)),
            Moment::new(
                "test".to_string(),
                LeverArm::Meter(325_000_000),
                Mass::Avgas(Volume::Liter(62_000_000_000)),
            ),
        ],
        Limits::new(
            Mass::Kilo(558_000_000_000),
            Mass::Kilo(750_000_000_000),
            CenterOfGravity::Millimeter(427_000_000_000),
            CenterOfGravity::Millimeter(523_000_000_000),
        ),
        Volume::Liter(17_000_000_000),
    );
    assert_eq!(Mass::Kilo(723_400_000_000), plane.total_mass_landing());
    assert_eq!(MassMoment::KgM(326_064_800_000_000_000_000), plane.total_mass_moment_landing());
    assert_eq!(Mass::Kilo(735_640_000_000), plane.total_mass());
}

#[test]
fn landing_with_mogas_and_gallons() {
    let plane = Airplane::new(
        String::from("PHDHA"),
        vec![
            Moment::new("test".to_string(), LeverArm::Meter(2_000_000_000), Mass::Kilo(10_000_000_000)),
            Moment::new(
                "fuel".to_string(),
                LeverArm::Meter(3_000_000_000),
                Mass::Mogas(Volume::Gallon(10_000_000_000)),
            ),
        ],
        Limits::new(
            Mass::Kilo(0),
            Mass::Kilo(100_000_000_000),
            CenterOfGravity::Meter(1_000_000_000),
            CenterOfGravity::Meter(3_000_000_000),
        ),
        Volume::Gallon(4_500_000_000),
    );
    assert_eq!(Mass::Kilo(38_012_034_000), plane.total_mass());
    assert_eq!(Mass::Kilo(25_406_618_700), plane.total_mass_landing());
    assert_eq!(MassMoment::KgM(66_219_856_100_000_000_000), plane.total_mass_moment_landing());
}

#[test]
fn landing_after_more_fuel_was_burned_than_loaded() {
    let plane = Airplane::new(
        String::from("PHDHA"),
        vec![Moment::new(
            "fuel".to_string(),
            LeverArm::Meter(3_000_000_000),
            Mass::Avgas(Volume::Liter(10_000_000_000)),
        )],
        Limits::new(
            Mass::Kilo(0),
            Mass::Kilo(100_000_000_000),
            CenterOfGravity::Meter(1_000_000_000),
            CenterOfGravity::Meter(3_000_000_000),
        ),
        Volume::Liter(17_000_000_000),
    );
    assert_eq!(Mass::Kilo(-5_040_000_000), plane.total_mass_landing());
    assert_eq!(MassMoment::KgM(-15_120_000_000_000_000_000), plane.total_mass_moment_landing());
}

#[test]
fn limits_in_and_out_of_range() {
    let limits = Limits::new(
        Mass::Kilo(0),
        Mass::Kilo(100_000_000_000_000),
        CenterOfGravity::Meter(-100_000_000_000_000),
        CenterOfGravity::Millimeter(100_000_000_000_000),
    );
    assert!(limits.in_range());
    let limits = Limits::new(
        Mass::Kilo(0),
        Mass::Kilo(100_000_000_000_001),
        CenterOfGravity::Meter(0),
        CenterOfGravity::Meter(0),
    );
    assert!(!limits.in_range());
    let limits = Limits::new(
        Mass::Kilo(0),
        Mass::Kilo(0),
        CenterOfGravity::Meter(0),
        CenterOfGravity::Millimeter(-100_000_000_000_001),
    );
    assert!(!limits.in_range());
}

#[test]
fn an_airplane_carries_no_more_than_a_million_loads() {
    let mut loads = Vec::new();
    for _ in 0..1_000_000 {
        loads.push(load(2_000_000_000, 1_000_000_000));
    }
    let mut plane = plane_of(loads, 100_000_000_000_000, 1_000_000_000, 3_000_000_000);
    assert!(plane.in_range());
    assert_eq!(Mass::Kilo(1_000_000_000_000_000), plane.total_mass());
    assert_eq!(MassMoment::KgM(2_000_000_000_000_000_000_000_000), plane.total_mass_moment());
    assert!(!plane.within_limits());
    plane.add_moment(load(2_000_000_000, 1_000_000_000));
    assert!(!plane.in_range());
}
