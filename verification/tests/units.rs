use weight_balance::arith::{div_floor, scale_floor, unscale_floor};
use weight_balance::{CenterOfGravity, LeverArm, Mass, MassMoment, Moment, Volume};

#[test]
fn division_rounds_toward_negative_infinity() {
    assert_eq!(3, div_floor(7, 2));
    assert_eq!(-4, div_floor(-7, 2));
    assert_eq!(-4, div_floor(7, -2));
    assert_eq!(3, div_floor(-7, -2));
    assert_eq!(-3, div_floor(-6, 2));
    assert_eq!(0, div_floor(0, -5));
    assert_eq!(i128::MIN, div_floor(i128::MIN, 1));
    assert_eq!(-85070591730234615865843651857942052864, div_floor(i128::MIN, 2));
}

#[test]
fn the_way_back_along_a_ratio_takes_the_largest() {
    assert_eq!(37, scale_floor(10, 378_541, 100_000));
    assert_eq!(10, unscale_floor(37, 378_541, 100_000));
    assert_eq!(9, unscale_floor(36, 378_541, 100_000));
    assert_eq!(-38, scale_floor(-10, 378_541, 100_000));
    assert_eq!(-10, unscale_floor(-38, 378_541, 100_000));
    assert_eq!(-11, unscale_floor(-39, 378_541, 100_000));
    assert_eq!(10, scale_floor(14, 72, 100));
    assert_eq!(15, unscale_floor(10, 72, 100));
    assert_eq!(1, unscale_floor(0, 72, 100));
}

#[test]
fn one_gallon_is_3_78541_liters() {
    assert_eq!(3_785_410_000, Volume::Gallon(1_000_000_000).to_liter());
    assert_eq!(37_854_100_000, Volume::Gallon(10_000_000_000).to_liter());
    assert_eq!(1_000_000_000, Volume::Liter(3_785_410_000).to_gallon());
    assert_eq!(264_172_177, Volume::Liter(1_000_000_000).to_gallon());
    assert_eq!(3, Volume::Gallon(1).to_liter());
}

#[test]
fn a_volume_in_its_own_unit_is_unchanged() {
    assert_eq!(62_000_000_000, Volume::Liter(62_000_000_000).to_liter());
    assert_eq!(-7, Volume::Gallon(-7).to_gallon());
}

#[test]
fn negative_volumes_round_down() {
    assert_eq!(-46_731, Volume::Gallon(-12_345).to_liter());
    assert_eq!(-3_261, Volume::Liter(-12_345).to_gallon());
}

#[test]
fn liters_survive_the_round_trip_within_three_units() {
    for l in [
        0_i128,
        1,
        3,
        4,
        3_785_400_000,
        62_000_000_000,
        100_000_000_000_000,
        -1,
        -62_000_000_000,
        -100_000_000_000_000,
    ] {
        let back = Volume::Gallon(Volume::Liter(l).to_gallon()).to_liter();
        assert!(l - 3 <= back && back <= l, "{l} came back as {back}");
    }
    assert_eq!(61_999_999_999, Volume::Gallon(Volume::Liter(62_000_000_000).to_gallon()).to_liter());
    assert_eq!(0, Volume::Gallon(Volume::Liter(1).to_gallon()).to_liter());
    assert_eq!(3_785_410_000, Volume::Gallon(Volume::Liter(3_785_410_000).to_gallon()).to_liter());
}

#[test]
fn gallons_survive_the_round_trip() {
    for g in [
        0_i128,
        1,
        2,
        1_000_000_000,
        16_378_600_000,
        100_000_000_000_000,
        -1,
        -16_378_600_000,
        -100_000_000_000_000,
    ] {
        assert_eq!(g, Volume::Liter(Volume::Gallon(g).to_liter()).to_gallon());
    }
}

#[test]
fn volume_text_has_two_decimals_and_the_unit() {
    assert_eq!("62.00L", Volume::Liter(62_000_000_000).to_string());
    assert_eq!("16.38gal", Volume::Gallon(16_378_600_000).to_string());
    assert_eq!("-0.50L", Volume::Liter(-500_000_000).to_string());
    assert_eq!("0.00gal", Volume::Gallon(0).to_string());
    assert_eq!("-0.00L", Volume::Liter(-1).to_string());
}

#[test]
fn kilograms_are_kept() {
    assert_eq!(517_000_000_000, Mass::Kilo(517_000_000_000).kilo());
    assert_eq!(-1, Mass::Kilo(-1).kilo());
    assert_eq!(i128::MAX, Mass::Kilo(i128::MAX).kilo());
}

#[test]
fn fuel_weighs_its_density() {
    assert_eq!(44_640_000_000, Mass::Avgas(Volume::Liter(62_000_000_000)).kilo());
    assert_eq!(45_880_000_000, Mass::Mogas(Volume::Liter(62_000_000_000)).kilo());
    assert_eq!(2_725_495_200, Mass::Avgas(Volume::Gallon(1_000_000_000)).kilo());
    assert_eq!(2_801_203_400, Mass::Mogas(Volume::Gallon(1_000_000_000)).kilo());
    assert_eq!(-8_889, Mass::Avgas(Volume::Liter(-12_345)).kilo());
}

#[test]
fn fuel_in_gallons_weighs_what_its_liters_weigh() {
    let gallons = Volume::Gallon(16_378_600_000);
    assert_eq!(
        Mass::Avgas(Volume::Liter(gallons.to_liter())).kilo(),
        Mass::Avgas(gallons).kilo()
    );
}

#[test]
fn a_mass_as_fuel_is_the_most_liters_that_weigh_no_more() {
    assert_eq!(Mass::Avgas(Volume::Liter(12_500_000_001)), Mass::Kilo(9_000_000_000).to_avgas());
    assert_eq!(Mass::Avgas(Volume::Liter(13_888_888_890)), Mass::Kilo(10_000_000_000).to_avgas());
    assert_eq!(Mass::Mogas(Volume::Liter(13_513_513_514)), Mass::Kilo(10_000_000_000).to_mogas());
    assert_eq!(Mass::Mogas(Volume::Liter(-16_682)), Mass::Kilo(-12_345).to_mogas());
    assert_eq!(
        Mass::Mogas(Volume::Liter(60_324_324_325)),
        Mass::Avgas(Volume::Liter(62_000_000_000)).to_mogas()
    );
}

#[test]
fn fuel_made_from_a_mass_weighs_that_mass() {
    for kg in [0_i128, 1, 71, 72, 73, 9_000_000_000, 10_000_000_000, 14_360_000_000, 99_999_000_000_000, -1, -10_000_000_000] {
        assert_eq!(kg, Mass::Kilo(kg).to_avgas().kilo());
        assert_eq!(kg, Mass::Kilo(kg).to_mogas().kilo());
    }
}

#[test]
fn one_unit_more_fuel_than_a_mass_makes_weighs_more() {
    for kg in [0_i128, 1, 71, 9_000_000_000, 10_000_000_000, -1] {
        if let Mass::Avgas(Volume::Liter(l)) = Mass::Kilo(kg).to_avgas() {
            assert!(Mass::Avgas(Volume::Liter(l + 1)).kilo() > kg);
        } else {
            panic!("not avgas in liters");
        }
    }
}

#[test]
fn unit_of_a_mass() {
    assert_eq!("kg", Mass::Kilo(517_000_000_000).unit());
    assert_eq!("0.72kg/L", Mass::Avgas(Volume::Liter(62_000_000_000)).unit());
    assert_eq!("2.73kg/gal", Mass::Avgas(Volume::Gallon(16_378_600_000)).unit());
    assert_eq!("0.74kg/L", Mass::Mogas(Volume::Liter(62_000_000_000)).unit());
    assert_eq!("2.80kg/gal", Mass::Mogas(Volume::Gallon(16_378_600_000)).unit());
}

#[test]
fn center_of_gravity_in_meters() {
    assert_eq!(427_000_000, CenterOfGravity::Millimeter(427_000_000_000).meter());
    assert_eq!(427_050_000, CenterOfGravity::Millimeter(427_050_000_000).meter());
    assert_eq!(427_000_000, CenterOfGravity::Meter(427_000_000).meter());
    assert_eq!(0, CenterOfGravity::Millimeter(999).meter());
    assert_eq!(-1, CenterOfGravity::Millimeter(-1).meter());
    assert_eq!(
        -170141183460469231731687303715884106,
        CenterOfGravity::Millimeter(i128::MIN).meter()
    );
}

#[test]
fn center_of_gravity_in_millimeters() {
    assert_eq!(427_000_000_000, CenterOfGravity::Meter(427_000_000).millimeter());
    assert_eq!(999, CenterOfGravity::Millimeter(999).millimeter());
    assert_eq!(-100_000_000_000_000_000, CenterOfGravity::Meter(-100_000_000_000_000).millimeter());
}

#[test]
fn lever_arm_and_mass_moment_hand_back_their_number() {
    assert_eq!(429_400_000, LeverArm::Meter(429_400_000).meter());
    assert_eq!(22_199_980_000, MassMoment::KgM(22_199_980_000).kgm());
}

#[test]
fn quantities_in_and_out_of_range() {
    assert!(Volume::Liter(100_000_000_000_000).in_range());
    assert!(Volume::Gallon(-100_000_000_000_000).in_range());
    assert!(!Volume::Liter(100_000_000_000_001).in_range());
    assert!(!Volume::Gallon(-100_000_000_000_001).in_range());
    assert!(Mass::Kilo(100_000_000_000_000).in_range());
    assert!(!Mass::Kilo(-100_000_000_000_001).in_range());
    assert!(Mass::Avgas(Volume::Gallon(100_000_000_000_000)).in_range());
    assert!(!Mass::Mogas(Volume::Liter(100_000_000_000_001)).in_range());
    assert!(LeverArm::Meter(-100_000_000_000_000).in_range());
    assert!(!LeverArm::Meter(100_000_000_000_001).in_range());
    assert!(CenterOfGravity::Millimeter(100_000_000_000_000).in_range());
    assert!(!CenterOfGravity::Meter(100_000_000_000_001).in_range());
}

#[test]
fn moment_hands_back_what_it_was_made_of() {
    let m = Moment::new(
        "Fuel".to_string(),
        LeverArm::Meter(325_000_000),
        Mass::Avgas(Volume::Liter(62_000_000_000)),
    );
    assert_eq!("Fuel", m.name());
    assert_eq!(&LeverArm::Meter(325_000_000), m.lever_arm());
    assert_eq!(&Mass::Avgas(Volume::Liter(62_000_000_000)), m.mass());
    assert_eq!(MassMoment::KgM(14_508_000_000_000_000_000), m.total());
    assert!(m.in_range());
    let copy = m.clone();
    assert_eq!(m.name(), copy.name());
    assert_eq!(m.mass(), copy.mass());
    assert_eq!(m.lever_arm(), copy.lever_arm());
}

#[test]
fn moment_of_a_negative_load() {
    let m = Moment::new("ballast".to_string(), LeverArm::Meter(-2_000_000_000), Mass::Kilo(-3_000_000_000));
    assert_eq!(MassMoment::KgM(6_000_000_000_000_000_000), m.total());
    let out = Moment::new("x".to_string(), LeverArm::Meter(100_000_000_000_001), Mass::Kilo(0));
    assert!(!out.in_range());
}
