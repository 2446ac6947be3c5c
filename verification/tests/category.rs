use torznab::TorznabCategory;

const CODES: [u32; 53] = [
    0, 1000, 1010, 1020, 1030, 1040, 1050, 1060, 1070, 2000, 2010, 2020, 2030, 2040, 2045, 2050,
    2060, 3000, 3010, 3020, 3030, 3040, 4000, 4010, 4020, 4030, 4040, 4050, 4060, 4070, 5000,
    5020, 5030, 5040, 5045, 5050, 5060, 5070, 5080, 6000, 6010, 6020, 6030, 6040, 6050, 6060,
    6070, 7000, 7010, 7020, 7030, 8000, 8010,
];

#[test]
fn code_round_trip_all_defined() {
    for code in CODES {
        assert_eq!(TorznabCategory::from(code).as_u32(), code);
    }
}

#[test]
fn from_code_is_total() {
    // Unknown codes never fail: they fall back to the documented default.
    for code in [1u32, 999, 1001, 2044, 5010, 8020, 100051, u32::MAX] {
        assert_eq!(TorznabCategory::from(code), TorznabCategory::Console1000);
    }
}

#[test]
fn as_u32_spot_values() {
    assert_eq!(TorznabCategory::Reserved0000.as_u32(), 0);
    assert_eq!(TorznabCategory::Movies2000.as_u32(), 2000);
    assert_eq!(TorznabCategory::MoviesUhd2045.as_u32(), 2045);
    assert_eq!(TorznabCategory::Audio3000.as_u32(), 3000);
    assert_eq!(TorznabCategory::Tv5000.as_u32(), 5000);
    assert_eq!(TorznabCategory::OtherMisc8010.as_u32(), 8010);
}

#[test]
fn defined_codes_are_distinct() {
    for (i, a) in CODES.iter().enumerate() {
        for b in CODES.iter().skip(i + 1) {
            assert_ne!(a, b);
        }
    }
}
