use ipc_messager::interval::Interval;

#[test]
fn correct_parsing() {
    let om = "1m".parse::<Interval>().unwrap();
    let tm = "3m".parse::<Interval>().unwrap();
    let fm = "5m".parse::<Interval>().unwrap();
    let ftm = "15m".parse::<Interval>().unwrap();
    let ttm = "30m".parse::<Interval>().unwrap();
    let oh = "1h".parse::<Interval>().unwrap();
    let th = "2h".parse::<Interval>().unwrap();
    let fh = "4h".parse::<Interval>().unwrap();
    let sh = "6h".parse::<Interval>().unwrap();
    let eh = "8h".parse::<Interval>().unwrap();
    let twh = "12h".parse::<Interval>().unwrap();
    let od = "1d".parse::<Interval>().unwrap();
    let td = "3d".parse::<Interval>().unwrap();
    let ow = "1w".parse::<Interval>().unwrap();
    let omo = "1M".parse::<Interval>().unwrap();
    let er = "wrong value".parse::<Interval>();
    assert_eq!(
        [om, tm, fm, ftm, ttm, oh, th, fh, sh, eh, twh, od, td, ow, omo],
        [
            Interval::OneMinute,
            Interval::ThreeMinute,
            Interval::FiveMinute,
            Interval::FifteenMinute,
            Interval::ThirtyMinute,
            Interval::OneHour,
            Interval::TwoHour,
            Interval::FourHour,
            Interval::SixHour,
            Interval::EightHour,
            Interval::TwelweHour,
            Interval::OneDay,
            Interval::ThreeDay,
            Interval::OneWeek,
            Interval::OneMonth
        ]
    );

    assert!(er.is_err());
}

#[test]
fn interval_value() {
    let om = "1m".parse::<Interval>().unwrap().seconds();
    let tm = "3m".parse::<Interval>().unwrap().seconds();
    let fm = "5m".parse::<Interval>().unwrap().seconds();
    let ftm = "15m".parse::<Interval>().unwrap().seconds();
    let ttm = "30m".parse::<Interval>().unwrap().seconds();
    let oh = "1h".parse::<Interval>().unwrap().seconds();
    let th = "2h".parse::<Interval>().unwrap().seconds();
    let fh = "4h".parse::<Interval>().unwrap().seconds();
    let sh = "6h".parse::<Interval>().unwrap().seconds();
    let eh = "8h".parse::<Interval>().unwrap().seconds();
    let twh = "12h".parse::<Interval>().unwrap().seconds();
    let od = "1d".parse::<Interval>().unwrap().seconds();
    let td = "3d".parse::<Interval>().unwrap().seconds();
    let ow = "1w".parse::<Interval>().unwrap().seconds();
    let omo = "1M".parse::<Interval>().unwrap().seconds();
    assert_eq!(
        [om, tm, fm, ftm, ttm, oh, th, fh, sh, eh, twh, od, td, ow, omo],
        [
            60,        // OneMinute
            180,       // ThreeMinute
            300,       // FiveMinute
            900,       // FifteenMinute
            1_800,     // ThirtyMinute
            3_600,     // OneHour
            7_200,     // TwoHour
            14_400,    // FourHour
            21_600,    // SixHour
            28_800,    // EightHour
            43_200,    // TwelveHour
            86_400,    // OneDay
            259_200,   // ThreeDay
            604_800,   // OneWeek
            2_592_000  // OneMonth
        ]
    );
}

#[test]
fn parse_rejects_near_misses() {
    assert!("".parse::<Interval>().is_err());
    assert!("m".parse::<Interval>().is_err());
    assert!("7m".parse::<Interval>().is_err());
    assert!("1M ".parse::<Interval>().is_err());
    assert!("13h".parse::<Interval>().is_err());
    assert!("1mm".parse::<Interval>().is_err());
    assert!("1h1".parse::<Interval>().is_err());
}
