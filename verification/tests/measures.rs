use wod::gender::split_gender_unit;
use wod::{Cals, Distance, RepType, Reps, RestPeriod, Time, Weight, RM};

#[test]
fn test_split_gender_unit() {
    assert_eq!(
        split_gender_unit("100cal").unwrap(),
        (100, 100, "cal".to_string())
    );
    assert_eq!(
        split_gender_unit("100/80cal").unwrap(),
        (100, 80, "cal".to_string())
    );
    assert_eq!(split_gender_unit("100").unwrap(), (100, 100, "".to_string()));
    assert_eq!(split_gender_unit("15/20").unwrap(), (15, 20, "".to_string()));
}

#[test]
fn test_cals() {
    assert_eq!(
        Cals::from_str("100cal").unwrap(),
        Cals {
            cals_man: 100,
            cals_woman: 100,
        }
    );
    assert_eq!(
        Cals::from_str("100/80cal").unwrap(),
        Cals {
            cals_man: 100,
            cals_woman: 80,
        }
    );
}

#[test]
fn test_cals_display() {
    assert_eq!(
        Cals::from_str("100cal").unwrap().render(),
        "100 calories".to_string()
    );
    assert_eq!(
        Cals::from_str("100/80cal").unwrap().render(),
        "100/80 calories".to_string()
    );
}

#[test]
fn test_distance() {
    assert_eq!(
        Distance::from_str("100m").unwrap(),
        Distance {
            num: 100,
            unit: "m".to_string()
        }
    );
    assert_eq!(
        Distance::from_str("5k").unwrap(),
        Distance {
            num: 5,
            unit: "k".to_string()
        }
    );
    assert_eq!(
        Distance::from_str("5K").unwrap(),
        Distance {
            num: 5,
            unit: "K".to_string()
        }
    );
    assert_eq!(
        Distance::from_str("1mile").unwrap(),
        Distance {
            num: 1,
            unit: "mile".to_string()
        }
    );
}

#[test]
fn distance_test_display() {
    let distance: Distance = Distance::from_str("100m").unwrap();
    assert_eq!(distance.render(), "100m".to_string());
}

#[test]
fn test_rep_type_from_str() {
    assert_eq!(
        RepType::from_str("10").unwrap(),
        RepType::Reps(Reps::from_str("10").unwrap())
    );
    assert_eq!(
        RepType::from_str("100m").unwrap(),
        RepType::Distance(Distance::from_str("100m").unwrap())
    );
    assert_eq!(
        RepType::from_str("5k").unwrap(),
        RepType::Distance(Distance::from_str("5k").unwrap())
    );
    assert_eq!(
        RepType::from_str("10cal").unwrap(),
        RepType::Cals(Cals::from_str("10cal").unwrap())
    );
    assert_eq!(
        RepType::from_str("90sec").unwrap(),
        RepType::Time(Time::from_str("90sec").unwrap())
    );
    assert_eq!(RepType::from_str("max").unwrap(), RepType::Max);
}

#[test]
fn test_rep_type_display() {
    assert_eq!(
        RepType::Reps(Reps::from_str("10").unwrap()).render(),
        "10".to_string()
    );
    assert_eq!(
        RepType::Distance(Distance::from_str("100m").unwrap()).render(),
        "100m".to_string()
    );
    assert_eq!(
        RepType::from_str("10cal").unwrap().render(),
        "10 calories".to_string()
    );
    assert_eq!(
        RepType::from_str("90sec").unwrap().render(),
        "90 sec".to_string()
    );
    assert_eq!(RepType::Max.render(), "Max reps of".to_string());
}

#[test]
fn test_reps() {
    assert_eq!(
        Reps::from_str("100").unwrap(),
        Reps {
            reps_man: 100,
            reps_woman: 100,
        }
    );
    assert_eq!(
        Reps::from_str("100/80").unwrap(),
        Reps {
            reps_man: 100,
            reps_woman: 80,
        }
    );
}

#[test]
fn test_reps_display() {
    assert_eq!(Reps::from_str("100").unwrap().render(), "100".to_string());
    assert_eq!(
        Reps::from_str("100/80").unwrap().render(),
        "100/80".to_string()
    );
}

#[test]
fn rest_period_test_rest() {
    assert_eq!(
        RestPeriod::from_str("r1m").unwrap(),
        RestPeriod {
            duration: 1,
            unit: "m".to_string(),
        }
    );
    assert_eq!(
        RestPeriod::from_str("r90s").unwrap(),
        RestPeriod {
            duration: 90,
            unit: "s".to_string(),
        }
    );
}

#[test]
fn rest_period_test_work_display() {
    assert_eq!(
        RestPeriod {
            duration: 1,
            unit: "m".to_string(),
        }
        .render(),
        "Rest 1 minute"
    );
    assert_eq!(
        RestPeriod {
            duration: 2,
            unit: "m".to_string(),
        }
        .render(),
        "Rest 2 minutes"
    );
    assert_eq!(
        RestPeriod {
            duration: 90,
            unit: "s".to_string(),
        }
        .render(),
        "Rest 90 seconds"
    );
}

#[test]
fn rest_period_test_rest_display() {
    assert_eq!(
        RestPeriod {
            duration: 1,
            unit: "m".to_string(),
        }
        .render(),
        "Rest 1 minute"
    );
    assert_eq!(
        RestPeriod {
            duration: 2,
            unit: "m".to_string(),
        }
        .render(),
        "Rest 2 minutes"
    );
    assert_eq!(
        RestPeriod {
            duration: 90,
            unit: "s".to_string(),
        }
        .render(),
        "Rest 90 seconds"
    );
}

#[test]
fn test_time() {
    assert_eq!(
        Time::from_str("90sec").unwrap(),
        Time {
            num: 90,
            unit: "sec".to_string()
        }
    );
    assert_eq!(
        Time::from_str("1min").unwrap(),
        Time {
            num: 1,
            unit: "min".to_string()
        }
    );
}

#[test]
fn time_test_display() {
    let time: Time = Time::from_str("90sec").unwrap();
    assert_eq!(time.render(), "90 sec".to_string());
}

#[test]
fn test_rm() {
    assert_eq!(RM::from_str("1rm").unwrap(), RM { num: 1 });
    assert_eq!(RM::from_str("3rm").unwrap(), RM { num: 3 });
    assert_eq!(RM::from_str("5rm").unwrap(), RM { num: 5 });
}

#[test]
fn rm_test_display() {
    assert_eq!(RM::from_str("1rm").unwrap().render(), "1rm");
    assert_eq!(RM::from_str("3rm").unwrap().render(), "3rm");
}

#[test]
fn test_weight() {
    assert_eq!(
        Weight::from_str("70kg").unwrap(),
        Weight {
            weight_man: 70,
            weight_woman: 70,
            unit: "kg".to_string()
        }
    );
    assert_eq!(
        Weight::from_str("70%").unwrap(),
        Weight {
            weight_man: 70,
            weight_woman: 70,
            unit: "%".to_string()
        }
    );
    assert_eq!(
        Weight::from_str("60/40kg").unwrap(),
        Weight {
            weight_man: 60,
            weight_woman: 40,
            unit: "kg".to_string()
        }
    );
}

#[test]
fn test_weight_display() {
    assert_eq!(Weight::from_str("70kg").unwrap().render(), "70kg".to_string());
    assert_eq!(Weight::from_str("70%").unwrap().render(), "70%".to_string());
    assert_eq!(
        Weight::from_str("60/40kg").unwrap().render(),
        "60/40kg".to_string()
    );
}

#[test]
fn test_parse() {
    let weight: Weight = Weight::from_str("70kg").unwrap();
    assert_eq!(
        weight,
        Weight {
            weight_man: 70,
            weight_woman: 70,
            unit: "kg".to_string()
        }
    );
}
