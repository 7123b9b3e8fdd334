use wod::{Every, ForTime, Rest, WorkoutType, AMRAP, EMOM};

#[test]
fn for_time_test_parse_for_time() {
    assert_eq!(
        ForTime::from_str("ft").unwrap(),
        ForTime {
            rounds: 1,
            name: "ft".to_string()
        }
    );
    assert_eq!(
        ForTime::from_str("5rd").unwrap(),
        ForTime {
            rounds: 5,
            name: "rd".to_string()
        }
    );
    assert_eq!(
        ForTime::from_str("10rd").unwrap(),
        ForTime {
            rounds: 10,
            name: "rd".to_string()
        }
    );
}

#[test]
fn for_time_test_for_time_display() {
    assert_eq!(
        ForTime {
            rounds: 1,
            name: "ft".to_string()
        }
        .render(),
        "For Time"
    );
    assert_eq!(
        ForTime {
            rounds: 5,
            name: "rd".to_string()
        }
        .render(),
        "5 rounds for time"
    );
    assert_eq!(
        ForTime {
            rounds: 10,
            name: "rd".to_string()
        }
        .render(),
        "10 rounds for time"
    );
}

#[test]
fn workout_type_test_parse_for_time() {
    assert_eq!(
        ForTime::from_str("ft").unwrap(),
        ForTime {
            rounds: 1,
            name: "ft".to_string()
        }
    );
    assert_eq!(
        ForTime::from_str("5rd").unwrap(),
        ForTime {
            rounds: 5,
            name: "rd".to_string()
        }
    );
    assert_eq!(
        ForTime::from_str("10rd").unwrap(),
        ForTime {
            rounds: 10,
            name: "rd".to_string()
        }
    );
}

#[test]
fn workout_type_test_for_time_display() {
    assert_eq!(
        ForTime {
            rounds: 1,
            name: "ft".to_string()
        }
        .render(),
        "For Time"
    );
    assert_eq!(
        ForTime {
            rounds: 5,
            name: "rd".to_string()
        }
        .render(),
        "5 rounds for time"
    );
    assert_eq!(
        ForTime {
            rounds: 10,
            name: "rd".to_string()
        }
        .render(),
        "10 rounds for time"
    );
}

#[test]
fn test_workout_type_from_str() {
    assert_eq!(
        WorkoutType::from_str("ft").unwrap(),
        WorkoutType::ForTime(ForTime {
            rounds: 1,
            name: "ft".to_string()
        })
    );
    assert_eq!(
        WorkoutType::from_str("amrap-10").unwrap(),
        WorkoutType::AMRAP(AMRAP { minutes: 10 })
    );
    assert_eq!(
        WorkoutType::from_str("emom-10").unwrap(),
        WorkoutType::EMOM(EMOM::from_str("emom-10").unwrap())
    );
    assert_eq!(
        WorkoutType::from_str("wl").unwrap(),
        WorkoutType::Weightlifting
    );
}

#[test]
fn workout_type_test_workout_type_display() {
    assert_eq!(
        WorkoutType::ForTime(ForTime {
            rounds: 1,
            name: "ft".to_string()
        })
        .render(),
        "For Time"
    );
    assert_eq!(
        WorkoutType::AMRAP(AMRAP { minutes: 10 }).render(),
        "AMRAP 10 minutes"
    );
    assert_eq!(
        WorkoutType::EMOM(EMOM::from_str("emom-10").unwrap()).render(),
        "EMOM 10 minutes"
    );
    assert_eq!(WorkoutType::Weightlifting.render(), "Weightlifting");
}

#[test]
fn test_amrap() {
    assert_eq!(AMRAP::from_str("amrap-10").unwrap(), AMRAP { minutes: 10 });
    assert_eq!(AMRAP::from_str("amrap-").unwrap(), AMRAP { minutes: 1 });
}

#[test]
fn test_amrap_invalid() {
    assert!(AMRAP::from_str("amrap").is_err());
    assert!(AMRAP::from_str("other-10").is_err());
}

#[test]
fn amrap_test_display() {
    assert_eq!(AMRAP { minutes: 10 }.render(), "AMRAP 10 minutes".to_string());
}

#[test]
fn test_emom() {
    assert_eq!(
        EMOM::from_str("emom-10").unwrap(),
        EMOM {
            rounds: 10,
            every: Every {
                duration: 1,
                unit: "m".to_string(),
                rest: false
            },
            alternating: false,
            rest: Every {
                duration: 0,
                unit: "".to_string(),
                rest: false
            }
        }
    );
    assert_eq!(
        EMOM::from_str("emom-10-alt").unwrap(),
        EMOM {
            rounds: 10,
            every: Every {
                duration: 1,
                unit: "m".to_string(),
                rest: false
            },
            alternating: true,
            rest: Every {
                duration: 0,
                unit: "".to_string(),
                rest: false
            }
        }
    );
    assert_eq!(
        EMOM::from_str("emom-20-2m").unwrap(),
        EMOM {
            rounds: 20,
            every: Every {
                duration: 2,
                unit: "m".to_string(),
                rest: false
            },
            alternating: false,
            rest: Every {
                duration: 0,
                unit: "".to_string(),
                rest: false
            }
        }
    );
    assert_eq!(
        EMOM::from_str("emom-10-r2m").unwrap(),
        EMOM {
            rounds: 10,
            every: Every {
                duration: 1,
                unit: "m".to_string(),
                rest: false
            },
            alternating: false,
            rest: Every {
                duration: 2,
                unit: "m".to_string(),
                rest: true
            }
        }
    );
    assert_eq!(
        EMOM::from_str("emom-10-2m-alt").unwrap(),
        EMOM {
            rounds: 10,
            every: Every {
                duration: 2,
                unit: "m".to_string(),
                rest: false
            },
            alternating: true,
            rest: Every {
                duration: 0,
                unit: "".to_string(),
                rest: false
            }
        }
    );
    assert_eq!(
        EMOM::from_str("emom-10-r30s").unwrap(),
        EMOM {
            rounds: 10,
            every: Every {
                duration: 1,
                unit: "m".to_string(),
                rest: false
            },
            alternating: false,
            rest: Every {
                duration: 30,
                unit: "s".to_string(),
                rest: true
            }
        }
    );
    assert_eq!(
        EMOM::from_str("emom-10-r30s-alt").unwrap(),
        EMOM {
            rounds: 10,
            every: Every {
                duration: 1,
                unit: "m".to_string(),
                rest: false
            },
            alternating: true,
            rest: Every {
                duration: 30,
                unit: "s".to_string(),
                rest: true
            }
        }
    );
    assert_eq!(
        EMOM::from_str("emom-10-30s-alt").unwrap(),
        EMOM {
            rounds: 10,
            every: Every {
                duration: 30,
                unit: "s".to_string(),
                rest: false
            },
            alternating: true,
            rest: Every {
                duration: 0,
                unit: "".to_string(),
                rest: false
            }
        }
    );
}

#[test]
fn test_emom_invalid() {
    assert!(EMOM::from_str("other-10").is_err());
}

#[test]
fn emom_test_display() {
    assert_eq!(
        EMOM {
            rounds: 10,
            every: Every {
                duration: 1,
                unit: "m".to_string(),
                rest: false
            },
            alternating: false,
            rest: Every {
                duration: 0,
                unit: "".to_string(),
                rest: true
            }
        }
        .render(),
        "EMOM 10 minutes"
    );

    assert_eq!(EMOM::from_str("emom-10").unwrap().render(), "EMOM 10 minutes");
    assert_eq!(
        EMOM::from_str("emom-10-alt").unwrap().render(),
        "EMOM 10 minutes, alternating"
    );
    assert_eq!(
        EMOM::from_str("emom-10-2m").unwrap().render(),
        "EMOM 10 minutes\n\nwork every 2 minutes"
    );
    assert_eq!(
        EMOM::from_str("emom-10-2m-alt").unwrap().render(),
        "EMOM 10 minutes\n\nwork every 2 minutes, alternating"
    );
    assert_eq!(
        EMOM::from_str("emom-10-r30s").unwrap().render(),
        "EMOM 10 minutes\n\nrest 30 seconds"
    );
    assert_eq!(
        EMOM::from_str("emom-10-r30s-alt").unwrap().render(),
        "EMOM 10 minutes\n\nrest 30 seconds, alternating"
    );
    assert_eq!(
        EMOM::from_str("emom-12-3m-r1m-alt").unwrap().render(),
        "EMOM 12 minutes\n\nwork every 3 minutes, rest 1 minute, alternating"
    );
    assert_eq!(
        EMOM::from_str("emom-5-30s").unwrap().render(),
        "EMOM 5 minutes\n\nwork every 30 seconds"
    );
}

#[test]
fn every_test_rest() {
    assert_eq!(
        Every::from_str("1m").unwrap(),
        Every {
            duration: 1,
            unit: "m".to_string(),
            rest: false
        }
    );
    assert_eq!(
        Every::from_str("90s").unwrap(),
        Every {
            duration: 90,
            unit: "s".to_string(),
            rest: false
        }
    );
    assert_eq!(
        Every::from_str("r1m").unwrap(),
        Every {
            duration: 1,
            unit: "m".to_string(),
            rest: true
        }
    );
    assert_eq!(
        Every::from_str("r90s").unwrap(),
        Every {
            duration: 90,
            unit: "s".to_string(),
            rest: true
        }
    );
}

#[test]
fn every_test_work_display() {
    assert_eq!(
        Every {
            duration: 1,
            unit: "m".to_string(),
            rest: false
        }
        .render(),
        "work every 1 minute"
    );
    assert_eq!(
        Every {
            duration: 2,
            unit: "m".to_string(),
            rest: false
        }
        .render(),
        "work every 2 minutes"
    );
    assert_eq!(
        Every {
            duration: 90,
            unit: "s".to_string(),
            rest: false
        }
        .render(),
        "work every 90 seconds"
    );
}

#[test]
fn every_test_rest_display() {
    assert_eq!(
        Every {
            duration: 1,
            unit: "m".to_string(),
            rest: true
        }
        .render(),
        "rest 1 minute"
    );
    assert_eq!(
        Every {
            duration: 2,
            unit: "m".to_string(),
            rest: true
        }
        .render(),
        "rest 2 minutes"
    );
    assert_eq!(
        Every {
            duration: 90,
            unit: "s".to_string(),
            rest: true
        }
        .render(),
        "rest 90 seconds"
    );
}

#[test]
fn rest_test_rest() {
    assert_eq!(
        Rest::from_str("1m").unwrap(),
        Rest {
            duration: 1,
            unit: "m".to_string()
        }
    );
    assert_eq!(
        Rest::from_str("90s").unwrap(),
        Rest {
            duration: 90,
            unit: "s".to_string()
        }
    );
}

#[test]
fn rest_test_rest_display() {
    assert_eq!(
        Rest {
            duration: 1,
            unit: "m".to_string()
        }
        .render(),
        "rest 1 minute"
    );
    assert_eq!(
        Rest {
            duration: 2,
            unit: "m".to_string()
        }
        .render(),
        "rest 2 minutes"
    );
    assert_eq!(
        Rest {
            duration: 90,
            unit: "s".to_string()
        }
        .render(),
        "rest 90 seconds"
    );
}
