use wod::movement::suggest_closest_movement;
use wod::Movement;

#[test]
fn test_from_str_valid() {
    assert_eq!(Movement::from_str("air squat").unwrap(), Movement::AirSquat);
    assert_eq!(
        Movement::from_str("front squat").unwrap(),
        Movement::FrontSquat
    );
    assert_eq!(
        Movement::from_str("back squat").unwrap(),
        Movement::BackSquat
    );
}

#[test]
fn test_from_str_invalid() {
    assert!(Movement::from_str("invalid movement").is_err());
    assert!(Movement::from_str("squat").is_err());
    assert!(Movement::from_str("air squa").is_err());
}

#[test]
fn test_suggest_closest_movement() {
    assert_eq!(suggest_closest_movement("air squa"), Some("air squat"));
    assert_eq!(suggest_closest_movement("front s"), Some("front squat"));
    assert_eq!(suggest_closest_movement("back squ"), Some("back squat"));
    assert_eq!(suggest_closest_movement("snacth"), Some("snatch"));
}

#[test]
fn test_error_message() {
    let err = Movement::from_str("clone").unwrap_err();
    assert_eq!(
        err.message(),
        "Invalid movement: `clone`, did you mean: `clean`?"
    );

    let err = Movement::from_str("squat").unwrap_err();
    assert_eq!(
        err.message(),
        "Invalid movement: `squat`, did you mean: `air squat`?"
    );
}

#[test]
fn test_movement_display() {
    assert_eq!(Movement::AirSquat.render(), "Air Squat");
    assert_eq!(Movement::FrontSquat.render(), "Front Squat");
    assert_eq!(Movement::BackSquat.render(), "Back Squat");
}
