use wod::lexer::Token;
use wod::{create_workout, ForTime, Movement, RepType, Weight, WorkoutType};
use wod::Workout;

#[test]
fn test_workout_parse() {
    let tokens = vec![
        Token::WorkoutType(WorkoutType::from_str("ft").unwrap()),
        Token::RepType(RepType::from_str("21").unwrap()),
        Token::RepType(RepType::from_str("15").unwrap()),
        Token::RepType(RepType::from_str("9").unwrap()),
        Token::Movement(Movement::from_str("pull up").unwrap()),
        Token::Movement(Movement::from_str("thruster").unwrap()),
    ];

    let mut workout = Workout::new(tokens, None, None);
    workout.parse();

    assert_eq!(workout.movements.len(), 2);
    assert_eq!(workout.rep_types.len(), 3);
    assert_eq!(
        workout.workout_type,
        WorkoutType::ForTime(ForTime {
            rounds: 1,
            name: "ft".to_string()
        })
    );
}

#[test]
fn test_workout_write() {
    let tokens = vec![
        Token::WorkoutType(WorkoutType::from_str("ft").unwrap()),
        Token::RepType(RepType::from_str("21").unwrap()),
        Token::RepType(RepType::from_str("15").unwrap()),
        Token::RepType(RepType::from_str("9").unwrap()),
        Token::Movement(Movement::from_str("pull up").unwrap()),
        Token::Movement(Movement::from_str("thruster").unwrap()),
    ];

    let mut workout = Workout::new(tokens, None, None);
    workout.parse();

    let expected = "---\n\n**For Time**\n\n21-15-9\n\n- Pull Up\n\n- Thruster\n\n";
    assert_eq!(workout.write(), expected);
}

#[test]
fn test_create_workout() {
    let workout = "ft 21-15-9 pull up, thruster @ 43/30kg";
    let expected_tokens = vec![
        Token::WorkoutType(WorkoutType::from_str("ft").unwrap()),
        Token::RepType(RepType::from_str("21").unwrap()),
        Token::RepType(RepType::from_str("15").unwrap()),
        Token::RepType(RepType::from_str("9").unwrap()),
        Token::Movement(Movement::from_str("pull up").unwrap()),
        Token::Movement(Movement::from_str("thruster").unwrap()),
        Token::At,
        Token::Weight(Weight::from_str("43/30kg").unwrap()),
    ];
    let mut expected = Workout::new(expected_tokens, None, None);
    expected.parse();

    assert_eq!(expected.workout_type, WorkoutType::from_str("ft").unwrap());
    assert_eq!(
        expected.movements,
        vec![
            Movement::from_str("pull up").unwrap(),
            Movement::from_str("thruster").unwrap(),
        ]
    );
    assert_eq!(
        expected.rep_types,
        vec![
            RepType::from_str("21").unwrap(),
            RepType::from_str("15").unwrap(),
            RepType::from_str("9").unwrap(),
        ]
    );
    assert_eq!(expected.weights, vec![Weight::from_str("43/30kg").unwrap()]);
    assert_eq!(expected.x, None);
    assert_eq!(expected.at, Some(vec![Token::At]));
    assert_eq!(expected.plus, None);
    assert_eq!(expected.rm, None);

    assert_eq!(create_workout(workout, None, None).unwrap(), expected);
}

#[test]
fn test_create_workout_error() {
    let workout = "ft 21-15-9 pulup, thruster @ 43/30kg";
    let expected =
        "Invalid Movement: Invalid movement: `pulup`, did you mean: `pull up`?".to_string();
    let workout = create_workout(workout, None, None);
    assert_eq!(workout.unwrap_err().message(), expected);
}

#[test]
fn test_create_workout_with_comments() {
    let workout_str = "ft 21-15-9 pull up, thruster @ 43/30kg";
    let expected =
        "---\n\n**For Time**\n\n21-15-9\n\n- Pull Up\n\n- Thruster At 43/30kg\n\nComments: *blabla*\n\n".to_string();
    let comments = Some("blabla".to_string());
    let workout = create_workout(workout_str, comments, None).unwrap();
    let content = workout.write();
    assert_eq!(content, expected);

    // The case of a line break inside the comments.
    let expected =
        "---\n\n**For Time**\n\n21-15-9\n\n- Pull Up\n\n- Thruster At 43/30kg\n\nComments: *blabla*\n*other line*\n\n".to_string();
    let comments = Some("blabla\nother line".to_string());
    let workout = create_workout(workout_str, comments, None).unwrap();
    let content = workout.write();
    assert_eq!(content, expected);
}

#[test]
fn test_create_workout_with_name() {
    let workout_str = "ft 21-15-9 pull up, thruster @ 43/30kg";
    let expected =
        "---\n\n*Fran*\n\n**For Time**\n\n21-15-9\n\n- Pull Up\n\n- Thruster At 43/30kg\n\n"
            .to_string();
    let name = Some("Fran".to_string());
    let workout = create_workout(workout_str, None, name).unwrap();
    let content = workout.write();
    assert_eq!(content, expected);
}

#[test]
fn test_for_time_0() {
    let workout = create_workout("ft 21-15-9 pull up, thruster @43/30kg", None, None).unwrap();
    let expected = "---\n\n**For Time**\n\n21-15-9\n\n- Pull Up\n\n- Thruster At 43/30kg\n\n";
    assert_eq!(workout.write(), expected);
}

#[test]
fn test_for_time_1() {
    let workout = create_workout("4rd 21 box jump over, 15 bar mu", None, None).unwrap();
    let expected = "---\n\n**4 rounds for time**\n\n- 21 Box Jump Over\n\n- 15 Bar Muscle Up\n\n";
    assert_eq!(workout.write(), expected);
}

#[test]
fn test_for_time_2() {
    let workout =
        create_workout("3rd 15 chest to bar, 15cal echo bike, 15 thruster @40kg", None, None)
            .unwrap();
    let expected = "---\n\n**3 rounds for time**\n\n- 15 Chest To Bar\n\n- 15 calories Echo Bike\n\n- 15 Thruster At 40kg\n\n";
    assert_eq!(workout.write(), expected);
}

#[test]
fn tests_test_weightlifting_0() {
    let workout = create_workout("wl 4x2 snatch @ 85%", None, None).unwrap();
    let expected = "---\n\n**Weightlifting**\n\n4x2 Snatch @ 85%\n\n";
    assert_eq!(workout.write(), expected);
}

#[test]
fn tests_test_weightlifting_1() {
    let workout =
        create_workout("wl 3x(1+1+1) clean,front squat,split jerk @ 80kg", None, None).unwrap();
    let expected =
        "---\n\n**Weightlifting**\n\n3x(1+1+1) Clean + Front Squat + Split Jerk @ 80kg\n\n";
    assert_eq!(workout.write(), expected);
}

#[test]
fn tests_test_weightlifting_2() {
    let workout = create_workout("wl 3x(1+1) clean,split jerk @ 80kg", None, None).unwrap();
    let expected = "---\n\n**Weightlifting**\n\n3x(1+1) Clean + Split Jerk @ 80kg\n\n";
    assert_eq!(workout.write(), expected);
}

#[test]
fn tests_test_emom_1() {
    let workout = create_workout(
        "emom-12 15cal row, 12 toes to bar, max db clean and jerk @ 22/15kg",
        None,
        None,
    )
    .unwrap();
    let expected = "---\n\n**EMOM 12 minutes**\n\n- 15 calories Row\n\n- 12 Toes To Bar\n\n- Max reps of Dumbbell Clean and Jerk At 22/15kg\n\n";
    assert_eq!(workout.write(), expected);
}

#[test]
fn tests_test_emom_2() {
    let workout = create_workout(
        "emom-12-3m-r1m 15cal row, 12 toes to bar, max db clean and jerk @ 22/15kg",
        None,
        None,
    )
    .unwrap();
    let expected = "---\n\n**EMOM 12 minutes**\n\nwork every 3 minutes, rest 1 minute\n\n- 15 calories Row\n\n- 12 Toes To Bar\n\n- Max reps of Dumbbell Clean and Jerk At 22/15kg\n\n";
    assert_eq!(workout.write(), expected);
}
