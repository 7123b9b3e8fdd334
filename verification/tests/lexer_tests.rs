use wod::lexer::{Lexer, Token};
use wod::{Movement, RepType, Weight, WorkoutType, RM};

#[test]
fn test_for_time() {
    let input = "ft 21-15-9 pull up, thruster @43/30kg";
    let mut lexer = Lexer::new(input);
    let tokens = lexer.tokenize().unwrap();

    assert_eq!(
        tokens,
        vec![
            Token::WorkoutType(WorkoutType::from_str("ft").unwrap()),
            Token::RepType(RepType::from_str("21").unwrap()),
            Token::RepType(RepType::from_str("15").unwrap()),
            Token::RepType(RepType::from_str("9").unwrap()),
            Token::Movement(Movement::from_str("pull up").unwrap()),
            Token::Movement(Movement::from_str("thruster").unwrap()),
            Token::At,
            Token::Weight(Weight::from_str("43/30kg").unwrap()),
        ]
    );
}

#[test]
fn test_rounds() {
    let input = "5rd 20 double under, 30cal row";
    let mut lexer = Lexer::new(input);
    let tokens = lexer.tokenize().unwrap();

    assert_eq!(
        tokens,
        vec![
            Token::WorkoutType(WorkoutType::from_str("5rd").unwrap()),
            Token::RepType(RepType::from_str("20").unwrap()),
            Token::Movement(Movement::from_str("double under").unwrap()),
            Token::RepType(RepType::from_str("30cal").unwrap()),
            Token::Movement(Movement::from_str("row").unwrap()),
        ]
    );
}

#[test]
fn test_rounds_2() {
    let input = "3rd 400m ski, 15cal row, 30sec handstand hold";
    let mut lexer = Lexer::new(input);
    let tokens = lexer.tokenize().unwrap();

    assert_eq!(
        tokens,
        vec![
            Token::WorkoutType(WorkoutType::from_str("3rd").unwrap()),
            Token::RepType(RepType::from_str("400m").unwrap()),
            Token::Movement(Movement::from_str("ski").unwrap()),
            Token::RepType(RepType::from_str("15cal").unwrap()),
            Token::Movement(Movement::from_str("row").unwrap()),
            Token::RepType(RepType::from_str("30sec").unwrap()),
            Token::Movement(Movement::from_str("handstand hold").unwrap()),
        ]
    );
}

#[test]
fn lexer_test_weightlifting_0() {
    let input = "wl 5x5 snatch @ 70%";
    let mut lexer = Lexer::new(input);
    let tokens = lexer.tokenize().unwrap();

    assert_eq!(
        tokens,
        vec![
            Token::WorkoutType(WorkoutType::Weightlifting),
            Token::RepType(RepType::from_str("5").unwrap()),
            Token::X,
            Token::RepType(RepType::from_str("5").unwrap()),
            Token::Movement(Movement::from_str("snatch").unwrap()),
            Token::At,
            Token::Weight(Weight::from_str("70%").unwrap()),
        ]
    );
}

#[test]
fn test_weightlifting_0_bigger_set() {
    let input = "wl 5x10 snatch @ 70%";
    let mut lexer = Lexer::new(input);
    let tokens = lexer.tokenize().unwrap();

    assert_eq!(
        tokens,
        vec![
            Token::WorkoutType(WorkoutType::Weightlifting),
            Token::RepType(RepType::from_str("5").unwrap()),
            Token::X,
            Token::RepType(RepType::from_str("10").unwrap()),
            Token::Movement(Movement::from_str("snatch").unwrap()),
            Token::At,
            Token::Weight(Weight::from_str("70%").unwrap()),
        ]
    );
}

#[test]
fn lexer_test_weightlifting_1() {
    let input = "wl 1rm snatch";
    let mut lexer = Lexer::new(input);
    let tokens = lexer.tokenize().unwrap();

    assert_eq!(
        tokens,
        vec![
            Token::WorkoutType(WorkoutType::Weightlifting),
            Token::RM(RM::from_str("1rm").unwrap()),
            Token::Movement(Movement::from_str("snatch").unwrap()),
        ]
    );
}

#[test]
fn lexer_test_weightlifting_2() {
    let input = "wl 3x(1+1+1) clean,front squat,split jerk @ 80kg";
    let mut lexer = Lexer::new(input);
    let tokens = lexer.tokenize().unwrap();

    assert_eq!(
        tokens,
        vec![
            Token::WorkoutType(WorkoutType::Weightlifting),
            Token::RepType(RepType::from_str("3").unwrap()),
            Token::X,
            Token::RepType(RepType::from_str("1").unwrap()),
            Token::Plus,
            Token::RepType(RepType::from_str("1").unwrap()),
            Token::Plus,
            Token::RepType(RepType::from_str("1").unwrap()),
            Token::Movement(Movement::from_str("clean").unwrap()),
            Token::Movement(Movement::from_str("front squat").unwrap()),
            Token::Movement(Movement::from_str("split jerk").unwrap()),
            Token::At,
            Token::Weight(Weight::from_str("80kg").unwrap()),
        ]
    );
}

#[test]
fn test_simple_running() {
    let input = "ft 5k run";
    let mut lexer = Lexer::new(input);
    let tokens = lexer.tokenize().unwrap();

    assert_eq!(
        tokens,
        vec![
            Token::WorkoutType(WorkoutType::from_str("ft").unwrap()),
            Token::RepType(RepType::from_str("5k").unwrap()),
            Token::Movement(Movement::from_str("run").unwrap()),
        ]
    )
}

#[test]
fn test_ft_with_distance() {
    let input = "2rd 10m hs walk, 1 ring muscle up";
    let mut lexer = Lexer::new(input);
    let tokens = lexer.tokenize().unwrap();

    assert_eq!(
        tokens,
        vec![
            Token::WorkoutType(WorkoutType::from_str("2rd").unwrap()),
            Token::RepType(RepType::from_str("10m").unwrap()),
            Token::Movement(Movement::from_str("hs walk").unwrap()),
            Token::RepType(RepType::from_str("1").unwrap()),
            Token::Movement(Movement::from_str("ring muscle up").unwrap()),
        ]
    );
}

#[test]
fn test_amrap_0() {
    let input = "amrap-12 10 db snatch, 1 ring muscle up";
    let mut lexer = Lexer::new(input);
    let tokens = lexer.tokenize().unwrap();

    assert_eq!(
        tokens,
        vec![
            Token::WorkoutType(WorkoutType::from_str("amrap-12").unwrap()),
            Token::RepType(RepType::from_str("10").unwrap()),
            Token::Movement(Movement::from_str("db snatch").unwrap()),
            Token::RepType(RepType::from_str("1").unwrap()),
            Token::Movement(Movement::from_str("ring muscle up").unwrap()),
        ]
    );
}

#[test]
fn test_amrap_1() {
    let input = "amrap-5 max ring muscle up";
    let mut lexer = Lexer::new(input);
    let tokens = lexer.tokenize().unwrap();

    assert_eq!(
        tokens,
        vec![
            Token::WorkoutType(WorkoutType::from_str("amrap-5").unwrap()),
            Token::RepType(RepType::from_str("max").unwrap()),
            Token::Movement(Movement::from_str("ring muscle up").unwrap()),
        ]
    );
}

#[test]
fn test_emom_0() {
    let input = "emom-10 10 pull up";
    let mut lexer = Lexer::new(input);
    let tokens = lexer.tokenize().unwrap();

    assert_eq!(
        tokens,
        vec![
            Token::WorkoutType(WorkoutType::from_str("emom-10").unwrap()),
            Token::RepType(RepType::from_str("10").unwrap()),
            Token::Movement(Movement::from_str("pull up").unwrap()),
        ]
    );
}

#[test]
fn lexer_test_emom_1() {
    let input = "emom-10 10 pull up, 5 push up";
    let mut lexer = Lexer::new(input);
    let tokens = lexer.tokenize().unwrap();

    assert_eq!(
        tokens,
        vec![
            Token::WorkoutType(WorkoutType::from_str("emom-10").unwrap()),
            Token::RepType(RepType::from_str("10").unwrap()),
            Token::Movement(Movement::from_str("pull up").unwrap()),
            Token::RepType(RepType::from_str("5").unwrap()),
            Token::Movement(Movement::from_str("push up").unwrap()),
        ]
    );
}

#[test]
fn lexer_test_emom_2() {
    let input = "emom-8-20s-alt 12 power clean @ 60/40kg, 20cal row";
    let mut lexer = Lexer::new(input);
    let tokens = lexer.tokenize().unwrap();

    assert_eq!(
        tokens,
        vec![
            Token::WorkoutType(WorkoutType::from_str("emom-8-20s-alt").unwrap()),
            Token::RepType(RepType::from_str("12").unwrap()),
            Token::Movement(Movement::from_str("power clean").unwrap()),
            Token::At,
            Token::Weight(Weight::from_str("60/40kg").unwrap()),
            Token::RepType(RepType::from_str("20cal").unwrap()),
            Token::Movement(Movement::from_str("row").unwrap()),
        ]
    );
}

#[test]
fn test_emom_3() {
    let input = "emom-12-3-1m 15cal row, 12 toes to bar, max db clean and jerk @ 22/15kg";
    let mut lexer = Lexer::new(input);
    let tokens = lexer.tokenize().unwrap();

    assert_eq!(
        tokens,
        vec![
            Token::WorkoutType(WorkoutType::from_str("emom-12-3-1m").unwrap()),
            Token::RepType(RepType::from_str("15cal").unwrap()),
            Token::Movement(Movement::from_str("row").unwrap()),
            Token::RepType(RepType::from_str("12").unwrap()),
            Token::Movement(Movement::from_str("toes to bar").unwrap()),
            Token::RepType(RepType::from_str("max").unwrap()),
            Token::Movement(Movement::from_str("db clean and jerk").unwrap()),
            Token::At,
            Token::Weight(Weight::from_str("22/15kg").unwrap()),
        ]
    );
}
