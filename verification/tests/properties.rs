use wod::lexer::{Lexer, LexerError, Token};
use wod::movement::suggest_closest_movement;
use wod::{create_workout, Cals, Movement, RepType, Reps, Weight, RM};

// The gender-split default: without a `/`, the women's value equals the
// men's, across weights, repetitions and calories.
#[test]
fn test_gender_split_default() {
    let w = Weight::from_str("50kg").unwrap();
    assert_eq!(w.weight_man, w.weight_woman);
    let r = Reps::from_str("21").unwrap();
    assert_eq!(r.reps_man, r.reps_woman);
    let c = Cals::from_str("30cal").unwrap();
    assert_eq!(c.cals_man, c.cals_woman);
}

// The split round trip: `<m>/<w><unit>` parses to exactly those parts and
// renders back to the same text.
#[test]
fn test_gender_split_round_trip() {
    let w = Weight::from_str("60/40kg").unwrap();
    assert_eq!(
        (w.weight_man, w.weight_woman, w.unit.as_str()),
        (60, 40, "kg")
    );
    assert_eq!(w.render(), "60/40kg");
    assert_eq!(Weight::from_str(&w.render()).unwrap(), w);
}

// Resolving catalog names succeeds, is case-insensitive after folding, and
// a second resolution returns the same movement.
#[test]
fn test_resolve_catalog_names() {
    for name in ["air squat", "thruster", "c2b", "devil press", "l-sit"] {
        let first = Movement::from_str(name).unwrap();
        let second = Movement::from_str(name).unwrap();
        assert_eq!(first, second);
    }
    assert_eq!(
        Movement::from_str("Pull Up").unwrap(),
        Movement::from_str("pull up").unwrap()
    );
    assert_eq!(
        Movement::from_str("  thruster  ").unwrap(),
        Movement::Thruster
    );
}

// A typo within one edit of a single catalog entry suggests that entry.
#[test]
fn test_one_edit_suggestion() {
    let err = Movement::from_str("Pushup").unwrap_err();
    assert_eq!(
        err.message(),
        "Invalid movement: `Pushup`, did you mean: `push up`?"
    );
    // A catalog name at distance zero from the query is its own suggestion.
    assert_eq!(suggest_closest_movement("snatch"), Some("snatch"));
}

// Rendering is deterministic: writing the same workout twice gives the
// same text.
#[test]
fn test_render_deterministic() {
    let workout = create_workout("ft 21-15-9 pull up, thruster @43/30kg", None, None).unwrap();
    assert_eq!(workout.write(), workout.write());
}

// The full scenario: notation to tokens to rendered text.
#[test]
fn test_scenario_for_time_tokens_and_text() {
    let input = "ft 21-15-9 pull up, thruster @43/30kg";
    let mut lexer = Lexer::new(input);
    let tokens = lexer.tokenize().unwrap();
    assert_eq!(tokens.len(), 8);
    assert!(matches!(tokens[0], Token::WorkoutType(_)));
    assert!(matches!(tokens[6], Token::At));

    let text = create_workout(input, None, None).unwrap().write();
    assert!(text.contains("21-15-9"));
    assert!(text.contains("- Pull Up"));
    assert!(text.contains("- Thruster At 43/30kg"));
}

// The weightlifting scenario: hybrid scheme and `+`-joined movements.
#[test]
fn test_scenario_weightlifting_scheme() {
    let text = create_workout("wl 3x(1+1+1) clean,front squat,split jerk @ 80kg", None, None)
        .unwrap()
        .write();
    assert!(text.contains("3x(1+1+1)"));
    assert!(text.contains("Clean + Front Squat + Split Jerk"));
}

// The interval scenario: header and clauses.
#[test]
fn test_scenario_interval_header() {
    let text = create_workout("emom-12-3m-r1m 15cal row", None, None).unwrap().write();
    assert!(text.contains("EMOM 12 minutes"));
    assert!(text.contains("work every 3 minutes"));
    assert!(text.contains("rest 1 minute"));
}

// Empty input tokenizes to no tokens at all.
#[test]
fn test_tokenize_empty() {
    let mut lexer = Lexer::new("");
    assert_eq!(lexer.tokenize().unwrap(), Vec::<Token>::new());
    let mut lexer = Lexer::new("   ");
    assert_eq!(lexer.tokenize().unwrap(), Vec::<Token>::new());
}

// Each failure kind of the lexer, with an input that produces it.
#[test]
fn test_lexer_error_kinds() {
    let mut lexer = Lexer::new("xyz 10 pull up");
    assert!(matches!(
        lexer.tokenize().unwrap_err(),
        LexerError::InvalidWorkoutType(_)
    ));

    let mut lexer = Lexer::new("wl 5x5 snatch @ 5000000000kg");
    assert!(matches!(
        lexer.tokenize().unwrap_err(),
        LexerError::InvalidWeight(_)
    ));

    let mut lexer = Lexer::new("wl 999rm snatch");
    assert!(matches!(
        lexer.tokenize().unwrap_err(),
        LexerError::InvalidRM(_)
    ));

    let mut lexer = Lexer::new("ft 21- pull up");
    assert!(matches!(
        lexer.tokenize().unwrap_err(),
        LexerError::InvalidRepType(_)
    ));

    let mut lexer = Lexer::new("ft 21 pulup");
    assert!(matches!(
        lexer.tokenize().unwrap_err(),
        LexerError::InvalidMovement(_)
    ));
}

// A rest clause in movement position leaves its measure and the
// placeholder movement.
#[test]
fn test_rest_clause_tokens() {
    let mut lexer = Lexer::new("emom-10 10 pull up, r2m");
    let tokens = lexer.tokenize().unwrap();
    let n = tokens.len();
    assert!(matches!(
        tokens[n - 2],
        Token::RepType(RepType::RestPeriod(_))
    ));
    assert_eq!(tokens[n - 1], Token::Movement(Movement::Rest));
}

// The max-effort keyword is split off the movement that follows it.
#[test]
fn test_max_prefix() {
    let mut lexer = Lexer::new("amrap-5 max db snatch");
    let tokens = lexer.tokenize().unwrap();
    assert_eq!(
        tokens,
        vec![
            Token::WorkoutType(wod::WorkoutType::from_str("amrap-5").unwrap()),
            Token::RepType(RepType::Max),
            Token::Movement(Movement::from_str("db snatch").unwrap()),
        ]
    );
}

// A repetition maximum keeps only its digits.
#[test]
fn test_rm_strips_non_digits() {
    assert_eq!(RM::from_str("12rm").unwrap(), RM { num: 12 });
    assert!(RM::from_str("rm").is_err());
    assert!(RM::from_str("999rm").is_err());
}

// Distances overflowing the amount are rejected rather than wrapped.
#[test]
fn test_numeric_overflow_rejected() {
    assert!(wod::Distance::from_str("5000000000m").is_err());
    assert!(wod::Time::from_str("300sec").is_err());
    assert!(Weight::from_str("kg").is_err());
    assert!(Reps::from_str("abc").is_err());
}

// A workout kind without a renderer leaves only the section separator.
#[test]
fn test_amrap_renders_separator_only() {
    let workout = create_workout("amrap-12 10 pull up", None, None).unwrap();
    assert_eq!(workout.write(), "---");
}
