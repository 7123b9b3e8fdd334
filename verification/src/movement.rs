//! The movement catalog: a fixed, closed vocabulary of exercise names.
//! Resolution case-folds and trims the input, then looks the text up in
//! the catalog; when nothing matches, the error carries the catalog entry
//! at the smallest edit distance (the first such entry on a tie). The
//! catalog closes with the `rest` placeholder that the lexer substitutes
//! for a rest period, so a rest clause still yields a movement line.

use vstd::prelude::*;
use crate::edit::{edit_distance, levenshtein, lemma_edit_distance_zero};
use crate::text::{chars_of, lower, lower_span, span_eq_str, string_from_chars, trim, trim_back, trim_front, trim_span};
use vstd::string::StringExecFns;

verus! {

/// The number of entries in the movement catalog.
pub open spec fn catalog_len() -> int {
    103
}

/// An exercise identity drawn from the closed catalog.
#[derive(Debug, PartialEq, Eq, Structural, Clone, Copy)]
pub enum Movement {
    AirSquat,
    FrontSquat,
    BackSquat,
    OverheadSquat,
    PistolSquat,
    GobletSquat,
    Deadlift,
    SumoDeadlift,
    RomanianDeadlift,
    ShoulderPress,
    PushPress,
    PushJerk,
    SplitJerk,
    BenchPress,
    Clean,
    PowerClean,
    HangClean,
    HangPowerClean,
    CleanAndJerk,
    PowerCleanAndJerk,
    CleanPull,
    CleanDeadlift,
    Snatch,
    PowerSnatch,
    HangSnatch,
    HangPowerSnatch,
    SnatchBalance,
    SnatchPull,
    SnatchDeadlift,
    MuscleSnatch,
    PushUp,
    PullUp,
    ChinUp,
    ChestToBar,
    MuscleUp,
    BarMuscleUp,
    RingMuscleUp,
    ToesToBar,
    KneesToElbows,
    LSit,
    SitUp,
    VUp,
    GHD,
    StrictPullUp,
    StrictHandstandPushUp,
    HandstandPushUp,
    HandstandWalk,
    WallWalk,
    HandstandHold,
    Thruster,
    FrontRackLunge,
    BackRackLunge,
    OverheadWalkingLunge,
    Burpee,
    BoxJump,
    BoxJumpOver,
    BurpeeBoxJump,
    BurpeeBoxJumpOver,
    BurpeeOverTheBar,
    BurpeeToTarget,
    BurpeePullUp,
    DoubleUnder,
    WallBall,
    KettlebellSwing,
    TurkishGetUp,
    FarmersCarry,
    SledPush,
    SledPull,
    SledDrag,
    RopeClimb,
    LeglessRopeClimb,
    SandbagClean,
    DBall,
    DBallCarry,
    DBallHold,
    Row,
    Run,
    Bike,
    EchoBike,
    Ski,
    DumbbellSnatch,
    DumbbellClean,
    DumbbellPowerClean,
    DumbbellHangClean,
    DumbbellCleanAndJerk,
    DumbbellHangCleanAndJerk,
    DevilPress,
    Rest,
}

/// The notation name of the catalog entry at the given position.
pub open spec fn catalog_name(i: int) -> Seq<char> {
    if i == 0 {
        "air squat"@
    } else if i == 1 {
        "front squat"@
    } else if i == 2 {
        "back squat"@
    } else if i == 3 {
        "ohs"@
    } else if i == 4 {
        "overhead squat"@
    } else if i == 5 {
        "pistol squat"@
    } else if i == 6 {
        "goblet squat"@
    } else if i == 7 {
        "deadlift"@
    } else if i == 8 {
        "sumo deadlift"@
    } else if i == 9 {
        "romanian deadlift"@
    } else if i == 10 {
        "shoulder press"@
    } else if i == 11 {
        "push press"@
    } else if i == 12 {
        "push jerk"@
    } else if i == 13 {
        "split jerk"@
    } else if i == 14 {
        "bench press"@
    } else if i == 15 {
        "clean"@
    } else if i == 16 {
        "power clean"@
    } else if i == 17 {
        "hang clean"@
    } else if i == 18 {
        "hang power clean"@
    } else if i == 19 {
        "clean and jerk"@
    } else if i == 20 {
        "power clean and jerk"@
    } else if i == 21 {
        "clean pull"@
    } else if i == 22 {
        "clean-deadlift"@
    } else if i == 23 {
        "snatch"@
    } else if i == 24 {
        "power snatch"@
    } else if i == 25 {
        "hang snatch"@
    } else if i == 26 {
        "hang power snatch"@
    } else if i == 27 {
        "snatch balance"@
    } else if i == 28 {
        "snatch pull"@
    } else if i == 29 {
        "snatch deadlift"@
    } else if i == 30 {
        "muscle snatch"@
    } else if i == 31 {
        "push up"@
    } else if i == 32 {
        "pull up"@
    } else if i == 33 {
        "chin up"@
    } else if i == 34 {
        "c2b"@
    } else if i == 35 {
        "chest to bar"@
    } else if i == 36 {
        "muscle up"@
    } else if i == 37 {
        "bar muscle up"@
    } else if i == 38 {
        "bar mu"@
    } else if i == 39 {
        "ring muscle up"@
    } else if i == 40 {
        "ring mu"@
    } else if i == 41 {
        "t2b"@
    } else if i == 42 {
        "toes to bar"@
    } else if i == 43 {
        "knees to elbows"@
    } else if i == 44 {
        "l-sit"@
    } else if i == 45 {
        "sit up"@
    } else if i == 46 {
        "v up"@
    } else if i == 47 {
        "ghd"@
    } else if i == 48 {
        "strict pull up"@
    } else if i == 49 {
        "shspu"@
    } else if i == 50 {
        "hspu"@
    } else if i == 51 {
        "handstand push up"@
    } else if i == 52 {
        "handstand walk"@
    } else if i == 53 {
        "hs walk"@
    } else if i == 54 {
        "hsw"@
    } else if i == 55 {
        "wall walk"@
    } else if i == 56 {
        "handstand hold"@
    } else if i == 57 {
        "thruster"@
    } else if i == 58 {
        "front rack lunge"@
    } else if i == 59 {
        "back rack lunge"@
    } else if i == 60 {
        "overhead walking lunge"@
    } else if i == 61 {
        "burpee"@
    } else if i == 62 {
        "box jump"@
    } else if i == 63 {
        "box jump over"@
    } else if i == 64 {
        "burpee box jump"@
    } else if i == 65 {
        "burpee box jump over"@
    } else if i == 66 {
        "burpee over the bar"@
    } else if i == 67 {
        "burpee to target"@
    } else if i == 68 {
        "burpee pull up"@
    } else if i == 69 {
        "du"@
    } else if i == 70 {
        "double under"@
    } else if i == 71 {
        "wall ball"@
    } else if i == 72 {
        "kettlebell swing"@
    } else if i == 73 {
        "turkish get up"@
    } else if i == 74 {
        "farmer carry"@
    } else if i == 75 {
        "sled push"@
    } else if i == 76 {
        "sled pull"@
    } else if i == 77 {
        "sled drag"@
    } else if i == 78 {
        "rope climb"@
    } else if i == 79 {
        "rc"@
    } else if i == 80 {
        "legless rope climb"@
    } else if i == 81 {
        "legless rc"@
    } else if i == 82 {
        "sandbag clean"@
    } else if i == 83 {
        "dball"@
    } else if i == 84 {
        "dball carry"@
    } else if i == 85 {
        "dball hold"@
    } else if i == 86 {
        "row"@
    } else if i == 87 {
        "run"@
    } else if i == 88 {
        "bike"@
    } else if i == 89 {
        "echo bike"@
    } else if i == 90 {
        "ski"@
    } else if i == 91 {
        "db snatch"@
    } else if i == 92 {
        "db clean"@
    } else if i == 93 {
        "db power clean"@
    } else if i == 94 {
        "db hang clean"@
    } else if i == 95 {
        "dumbbell snatch"@
    } else if i == 96 {
        "dumbbell clean"@
    } else if i == 97 {
        "dumbbell power clean"@
    } else if i == 98 {
        "dumbbell hang clean"@
    } else if i == 99 {
        "dumbbell clean and jerk"@
    } else if i == 100 {
        "db clean and jerk"@
    } else if i == 101 {
        "devil press"@
    } else if i == 102 {
        "rest"@
    } else {
        ""@
    }
}

/// The movement of the catalog entry at the given position.
pub open spec fn catalog_movement(i: int) -> Movement {
    if i == 0 {
        Movement::AirSquat
    } else if i == 1 {
        Movement::FrontSquat
    } else if i == 2 {
        Movement::BackSquat
    } else if i == 3 {
        Movement::OverheadSquat
    } else if i == 4 {
        Movement::OverheadSquat
    } else if i == 5 {
        Movement::PistolSquat
    } else if i == 6 {
        Movement::GobletSquat
    } else if i == 7 {
        Movement::Deadlift
    } else if i == 8 {
        Movement::SumoDeadlift
    } else if i == 9 {
        Movement::RomanianDeadlift
    } else if i == 10 {
        Movement::ShoulderPress
    } else if i == 11 {
        Movement::PushPress
    } else if i == 12 {
        Movement::PushJerk
    } else if i == 13 {
        Movement::SplitJerk
    } else if i == 14 {
        Movement::BenchPress
    } else if i == 15 {
        Movement::Clean
    } else if i == 16 {
        Movement::PowerClean
    } else if i == 17 {
        Movement::HangClean
    } else if i == 18 {
        Movement::HangPowerClean
    } else if i == 19 {
        Movement::CleanAndJerk
    } else if i == 20 {
        Movement::PowerCleanAndJerk
    } else if i == 21 {
        Movement::CleanPull
    } else if i == 22 {
        Movement::CleanDeadlift
    } else if i == 23 {
        Movement::Snatch
    } else if i == 24 {
        Movement::PowerSnatch
    } else if i == 25 {
        Movement::HangSnatch
    } else if i == 26 {
        Movement::HangPowerSnatch
    } else if i == 27 {
        Movement::SnatchBalance
    } else if i == 28 {
        Movement::SnatchPull
    } else if i == 29 {
        Movement::SnatchDeadlift
    } else if i == 30 {
        Movement::MuscleSnatch
    } else if i == 31 {
        Movement::PushUp
    } else if i == 32 {
        Movement::PullUp
    } else if i == 33 {
        Movement::ChinUp
    } else if i == 34 {
        Movement::ChestToBar
    } else if i == 35 {
        Movement::ChestToBar
    } else if i == 36 {
        Movement::MuscleUp
    } else if i == 37 {
        Movement::BarMuscleUp
    } else if i == 38 {
        Movement::BarMuscleUp
    } else if i == 39 {
        Movement::RingMuscleUp
    } else if i == 40 {
        Movement::RingMuscleUp
    } else if i == 41 {
        Movement::ToesToBar
    } else if i == 42 {
        Movement::ToesToBar
    } else if i == 43 {
        Movement::KneesToElbows
    } else if i == 44 {
        Movement::LSit
    } else if i == 45 {
        Movement::SitUp
    } else if i == 46 {
        Movement::VUp
    } else if i == 47 {
        Movement::GHD
    } else if i == 48 {
        Movement::StrictPullUp
    } else if i == 49 {
        Movement::StrictHandstandPushUp
    } else if i == 50 {
        Movement::HandstandPushUp
    } else if i == 51 {
        Movement::HandstandPushUp
    } else if i == 52 {
        Movement::HandstandWalk
    } else if i == 53 {
        Movement::HandstandWalk
    } else if i == 54 {
        Movement::HandstandWalk
    } else if i == 55 {
        Movement::WallWalk
    } else if i == 56 {
        Movement::HandstandHold
    } else if i == 57 {
        Movement::Thruster
    } else if i == 58 {
        Movement::FrontRackLunge
    } else if i == 59 {
        Movement::BackRackLunge
    } else if i == 60 {
        Movement::OverheadWalkingLunge
    } else if i == 61 {
        Movement::Burpee
    } else if i == 62 {
        Movement::BoxJump
    } else if i == 63 {
        Movement::BoxJumpOver
    } else if i == 64 {
        Movement::BurpeeBoxJump
    } else if i == 65 {
        Movement::BurpeeBoxJumpOver
    } else if i == 66 {
        Movement::BurpeeOverTheBar
    } else if i == 67 {
        Movement::BurpeeToTarget
    } else if i == 68 {
        Movement::BurpeePullUp
    } else if i == 69 {
        Movement::DoubleUnder
    } else if i == 70 {
        Movement::DoubleUnder
    } else if i == 71 {
        Movement::WallBall
    } else if i == 72 {
        Movement::KettlebellSwing
    } else if i == 73 {
        Movement::TurkishGetUp
    } else if i == 74 {
        Movement::FarmersCarry
    } else if i == 75 {
        Movement::SledPush
    } else if i == 76 {
        Movement::SledPull
    } else if i == 77 {
        Movement::SledDrag
    } else if i == 78 {
        Movement::RopeClimb
    } else if i == 79 {
        Movement::RopeClimb
    } else if i == 80 {
        Movement::LeglessRopeClimb
    } else if i == 81 {
        Movement::LeglessRopeClimb
    } else if i == 82 {
        Movement::SandbagClean
    } else if i == 83 {
        Movement::DBall
    } else if i == 84 {
        Movement::DBallCarry
    } else if i == 85 {
        Movement::DBallHold
    } else if i == 86 {
        Movement::Row
    } else if i == 87 {
        Movement::Run
    } else if i == 88 {
        Movement::Bike
    } else if i == 89 {
        Movement::EchoBike
    } else if i == 90 {
        Movement::Ski
    } else if i == 91 {
        Movement::DumbbellSnatch
    } else if i == 92 {
        Movement::DumbbellClean
    } else if i == 93 {
        Movement::DumbbellPowerClean
    } else if i == 94 {
        Movement::DumbbellHangClean
    } else if i == 95 {
        Movement::DumbbellSnatch
    } else if i == 96 {
        Movement::DumbbellClean
    } else if i == 97 {
        Movement::DumbbellPowerClean
    } else if i == 98 {
        Movement::DumbbellHangClean
    } else if i == 99 {
        Movement::DumbbellCleanAndJerk
    } else if i == 100 {
        Movement::DumbbellCleanAndJerk
    } else if i == 101 {
        Movement::DevilPress
    } else if i == 102 {
        Movement::Rest
    } else {
        Movement::AirSquat
    }
}

/// The normalized form of movement text: case-folded and trimmed.
pub open spec fn normalized(s: Seq<char>) -> Seq<char> {
    lower(trim(s))
}

/// The first catalog entry at or after `i` whose name is the given text.
pub open spec fn movement_lookup(s: Seq<char>, i: int) -> Option<Movement>
    decreases catalog_len() - i when 0 <= i <= catalog_len()
{
    if i >= catalog_len() {
        None
    } else if catalog_name(i) == s {
        Some(catalog_movement(i))
    } else {
        movement_lookup(s, i + 1)
    }
}

/// What a movement text resolves to: the first catalog entry named by its
/// normalized form, if any.
pub open spec fn movement_of(s: Seq<char>) -> Option<Movement> {
    movement_lookup(normalized(s), 0)
}

/// The first index attaining the minimum edit distance to the text among
/// the first `k` catalog entries.
pub open spec fn best_index(s: Seq<char>, k: int) -> int
    decreases k when 1 <= k <= catalog_len()
{
    if k <= 1 {
        0
    } else {
        let b = best_index(s, k - 1);
        if edit_distance(s, catalog_name(k - 1)) < edit_distance(s, catalog_name(b)) {
            k - 1
        } else {
            b
        }
    }
}

/// The suggestion for an unrecognized text: the catalog name at the
/// smallest edit distance, ties broken by catalog order.
pub open spec fn suggestion_of(s: Seq<char>) -> Seq<char> {
    catalog_name(best_index(s, catalog_len()))
}

/// The catalog names, in catalog order.
fn movement_names() -> (v: Vec<&'static str>)
    ensures
        v@.len() == catalog_len(),
        forall|i: int| 0 <= i < catalog_len() ==> v@[i]@ == catalog_name(i),
{
    let v: Vec<&'static str> = vec![
        "air squat",
        "front squat",
        "back squat",
        "ohs",
        "overhead squat",
        "pistol squat",
        "goblet squat",
        "deadlift",
        "sumo deadlift",
        "romanian deadlift",
        "shoulder press",
        "push press",
        "push jerk",
        "split jerk",
        "bench press",
        "clean",
        "power clean",
        "hang clean",
        "hang power clean",
        "clean and jerk",
        "power clean and jerk",
        "clean pull",
        "clean-deadlift",
        "snatch",
        "power snatch",
        "hang snatch",
        "hang power snatch",
        "snatch balance",
        "snatch pull",
        "snatch deadlift",
        "muscle snatch",
        "push up",
        "pull up",
        "chin up",
        "c2b",
        "chest to bar",
        "muscle up",
        "bar muscle up",
        "bar mu",
        "ring muscle up",
        "ring mu",
        "t2b",
        "toes to bar",
        "knees to elbows",
        "l-sit",
        "sit up",
        "v up",
        "ghd",
        "strict pull up",
        "shspu",
        "hspu",
        "handstand push up",
        "handstand walk",
        "hs walk",
        "hsw",
        "wall walk",
        "handstand hold",
        "thruster",
        "front rack lunge",
        "back rack lunge",
        "overhead walking lunge",
        "burpee",
        "box jump",
        "box jump over",
        "burpee box jump",
        "burpee box jump over",
        "burpee over the bar",
        "burpee to target",
        "burpee pull up",
        "du",
        "double under",
        "wall ball",
        "kettlebell swing",
        "turkish get up",
        "farmer carry",
        "sled push",
        "sled pull",
        "sled drag",
        "rope climb",
        "rc",
        "legless rope climb",
        "legless rc",
        "sandbag clean",
        "dball",
        "dball carry",
        "dball hold",
        "row",
        "run",
        "bike",
        "echo bike",
        "ski",
        "db snatch",
        "db clean",
        "db power clean",
        "db hang clean",
        "dumbbell snatch",
        "dumbbell clean",
        "dumbbell power clean",
        "dumbbell hang clean",
        "dumbbell clean and jerk",
        "db clean and jerk",
        "devil press",
        "rest",
    ];
    proof {
        assert forall|i: int| 0 <= i < catalog_len() implies v@[i]@ == catalog_name(i) by {
        }
    }
    v
}

/// The catalog movements, in catalog order.
fn movement_values() -> (v: Vec<Movement>)
    ensures
        v@.len() == catalog_len(),
        forall|i: int| 0 <= i < catalog_len() ==> v@[i] == catalog_movement(i),
{
    let v: Vec<Movement> = vec![
        Movement::AirSquat,
        Movement::FrontSquat,
        Movement::BackSquat,
        Movement::OverheadSquat,
        Movement::OverheadSquat,
        Movement::PistolSquat,
        Movement::GobletSquat,
        Movement::Deadlift,
        Movement::SumoDeadlift,
        Movement::RomanianDeadlift,
        Movement::ShoulderPress,
        Movement::PushPress,
        Movement::PushJerk,
        Movement::SplitJerk,
        Movement::BenchPress,
        Movement::Clean,
        Movement::PowerClean,
        Movement::HangClean,
        Movement::HangPowerClean,
        Movement::CleanAndJerk,
        Movement::PowerCleanAndJerk,
        Movement::CleanPull,
        Movement::CleanDeadlift,
        Movement::Snatch,
        Movement::PowerSnatch,
        Movement::HangSnatch,
        Movement::HangPowerSnatch,
        Movement::SnatchBalance,
        Movement::SnatchPull,
        Movement::SnatchDeadlift,
        Movement::MuscleSnatch,
        Movement::PushUp,
        Movement::PullUp,
        Movement::ChinUp,
        Movement::ChestToBar,
        Movement::ChestToBar,
        Movement::MuscleUp,
        Movement::BarMuscleUp,
        Movement::BarMuscleUp,
        Movement::RingMuscleUp,
        Movement::RingMuscleUp,
        Movement::ToesToBar,
        Movement::ToesToBar,
        Movement::KneesToElbows,
        Movement::LSit,
        Movement::SitUp,
        Movement::VUp,
        Movement::GHD,
        Movement::StrictPullUp,
        Movement::StrictHandstandPushUp,
        Movement::HandstandPushUp,
        Movement::HandstandPushUp,
        Movement::HandstandWalk,
        Movement::HandstandWalk,
        Movement::HandstandWalk,
        Movement::WallWalk,
        Movement::HandstandHold,
        Movement::Thruster,
        Movement::FrontRackLunge,
        Movement::BackRackLunge,
        Movement::OverheadWalkingLunge,
        Movement::Burpee,
        Movement::BoxJump,
        Movement::BoxJumpOver,
        Movement::BurpeeBoxJump,
        Movement::BurpeeBoxJumpOver,
        Movement::BurpeeOverTheBar,
        Movement::BurpeeToTarget,
        Movement::BurpeePullUp,
        Movement::DoubleUnder,
        Movement::DoubleUnder,
        Movement::WallBall,
        Movement::KettlebellSwing,
        Movement::TurkishGetUp,
        Movement::FarmersCarry,
        Movement::SledPush,
        Movement::SledPull,
        Movement::SledDrag,
        Movement::RopeClimb,
        Movement::RopeClimb,
        Movement::LeglessRopeClimb,
        Movement::LeglessRopeClimb,
        Movement::SandbagClean,
        Movement::DBall,
        Movement::DBallCarry,
        Movement::DBallHold,
        Movement::Row,
        Movement::Run,
        Movement::Bike,
        Movement::EchoBike,
        Movement::Ski,
        Movement::DumbbellSnatch,
        Movement::DumbbellClean,
        Movement::DumbbellPowerClean,
        Movement::DumbbellHangClean,
        Movement::DumbbellSnatch,
        Movement::DumbbellClean,
        Movement::DumbbellPowerClean,
        Movement::DumbbellHangClean,
        Movement::DumbbellCleanAndJerk,
        Movement::DumbbellCleanAndJerk,
        Movement::DevilPress,
        Movement::Rest,
    ];
    proof {
        assert forall|i: int| 0 <= i < catalog_len() implies v@[i] == catalog_movement(i) by {
        }
    }
    v
}

/// Resolution and rendering of movements.
impl Movement {
    /// The display name of the movement.
    pub open spec fn display_name(&self) -> Seq<char> {
        match self {
            Movement::AirSquat => "Air Squat"@,
            Movement::FrontSquat => "Front Squat"@,
            Movement::BackSquat => "Back Squat"@,
            Movement::OverheadSquat => "Overhead Squat"@,
            Movement::PistolSquat => "Pistol Squat"@,
            Movement::GobletSquat => "Goblet Squat"@,
            Movement::Deadlift => "Deadlift"@,
            Movement::SumoDeadlift => "Sumo Deadlift"@,
            Movement::RomanianDeadlift => "Romanian Deadlift"@,
            Movement::ShoulderPress => "Shoulder Press"@,
            Movement::PushPress => "Push Press"@,
            Movement::PushJerk => "Push Jerk"@,
            Movement::SplitJerk => "Split Jerk"@,
            Movement::BenchPress => "Bench Press"@,
            Movement::Clean => "Clean"@,
            Movement::PowerClean => "Power Clean"@,
            Movement::HangClean => "Hang Clean"@,
            Movement::HangPowerClean => "Hang Power Clean"@,
            Movement::CleanAndJerk => "Clean And Jerk"@,
            Movement::PowerCleanAndJerk => "Power Clean And Jerk"@,
            Movement::CleanPull => "Clean Pull"@,
            Movement::CleanDeadlift => "Clean Deadlift"@,
            Movement::Snatch => "Snatch"@,
            Movement::PowerSnatch => "Power Snatch"@,
            Movement::HangSnatch => "Hang Snatch"@,
            Movement::HangPowerSnatch => "Hang Power Snatch"@,
            Movement::SnatchBalance => "Snatch Balance"@,
            Movement::SnatchPull => "Snatch Pull"@,
            Movement::SnatchDeadlift => "Snatch Deadlift"@,
            Movement::MuscleSnatch => "Muscle Snatch"@,
            Movement::PushUp => "Push Up"@,
            Movement::PullUp => "Pull Up"@,
            Movement::ChinUp => "Chin Up"@,
            Movement::ChestToBar => "Chest To Bar"@,
            Movement::MuscleUp => "Muscle Up"@,
            Movement::BarMuscleUp => "Bar Muscle Up"@,
            Movement::RingMuscleUp => "Ring Muscle Up"@,
            Movement::ToesToBar => "Toes To Bar"@,
            Movement::KneesToElbows => "Knees To Elbows"@,
            Movement::LSit => "L Sit"@,
            Movement::SitUp => "Sit Up"@,
            Movement::VUp => "V Up"@,
            Movement::GHD => "GHD"@,
            Movement::StrictPullUp => "Strict Pull Up"@,
            Movement::StrictHandstandPushUp => "Strict Handstand Push Up"@,
            Movement::HandstandPushUp => "Handstand Push Up"@,
            Movement::HandstandWalk => "Handstand Walk"@,
            Movement::WallWalk => "Wall Walk"@,
            Movement::HandstandHold => "Handstand Hold"@,
            Movement::Thruster => "Thruster"@,
            Movement::FrontRackLunge => "Front Rack Lunge"@,
            Movement::BackRackLunge => "Back Rack Lunge"@,
            Movement::OverheadWalkingLunge => "Overhead Walking Lunge"@,
            Movement::Burpee => "Burpee"@,
            Movement::BoxJump => "Box Jump"@,
            Movement::BoxJumpOver => "Box Jump Over"@,
            Movement::BurpeeBoxJump => "Burpee Box Jump"@,
            Movement::BurpeeBoxJumpOver => "Burpee Box Jump Over"@,
            Movement::BurpeeOverTheBar => "Burpee Over The Bar"@,
            Movement::BurpeeToTarget => "Burpee To Target"@,
            Movement::BurpeePullUp => "Burpee Pull Up"@,
            Movement::DoubleUnder => "Double Under"@,
            Movement::WallBall => "Wall Ball"@,
            Movement::KettlebellSwing => "Kettlebell Swing"@,
            Movement::TurkishGetUp => "Turkish Get Up"@,
            Movement::FarmersCarry => "Farmer's Carry"@,
            Movement::SledPush => "Sled Push"@,
            Movement::SledPull => "Sled Pull"@,
            Movement::SledDrag => "Sled Drag"@,
            Movement::RopeClimb => "Rope Climb"@,
            Movement::LeglessRopeClimb => "Legless Rope Climb"@,
            Movement::SandbagClean => "Sandbag Clean"@,
            Movement::DBall => "DBall"@,
            Movement::DBallCarry => "DBall Carry"@,
            Movement::DBallHold => "DBall Hold"@,
            Movement::Row => "Row"@,
            Movement::Run => "Run"@,
            Movement::Bike => "Bike"@,
            Movement::EchoBike => "Echo Bike"@,
            Movement::Ski => "Ski"@,
            Movement::DumbbellSnatch => "Dumbbell Snatch"@,
            Movement::DumbbellClean => "Dumbbell Clean"@,
            Movement::DumbbellPowerClean => "Dumbbell Power Clean"@,
            Movement::DumbbellHangClean => "Dumbbell Hang Clean"@,
            Movement::DumbbellCleanAndJerk => "Dumbbell Clean and Jerk"@,
            Movement::DumbbellHangCleanAndJerk => "Dumbbell Hang Clean and Jerk"@,
            Movement::DevilPress => "Devil Press"@,
            Movement::Rest => "Rest"@,
        }
    }

    /// Renders the movement's display name.
    pub fn render(&self) -> (r: String)
        ensures
            r@ == self.display_name(),
    {
        match self {
            Movement::AirSquat => String::from_str("Air Squat"),
            Movement::FrontSquat => String::from_str("Front Squat"),
            Movement::BackSquat => String::from_str("Back Squat"),
            Movement::OverheadSquat => String::from_str("Overhead Squat"),
            Movement::PistolSquat => String::from_str("Pistol Squat"),
            Movement::GobletSquat => String::from_str("Goblet Squat"),
            Movement::Deadlift => String::from_str("Deadlift"),
            Movement::SumoDeadlift => String::from_str("Sumo Deadlift"),
            Movement::RomanianDeadlift => String::from_str("Romanian Deadlift"),
            Movement::ShoulderPress => String::from_str("Shoulder Press"),
            Movement::PushPress => String::from_str("Push Press"),
            Movement::PushJerk => String::from_str("Push Jerk"),
            Movement::SplitJerk => String::from_str("Split Jerk"),
            Movement::BenchPress => String::from_str("Bench Press"),
            Movement::Clean => String::from_str("Clean"),
            Movement::PowerClean => String::from_str("Power Clean"),
            Movement::HangClean => String::from_str("Hang Clean"),
            Movement::HangPowerClean => String::from_str("Hang Power Clean"),
            Movement::CleanAndJerk => String::from_str("Clean And Jerk"),
            Movement::PowerCleanAndJerk => String::from_str("Power Clean And Jerk"),
            Movement::CleanPull => String::from_str("Clean Pull"),
            Movement::CleanDeadlift => String::from_str("Clean Deadlift"),
            Movement::Snatch => String::from_str("Snatch"),
            Movement::PowerSnatch => String::from_str("Power Snatch"),
            Movement::HangSnatch => String::from_str("Hang Snatch"),
            Movement::HangPowerSnatch => String::from_str("Hang Power Snatch"),
            Movement::SnatchBalance => String::from_str("Snatch Balance"),
            Movement::SnatchPull => String::from_str("Snatch Pull"),
            Movement::SnatchDeadlift => String::from_str("Snatch Deadlift"),
            Movement::MuscleSnatch => String::from_str("Muscle Snatch"),
            Movement::PushUp => String::from_str("Push Up"),
            Movement::PullUp => String::from_str("Pull Up"),
            Movement::ChinUp => String::from_str("Chin Up"),
            Movement::ChestToBar => String::from_str("Chest To Bar"),
            Movement::MuscleUp => String::from_str("Muscle Up"),
            Movement::BarMuscleUp => String::from_str("Bar Muscle Up"),
            Movement::RingMuscleUp => String::from_str("Ring Muscle Up"),
            Movement::ToesToBar => String::from_str("Toes To Bar"),
            Movement::KneesToElbows => String::from_str("Knees To Elbows"),
            Movement::LSit => String::from_str("L Sit"),
            Movement::SitUp => String::from_str("Sit Up"),
            Movement::VUp => String::from_str("V Up"),
            Movement::GHD => String::from_str("GHD"),
            Movement::StrictPullUp => String::from_str("Strict Pull Up"),
            Movement::StrictHandstandPushUp => String::from_str("Strict Handstand Push Up"),
            Movement::HandstandPushUp => String::from_str("Handstand Push Up"),
            Movement::HandstandWalk => String::from_str("Handstand Walk"),
            Movement::WallWalk => String::from_str("Wall Walk"),
            Movement::HandstandHold => String::from_str("Handstand Hold"),
            Movement::Thruster => String::from_str("Thruster"),
            Movement::FrontRackLunge => String::from_str("Front Rack Lunge"),
            Movement::BackRackLunge => String::from_str("Back Rack Lunge"),
            Movement::OverheadWalkingLunge => String::from_str("Overhead Walking Lunge"),
            Movement::Burpee => String::from_str("Burpee"),
            Movement::BoxJump => String::from_str("Box Jump"),
            Movement::BoxJumpOver => String::from_str("Box Jump Over"),
            Movement::BurpeeBoxJump => String::from_str("Burpee Box Jump"),
            Movement::BurpeeBoxJumpOver => String::from_str("Burpee Box Jump Over"),
            Movement::BurpeeOverTheBar => String::from_str("Burpee Over The Bar"),
            Movement::BurpeeToTarget => String::from_str("Burpee To Target"),
            Movement::BurpeePullUp => String::from_str("Burpee Pull Up"),
            Movement::DoubleUnder => String::from_str("Double Under"),
            Movement::WallBall => String::from_str("Wall Ball"),
            Movement::KettlebellSwing => String::from_str("Kettlebell Swing"),
            Movement::TurkishGetUp => String::from_str("Turkish Get Up"),
            Movement::FarmersCarry => String::from_str("Farmer's Carry"),
            Movement::SledPush => String::from_str("Sled Push"),
            Movement::SledPull => String::from_str("Sled Pull"),
            Movement::SledDrag => String::from_str("Sled Drag"),
            Movement::RopeClimb => String::from_str("Rope Climb"),
            Movement::LeglessRopeClimb => String::from_str("Legless Rope Climb"),
            Movement::SandbagClean => String::from_str("Sandbag Clean"),
            Movement::DBall => String::from_str("DBall"),
            Movement::DBallCarry => String::from_str("DBall Carry"),
            Movement::DBallHold => String::from_str("DBall Hold"),
            Movement::Row => String::from_str("Row"),
            Movement::Run => String::from_str("Run"),
            Movement::Bike => String::from_str("Bike"),
            Movement::EchoBike => String::from_str("Echo Bike"),
            Movement::Ski => String::from_str("Ski"),
            Movement::DumbbellSnatch => String::from_str("Dumbbell Snatch"),
            Movement::DumbbellClean => String::from_str("Dumbbell Clean"),
            Movement::DumbbellPowerClean => String::from_str("Dumbbell Power Clean"),
            Movement::DumbbellHangClean => String::from_str("Dumbbell Hang Clean"),
            Movement::DumbbellCleanAndJerk => String::from_str("Dumbbell Clean and Jerk"),
            Movement::DumbbellHangCleanAndJerk => String::from_str("Dumbbell Hang Clean and Jerk"),
            Movement::DevilPress => String::from_str("Devil Press"),
            Movement::Rest => String::from_str("Rest"),
        }
    }

    /// Resolves movement text against the catalog: the input is case-folded
    /// and trimmed, then matched exactly; unrecognized text fails with the
    /// nearest catalog entry as a suggestion, never with a silent correction.
    pub fn from_str(s: &str) -> (r: Result<Movement, MovementParseError>)
        ensures
            match r {
                Ok(m) => movement_of(s@) == Some(m),
                Err(e) => {
                    &&& movement_of(s@) is None
                    &&& e matches MovementParseError::InvalidMovement(name, sug) && name@ == s@
                        && sug@ == suggestion_of(normalized(s@))
                },
            },
    {
        let v = chars_of(s);
        proof {
            assert(v@.subrange(0, v@.len() as int) =~= s@);
        }
        let (a, b) = trim_span(&v, 0, v.len());
        let nv = lower_span(&v, a, b);
        proof {
            assert(nv@ == normalized(s@));
        }
        let names = movement_names();
        let movs = movement_values();
        let n = names.len();
        let mut i: usize = 0;
        while i < n
            invariant
                n == catalog_len(),
                names@.len() == catalog_len(),
                movs@.len() == catalog_len(),
                forall|k: int| 0 <= k < catalog_len() ==> names@[k]@ == catalog_name(k),
                forall|k: int| 0 <= k < catalog_len() ==> movs@[k] == catalog_movement(k),
                i <= n,
                nv@ == normalized(s@),
                movement_lookup(nv@, 0) == movement_lookup(nv@, i as int),
            decreases n - i,
        {
            proof {
                assert(nv@.subrange(0, nv@.len() as int) =~= nv@);
            }
            if span_eq_str(&nv, 0, nv.len(), names[i]) {
                proof {
                    assert(catalog_name(i as int) == nv@);
                    assert(movement_lookup(nv@, i as int) == Some(catalog_movement(i as int)));
                }
                return Ok(movs[i]);
            }
            proof {
                assert(catalog_name(i as int) != nv@);
                assert(movement_lookup(nv@, i as int) == movement_lookup(nv@, i + 1));
            }
            i = i + 1;
        }
        let idx = closest_index(&nv, &names);
        Err(MovementParseError::InvalidMovement(s.to_owned(), names[idx].to_owned()))
    }
}

/// The index of the catalog entry closest to the text by edit distance,
/// ties broken by catalog order.
fn closest_index(nv: &Vec<char>, names: &Vec<&'static str>) -> (r: usize)
    requires
        names@.len() == catalog_len(),
        forall|i: int| 0 <= i < catalog_len() ==> names@[i]@ == catalog_name(i),
    ensures
        0 <= r < catalog_len(),
        r as int == best_index(nv@, catalog_len()),
{
    let nstr = string_from_chars(nv, 0, nv.len());
    proof {
        assert(nv@.subrange(0, nv@.len() as int) =~= nv@);
    }
    let mut best: usize = 0;
    let mut best_d = levenshtein(nstr.as_str(), names[0]);
    let mut k: usize = 1;
    while k < names.len()
        invariant
            names@.len() == catalog_len(),
            forall|i: int| 0 <= i < catalog_len() ==> names@[i]@ == catalog_name(i),
            nstr@ == nv@,
            1 <= k <= catalog_len(),
            best < k,
            best as int == best_index(nv@, k as int),
            best_d as nat == edit_distance(nv@, catalog_name(best as int)),
        decreases catalog_len() - k,
    {
        let d = levenshtein(nstr.as_str(), names[k]);
        if d < best_d {
            best = k;
            best_d = d;
        }
        k = k + 1;
    }
    best
}

/// Why movement text failed to resolve.
#[derive(Debug, PartialEq, Eq, Clone)]
pub enum MovementParseError {
    /// The movement text as given, and the nearest catalog entry.
    InvalidMovement(String, String),
}

impl MovementParseError {
    /// The message text of the error: it names the input and the single
    /// closest suggestion.
    pub open spec fn message_text(&self) -> Seq<char> {
        match self {
            MovementParseError::InvalidMovement(name, sug) => "Invalid movement: `"@ + name@
                + "`, did you mean: `"@ + sug@ + "`?"@,
        }
    }

    /// Builds the error for an unrecognized movement text, attaching the
    /// nearest catalog entry as the suggestion.
    pub fn new_invalid(movement_name: String) -> (r: Self)
        ensures
            r matches MovementParseError::InvalidMovement(n, sug) && n@ == movement_name@ && sug@
                == suggestion_of(movement_name@),
    {
        let v = chars_of(movement_name.as_str());
        let names = movement_names();
        let idx = closest_index(&v, &names);
        MovementParseError::InvalidMovement(movement_name, names[idx].to_owned())
    }

    /// Renders the error message.
    pub fn message(&self) -> (r: String)
        ensures
            r@ == self.message_text(),
    {
        match self {
            MovementParseError::InvalidMovement(name, sug) => {
                let mut s = String::from_str("Invalid movement: `");
                s.append(name.as_str());
                s.append("`, did you mean: `");
                s.append(sug.as_str());
                s.append("`?");
                s
            },
        }
    }
}

/// The suggestion for a movement text: the catalog entry at the smallest
/// edit distance, the first such entry on a tie.
pub fn suggest_closest_movement(movement: &str) -> (r: Option<&'static str>)
    ensures
        r matches Some(t) && t@ == suggestion_of(movement@),
{
    let v = chars_of(movement);
    proof {
        assert(v@ =~= movement@);
    }
    let names = movement_names();
    let idx = closest_index(&v, &names);
    Some(names[idx])
}

/// Resolving the name of a catalog entry succeeds and returns exactly that
/// entry's movement.
pub proof fn lemma_catalog_resolves(i: int)
    requires
        0 <= i < catalog_len(),
    ensures
        movement_of(catalog_name(i)) == Some(catalog_movement(i)),
        movement_lookup(catalog_name(i), 0) == Some(catalog_movement(i)),
{
    assert forall|j: int| 0 <= j < i implies #[trigger] catalog_name(j) != catalog_name(i) by {
        lemma_catalog_distinct(j, i);
    }
    lemma_lookup_exact(catalog_name(i), 0, i);
    lemma_catalog_name_normalized(i);
}

/// Catalog names are already normalized: trimmed and lower-case.
proof fn lemma_catalog_name_normalized(i: int)
    requires
        0 <= i < catalog_len(),
    ensures
        normalized(catalog_name(i)) == catalog_name(i),
{
    reveal_strlit("air squat");
    reveal_strlit("front squat");
    reveal_strlit("back squat");
    reveal_strlit("ohs");
    reveal_strlit("overhead squat");
    reveal_strlit("pistol squat");
    reveal_strlit("goblet squat");
    reveal_strlit("deadlift");
    reveal_strlit("sumo deadlift");
    reveal_strlit("romanian deadlift");
    reveal_strlit("shoulder press");
    reveal_strlit("push press");
    reveal_strlit("push jerk");
    reveal_strlit("split jerk");
    reveal_strlit("bench press");
    reveal_strlit("clean");
    reveal_strlit("power clean");
    reveal_strlit("hang clean");
    reveal_strlit("hang power clean");
    reveal_strlit("clean and jerk");
    reveal_strlit("power clean and jerk");
    reveal_strlit("clean pull");
    reveal_strlit("clean-deadlift");
    reveal_strlit("snatch");
    reveal_strlit("power snatch");
    reveal_strlit("hang snatch");
    reveal_strlit("hang power snatch");
    reveal_strlit("snatch balance");
    reveal_strlit("snatch pull");
    reveal_strlit("snatch deadlift");
    reveal_strlit("muscle snatch");
    reveal_strlit("push up");
    reveal_strlit("pull up");
    reveal_strlit("chin up");
    reveal_strlit("c2b");
    reveal_strlit("chest to bar");
    reveal_strlit("muscle up");
    reveal_strlit("bar muscle up");
    reveal_strlit("bar mu");
    reveal_strlit("ring muscle up");
    reveal_strlit("ring mu");
    reveal_strlit("t2b");
    reveal_strlit("toes to bar");
    reveal_strlit("knees to elbows");
    reveal_strlit("l-sit");
    reveal_strlit("sit up");
    reveal_strlit("v up");
    reveal_strlit("ghd");
    reveal_strlit("strict pull up");
    reveal_strlit("shspu");
    reveal_strlit("hspu");
    reveal_strlit("handstand push up");
    reveal_strlit("handstand walk");
    reveal_strlit("hs walk");
    reveal_strlit("hsw");
    reveal_strlit("wall walk");
    reveal_strlit("handstand hold");
    reveal_strlit("thruster");
    reveal_strlit("front rack lunge");
    reveal_strlit("back rack lunge");
    reveal_strlit("overhead walking lunge");
    reveal_strlit("burpee");
    reveal_strlit("box jump");
    reveal_strlit("box jump over");
    reveal_strlit("burpee box jump");
    reveal_strlit("burpee box jump over");
    reveal_strlit("burpee over the bar");
    reveal_strlit("burpee to target");
    reveal_strlit("burpee pull up");
    reveal_strlit("du");
    reveal_strlit("double under");
    reveal_strlit("wall ball");
    reveal_strlit("kettlebell swing");
    reveal_strlit("turkish get up");
    reveal_strlit("farmer carry");
    reveal_strlit("sled push");
    reveal_strlit("sled pull");
    reveal_strlit("sled drag");
    reveal_strlit("rope climb");
    reveal_strlit("rc");
    reveal_strlit("legless rope climb");
    reveal_strlit("legless rc");
    reveal_strlit("sandbag clean");
    reveal_strlit("dball");
    reveal_strlit("dball carry");
    reveal_strlit("dball hold");
    reveal_strlit("row");
    reveal_strlit("run");
    reveal_strlit("bike");
    reveal_strlit("echo bike");
    reveal_strlit("ski");
    reveal_strlit("db snatch");
    reveal_strlit("db clean");
    reveal_strlit("db power clean");
    reveal_strlit("db hang clean");
    reveal_strlit("dumbbell snatch");
    reveal_strlit("dumbbell clean");
    reveal_strlit("dumbbell power clean");
    reveal_strlit("dumbbell hang clean");
    reveal_strlit("dumbbell clean and jerk");
    reveal_strlit("db clean and jerk");
    reveal_strlit("devil press");
    reveal_strlit("rest");
    if i == 0 {
        assert(!crate::text::is_space(catalog_name(0)[0]));
        assert(trim_front(catalog_name(0)) == catalog_name(0));
        assert(!crate::text::is_space(catalog_name(0).last()));
        assert(trim_back(catalog_name(0)) == catalog_name(0));
        assert(lower(catalog_name(0)) =~= catalog_name(0));
    } else if i == 1 {
        assert(!crate::text::is_space(catalog_name(1)[0]));
        assert(trim_front(catalog_name(1)) == catalog_name(1));
        assert(!crate::text::is_space(catalog_name(1).last()));
        assert(trim_back(catalog_name(1)) == catalog_name(1));
        assert(lower(catalog_name(1)) =~= catalog_name(1));
    } else if i == 2 {
        assert(!crate::text::is_space(catalog_name(2)[0]));
        assert(trim_front(catalog_name(2)) == catalog_name(2));
        assert(!crate::text::is_space(catalog_name(2).last()));
        assert(trim_back(catalog_name(2)) == catalog_name(2));
        assert(lower(catalog_name(2)) =~= catalog_name(2));
    } else if i == 3 {
        assert(!crate::text::is_space(catalog_name(3)[0]));
        assert(trim_front(catalog_name(3)) == catalog_name(3));
        assert(!crate::text::is_space(catalog_name(3).last()));
        assert(trim_back(catalog_name(3)) == catalog_name(3));
        assert(lower(catalog_name(3)) =~= catalog_name(3));
    } else if i == 4 {
        assert(!crate::text::is_space(catalog_name(4)[0]));
        assert(trim_front(catalog_name(4)) == catalog_name(4));
        assert(!crate::text::is_space(catalog_name(4).last()));
        assert(trim_back(catalog_name(4)) == catalog_name(4));
        assert(lower(catalog_name(4)) =~= catalog_name(4));
    } else if i == 5 {
        assert(!crate::text::is_space(catalog_name(5)[0]));
        assert(trim_front(catalog_name(5)) == catalog_name(5));
        assert(!crate::text::is_space(catalog_name(5).last()));
        assert(trim_back(catalog_name(5)) == catalog_name(5));
        assert(lower(catalog_name(5)) =~= catalog_name(5));
    } else if i == 6 {
        assert(!crate::text::is_space(catalog_name(6)[0]));
        assert(trim_front(catalog_name(6)) == catalog_name(6));
        assert(!crate::text::is_space(catalog_name(6).last()));
        assert(trim_back(catalog_name(6)) == catalog_name(6));
        assert(lower(catalog_name(6)) =~= catalog_name(6));
    } else if i == 7 {
        assert(!crate::text::is_space(catalog_name(7)[0]));
        assert(trim_front(catalog_name(7)) == catalog_name(7));
        assert(!crate::text::is_space(catalog_name(7).last()));
        assert(trim_back(catalog_name(7)) == catalog_name(7));
        assert(lower(catalog_name(7)) =~= catalog_name(7));
    } else if i == 8 {
        assert(!crate::text::is_space(catalog_name(8)[0]));
        assert(trim_front(catalog_name(8)) == catalog_name(8));
        assert(!crate::text::is_space(catalog_name(8).last()));
        assert(trim_back(catalog_name(8)) == catalog_name(8));
        assert(lower(catalog_name(8)) =~= catalog_name(8));
    } else if i == 9 {
        assert(!crate::text::is_space(catalog_name(9)[0]));
        assert(trim_front(catalog_name(9)) == catalog_name(9));
        assert(!crate::text::is_space(catalog_name(9).last()));
        assert(trim_back(catalog_name(9)) == catalog_name(9));
        assert(lower(catalog_name(9)) =~= catalog_name(9));
    } else if i == 10 {
        assert(!crate::text::is_space(catalog_name(10)[0]));
        assert(trim_front(catalog_name(10)) == catalog_name(10));
        assert(!crate::text::is_space(catalog_name(10).last()));
        assert(trim_back(catalog_name(10)) == catalog_name(10));
        assert(lower(catalog_name(10)) =~= catalog_name(10));
    } else if i == 11 {
        assert(!crate::text::is_space(catalog_name(11)[0]));
        assert(trim_front(catalog_name(11)) == catalog_name(11));
        assert(!crate::text::is_space(catalog_name(11).last()));
        assert(trim_back(catalog_name(11)) == catalog_name(11));
        assert(lower(catalog_name(11)) =~= catalog_name(11));
    } else if i == 12 {
        assert(!crate::text::is_space(catalog_name(12)[0]));
        assert(trim_front(catalog_name(12)) == catalog_name(12));
        assert(!crate::text::is_space(catalog_name(12).last()));
        assert(trim_back(catalog_name(12)) == catalog_name(12));
        assert(lower(catalog_name(12)) =~= catalog_name(12));
    } else if i == 13 {
        assert(!crate::text::is_space(catalog_name(13)[0]));
        assert(trim_front(catalog_name(13)) == catalog_name(13));
        assert(!crate::text::is_space(catalog_name(13).last()));
        assert(trim_back(catalog_name(13)) == catalog_name(13));
        assert(lower(catalog_name(13)) =~= catalog_name(13));
    } else if i == 14 {
        assert(!crate::text::is_space(catalog_name(14)[0]));
        assert(trim_front(catalog_name(14)) == catalog_name(14));
        assert(!crate::text::is_space(catalog_name(14).last()));
        assert(trim_back(catalog_name(14)) == catalog_name(14));
        assert(lower(catalog_name(14)) =~= catalog_name(14));
    } else if i == 15 {
        assert(!crate::text::is_space(catalog_name(15)[0]));
        assert(trim_front(catalog_name(15)) == catalog_name(15));
        assert(!crate::text::is_space(catalog_name(15).last()));
        assert(trim_back(catalog_name(15)) == catalog_name(15));
        assert(lower(catalog_name(15)) =~= catalog_name(15));
    } else if i == 16 {
        assert(!crate::text::is_space(catalog_name(16)[0]));
        assert(trim_front(catalog_name(16)) == catalog_name(16));
        assert(!crate::text::is_space(catalog_name(16).last()));
        assert(trim_back(catalog_name(16)) == catalog_name(16));
        assert(lower(catalog_name(16)) =~= catalog_name(16));
    } else if i == 17 {
        assert(!crate::text::is_space(catalog_name(17)[0]));
        assert(trim_front(catalog_name(17)) == catalog_name(17));
        assert(!crate::text::is_space(catalog_name(17).last()));
        assert(trim_back(catalog_name(17)) == catalog_name(17));
        assert(lower(catalog_name(17)) =~= catalog_name(17));
    } else if i == 18 {
        assert(!crate::text::is_space(catalog_name(18)[0]));
        assert(trim_front(catalog_name(18)) == catalog_name(18));
        assert(!crate::text::is_space(catalog_name(18).last()));
        assert(trim_back(catalog_name(18)) == catalog_name(18));
        assert(lower(catalog_name(18)) =~= catalog_name(18));
    } else if i == 19 {
        assert(!crate::text::is_space(catalog_name(19)[0]));
        assert(trim_front(catalog_name(19)) == catalog_name(19));
        assert(!crate::text::is_space(catalog_name(19).last()));
        assert(trim_back(catalog_name(19)) == catalog_name(19));
        assert(lower(catalog_name(19)) =~= catalog_name(19));
    } else if i == 20 {
        assert(!crate::text::is_space(catalog_name(20)[0]));
        assert(trim_front(catalog_name(20)) == catalog_name(20));
        assert(!crate::text::is_space(catalog_name(20).last()));
        assert(trim_back(catalog_name(20)) == catalog_name(20));
        assert(lower(catalog_name(20)) =~= catalog_name(20));
    } else if i == 21 {
        assert(!crate::text::is_space(catalog_name(21)[0]));
        assert(trim_front(catalog_name(21)) == catalog_name(21));
        assert(!crate::text::is_space(catalog_name(21).last()));
        assert(trim_back(catalog_name(21)) == catalog_name(21));
        assert(lower(catalog_name(21)) =~= catalog_name(21));
    } else if i == 22 {
        assert(!crate::text::is_space(catalog_name(22)[0]));
        assert(trim_front(catalog_name(22)) == catalog_name(22));
        assert(!crate::text::is_space(catalog_name(22).last()));
        assert(trim_back(catalog_name(22)) == catalog_name(22));
        assert(lower(catalog_name(22)) =~= catalog_name(22));
    } else if i == 23 {
        assert(!crate::text::is_space(catalog_name(23)[0]));
        assert(trim_front(catalog_name(23)) == catalog_name(23));
        assert(!crate::text::is_space(catalog_name(23).last()));
        assert(trim_back(catalog_name(23)) == catalog_name(23));
        assert(lower(catalog_name(23)) =~= catalog_name(23));
    } else if i == 24 {
        assert(!crate::text::is_space(catalog_name(24)[0]));
        assert(trim_front(catalog_name(24)) == catalog_name(24));
        assert(!crate::text::is_space(catalog_name(24).last()));
        assert(trim_back(catalog_name(24)) == catalog_name(24));
        assert(lower(catalog_name(24)) =~= catalog_name(24));
    } else if i == 25 {
        assert(!crate::text::is_space(catalog_name(25)[0]));
        assert(trim_front(catalog_name(25)) == catalog_name(25));
        assert(!crate::text::is_space(catalog_name(25).last()));
        assert(trim_back(catalog_name(25)) == catalog_name(25));
        assert(lower(catalog_name(25)) =~= catalog_name(25));
    } else if i == 26 {
        assert(!crate::text::is_space(catalog_name(26)[0]));
        assert(trim_front(catalog_name(26)) == catalog_name(26));
        assert(!crate::text::is_space(catalog_name(26).last()));
        assert(trim_back(catalog_name(26)) == catalog_name(26));
        assert(lower(catalog_name(26)) =~= catalog_name(26));
    } else if i == 27 {
        assert(!crate::text::is_space(catalog_name(27)[0]));
        assert(trim_front(catalog_name(27)) == catalog_name(27));
        assert(!crate::text::is_space(catalog_name(27).last()));
        assert(trim_back(catalog_name(27)) == catalog_name(27));
        assert(lower(catalog_name(27)) =~= catalog_name(27));
    } else if i == 28 {
        assert(!crate::text::is_space(catalog_name(28)[0]));
        assert(trim_front(catalog_name(28)) == catalog_name(28));
        assert(!crate::text::is_space(catalog_name(28).last()));
        assert(trim_back(catalog_name(28)) == catalog_name(28));
        assert(lower(catalog_name(28)) =~= catalog_name(28));
    } else if i == 29 {
        assert(!crate::text::is_space(catalog_name(29)[0]));
        assert(trim_front(catalog_name(29)) == catalog_name(29));
        assert(!crate::text::is_space(catalog_name(29).last()));
        assert(trim_back(catalog_name(29)) == catalog_name(29));
        assert(lower(catalog_name(29)) =~= catalog_name(29));
    } else if i == 30 {
        assert(!crate::text::is_space(catalog_name(30)[0]));
        assert(trim_front(catalog_name(30)) == catalog_name(30));
        assert(!crate::text::is_space(catalog_name(30).last()));
        assert(trim_back(catalog_name(30)) == catalog_name(30));
        assert(lower(catalog_name(30)) =~= catalog_name(30));
    } else if i == 31 {
        assert(!crate::text::is_space(catalog_name(31)[0]));
        assert(trim_front(catalog_name(31)) == catalog_name(31));
        assert(!crate::text::is_space(catalog_name(31).last()));
        assert(trim_back(catalog_name(31)) == catalog_name(31));
        assert(lower(catalog_name(31)) =~= catalog_name(31));
    } else if i == 32 {
        assert(!crate::text::is_space(catalog_name(32)[0]));
        assert(trim_front(catalog_name(32)) == catalog_name(32));
        assert(!crate::text::is_space(catalog_name(32).last()));
        assert(trim_back(catalog_name(32)) == catalog_name(32));
        assert(lower(catalog_name(32)) =~= catalog_name(32));
    } else if i == 33 {
        assert(!crate::text::is_space(catalog_name(33)[0]));
        assert(trim_front(catalog_name(33)) == catalog_name(33));
        assert(!crate::text::is_space(catalog_name(33).last()));
        assert(trim_back(catalog_name(33)) == catalog_name(33));
        assert(lower(catalog_name(33)) =~= catalog_name(33));
    } else if i == 34 {
        assert(!crate::text::is_space(catalog_name(34)[0]));
        assert(trim_front(catalog_name(34)) == catalog_name(34));
        assert(!crate::text::is_space(catalog_name(34).last()));
        assert(trim_back(catalog_name(34)) == catalog_name(34));
        assert(lower(catalog_name(34)) =~= catalog_name(34));
    } else if i == 35 {
        assert(!crate::text::is_space(catalog_name(35)[0]));
        assert(trim_front(catalog_name(35)) == catalog_name(35));
        assert(!crate::text::is_space(catalog_name(35).last()));
        assert(trim_back(catalog_name(35)) == catalog_name(35));
        assert(lower(catalog_name(35)) =~= catalog_name(35));
    } else if i == 36 {
        assert(!crate::text::is_space(catalog_name(36)[0]));
        assert(trim_front(catalog_name(36)) == catalog_name(36));
        assert(!crate::text::is_space(catalog_name(36).last()));
        assert(trim_back(catalog_name(36)) == catalog_name(36));
        assert(lower(catalog_name(36)) =~= catalog_name(36));
    } else if i == 37 {
        assert(!crate::text::is_space(catalog_name(37)[0]));
        assert(trim_front(catalog_name(37)) == catalog_name(37));
        assert(!crate::text::is_space(catalog_name(37).last()));
        assert(trim_back(catalog_name(37)) == catalog_name(37));
        assert(lower(catalog_name(37)) =~= catalog_name(37));
    } else if i == 38 {
        assert(!crate::text::is_space(catalog_name(38)[0]));
        assert(trim_front(catalog_name(38)) == catalog_name(38));
        assert(!crate::text::is_space(catalog_name(38).last()));
        assert(trim_back(catalog_name(38)) == catalog_name(38));
        assert(lower(catalog_name(38)) =~= catalog_name(38));
    } else if i == 39 {
        assert(!crate::text::is_space(catalog_name(39)[0]));
        assert(trim_front(catalog_name(39)) == catalog_name(39));
        assert(!crate::text::is_space(catalog_name(39).last()));
        assert(trim_back(catalog_name(39)) == catalog_name(39));
        assert(lower(catalog_name(39)) =~= catalog_name(39));
    } else if i == 40 {
        assert(!crate::text::is_space(catalog_name(40)[0]));
        assert(trim_front(catalog_name(40)) == catalog_name(40));
        assert(!crate::text::is_space(catalog_name(40).last()));
        assert(trim_back(catalog_name(40)) == catalog_name(40));
        assert(lower(catalog_name(40)) =~= catalog_name(40));
    } else if i == 41 {
        assert(!crate::text::is_space(catalog_name(41)[0]));
        assert(trim_front(catalog_name(41)) == catalog_name(41));
        assert(!crate::text::is_space(catalog_name(41).last()));
        assert(trim_back(catalog_name(41)) == catalog_name(41));
        assert(lower(catalog_name(41)) =~= catalog_name(41));
    } else if i == 42 {
        assert(!crate::text::is_space(catalog_name(42)[0]));
        assert(trim_front(catalog_name(42)) == catalog_name(42));
        assert(!crate::text::is_space(catalog_name(42).last()));
        assert(trim_back(catalog_name(42)) == catalog_name(42));
        assert(lower(catalog_name(42)) =~= catalog_name(42));
    } else if i == 43 {
        assert(!crate::text::is_space(catalog_name(43)[0]));
        assert(trim_front(catalog_name(43)) == catalog_name(43));
        assert(!crate::text::is_space(catalog_name(43).last()));
        assert(trim_back(catalog_name(43)) == catalog_name(43));
        assert(lower(catalog_name(43)) =~= catalog_name(43));
    } else if i == 44 {
        assert(!crate::text::is_space(catalog_name(44)[0]));
        assert(trim_front(catalog_name(44)) == catalog_name(44));
        assert(!crate::text::is_space(catalog_name(44).last()));
        assert(trim_back(catalog_name(44)) == catalog_name(44));
        assert(lower(catalog_name(44)) =~= catalog_name(44));
    } else if i == 45 {
        assert(!crate::text::is_space(catalog_name(45)[0]));
        assert(trim_front(catalog_name(45)) == catalog_name(45));
        assert(!crate::text::is_space(catalog_name(45).last()));
        assert(trim_back(catalog_name(45)) == catalog_name(45));
        assert(lower(catalog_name(45)) =~= catalog_name(45));
    } else if i == 46 {
        assert(!crate::text::is_space(catalog_name(46)[0]));
        assert(trim_front(catalog_name(46)) == catalog_name(46));
        assert(!crate::text::is_space(catalog_name(46).last()));
        assert(trim_back(catalog_name(46)) == catalog_name(46));
        assert(lower(catalog_name(46)) =~= catalog_name(46));
    } else if i == 47 {
        assert(!crate::text::is_space(catalog_name(47)[0]));
        assert(trim_front(catalog_name(47)) == catalog_name(47));
        assert(!crate::text::is_space(catalog_name(47).last()));
        assert(trim_back(catalog_name(47)) == catalog_name(47));
        assert(lower(catalog_name(47)) =~= catalog_name(47));
    } else if i == 48 {
        assert(!crate::text::is_space(catalog_name(48)[0]));
        assert(trim_front(catalog_name(48)) == catalog_name(48));
        assert(!crate::text::is_space(catalog_name(48).last()));
        assert(trim_back(catalog_name(48)) == catalog_name(48));
        assert(lower(catalog_name(48)) =~= catalog_name(48));
    } else if i == 49 {
        assert(!crate::text::is_space(catalog_name(49)[0]));
        assert(trim_front(catalog_name(49)) == catalog_name(49));
        assert(!crate::text::is_space(catalog_name(49).last()));
        assert(trim_back(catalog_name(49)) == catalog_name(49));
        assert(lower(catalog_name(49)) =~= catalog_name(49));
    } else if i == 50 {
        assert(!crate::text::is_space(catalog_name(50)[0]));
        assert(trim_front(catalog_name(50)) == catalog_name(50));
        assert(!crate::text::is_space(catalog_name(50).last()));
        assert(trim_back(catalog_name(50)) == catalog_name(50));
        assert(lower(catalog_name(50)) =~= catalog_name(50));
    } else if i == 51 {
        assert(!crate::text::is_space(catalog_name(51)[0]));
        assert(trim_front(catalog_name(51)) == catalog_name(51));
        assert(!crate::text::is_space(catalog_name(51).last()));
        assert(trim_back(catalog_name(51)) == catalog_name(51));
        assert(lower(catalog_name(51)) =~= catalog_name(51));
    } else if i == 52 {
        assert(!crate::text::is_space(catalog_name(52)[0]));
        assert(trim_front(catalog_name(52)) == catalog_name(52));
        assert(!crate::text::is_space(catalog_name(52).last()));
        assert(trim_back(catalog_name(52)) == catalog_name(52));
        assert(lower(catalog_name(52)) =~= catalog_name(52));
    } else if i == 53 {
        assert(!crate::text::is_space(catalog_name(53)[0]));
        assert(trim_front(catalog_name(53)) == catalog_name(53));
        assert(!crate::text::is_space(catalog_name(53).last()));
        assert(trim_back(catalog_name(53)) == catalog_name(53));
        assert(lower(catalog_name(53)) =~= catalog_name(53));
    } else if i == 54 {
        assert(!crate::text::is_space(catalog_name(54)[0]));
        assert(trim_front(catalog_name(54)) == catalog_name(54));
        assert(!crate::text::is_space(catalog_name(54).last()));
        assert(trim_back(catalog_name(54)) == catalog_name(54));
        assert(lower(catalog_name(54)) =~= catalog_name(54));
    } else if i == 55 {
        assert(!crate::text::is_space(catalog_name(55)[0]));
        assert(trim_front(catalog_name(55)) == catalog_name(55));
        assert(!crate::text::is_space(catalog_name(55).last()));
        assert(trim_back(catalog_name(55)) == catalog_name(55));
        assert(lower(catalog_name(55)) =~= catalog_name(55));
    } else if i == 56 {
        assert(!crate::text::is_space(catalog_name(56)[0]));
        assert(trim_front(catalog_name(56)) == catalog_name(56));
        assert(!crate::text::is_space(catalog_name(56).last()));
        assert(trim_back(catalog_name(56)) == catalog_name(56));
        assert(lower(catalog_name(56)) =~= catalog_name(56));
    } else if i == 57 {
        assert(!crate::text::is_space(catalog_name(57)[0]));
        assert(trim_front(catalog_name(57)) == catalog_name(57));
        assert(!crate::text::is_space(catalog_name(57).last()));
        assert(trim_back(catalog_name(57)) == catalog_name(57));
        assert(lower(catalog_name(57)) =~= catalog_name(57));
    } else if i == 58 {
        assert(!crate::text::is_space(catalog_name(58)[0]));
        assert(trim_front(catalog_name(58)) == catalog_name(58));
        assert(!crate::text::is_space(catalog_name(58).last()));
        assert(trim_back(catalog_name(58)) == catalog_name(58));
        assert(lower(catalog_name(58)) =~= catalog_name(58));
    } else if i == 59 {
        assert(!crate::text::is_space(catalog_name(59)[0]));
        assert(trim_front(catalog_name(59)) == catalog_name(59));
        assert(!crate::text::is_space(catalog_name(59).last()));
        assert(trim_back(catalog_name(59)) == catalog_name(59));
        assert(lower(catalog_name(59)) =~= catalog_name(59));
    } else if i == 60 {
        assert(!crate::text::is_space(catalog_name(60)[0]));
        assert(trim_front(catalog_name(60)) == catalog_name(60));
        assert(!crate::text::is_space(catalog_name(60).last()));
        assert(trim_back(catalog_name(60)) == catalog_name(60));
        assert(lower(catalog_name(60)) =~= catalog_name(60));
    } else if i == 61 {
        assert(!crate::text::is_space(catalog_name(61)[0]));
        assert(trim_front(catalog_name(61)) == catalog_name(61));
        assert(!crate::text::is_space(catalog_name(61).last()));
        assert(trim_back(catalog_name(61)) == catalog_name(61));
        assert(lower(catalog_name(61)) =~= catalog_name(61));
    } else if i == 62 {
        assert(!crate::text::is_space(catalog_name(62)[0]));
        assert(trim_front(catalog_name(62)) == catalog_name(62));
        assert(!crate::text::is_space(catalog_name(62).last()));
        assert(trim_back(catalog_name(62)) == catalog_name(62));
        assert(lower(catalog_name(62)) =~= catalog_name(62));
    } else if i == 63 {
        assert(!crate::text::is_space(catalog_name(63)[0]));
        assert(trim_front(catalog_name(63)) == catalog_name(63));
        assert(!crate::text::is_space(catalog_name(63).last()));
        assert(trim_back(catalog_name(63)) == catalog_name(63));
        assert(lower(catalog_name(63)) =~= catalog_name(63));
    } else if i == 64 {
        assert(!crate::text::is_space(catalog_name(64)[0]));
        assert(trim_front(catalog_name(64)) == catalog_name(64));
        assert(!crate::text::is_space(catalog_name(64).last()));
        assert(trim_back(catalog_name(64)) == catalog_name(64));
        assert(lower(catalog_name(64)) =~= catalog_name(64));
    } else if i == 65 {
        assert(!crate::text::is_space(catalog_name(65)[0]));
        assert(trim_front(catalog_name(65)) == catalog_name(65));
        assert(!crate::text::is_space(catalog_name(65).last()));
        assert(trim_back(catalog_name(65)) == catalog_name(65));
        assert(lower(catalog_name(65)) =~= catalog_name(65));
    } else if i == 66 {
        assert(!crate::text::is_space(catalog_name(66)[0]));
        assert(trim_front(catalog_name(66)) == catalog_name(66));
        assert(!crate::text::is_space(catalog_name(66).last()));
        assert(trim_back(catalog_name(66)) == catalog_name(66));
        assert(lower(catalog_name(66)) =~= catalog_name(66));
    } else if i == 67 {
        assert(!crate::text::is_space(catalog_name(67)[0]));
        assert(trim_front(catalog_name(67)) == catalog_name(67));
        assert(!crate::text::is_space(catalog_name(67).last()));
        assert(trim_back(catalog_name(67)) == catalog_name(67));
        assert(lower(catalog_name(67)) =~= catalog_name(67));
    } else if i == 68 {
        assert(!crate::text::is_space(catalog_name(68)[0]));
        assert(trim_front(catalog_name(68)) == catalog_name(68));
        assert(!crate::text::is_space(catalog_name(68).last()));
        assert(trim_back(catalog_name(68)) == catalog_name(68));
        assert(lower(catalog_name(68)) =~= catalog_name(68));
    } else if i == 69 {
        assert(!crate::text::is_space(catalog_name(69)[0]));
        assert(trim_front(catalog_name(69)) == catalog_name(69));
        assert(!crate::text::is_space(catalog_name(69).last()));
        assert(trim_back(catalog_name(69)) == catalog_name(69));
        assert(lower(catalog_name(69)) =~= catalog_name(69));
    } else if i == 70 {
        assert(!crate::text::is_space(catalog_name(70)[0]));
        assert(trim_front(catalog_name(70)) == catalog_name(70));
        assert(!crate::text::is_space(catalog_name(70).last()));
        assert(trim_back(catalog_name(70)) == catalog_name(70));
        assert(lower(catalog_name(70)) =~= catalog_name(70));
    } else if i == 71 {
        assert(!crate::text::is_space(catalog_name(71)[0]));
        assert(trim_front(catalog_name(71)) == catalog_name(71));
        assert(!crate::text::is_space(catalog_name(71).last()));
        assert(trim_back(catalog_name(71)) == catalog_name(71));
        assert(lower(catalog_name(71)) =~= catalog_name(71));
    } else if i == 72 {
        assert(!crate::text::is_space(catalog_name(72)[0]));
        assert(trim_front(catalog_name(72)) == catalog_name(72));
        assert(!crate::text::is_space(catalog_name(72).last()));
        assert(trim_back(catalog_name(72)) == catalog_name(72));
        assert(lower(catalog_name(72)) =~= catalog_name(72));
    } else if i == 73 {
        assert(!crate::text::is_space(catalog_name(73)[0]));
        assert(trim_front(catalog_name(73)) == catalog_name(73));
        assert(!crate::text::is_space(catalog_name(73).last()));
        assert(trim_back(catalog_name(73)) == catalog_name(73));
        assert(lower(catalog_name(73)) =~= catalog_name(73));
    } else if i == 74 {
        assert(!crate::text::is_space(catalog_name(74)[0]));
        assert(trim_front(catalog_name(74)) == catalog_name(74));
        assert(!crate::text::is_space(catalog_name(74).last()));
        assert(trim_back(catalog_name(74)) == catalog_name(74));
        assert(lower(catalog_name(74)) =~= catalog_name(74));
    } else if i == 75 {
        assert(!crate::text::is_space(catalog_name(75)[0]));
        assert(trim_front(catalog_name(75)) == catalog_name(75));
        assert(!crate::text::is_space(catalog_name(75).last()));
        assert(trim_back(catalog_name(75)) == catalog_name(75));
        assert(lower(catalog_name(75)) =~= catalog_name(75));
    } else if i == 76 {
        assert(!crate::text::is_space(catalog_name(76)[0]));
        assert(trim_front(catalog_name(76)) == catalog_name(76));
        assert(!crate::text::is_space(catalog_name(76).last()));
        assert(trim_back(catalog_name(76)) == catalog_name(76));
        assert(lower(catalog_name(76)) =~= catalog_name(76));
    } else if i == 77 {
        assert(!crate::text::is_space(catalog_name(77)[0]));
        assert(trim_front(catalog_name(77)) == catalog_name(77));
        assert(!crate::text::is_space(catalog_name(77).last()));
        assert(trim_back(catalog_name(77)) == catalog_name(77));
        assert(lower(catalog_name(77)) =~= catalog_name(77));
    } else if i == 78 {
        assert(!crate::text::is_space(catalog_name(78)[0]));
        assert(trim_front(catalog_name(78)) == catalog_name(78));
        assert(!crate::text::is_space(catalog_name(78).last()));
        assert(trim_back(catalog_name(78)) == catalog_name(78));
        assert(lower(catalog_name(78)) =~= catalog_name(78));
    } else if i == 79 {
        assert(!crate::text::is_space(catalog_name(79)[0]));
        assert(trim_front(catalog_name(79)) == catalog_name(79));
        assert(!crate::text::is_space(catalog_name(79).last()));
        assert(trim_back(catalog_name(79)) == catalog_name(79));
        assert(lower(catalog_name(79)) =~= catalog_name(79));
    } else if i == 80 {
        assert(!crate::text::is_space(catalog_name(80)[0]));
        assert(trim_front(catalog_name(80)) == catalog_name(80));
        assert(!crate::text::is_space(catalog_name(80).last()));
        assert(trim_back(catalog_name(80)) == catalog_name(80));
        assert(lower(catalog_name(80)) =~= catalog_name(80));
    } else if i == 81 {
        assert(!crate::text::is_space(catalog_name(81)[0]));
        assert(trim_front(catalog_name(81)) == catalog_name(81));
        assert(!crate::text::is_space(catalog_name(81).last()));
        assert(trim_back(catalog_name(81)) == catalog_name(81));
        assert(lower(catalog_name(81)) =~= catalog_name(81));
    } else if i == 82 {
        assert(!crate::text::is_space(catalog_name(82)[0]));
        assert(trim_front(catalog_name(82)) == catalog_name(82));
        assert(!crate::text::is_space(catalog_name(82).last()));
        assert(trim_back(catalog_name(82)) == catalog_name(82));
        assert(lower(catalog_name(82)) =~= catalog_name(82));
    } else if i == 83 {
        assert(!crate::text::is_space(catalog_name(83)[0]));
        assert(trim_front(catalog_name(83)) == catalog_name(83));
        assert(!crate::text::is_space(catalog_name(83).last()));
        assert(trim_back(catalog_name(83)) == catalog_name(83));
        assert(lower(catalog_name(83)) =~= catalog_name(83));
    } else if i == 84 {
        assert(!crate::text::is_space(catalog_name(84)[0]));
        assert(trim_front(catalog_name(84)) == catalog_name(84));
        assert(!crate::text::is_space(catalog_name(84).last()));
        assert(trim_back(catalog_name(84)) == catalog_name(84));
        assert(lower(catalog_name(84)) =~= catalog_name(84));
    } else if i == 85 {
        assert(!crate::text::is_space(catalog_name(85)[0]));
        assert(trim_front(catalog_name(85)) == catalog_name(85));
        assert(!crate::text::is_space(catalog_name(85).last()));
        assert(trim_back(catalog_name(85)) == catalog_name(85));
        assert(lower(catalog_name(85)) =~= catalog_name(85));
    } else if i == 86 {
        assert(!crate::text::is_space(catalog_name(86)[0]));
        assert(trim_front(catalog_name(86)) == catalog_name(86));
        assert(!crate::text::is_space(catalog_name(86).last()));
        assert(trim_back(catalog_name(86)) == catalog_name(86));
        assert(lower(catalog_name(86)) =~= catalog_name(86));
    } else if i == 87 {
        assert(!crate::text::is_space(catalog_name(87)[0]));
        assert(trim_front(catalog_name(87)) == catalog_name(87));
        assert(!crate::text::is_space(catalog_name(87).last()));
        assert(trim_back(catalog_name(87)) == catalog_name(87));
        assert(lower(catalog_name(87)) =~= catalog_name(87));
    } else if i == 88 {
        assert(!crate::text::is_space(catalog_name(88)[0]));
        assert(trim_front(catalog_name(88)) == catalog_name(88));
        assert(!crate::text::is_space(catalog_name(88).last()));
        assert(trim_back(catalog_name(88)) == catalog_name(88));
        assert(lower(catalog_name(88)) =~= catalog_name(88));
    } else if i == 89 {
        assert(!crate::text::is_space(catalog_name(89)[0]));
        assert(trim_front(catalog_name(89)) == catalog_name(89));
        assert(!crate::text::is_space(catalog_name(89).last()));
        assert(trim_back(catalog_name(89)) == catalog_name(89));
        assert(lower(catalog_name(89)) =~= catalog_name(89));
    } else if i == 90 {
        assert(!crate::text::is_space(catalog_name(90)[0]));
        assert(trim_front(catalog_name(90)) == catalog_name(90));
        assert(!crate::text::is_space(catalog_name(90).last()));
        assert(trim_back(catalog_name(90)) == catalog_name(90));
        assert(lower(catalog_name(90)) =~= catalog_name(90));
    } else if i == 91 {
        assert(!crate::text::is_space(catalog_name(91)[0]));
        assert(trim_front(catalog_name(91)) == catalog_name(91));
        assert(!crate::text::is_space(catalog_name(91).last()));
        assert(trim_back(catalog_name(91)) == catalog_name(91));
        assert(lower(catalog_name(91)) =~= catalog_name(91));
    } else if i == 92 {
        assert(!crate::text::is_space(catalog_name(92)[0]));
        assert(trim_front(catalog_name(92)) == catalog_name(92));
        assert(!crate::text::is_space(catalog_name(92).last()));
        assert(trim_back(catalog_name(92)) == catalog_name(92));
        assert(lower(catalog_name(92)) =~= catalog_name(92));
    } else if i == 93 {
        assert(!crate::text::is_space(catalog_name(93)[0]));
        assert(trim_front(catalog_name(93)) == catalog_name(93));
        assert(!crate::text::is_space(catalog_name(93).last()));
        assert(trim_back(catalog_name(93)) == catalog_name(93));
        assert(lower(catalog_name(93)) =~= catalog_name(93));
    } else if i == 94 {
        assert(!crate::text::is_space(catalog_name(94)[0]));
        assert(trim_front(catalog_name(94)) == catalog_name(94));
        assert(!crate::text::is_space(catalog_name(94).last()));
        assert(trim_back(catalog_name(94)) == catalog_name(94));
        assert(lower(catalog_name(94)) =~= catalog_name(94));
    } else if i == 95 {
        assert(!crate::text::is_space(catalog_name(95)[0]));
        assert(trim_front(catalog_name(95)) == catalog_name(95));
        assert(!crate::text::is_space(catalog_name(95).last()));
        assert(trim_back(catalog_name(95)) == catalog_name(95));
        assert(lower(catalog_name(95)) =~= catalog_name(95));
    } else if i == 96 {
        assert(!crate::text::is_space(catalog_name(96)[0]));
        assert(trim_front(catalog_name(96)) == catalog_name(96));
        assert(!crate::text::is_space(catalog_name(96).last()));
        assert(trim_back(catalog_name(96)) == catalog_name(96));
        assert(lower(catalog_name(96)) =~= catalog_name(96));
    } else if i == 97 {
        assert(!crate::text::is_space(catalog_name(97)[0]));
        assert(trim_front(catalog_name(97)) == catalog_name(97));
        assert(!crate::text::is_space(catalog_name(97).last()));
        assert(trim_back(catalog_name(97)) == catalog_name(97));
        assert(lower(catalog_name(97)) =~= catalog_name(97));
    } else if i == 98 {
        assert(!crate::text::is_space(catalog_name(98)[0]));
        assert(trim_front(catalog_name(98)) == catalog_name(98));
        assert(!crate::text::is_space(catalog_name(98).last()));
        assert(trim_back(catalog_name(98)) == catalog_name(98));
        assert(lower(catalog_name(98)) =~= catalog_name(98));
    } else if i == 99 {
        assert(!crate::text::is_space(catalog_name(99)[0]));
        assert(trim_front(catalog_name(99)) == catalog_name(99));
        assert(!crate::text::is_space(catalog_name(99).last()));
        assert(trim_back(catalog_name(99)) == catalog_name(99));
        assert(lower(catalog_name(99)) =~= catalog_name(99));
    } else if i == 100 {
        assert(!crate::text::is_space(catalog_name(100)[0]));
        assert(trim_front(catalog_name(100)) == catalog_name(100));
        assert(!crate::text::is_space(catalog_name(100).last()));
        assert(trim_back(catalog_name(100)) == catalog_name(100));
        assert(lower(catalog_name(100)) =~= catalog_name(100));
    } else if i == 101 {
        assert(!crate::text::is_space(catalog_name(101)[0]));
        assert(trim_front(catalog_name(101)) == catalog_name(101));
        assert(!crate::text::is_space(catalog_name(101).last()));
        assert(trim_back(catalog_name(101)) == catalog_name(101));
        assert(lower(catalog_name(101)) =~= catalog_name(101));
    } else if i == 102 {
        assert(!crate::text::is_space(catalog_name(102)[0]));
        assert(trim_front(catalog_name(102)) == catalog_name(102));
        assert(!crate::text::is_space(catalog_name(102).last()));
        assert(trim_back(catalog_name(102)) == catalog_name(102));
        assert(lower(catalog_name(102)) =~= catalog_name(102));
    }
}

/// A lookup over entries that all differ from the text finds nothing.
proof fn lemma_lookup_misses(s: Seq<char>, k: int)
    requires
        0 <= k <= catalog_len(),
        forall|j: int| k <= j < catalog_len() ==> catalog_name(j) != s,
    ensures
        movement_lookup(s, k) is None,
    decreases catalog_len() - k,
{
    if k < catalog_len() {
        lemma_lookup_misses(s, k + 1);
    }
}

/// The best index over a prefix attains the minimum distance there, and
/// every earlier entry lies strictly farther away.
proof fn lemma_best_index_props(s: Seq<char>, k: int)
    requires
        1 <= k <= catalog_len(),
    ensures
        0 <= best_index(s, k) < k,
        forall|j: int|
            0 <= j < k ==> edit_distance(s, catalog_name(best_index(s, k))) <= edit_distance(
                s,
                #[trigger] catalog_name(j),
            ),
        forall|j: int|
            0 <= j < best_index(s, k) ==> edit_distance(s, #[trigger] catalog_name(j))
                > edit_distance(s, catalog_name(best_index(s, k))),
    decreases k,
{
    if k > 1 {
        lemma_best_index_props(s, k - 1);
    }
}

/// A text that is no catalog name, lies within one edit of the entry at
/// `i`, and lies farther than one edit from every earlier entry, fails to
/// resolve, and the suggestion is exactly that entry.
pub proof fn lemma_one_edit_suggestion(s: Seq<char>, i: int)
    requires
        0 <= i < catalog_len(),
        forall|j: int| 0 <= j < catalog_len() ==> #[trigger] catalog_name(j) != s,
        edit_distance(s, catalog_name(i)) <= 1,
        forall|j: int| 0 <= j < i ==> edit_distance(s, #[trigger] catalog_name(j)) > 1,
    ensures
        movement_lookup(s, 0) is None,
        suggestion_of(s) == catalog_name(i),
{
    lemma_lookup_misses(s, 0);
    assert forall|j: int| 0 <= j < catalog_len() implies edit_distance(
        s,
        #[trigger] catalog_name(j),
    ) >= 1 by {
        if edit_distance(s, catalog_name(j)) == 0 {
            lemma_edit_distance_zero(s, catalog_name(j));
        }
    }
    assert(edit_distance(s, catalog_name(i)) == 1);
    lemma_best_index_props(s, catalog_len());
    let b = best_index(s, catalog_len());
    assert(edit_distance(s, catalog_name(b)) <= edit_distance(s, catalog_name(i)));
    assert(edit_distance(s, catalog_name(b)) == 1);
    if b < i {
        assert(edit_distance(s, catalog_name(b)) > 1);
    }
    if b > i {
        assert(edit_distance(s, catalog_name(i)) > edit_distance(s, catalog_name(b)));
    }
    assert(b == i);
}

/// Resolution is a function of the text alone: equal texts resolve alike.
pub proof fn lemma_resolve_deterministic(s1: Seq<char>, s2: Seq<char>)
    requires
        s1 == s2,
    ensures
        movement_of(s1) == movement_of(s2),
{
}


/// The length of each catalog name, as a plain number.
pub open spec fn catalog_name_len(i: int) -> int {
    if i == 0 {
        9
    } else if i == 1 {
        11
    } else if i == 2 {
        10
    } else if i == 3 {
        3
    } else if i == 4 {
        14
    } else if i == 5 {
        12
    } else if i == 6 {
        12
    } else if i == 7 {
        8
    } else if i == 8 {
        13
    } else if i == 9 {
        17
    } else if i == 10 {
        14
    } else if i == 11 {
        10
    } else if i == 12 {
        9
    } else if i == 13 {
        10
    } else if i == 14 {
        11
    } else if i == 15 {
        5
    } else if i == 16 {
        11
    } else if i == 17 {
        10
    } else if i == 18 {
        16
    } else if i == 19 {
        14
    } else if i == 20 {
        20
    } else if i == 21 {
        10
    } else if i == 22 {
        14
    } else if i == 23 {
        6
    } else if i == 24 {
        12
    } else if i == 25 {
        11
    } else if i == 26 {
        17
    } else if i == 27 {
        14
    } else if i == 28 {
        11
    } else if i == 29 {
        15
    } else if i == 30 {
        13
    } else if i == 31 {
        7
    } else if i == 32 {
        7
    } else if i == 33 {
        7
    } else if i == 34 {
        3
    } else if i == 35 {
        12
    } else if i == 36 {
        9
    } else if i == 37 {
        13
    } else if i == 38 {
        6
    } else if i == 39 {
        14
    } else if i == 40 {
        7
    } else if i == 41 {
        3
    } else if i == 42 {
        11
    } else if i == 43 {
        15
    } else if i == 44 {
        5
    } else if i == 45 {
        6
    } else if i == 46 {
        4
    } else if i == 47 {
        3
    } else if i == 48 {
        14
    } else if i == 49 {
        5
    } else if i == 50 {
        4
    } else if i == 51 {
        17
    } else if i == 52 {
        14
    } else if i == 53 {
        7
    } else if i == 54 {
        3
    } else if i == 55 {
        9
    } else if i == 56 {
        14
    } else if i == 57 {
        8
    } else if i == 58 {
        16
    } else if i == 59 {
        15
    } else if i == 60 {
        22
    } else if i == 61 {
        6
    } else if i == 62 {
        8
    } else if i == 63 {
        13
    } else if i == 64 {
        15
    } else if i == 65 {
        20
    } else if i == 66 {
        19
    } else if i == 67 {
        16
    } else if i == 68 {
        14
    } else if i == 69 {
        2
    } else if i == 70 {
        12
    } else if i == 71 {
        9
    } else if i == 72 {
        16
    } else if i == 73 {
        14
    } else if i == 74 {
        12
    } else if i == 75 {
        9
    } else if i == 76 {
        9
    } else if i == 77 {
        9
    } else if i == 78 {
        10
    } else if i == 79 {
        2
    } else if i == 80 {
        18
    } else if i == 81 {
        10
    } else if i == 82 {
        13
    } else if i == 83 {
        5
    } else if i == 84 {
        11
    } else if i == 85 {
        10
    } else if i == 86 {
        3
    } else if i == 87 {
        3
    } else if i == 88 {
        4
    } else if i == 89 {
        9
    } else if i == 90 {
        3
    } else if i == 91 {
        9
    } else if i == 92 {
        8
    } else if i == 93 {
        14
    } else if i == 94 {
        13
    } else if i == 95 {
        15
    } else if i == 96 {
        14
    } else if i == 97 {
        20
    } else if i == 98 {
        19
    } else if i == 99 {
        23
    } else if i == 100 {
        17
    } else if i == 101 {
        11
    } else if i == 102 {
        4
    } else {
        0
    }
}

/// The catalog names have the recorded lengths.
proof fn lemma_catalog_name_lens()
    ensures
        forall|i: int|
            0 <= i < catalog_len() ==> (#[trigger] catalog_name(i)).len() == catalog_name_len(
                i,
            ),
{
    reveal_strlit("air squat");
    reveal_strlit("front squat");
    reveal_strlit("back squat");
    reveal_strlit("ohs");
    reveal_strlit("overhead squat");
    reveal_strlit("pistol squat");
    reveal_strlit("goblet squat");
    reveal_strlit("deadlift");
    reveal_strlit("sumo deadlift");
    reveal_strlit("romanian deadlift");
    reveal_strlit("shoulder press");
    reveal_strlit("push press");
    reveal_strlit("push jerk");
    reveal_strlit("split jerk");
    reveal_strlit("bench press");
    reveal_strlit("clean");
    reveal_strlit("power clean");
    reveal_strlit("hang clean");
    reveal_strlit("hang power clean");
    reveal_strlit("clean and jerk");
    reveal_strlit("power clean and jerk");
    reveal_strlit("clean pull");
    reveal_strlit("clean-deadlift");
    reveal_strlit("snatch");
    reveal_strlit("power snatch");
    reveal_strlit("hang snatch");
    reveal_strlit("hang power snatch");
    reveal_strlit("snatch balance");
    reveal_strlit("snatch pull");
    reveal_strlit("snatch deadlift");
    reveal_strlit("muscle snatch");
    reveal_strlit("push up");
    reveal_strlit("pull up");
    reveal_strlit("chin up");
    reveal_strlit("c2b");
    reveal_strlit("chest to bar");
    reveal_strlit("muscle up");
    reveal_strlit("bar muscle up");
    reveal_strlit("bar mu");
    reveal_strlit("ring muscle up");
    reveal_strlit("ring mu");
    reveal_strlit("t2b");
    reveal_strlit("toes to bar");
    reveal_strlit("knees to elbows");
    reveal_strlit("l-sit");
    reveal_strlit("sit up");
    reveal_strlit("v up");
    reveal_strlit("ghd");
    reveal_strlit("strict pull up");
    reveal_strlit("shspu");
    reveal_strlit("hspu");
    reveal_strlit("handstand push up");
    reveal_strlit("handstand walk");
    reveal_strlit("hs walk");
    reveal_strlit("hsw");
    reveal_strlit("wall walk");
    reveal_strlit("handstand hold");
    reveal_strlit("thruster");
    reveal_strlit("front rack lunge");
    reveal_strlit("back rack lunge");
    reveal_strlit("overhead walking lunge");
    reveal_strlit("burpee");
    reveal_strlit("box jump");
    reveal_strlit("box jump over");
    reveal_strlit("burpee box jump");
    reveal_strlit("burpee box jump over");
    reveal_strlit("burpee over the bar");
    reveal_strlit("burpee to target");
    reveal_strlit("burpee pull up");
    reveal_strlit("du");
    reveal_strlit("double under");
    reveal_strlit("wall ball");
    reveal_strlit("kettlebell swing");
    reveal_strlit("turkish get up");
    reveal_strlit("farmer carry");
    reveal_strlit("sled push");
    reveal_strlit("sled pull");
    reveal_strlit("sled drag");
    reveal_strlit("rope climb");
    reveal_strlit("rc");
    reveal_strlit("legless rope climb");
    reveal_strlit("legless rc");
    reveal_strlit("sandbag clean");
    reveal_strlit("dball");
    reveal_strlit("dball carry");
    reveal_strlit("dball hold");
    reveal_strlit("row");
    reveal_strlit("run");
    reveal_strlit("bike");
    reveal_strlit("echo bike");
    reveal_strlit("ski");
    reveal_strlit("db snatch");
    reveal_strlit("db clean");
    reveal_strlit("db power clean");
    reveal_strlit("db hang clean");
    reveal_strlit("dumbbell snatch");
    reveal_strlit("dumbbell clean");
    reveal_strlit("dumbbell power clean");
    reveal_strlit("dumbbell hang clean");
    reveal_strlit("dumbbell clean and jerk");
    reveal_strlit("db clean and jerk");
    reveal_strlit("devil press");
    reveal_strlit("rest");
    assert forall|i: int|
        0 <= i < catalog_len() implies (#[trigger] catalog_name(i)).len() == catalog_name_len(i) by {
        if i == 0 {
            assert(catalog_name(0).len() == 9);
        } else if i == 1 {
            assert(catalog_name(1).len() == 11);
        } else if i == 2 {
            assert(catalog_name(2).len() == 10);
        } else if i == 3 {
            assert(catalog_name(3).len() == 3);
        } else if i == 4 {
            assert(catalog_name(4).len() == 14);
        } else if i == 5 {
            assert(catalog_name(5).len() == 12);
        } else if i == 6 {
            assert(catalog_name(6).len() == 12);
        } else if i == 7 {
            assert(catalog_name(7).len() == 8);
        } else if i == 8 {
            assert(catalog_name(8).len() == 13);
        } else if i == 9 {
            assert(catalog_name(9).len() == 17);
        } else if i == 10 {
            assert(catalog_name(10).len() == 14);
        } else if i == 11 {
            assert(catalog_name(11).len() == 10);
        } else if i == 12 {
            assert(catalog_name(12).len() == 9);
        } else if i == 13 {
            assert(catalog_name(13).len() == 10);
        } else if i == 14 {
            assert(catalog_name(14).len() == 11);
        } else if i == 15 {
            assert(catalog_name(15).len() == 5);
        } else if i == 16 {
            assert(catalog_name(16).len() == 11);
        } else if i == 17 {
            assert(catalog_name(17).len() == 10);
        } else if i == 18 {
            assert(catalog_name(18).len() == 16);
        } else if i == 19 {
            assert(catalog_name(19).len() == 14);
        } else if i == 20 {
            assert(catalog_name(20).len() == 20);
        } else if i == 21 {
            assert(catalog_name(21).len() == 10);
        } else if i == 22 {
            assert(catalog_name(22).len() == 14);
        } else if i == 23 {
            assert(catalog_name(23).len() == 6);
        } else if i == 24 {
            assert(catalog_name(24).len() == 12);
        } else if i == 25 {
            assert(catalog_name(25).len() == 11);
        } else if i == 26 {
            assert(catalog_name(26).len() == 17);
        } else if i == 27 {
            assert(catalog_name(27).len() == 14);
        } else if i == 28 {
            assert(catalog_name(28).len() == 11);
        } else if i == 29 {
            assert(catalog_name(29).len() == 15);
        } else if i == 30 {
            assert(catalog_name(30).len() == 13);
        } else if i == 31 {
            assert(catalog_name(31).len() == 7);
        } else if i == 32 {
            assert(catalog_name(32).len() == 7);
        } else if i == 33 {
            assert(catalog_name(33).len() == 7);
        } else if i == 34 {
            assert(catalog_name(34).len() == 3);
        } else if i == 35 {
            assert(catalog_name(35).len() == 12);
        } else if i == 36 {
            assert(catalog_name(36).len() == 9);
        } else if i == 37 {
            assert(catalog_name(37).len() == 13);
        } else if i == 38 {
            assert(catalog_name(38).len() == 6);
        } else if i == 39 {
            assert(catalog_name(39).len() == 14);
        } else if i == 40 {
            assert(catalog_name(40).len() == 7);
        } else if i == 41 {
            assert(catalog_name(41).len() == 3);
        } else if i == 42 {
            assert(catalog_name(42).len() == 11);
        } else if i == 43 {
            assert(catalog_name(43).len() == 15);
        } else if i == 44 {
            assert(catalog_name(44).len() == 5);
        } else if i == 45 {
            assert(catalog_name(45).len() == 6);
        } else if i == 46 {
            assert(catalog_name(46).len() == 4);
        } else if i == 47 {
            assert(catalog_name(47).len() == 3);
        } else if i == 48 {
            assert(catalog_name(48).len() == 14);
        } else if i == 49 {
            assert(catalog_name(49).len() == 5);
        } else if i == 50 {
            assert(catalog_name(50).len() == 4);
        } else if i == 51 {
            assert(catalog_name(51).len() == 17);
        } else if i == 52 {
            assert(catalog_name(52).len() == 14);
        } else if i == 53 {
            assert(catalog_name(53).len() == 7);
        } else if i == 54 {
            assert(catalog_name(54).len() == 3);
        } else if i == 55 {
            assert(catalog_name(55).len() == 9);
        } else if i == 56 {
            assert(catalog_name(56).len() == 14);
        } else if i == 57 {
            assert(catalog_name(57).len() == 8);
        } else if i == 58 {
            assert(catalog_name(58).len() == 16);
        } else if i == 59 {
            assert(catalog_name(59).len() == 15);
        } else if i == 60 {
            assert(catalog_name(60).len() == 22);
        } else if i == 61 {
            assert(catalog_name(61).len() == 6);
        } else if i == 62 {
            assert(catalog_name(62).len() == 8);
        } else if i == 63 {
            assert(catalog_name(63).len() == 13);
        } else if i == 64 {
            assert(catalog_name(64).len() == 15);
        } else if i == 65 {
            assert(catalog_name(65).len() == 20);
        } else if i == 66 {
            assert(catalog_name(66).len() == 19);
        } else if i == 67 {
            assert(catalog_name(67).len() == 16);
        } else if i == 68 {
            assert(catalog_name(68).len() == 14);
        } else if i == 69 {
            assert(catalog_name(69).len() == 2);
        } else if i == 70 {
            assert(catalog_name(70).len() == 12);
        } else if i == 71 {
            assert(catalog_name(71).len() == 9);
        } else if i == 72 {
            assert(catalog_name(72).len() == 16);
        } else if i == 73 {
            assert(catalog_name(73).len() == 14);
        } else if i == 74 {
            assert(catalog_name(74).len() == 12);
        } else if i == 75 {
            assert(catalog_name(75).len() == 9);
        } else if i == 76 {
            assert(catalog_name(76).len() == 9);
        } else if i == 77 {
            assert(catalog_name(77).len() == 9);
        } else if i == 78 {
            assert(catalog_name(78).len() == 10);
        } else if i == 79 {
            assert(catalog_name(79).len() == 2);
        } else if i == 80 {
            assert(catalog_name(80).len() == 18);
        } else if i == 81 {
            assert(catalog_name(81).len() == 10);
        } else if i == 82 {
            assert(catalog_name(82).len() == 13);
        } else if i == 83 {
            assert(catalog_name(83).len() == 5);
        } else if i == 84 {
            assert(catalog_name(84).len() == 11);
        } else if i == 85 {
            assert(catalog_name(85).len() == 10);
        } else if i == 86 {
            assert(catalog_name(86).len() == 3);
        } else if i == 87 {
            assert(catalog_name(87).len() == 3);
        } else if i == 88 {
            assert(catalog_name(88).len() == 4);
        } else if i == 89 {
            assert(catalog_name(89).len() == 9);
        } else if i == 90 {
            assert(catalog_name(90).len() == 3);
        } else if i == 91 {
            assert(catalog_name(91).len() == 9);
        } else if i == 92 {
            assert(catalog_name(92).len() == 8);
        } else if i == 93 {
            assert(catalog_name(93).len() == 14);
        } else if i == 94 {
            assert(catalog_name(94).len() == 13);
        } else if i == 95 {
            assert(catalog_name(95).len() == 15);
        } else if i == 96 {
            assert(catalog_name(96).len() == 14);
        } else if i == 97 {
            assert(catalog_name(97).len() == 20);
        } else if i == 98 {
            assert(catalog_name(98).len() == 19);
        } else if i == 99 {
            assert(catalog_name(99).len() == 23);
        } else if i == 100 {
            assert(catalog_name(100).len() == 17);
        } else if i == 101 {
            assert(catalog_name(101).len() == 11);
        } else if i == 102 {
            assert(catalog_name(102).len() == 4);
        }
    }
}

/// No two catalog entries share a name.
pub proof fn lemma_catalog_distinct(i: int, j: int)
    requires
        0 <= i < j < catalog_len(),
    ensures
        catalog_name(i) != catalog_name(j),
{
    lemma_catalog_name_lens();
    reveal_strlit("air squat");
    reveal_strlit("front squat");
    reveal_strlit("back squat");
    reveal_strlit("ohs");
    reveal_strlit("overhead squat");
    reveal_strlit("pistol squat");
    reveal_strlit("goblet squat");
    reveal_strlit("deadlift");
    reveal_strlit("sumo deadlift");
    reveal_strlit("romanian deadlift");
    reveal_strlit("shoulder press");
    reveal_strlit("push press");
    reveal_strlit("push jerk");
    reveal_strlit("split jerk");
    reveal_strlit("bench press");
    reveal_strlit("clean");
    reveal_strlit("power clean");
    reveal_strlit("hang clean");
    reveal_strlit("hang power clean");
    reveal_strlit("clean and jerk");
    reveal_strlit("power clean and jerk");
    reveal_strlit("clean pull");
    reveal_strlit("clean-deadlift");
    reveal_strlit("snatch");
    reveal_strlit("power snatch");
    reveal_strlit("hang snatch");
    reveal_strlit("hang power snatch");
    reveal_strlit("snatch balance");
    reveal_strlit("snatch pull");
    reveal_strlit("snatch deadlift");
    reveal_strlit("muscle snatch");
    reveal_strlit("push up");
    reveal_strlit("pull up");
    reveal_strlit("chin up");
    reveal_strlit("c2b");
    reveal_strlit("chest to bar");
    reveal_strlit("muscle up");
    reveal_strlit("bar muscle up");
    reveal_strlit("bar mu");
    reveal_strlit("ring muscle up");
    reveal_strlit("ring mu");
    reveal_strlit("t2b");
    reveal_strlit("toes to bar");
    reveal_strlit("knees to elbows");
    reveal_strlit("l-sit");
    reveal_strlit("sit up");
    reveal_strlit("v up");
    reveal_strlit("ghd");
    reveal_strlit("strict pull up");
    reveal_strlit("shspu");
    reveal_strlit("hspu");
    reveal_strlit("handstand push up");
    reveal_strlit("handstand walk");
    reveal_strlit("hs walk");
    reveal_strlit("hsw");
    reveal_strlit("wall walk");
    reveal_strlit("handstand hold");
    reveal_strlit("thruster");
    reveal_strlit("front rack lunge");
    reveal_strlit("back rack lunge");
    reveal_strlit("overhead walking lunge");
    reveal_strlit("burpee");
    reveal_strlit("box jump");
    reveal_strlit("box jump over");
    reveal_strlit("burpee box jump");
    reveal_strlit("burpee box jump over");
    reveal_strlit("burpee over the bar");
    reveal_strlit("burpee to target");
    reveal_strlit("burpee pull up");
    reveal_strlit("du");
    reveal_strlit("double under");
    reveal_strlit("wall ball");
    reveal_strlit("kettlebell swing");
    reveal_strlit("turkish get up");
    reveal_strlit("farmer carry");
    reveal_strlit("sled push");
    reveal_strlit("sled pull");
    reveal_strlit("sled drag");
    reveal_strlit("rope climb");
    reveal_strlit("rc");
    reveal_strlit("legless rope climb");
    reveal_strlit("legless rc");
    reveal_strlit("sandbag clean");
    reveal_strlit("dball");
    reveal_strlit("dball carry");
    reveal_strlit("dball hold");
    reveal_strlit("row");
    reveal_strlit("run");
    reveal_strlit("bike");
    reveal_strlit("echo bike");
    reveal_strlit("ski");
    reveal_strlit("db snatch");
    reveal_strlit("db clean");
    reveal_strlit("db power clean");
    reveal_strlit("db hang clean");
    reveal_strlit("dumbbell snatch");
    reveal_strlit("dumbbell clean");
    reveal_strlit("dumbbell power clean");
    reveal_strlit("dumbbell hang clean");
    reveal_strlit("dumbbell clean and jerk");
    reveal_strlit("db clean and jerk");
    reveal_strlit("devil press");
    reveal_strlit("rest");
    if i == 69 && j == 79 {
        assert(catalog_name(69)[0] != catalog_name(79)[0]);
        assert(catalog_name(69) != catalog_name(79));
    } else if i == 3 && j == 34 {
        assert(catalog_name(3)[0] != catalog_name(34)[0]);
        assert(catalog_name(3) != catalog_name(34));
    } else if i == 3 && j == 41 {
        assert(catalog_name(3)[0] != catalog_name(41)[0]);
        assert(catalog_name(3) != catalog_name(41));
    } else if i == 3 && j == 47 {
        assert(catalog_name(3)[0] != catalog_name(47)[0]);
        assert(catalog_name(3) != catalog_name(47));
    } else if i == 3 && j == 54 {
        assert(catalog_name(3)[0] != catalog_name(54)[0]);
        assert(catalog_name(3) != catalog_name(54));
    } else if i == 3 && j == 86 {
        assert(catalog_name(3)[0] != catalog_name(86)[0]);
        assert(catalog_name(3) != catalog_name(86));
    } else if i == 3 && j == 87 {
        assert(catalog_name(3)[0] != catalog_name(87)[0]);
        assert(catalog_name(3) != catalog_name(87));
    } else if i == 3 && j == 90 {
        assert(catalog_name(3)[0] != catalog_name(90)[0]);
        assert(catalog_name(3) != catalog_name(90));
    } else if i == 34 && j == 41 {
        assert(catalog_name(34)[0] != catalog_name(41)[0]);
        assert(catalog_name(34) != catalog_name(41));
    } else if i == 34 && j == 47 {
        assert(catalog_name(34)[0] != catalog_name(47)[0]);
        assert(catalog_name(34) != catalog_name(47));
    } else if i == 34 && j == 54 {
        assert(catalog_name(34)[0] != catalog_name(54)[0]);
        assert(catalog_name(34) != catalog_name(54));
    } else if i == 34 && j == 86 {
        assert(catalog_name(34)[0] != catalog_name(86)[0]);
        assert(catalog_name(34) != catalog_name(86));
    } else if i == 34 && j == 87 {
        assert(catalog_name(34)[0] != catalog_name(87)[0]);
        assert(catalog_name(34) != catalog_name(87));
    } else if i == 34 && j == 90 {
        assert(catalog_name(34)[0] != catalog_name(90)[0]);
        assert(catalog_name(34) != catalog_name(90));
    } else if i == 41 && j == 47 {
        assert(catalog_name(41)[0] != catalog_name(47)[0]);
        assert(catalog_name(41) != catalog_name(47));
    } else if i == 41 && j == 54 {
        assert(catalog_name(41)[0] != catalog_name(54)[0]);
        assert(catalog_name(41) != catalog_name(54));
    } else if i == 41 && j == 86 {
        assert(catalog_name(41)[0] != catalog_name(86)[0]);
        assert(catalog_name(41) != catalog_name(86));
    } else if i == 41 && j == 87 {
        assert(catalog_name(41)[0] != catalog_name(87)[0]);
        assert(catalog_name(41) != catalog_name(87));
    } else if i == 41 && j == 90 {
        assert(catalog_name(41)[0] != catalog_name(90)[0]);
        assert(catalog_name(41) != catalog_name(90));
    } else if i == 47 && j == 54 {
        assert(catalog_name(47)[0] != catalog_name(54)[0]);
        assert(catalog_name(47) != catalog_name(54));
    } else if i == 47 && j == 86 {
        assert(catalog_name(47)[0] != catalog_name(86)[0]);
        assert(catalog_name(47) != catalog_name(86));
    } else if i == 47 && j == 87 {
        assert(catalog_name(47)[0] != catalog_name(87)[0]);
        assert(catalog_name(47) != catalog_name(87));
    } else if i == 47 && j == 90 {
        assert(catalog_name(47)[0] != catalog_name(90)[0]);
        assert(catalog_name(47) != catalog_name(90));
    } else if i == 54 && j == 86 {
        assert(catalog_name(54)[0] != catalog_name(86)[0]);
        assert(catalog_name(54) != catalog_name(86));
    } else if i == 54 && j == 87 {
        assert(catalog_name(54)[0] != catalog_name(87)[0]);
        assert(catalog_name(54) != catalog_name(87));
    } else if i == 54 && j == 90 {
        assert(catalog_name(54)[0] != catalog_name(90)[0]);
        assert(catalog_name(54) != catalog_name(90));
    } else if i == 86 && j == 87 {
        assert(catalog_name(86)[1] != catalog_name(87)[1]);
        assert(catalog_name(86) != catalog_name(87));
    } else if i == 86 && j == 90 {
        assert(catalog_name(86)[0] != catalog_name(90)[0]);
        assert(catalog_name(86) != catalog_name(90));
    } else if i == 87 && j == 90 {
        assert(catalog_name(87)[0] != catalog_name(90)[0]);
        assert(catalog_name(87) != catalog_name(90));
    } else if i == 46 && j == 50 {
        assert(catalog_name(46)[0] != catalog_name(50)[0]);
        assert(catalog_name(46) != catalog_name(50));
    } else if i == 46 && j == 88 {
        assert(catalog_name(46)[0] != catalog_name(88)[0]);
        assert(catalog_name(46) != catalog_name(88));
    } else if i == 46 && j == 102 {
        assert(catalog_name(46)[0] != catalog_name(102)[0]);
        assert(catalog_name(46) != catalog_name(102));
    } else if i == 50 && j == 88 {
        assert(catalog_name(50)[0] != catalog_name(88)[0]);
        assert(catalog_name(50) != catalog_name(88));
    } else if i == 50 && j == 102 {
        assert(catalog_name(50)[0] != catalog_name(102)[0]);
        assert(catalog_name(50) != catalog_name(102));
    } else if i == 88 && j == 102 {
        assert(catalog_name(88)[0] != catalog_name(102)[0]);
        assert(catalog_name(88) != catalog_name(102));
    } else if i == 15 && j == 44 {
        assert(catalog_name(15)[0] != catalog_name(44)[0]);
        assert(catalog_name(15) != catalog_name(44));
    } else if i == 15 && j == 49 {
        assert(catalog_name(15)[0] != catalog_name(49)[0]);
        assert(catalog_name(15) != catalog_name(49));
    } else if i == 15 && j == 83 {
        assert(catalog_name(15)[0] != catalog_name(83)[0]);
        assert(catalog_name(15) != catalog_name(83));
    } else if i == 44 && j == 49 {
        assert(catalog_name(44)[0] != catalog_name(49)[0]);
        assert(catalog_name(44) != catalog_name(49));
    } else if i == 44 && j == 83 {
        assert(catalog_name(44)[0] != catalog_name(83)[0]);
        assert(catalog_name(44) != catalog_name(83));
    } else if i == 49 && j == 83 {
        assert(catalog_name(49)[0] != catalog_name(83)[0]);
        assert(catalog_name(49) != catalog_name(83));
    } else if i == 23 && j == 38 {
        assert(catalog_name(23)[0] != catalog_name(38)[0]);
        assert(catalog_name(23) != catalog_name(38));
    } else if i == 23 && j == 45 {
        assert(catalog_name(23)[1] != catalog_name(45)[1]);
        assert(catalog_name(23) != catalog_name(45));
    } else if i == 23 && j == 61 {
        assert(catalog_name(23)[0] != catalog_name(61)[0]);
        assert(catalog_name(23) != catalog_name(61));
    } else if i == 38 && j == 45 {
        assert(catalog_name(38)[0] != catalog_name(45)[0]);
        assert(catalog_name(38) != catalog_name(45));
    } else if i == 38 && j == 61 {
        assert(catalog_name(38)[1] != catalog_name(61)[1]);
        assert(catalog_name(38) != catalog_name(61));
    } else if i == 45 && j == 61 {
        assert(catalog_name(45)[0] != catalog_name(61)[0]);
        assert(catalog_name(45) != catalog_name(61));
    } else if i == 31 && j == 32 {
        assert(catalog_name(31)[2] != catalog_name(32)[2]);
        assert(catalog_name(31) != catalog_name(32));
    } else if i == 31 && j == 33 {
        assert(catalog_name(31)[0] != catalog_name(33)[0]);
        assert(catalog_name(31) != catalog_name(33));
    } else if i == 31 && j == 40 {
        assert(catalog_name(31)[0] != catalog_name(40)[0]);
        assert(catalog_name(31) != catalog_name(40));
    } else if i == 31 && j == 53 {
        assert(catalog_name(31)[0] != catalog_name(53)[0]);
        assert(catalog_name(31) != catalog_name(53));
    } else if i == 32 && j == 33 {
        assert(catalog_name(32)[0] != catalog_name(33)[0]);
        assert(catalog_name(32) != catalog_name(33));
    } else if i == 32 && j == 40 {
        assert(catalog_name(32)[0] != catalog_name(40)[0]);
        assert(catalog_name(32) != catalog_name(40));
    } else if i == 32 && j == 53 {
        assert(catalog_name(32)[0] != catalog_name(53)[0]);
        assert(catalog_name(32) != catalog_name(53));
    } else if i == 33 && j == 40 {
        assert(catalog_name(33)[0] != catalog_name(40)[0]);
        assert(catalog_name(33) != catalog_name(40));
    } else if i == 33 && j == 53 {
        assert(catalog_name(33)[0] != catalog_name(53)[0]);
        assert(catalog_name(33) != catalog_name(53));
    } else if i == 40 && j == 53 {
        assert(catalog_name(40)[0] != catalog_name(53)[0]);
        assert(catalog_name(40) != catalog_name(53));
    } else if i == 7 && j == 57 {
        assert(catalog_name(7)[0] != catalog_name(57)[0]);
        assert(catalog_name(7) != catalog_name(57));
    } else if i == 7 && j == 62 {
        assert(catalog_name(7)[0] != catalog_name(62)[0]);
        assert(catalog_name(7) != catalog_name(62));
    } else if i == 7 && j == 92 {
        assert(catalog_name(7)[1] != catalog_name(92)[1]);
        assert(catalog_name(7) != catalog_name(92));
    } else if i == 57 && j == 62 {
        assert(catalog_name(57)[0] != catalog_name(62)[0]);
        assert(catalog_name(57) != catalog_name(62));
    } else if i == 57 && j == 92 {
        assert(catalog_name(57)[0] != catalog_name(92)[0]);
        assert(catalog_name(57) != catalog_name(92));
    } else if i == 62 && j == 92 {
        assert(catalog_name(62)[0] != catalog_name(92)[0]);
        assert(catalog_name(62) != catalog_name(92));
    } else if i == 0 && j == 12 {
        assert(catalog_name(0)[0] != catalog_name(12)[0]);
        assert(catalog_name(0) != catalog_name(12));
    } else if i == 0 && j == 36 {
        assert(catalog_name(0)[0] != catalog_name(36)[0]);
        assert(catalog_name(0) != catalog_name(36));
    } else if i == 0 && j == 55 {
        assert(catalog_name(0)[0] != catalog_name(55)[0]);
        assert(catalog_name(0) != catalog_name(55));
    } else if i == 0 && j == 71 {
        assert(catalog_name(0)[0] != catalog_name(71)[0]);
        assert(catalog_name(0) != catalog_name(71));
    } else if i == 0 && j == 75 {
        assert(catalog_name(0)[0] != catalog_name(75)[0]);
        assert(catalog_name(0) != catalog_name(75));
    } else if i == 0 && j == 76 {
        assert(catalog_name(0)[0] != catalog_name(76)[0]);
        assert(catalog_name(0) != catalog_name(76));
    } else if i == 0 && j == 77 {
        assert(catalog_name(0)[0] != catalog_name(77)[0]);
        assert(catalog_name(0) != catalog_name(77));
    } else if i == 0 && j == 89 {
        assert(catalog_name(0)[0] != catalog_name(89)[0]);
        assert(catalog_name(0) != catalog_name(89));
    } else if i == 0 && j == 91 {
        assert(catalog_name(0)[0] != catalog_name(91)[0]);
        assert(catalog_name(0) != catalog_name(91));
    } else if i == 12 && j == 36 {
        assert(catalog_name(12)[0] != catalog_name(36)[0]);
        assert(catalog_name(12) != catalog_name(36));
    } else if i == 12 && j == 55 {
        assert(catalog_name(12)[0] != catalog_name(55)[0]);
        assert(catalog_name(12) != catalog_name(55));
    } else if i == 12 && j == 71 {
        assert(catalog_name(12)[0] != catalog_name(71)[0]);
        assert(catalog_name(12) != catalog_name(71));
    } else if i == 12 && j == 75 {
        assert(catalog_name(12)[0] != catalog_name(75)[0]);
        assert(catalog_name(12) != catalog_name(75));
    } else if i == 12 && j == 76 {
        assert(catalog_name(12)[0] != catalog_name(76)[0]);
        assert(catalog_name(12) != catalog_name(76));
    } else if i == 12 && j == 77 {
        assert(catalog_name(12)[0] != catalog_name(77)[0]);
        assert(catalog_name(12) != catalog_name(77));
    } else if i == 12 && j == 89 {
        assert(catalog_name(12)[0] != catalog_name(89)[0]);
        assert(catalog_name(12) != catalog_name(89));
    } else if i == 12 && j == 91 {
        assert(catalog_name(12)[0] != catalog_name(91)[0]);
        assert(catalog_name(12) != catalog_name(91));
    } else if i == 36 && j == 55 {
        assert(catalog_name(36)[0] != catalog_name(55)[0]);
        assert(catalog_name(36) != catalog_name(55));
    } else if i == 36 && j == 71 {
        assert(catalog_name(36)[0] != catalog_name(71)[0]);
        assert(catalog_name(36) != catalog_name(71));
    } else if i == 36 && j == 75 {
        assert(catalog_name(36)[0] != catalog_name(75)[0]);
        assert(catalog_name(36) != catalog_name(75));
    } else if i == 36 && j == 76 {
        assert(catalog_name(36)[0] != catalog_name(76)[0]);
        assert(catalog_name(36) != catalog_name(76));
    } else if i == 36 && j == 77 {
        assert(catalog_name(36)[0] != catalog_name(77)[0]);
        assert(catalog_name(36) != catalog_name(77));
    } else if i == 36 && j == 89 {
        assert(catalog_name(36)[0] != catalog_name(89)[0]);
        assert(catalog_name(36) != catalog_name(89));
    } else if i == 36 && j == 91 {
        assert(catalog_name(36)[0] != catalog_name(91)[0]);
        assert(catalog_name(36) != catalog_name(91));
    } else if i == 55 && j == 71 {
        assert(catalog_name(55)[5] != catalog_name(71)[5]);
        assert(catalog_name(55) != catalog_name(71));
    } else if i == 55 && j == 75 {
        assert(catalog_name(55)[0] != catalog_name(75)[0]);
        assert(catalog_name(55) != catalog_name(75));
    } else if i == 55 && j == 76 {
        assert(catalog_name(55)[0] != catalog_name(76)[0]);
        assert(catalog_name(55) != catalog_name(76));
    } else if i == 55 && j == 77 {
        assert(catalog_name(55)[0] != catalog_name(77)[0]);
        assert(catalog_name(55) != catalog_name(77));
    } else if i == 55 && j == 89 {
        assert(catalog_name(55)[0] != catalog_name(89)[0]);
        assert(catalog_name(55) != catalog_name(89));
    } else if i == 55 && j == 91 {
        assert(catalog_name(55)[0] != catalog_name(91)[0]);
        assert(catalog_name(55) != catalog_name(91));
    } else if i == 71 && j == 75 {
        assert(catalog_name(71)[0] != catalog_name(75)[0]);
        assert(catalog_name(71) != catalog_name(75));
    } else if i == 71 && j == 76 {
        assert(catalog_name(71)[0] != catalog_name(76)[0]);
        assert(catalog_name(71) != catalog_name(76));
    } else if i == 71 && j == 77 {
        assert(catalog_name(71)[0] != catalog_name(77)[0]);
        assert(catalog_name(71) != catalog_name(77));
    } else if i == 71 && j == 89 {
        assert(catalog_name(71)[0] != catalog_name(89)[0]);
        assert(catalog_name(71) != catalog_name(89));
    } else if i == 71 && j == 91 {
        assert(catalog_name(71)[0] != catalog_name(91)[0]);
        assert(catalog_name(71) != catalog_name(91));
    } else if i == 75 && j == 76 {
        assert(catalog_name(75)[7] != catalog_name(76)[7]);
        assert(catalog_name(75) != catalog_name(76));
    } else if i == 75 && j == 77 {
        assert(catalog_name(75)[5] != catalog_name(77)[5]);
        assert(catalog_name(75) != catalog_name(77));
    } else if i == 75 && j == 89 {
        assert(catalog_name(75)[0] != catalog_name(89)[0]);
        assert(catalog_name(75) != catalog_name(89));
    } else if i == 75 && j == 91 {
        assert(catalog_name(75)[0] != catalog_name(91)[0]);
        assert(catalog_name(75) != catalog_name(91));
    } else if i == 76 && j == 77 {
        assert(catalog_name(76)[5] != catalog_name(77)[5]);
        assert(catalog_name(76) != catalog_name(77));
    } else if i == 76 && j == 89 {
        assert(catalog_name(76)[0] != catalog_name(89)[0]);
        assert(catalog_name(76) != catalog_name(89));
    } else if i == 76 && j == 91 {
        assert(catalog_name(76)[0] != catalog_name(91)[0]);
        assert(catalog_name(76) != catalog_name(91));
    } else if i == 77 && j == 89 {
        assert(catalog_name(77)[0] != catalog_name(89)[0]);
        assert(catalog_name(77) != catalog_name(89));
    } else if i == 77 && j == 91 {
        assert(catalog_name(77)[0] != catalog_name(91)[0]);
        assert(catalog_name(77) != catalog_name(91));
    } else if i == 89 && j == 91 {
        assert(catalog_name(89)[0] != catalog_name(91)[0]);
        assert(catalog_name(89) != catalog_name(91));
    } else if i == 2 && j == 11 {
        assert(catalog_name(2)[0] != catalog_name(11)[0]);
        assert(catalog_name(2) != catalog_name(11));
    } else if i == 2 && j == 13 {
        assert(catalog_name(2)[0] != catalog_name(13)[0]);
        assert(catalog_name(2) != catalog_name(13));
    } else if i == 2 && j == 17 {
        assert(catalog_name(2)[0] != catalog_name(17)[0]);
        assert(catalog_name(2) != catalog_name(17));
    } else if i == 2 && j == 21 {
        assert(catalog_name(2)[0] != catalog_name(21)[0]);
        assert(catalog_name(2) != catalog_name(21));
    } else if i == 2 && j == 78 {
        assert(catalog_name(2)[0] != catalog_name(78)[0]);
        assert(catalog_name(2) != catalog_name(78));
    } else if i == 2 && j == 81 {
        assert(catalog_name(2)[0] != catalog_name(81)[0]);
        assert(catalog_name(2) != catalog_name(81));
    } else if i == 2 && j == 85 {
        assert(catalog_name(2)[0] != catalog_name(85)[0]);
        assert(catalog_name(2) != catalog_name(85));
    } else if i == 11 && j == 13 {
        assert(catalog_name(11)[0] != catalog_name(13)[0]);
        assert(catalog_name(11) != catalog_name(13));
    } else if i == 11 && j == 17 {
        assert(catalog_name(11)[0] != catalog_name(17)[0]);
        assert(catalog_name(11) != catalog_name(17));
    } else if i == 11 && j == 21 {
        assert(catalog_name(11)[0] != catalog_name(21)[0]);
        assert(catalog_name(11) != catalog_name(21));
    } else if i == 11 && j == 78 {
        assert(catalog_name(11)[0] != catalog_name(78)[0]);
        assert(catalog_name(11) != catalog_name(78));
    } else if i == 11 && j == 81 {
        assert(catalog_name(11)[0] != catalog_name(81)[0]);
        assert(catalog_name(11) != catalog_name(81));
    } else if i == 11 && j == 85 {
        assert(catalog_name(11)[0] != catalog_name(85)[0]);
        assert(catalog_name(11) != catalog_name(85));
    } else if i == 13 && j == 17 {
        assert(catalog_name(13)[0] != catalog_name(17)[0]);
        assert(catalog_name(13) != catalog_name(17));
    } else if i == 13 && j == 21 {
        assert(catalog_name(13)[0] != catalog_name(21)[0]);
        assert(catalog_name(13) != catalog_name(21));
    } else if i == 13 && j == 78 {
        assert(catalog_name(13)[0] != catalog_name(78)[0]);
        assert(catalog_name(13) != catalog_name(78));
    } else if i == 13 && j == 81 {
        assert(catalog_name(13)[0] != catalog_name(81)[0]);
        assert(catalog_name(13) != catalog_name(81));
    } else if i == 13 && j == 85 {
        assert(catalog_name(13)[0] != catalog_name(85)[0]);
        assert(catalog_name(13) != catalog_name(85));
    } else if i == 17 && j == 21 {
        assert(catalog_name(17)[0] != catalog_name(21)[0]);
        assert(catalog_name(17) != catalog_name(21));
    } else if i == 17 && j == 78 {
        assert(catalog_name(17)[0] != catalog_name(78)[0]);
        assert(catalog_name(17) != catalog_name(78));
    } else if i == 17 && j == 81 {
        assert(catalog_name(17)[0] != catalog_name(81)[0]);
        assert(catalog_name(17) != catalog_name(81));
    } else if i == 17 && j == 85 {
        assert(catalog_name(17)[0] != catalog_name(85)[0]);
        assert(catalog_name(17) != catalog_name(85));
    } else if i == 21 && j == 78 {
        assert(catalog_name(21)[0] != catalog_name(78)[0]);
        assert(catalog_name(21) != catalog_name(78));
    } else if i == 21 && j == 81 {
        assert(catalog_name(21)[0] != catalog_name(81)[0]);
        assert(catalog_name(21) != catalog_name(81));
    } else if i == 21 && j == 85 {
        assert(catalog_name(21)[0] != catalog_name(85)[0]);
        assert(catalog_name(21) != catalog_name(85));
    } else if i == 78 && j == 81 {
        assert(catalog_name(78)[0] != catalog_name(81)[0]);
        assert(catalog_name(78) != catalog_name(81));
    } else if i == 78 && j == 85 {
        assert(catalog_name(78)[0] != catalog_name(85)[0]);
        assert(catalog_name(78) != catalog_name(85));
    } else if i == 81 && j == 85 {
        assert(catalog_name(81)[0] != catalog_name(85)[0]);
        assert(catalog_name(81) != catalog_name(85));
    } else if i == 1 && j == 14 {
        assert(catalog_name(1)[0] != catalog_name(14)[0]);
        assert(catalog_name(1) != catalog_name(14));
    } else if i == 1 && j == 16 {
        assert(catalog_name(1)[0] != catalog_name(16)[0]);
        assert(catalog_name(1) != catalog_name(16));
    } else if i == 1 && j == 25 {
        assert(catalog_name(1)[0] != catalog_name(25)[0]);
        assert(catalog_name(1) != catalog_name(25));
    } else if i == 1 && j == 28 {
        assert(catalog_name(1)[0] != catalog_name(28)[0]);
        assert(catalog_name(1) != catalog_name(28));
    } else if i == 1 && j == 42 {
        assert(catalog_name(1)[0] != catalog_name(42)[0]);
        assert(catalog_name(1) != catalog_name(42));
    } else if i == 1 && j == 84 {
        assert(catalog_name(1)[0] != catalog_name(84)[0]);
        assert(catalog_name(1) != catalog_name(84));
    } else if i == 1 && j == 101 {
        assert(catalog_name(1)[0] != catalog_name(101)[0]);
        assert(catalog_name(1) != catalog_name(101));
    } else if i == 14 && j == 16 {
        assert(catalog_name(14)[0] != catalog_name(16)[0]);
        assert(catalog_name(14) != catalog_name(16));
    } else if i == 14 && j == 25 {
        assert(catalog_name(14)[0] != catalog_name(25)[0]);
        assert(catalog_name(14) != catalog_name(25));
    } else if i == 14 && j == 28 {
        assert(catalog_name(14)[0] != catalog_name(28)[0]);
        assert(catalog_name(14) != catalog_name(28));
    } else if i == 14 && j == 42 {
        assert(catalog_name(14)[0] != catalog_name(42)[0]);
        assert(catalog_name(14) != catalog_name(42));
    } else if i == 14 && j == 84 {
        assert(catalog_name(14)[0] != catalog_name(84)[0]);
        assert(catalog_name(14) != catalog_name(84));
    } else if i == 14 && j == 101 {
        assert(catalog_name(14)[0] != catalog_name(101)[0]);
        assert(catalog_name(14) != catalog_name(101));
    } else if i == 16 && j == 25 {
        assert(catalog_name(16)[0] != catalog_name(25)[0]);
        assert(catalog_name(16) != catalog_name(25));
    } else if i == 16 && j == 28 {
        assert(catalog_name(16)[0] != catalog_name(28)[0]);
        assert(catalog_name(16) != catalog_name(28));
    } else if i == 16 && j == 42 {
        assert(catalog_name(16)[0] != catalog_name(42)[0]);
        assert(catalog_name(16) != catalog_name(42));
    } else if i == 16 && j == 84 {
        assert(catalog_name(16)[0] != catalog_name(84)[0]);
        assert(catalog_name(16) != catalog_name(84));
    } else if i == 16 && j == 101 {
        assert(catalog_name(16)[0] != catalog_name(101)[0]);
        assert(catalog_name(16) != catalog_name(101));
    } else if i == 25 && j == 28 {
        assert(catalog_name(25)[0] != catalog_name(28)[0]);
        assert(catalog_name(25) != catalog_name(28));
    } else if i == 25 && j == 42 {
        assert(catalog_name(25)[0] != catalog_name(42)[0]);
        assert(catalog_name(25) != catalog_name(42));
    } else if i == 25 && j == 84 {
        assert(catalog_name(25)[0] != catalog_name(84)[0]);
        assert(catalog_name(25) != catalog_name(84));
    } else if i == 25 && j == 101 {
        assert(catalog_name(25)[0] != catalog_name(101)[0]);
        assert(catalog_name(25) != catalog_name(101));
    } else if i == 28 && j == 42 {
        assert(catalog_name(28)[0] != catalog_name(42)[0]);
        assert(catalog_name(28) != catalog_name(42));
    } else if i == 28 && j == 84 {
        assert(catalog_name(28)[0] != catalog_name(84)[0]);
        assert(catalog_name(28) != catalog_name(84));
    } else if i == 28 && j == 101 {
        assert(catalog_name(28)[0] != catalog_name(101)[0]);
        assert(catalog_name(28) != catalog_name(101));
    } else if i == 42 && j == 84 {
        assert(catalog_name(42)[0] != catalog_name(84)[0]);
        assert(catalog_name(42) != catalog_name(84));
    } else if i == 42 && j == 101 {
        assert(catalog_name(42)[0] != catalog_name(101)[0]);
        assert(catalog_name(42) != catalog_name(101));
    } else if i == 84 && j == 101 {
        assert(catalog_name(84)[1] != catalog_name(101)[1]);
        assert(catalog_name(84) != catalog_name(101));
    } else if i == 5 && j == 6 {
        assert(catalog_name(5)[0] != catalog_name(6)[0]);
        assert(catalog_name(5) != catalog_name(6));
    } else if i == 5 && j == 24 {
        assert(catalog_name(5)[1] != catalog_name(24)[1]);
        assert(catalog_name(5) != catalog_name(24));
    } else if i == 5 && j == 35 {
        assert(catalog_name(5)[0] != catalog_name(35)[0]);
        assert(catalog_name(5) != catalog_name(35));
    } else if i == 5 && j == 70 {
        assert(catalog_name(5)[0] != catalog_name(70)[0]);
        assert(catalog_name(5) != catalog_name(70));
    } else if i == 5 && j == 74 {
        assert(catalog_name(5)[0] != catalog_name(74)[0]);
        assert(catalog_name(5) != catalog_name(74));
    } else if i == 6 && j == 24 {
        assert(catalog_name(6)[0] != catalog_name(24)[0]);
        assert(catalog_name(6) != catalog_name(24));
    } else if i == 6 && j == 35 {
        assert(catalog_name(6)[0] != catalog_name(35)[0]);
        assert(catalog_name(6) != catalog_name(35));
    } else if i == 6 && j == 70 {
        assert(catalog_name(6)[0] != catalog_name(70)[0]);
        assert(catalog_name(6) != catalog_name(70));
    } else if i == 6 && j == 74 {
        assert(catalog_name(6)[0] != catalog_name(74)[0]);
        assert(catalog_name(6) != catalog_name(74));
    } else if i == 24 && j == 35 {
        assert(catalog_name(24)[0] != catalog_name(35)[0]);
        assert(catalog_name(24) != catalog_name(35));
    } else if i == 24 && j == 70 {
        assert(catalog_name(24)[0] != catalog_name(70)[0]);
        assert(catalog_name(24) != catalog_name(70));
    } else if i == 24 && j == 74 {
        assert(catalog_name(24)[0] != catalog_name(74)[0]);
        assert(catalog_name(24) != catalog_name(74));
    } else if i == 35 && j == 70 {
        assert(catalog_name(35)[0] != catalog_name(70)[0]);
        assert(catalog_name(35) != catalog_name(70));
    } else if i == 35 && j == 74 {
        assert(catalog_name(35)[0] != catalog_name(74)[0]);
        assert(catalog_name(35) != catalog_name(74));
    } else if i == 70 && j == 74 {
        assert(catalog_name(70)[0] != catalog_name(74)[0]);
        assert(catalog_name(70) != catalog_name(74));
    } else if i == 8 && j == 30 {
        assert(catalog_name(8)[0] != catalog_name(30)[0]);
        assert(catalog_name(8) != catalog_name(30));
    } else if i == 8 && j == 37 {
        assert(catalog_name(8)[0] != catalog_name(37)[0]);
        assert(catalog_name(8) != catalog_name(37));
    } else if i == 8 && j == 63 {
        assert(catalog_name(8)[0] != catalog_name(63)[0]);
        assert(catalog_name(8) != catalog_name(63));
    } else if i == 8 && j == 82 {
        assert(catalog_name(8)[1] != catalog_name(82)[1]);
        assert(catalog_name(8) != catalog_name(82));
    } else if i == 8 && j == 94 {
        assert(catalog_name(8)[0] != catalog_name(94)[0]);
        assert(catalog_name(8) != catalog_name(94));
    } else if i == 30 && j == 37 {
        assert(catalog_name(30)[0] != catalog_name(37)[0]);
        assert(catalog_name(30) != catalog_name(37));
    } else if i == 30 && j == 63 {
        assert(catalog_name(30)[0] != catalog_name(63)[0]);
        assert(catalog_name(30) != catalog_name(63));
    } else if i == 30 && j == 82 {
        assert(catalog_name(30)[0] != catalog_name(82)[0]);
        assert(catalog_name(30) != catalog_name(82));
    } else if i == 30 && j == 94 {
        assert(catalog_name(30)[0] != catalog_name(94)[0]);
        assert(catalog_name(30) != catalog_name(94));
    } else if i == 37 && j == 63 {
        assert(catalog_name(37)[1] != catalog_name(63)[1]);
        assert(catalog_name(37) != catalog_name(63));
    } else if i == 37 && j == 82 {
        assert(catalog_name(37)[0] != catalog_name(82)[0]);
        assert(catalog_name(37) != catalog_name(82));
    } else if i == 37 && j == 94 {
        assert(catalog_name(37)[0] != catalog_name(94)[0]);
        assert(catalog_name(37) != catalog_name(94));
    } else if i == 63 && j == 82 {
        assert(catalog_name(63)[0] != catalog_name(82)[0]);
        assert(catalog_name(63) != catalog_name(82));
    } else if i == 63 && j == 94 {
        assert(catalog_name(63)[0] != catalog_name(94)[0]);
        assert(catalog_name(63) != catalog_name(94));
    } else if i == 82 && j == 94 {
        assert(catalog_name(82)[0] != catalog_name(94)[0]);
        assert(catalog_name(82) != catalog_name(94));
    } else if i == 4 && j == 10 {
        assert(catalog_name(4)[0] != catalog_name(10)[0]);
        assert(catalog_name(4) != catalog_name(10));
    } else if i == 4 && j == 19 {
        assert(catalog_name(4)[0] != catalog_name(19)[0]);
        assert(catalog_name(4) != catalog_name(19));
    } else if i == 4 && j == 22 {
        assert(catalog_name(4)[0] != catalog_name(22)[0]);
        assert(catalog_name(4) != catalog_name(22));
    } else if i == 4 && j == 27 {
        assert(catalog_name(4)[0] != catalog_name(27)[0]);
        assert(catalog_name(4) != catalog_name(27));
    } else if i == 4 && j == 39 {
        assert(catalog_name(4)[0] != catalog_name(39)[0]);
        assert(catalog_name(4) != catalog_name(39));
    } else if i == 4 && j == 48 {
        assert(catalog_name(4)[0] != catalog_name(48)[0]);
        assert(catalog_name(4) != catalog_name(48));
    } else if i == 4 && j == 52 {
        assert(catalog_name(4)[0] != catalog_name(52)[0]);
        assert(catalog_name(4) != catalog_name(52));
    } else if i == 4 && j == 56 {
        assert(catalog_name(4)[0] != catalog_name(56)[0]);
        assert(catalog_name(4) != catalog_name(56));
    } else if i == 4 && j == 68 {
        assert(catalog_name(4)[0] != catalog_name(68)[0]);
        assert(catalog_name(4) != catalog_name(68));
    } else if i == 4 && j == 73 {
        assert(catalog_name(4)[0] != catalog_name(73)[0]);
        assert(catalog_name(4) != catalog_name(73));
    } else if i == 4 && j == 93 {
        assert(catalog_name(4)[0] != catalog_name(93)[0]);
        assert(catalog_name(4) != catalog_name(93));
    } else if i == 4 && j == 96 {
        assert(catalog_name(4)[0] != catalog_name(96)[0]);
        assert(catalog_name(4) != catalog_name(96));
    } else if i == 10 && j == 19 {
        assert(catalog_name(10)[0] != catalog_name(19)[0]);
        assert(catalog_name(10) != catalog_name(19));
    } else if i == 10 && j == 22 {
        assert(catalog_name(10)[0] != catalog_name(22)[0]);
        assert(catalog_name(10) != catalog_name(22));
    } else if i == 10 && j == 27 {
        assert(catalog_name(10)[1] != catalog_name(27)[1]);
        assert(catalog_name(10) != catalog_name(27));
    } else if i == 10 && j == 39 {
        assert(catalog_name(10)[0] != catalog_name(39)[0]);
        assert(catalog_name(10) != catalog_name(39));
    } else if i == 10 && j == 48 {
        assert(catalog_name(10)[1] != catalog_name(48)[1]);
        assert(catalog_name(10) != catalog_name(48));
    } else if i == 10 && j == 52 {
        assert(catalog_name(10)[0] != catalog_name(52)[0]);
        assert(catalog_name(10) != catalog_name(52));
    } else if i == 10 && j == 56 {
        assert(catalog_name(10)[0] != catalog_name(56)[0]);
        assert(catalog_name(10) != catalog_name(56));
    } else if i == 10 && j == 68 {
        assert(catalog_name(10)[0] != catalog_name(68)[0]);
        assert(catalog_name(10) != catalog_name(68));
    } else if i == 10 && j == 73 {
        assert(catalog_name(10)[0] != catalog_name(73)[0]);
        assert(catalog_name(10) != catalog_name(73));
    } else if i == 10 && j == 93 {
        assert(catalog_name(10)[0] != catalog_name(93)[0]);
        assert(catalog_name(10) != catalog_name(93));
    } else if i == 10 && j == 96 {
        assert(catalog_name(10)[0] != catalog_name(96)[0]);
        assert(catalog_name(10) != catalog_name(96));
    } else if i == 19 && j == 22 {
        assert(catalog_name(19)[5] != catalog_name(22)[5]);
        assert(catalog_name(19) != catalog_name(22));
    } else if i == 19 && j == 27 {
        assert(catalog_name(19)[0] != catalog_name(27)[0]);
        assert(catalog_name(19) != catalog_name(27));
    } else if i == 19 && j == 39 {
        assert(catalog_name(19)[0] != catalog_name(39)[0]);
        assert(catalog_name(19) != catalog_name(39));
    } else if i == 19 && j == 48 {
        assert(catalog_name(19)[0] != catalog_name(48)[0]);
        assert(catalog_name(19) != catalog_name(48));
    } else if i == 19 && j == 52 {
        assert(catalog_name(19)[0] != catalog_name(52)[0]);
        assert(catalog_name(19) != catalog_name(52));
    } else if i == 19 && j == 56 {
        assert(catalog_name(19)[0] != catalog_name(56)[0]);
        assert(catalog_name(19) != catalog_name(56));
    } else if i == 19 && j == 68 {
        assert(catalog_name(19)[0] != catalog_name(68)[0]);
        assert(catalog_name(19) != catalog_name(68));
    } else if i == 19 && j == 73 {
        assert(catalog_name(19)[0] != catalog_name(73)[0]);
        assert(catalog_name(19) != catalog_name(73));
    } else if i == 19 && j == 93 {
        assert(catalog_name(19)[0] != catalog_name(93)[0]);
        assert(catalog_name(19) != catalog_name(93));
    } else if i == 19 && j == 96 {
        assert(catalog_name(19)[0] != catalog_name(96)[0]);
        assert(catalog_name(19) != catalog_name(96));
    } else if i == 22 && j == 27 {
        assert(catalog_name(22)[0] != catalog_name(27)[0]);
        assert(catalog_name(22) != catalog_name(27));
    } else if i == 22 && j == 39 {
        assert(catalog_name(22)[0] != catalog_name(39)[0]);
        assert(catalog_name(22) != catalog_name(39));
    } else if i == 22 && j == 48 {
        assert(catalog_name(22)[0] != catalog_name(48)[0]);
        assert(catalog_name(22) != catalog_name(48));
    } else if i == 22 && j == 52 {
        assert(catalog_name(22)[0] != catalog_name(52)[0]);
        assert(catalog_name(22) != catalog_name(52));
    } else if i == 22 && j == 56 {
        assert(catalog_name(22)[0] != catalog_name(56)[0]);
        assert(catalog_name(22) != catalog_name(56));
    } else if i == 22 && j == 68 {
        assert(catalog_name(22)[0] != catalog_name(68)[0]);
        assert(catalog_name(22) != catalog_name(68));
    } else if i == 22 && j == 73 {
        assert(catalog_name(22)[0] != catalog_name(73)[0]);
        assert(catalog_name(22) != catalog_name(73));
    } else if i == 22 && j == 93 {
        assert(catalog_name(22)[0] != catalog_name(93)[0]);
        assert(catalog_name(22) != catalog_name(93));
    } else if i == 22 && j == 96 {
        assert(catalog_name(22)[0] != catalog_name(96)[0]);
        assert(catalog_name(22) != catalog_name(96));
    } else if i == 27 && j == 39 {
        assert(catalog_name(27)[0] != catalog_name(39)[0]);
        assert(catalog_name(27) != catalog_name(39));
    } else if i == 27 && j == 48 {
        assert(catalog_name(27)[1] != catalog_name(48)[1]);
        assert(catalog_name(27) != catalog_name(48));
    } else if i == 27 && j == 52 {
        assert(catalog_name(27)[0] != catalog_name(52)[0]);
        assert(catalog_name(27) != catalog_name(52));
    } else if i == 27 && j == 56 {
        assert(catalog_name(27)[0] != catalog_name(56)[0]);
        assert(catalog_name(27) != catalog_name(56));
    } else if i == 27 && j == 68 {
        assert(catalog_name(27)[0] != catalog_name(68)[0]);
        assert(catalog_name(27) != catalog_name(68));
    } else if i == 27 && j == 73 {
        assert(catalog_name(27)[0] != catalog_name(73)[0]);
        assert(catalog_name(27) != catalog_name(73));
    } else if i == 27 && j == 93 {
        assert(catalog_name(27)[0] != catalog_name(93)[0]);
        assert(catalog_name(27) != catalog_name(93));
    } else if i == 27 && j == 96 {
        assert(catalog_name(27)[0] != catalog_name(96)[0]);
        assert(catalog_name(27) != catalog_name(96));
    } else if i == 39 && j == 48 {
        assert(catalog_name(39)[0] != catalog_name(48)[0]);
        assert(catalog_name(39) != catalog_name(48));
    } else if i == 39 && j == 52 {
        assert(catalog_name(39)[0] != catalog_name(52)[0]);
        assert(catalog_name(39) != catalog_name(52));
    } else if i == 39 && j == 56 {
        assert(catalog_name(39)[0] != catalog_name(56)[0]);
        assert(catalog_name(39) != catalog_name(56));
    } else if i == 39 && j == 68 {
        assert(catalog_name(39)[0] != catalog_name(68)[0]);
        assert(catalog_name(39) != catalog_name(68));
    } else if i == 39 && j == 73 {
        assert(catalog_name(39)[0] != catalog_name(73)[0]);
        assert(catalog_name(39) != catalog_name(73));
    } else if i == 39 && j == 93 {
        assert(catalog_name(39)[0] != catalog_name(93)[0]);
        assert(catalog_name(39) != catalog_name(93));
    } else if i == 39 && j == 96 {
        assert(catalog_name(39)[0] != catalog_name(96)[0]);
        assert(catalog_name(39) != catalog_name(96));
    } else if i == 48 && j == 52 {
        assert(catalog_name(48)[0] != catalog_name(52)[0]);
        assert(catalog_name(48) != catalog_name(52));
    } else if i == 48 && j == 56 {
        assert(catalog_name(48)[0] != catalog_name(56)[0]);
        assert(catalog_name(48) != catalog_name(56));
    } else if i == 48 && j == 68 {
        assert(catalog_name(48)[0] != catalog_name(68)[0]);
        assert(catalog_name(48) != catalog_name(68));
    } else if i == 48 && j == 73 {
        assert(catalog_name(48)[0] != catalog_name(73)[0]);
        assert(catalog_name(48) != catalog_name(73));
    } else if i == 48 && j == 93 {
        assert(catalog_name(48)[0] != catalog_name(93)[0]);
        assert(catalog_name(48) != catalog_name(93));
    } else if i == 48 && j == 96 {
        assert(catalog_name(48)[0] != catalog_name(96)[0]);
        assert(catalog_name(48) != catalog_name(96));
    } else if i == 52 && j == 56 {
        assert(catalog_name(52)[10] != catalog_name(56)[10]);
        assert(catalog_name(52) != catalog_name(56));
    } else if i == 52 && j == 68 {
        assert(catalog_name(52)[0] != catalog_name(68)[0]);
        assert(catalog_name(52) != catalog_name(68));
    } else if i == 52 && j == 73 {
        assert(catalog_name(52)[0] != catalog_name(73)[0]);
        assert(catalog_name(52) != catalog_name(73));
    } else if i == 52 && j == 93 {
        assert(catalog_name(52)[0] != catalog_name(93)[0]);
        assert(catalog_name(52) != catalog_name(93));
    } else if i == 52 && j == 96 {
        assert(catalog_name(52)[0] != catalog_name(96)[0]);
        assert(catalog_name(52) != catalog_name(96));
    } else if i == 56 && j == 68 {
        assert(catalog_name(56)[0] != catalog_name(68)[0]);
        assert(catalog_name(56) != catalog_name(68));
    } else if i == 56 && j == 73 {
        assert(catalog_name(56)[0] != catalog_name(73)[0]);
        assert(catalog_name(56) != catalog_name(73));
    } else if i == 56 && j == 93 {
        assert(catalog_name(56)[0] != catalog_name(93)[0]);
        assert(catalog_name(56) != catalog_name(93));
    } else if i == 56 && j == 96 {
        assert(catalog_name(56)[0] != catalog_name(96)[0]);
        assert(catalog_name(56) != catalog_name(96));
    } else if i == 68 && j == 73 {
        assert(catalog_name(68)[0] != catalog_name(73)[0]);
        assert(catalog_name(68) != catalog_name(73));
    } else if i == 68 && j == 93 {
        assert(catalog_name(68)[0] != catalog_name(93)[0]);
        assert(catalog_name(68) != catalog_name(93));
    } else if i == 68 && j == 96 {
        assert(catalog_name(68)[0] != catalog_name(96)[0]);
        assert(catalog_name(68) != catalog_name(96));
    } else if i == 73 && j == 93 {
        assert(catalog_name(73)[0] != catalog_name(93)[0]);
        assert(catalog_name(73) != catalog_name(93));
    } else if i == 73 && j == 96 {
        assert(catalog_name(73)[0] != catalog_name(96)[0]);
        assert(catalog_name(73) != catalog_name(96));
    } else if i == 93 && j == 96 {
        assert(catalog_name(93)[1] != catalog_name(96)[1]);
        assert(catalog_name(93) != catalog_name(96));
    } else if i == 29 && j == 43 {
        assert(catalog_name(29)[0] != catalog_name(43)[0]);
        assert(catalog_name(29) != catalog_name(43));
    } else if i == 29 && j == 59 {
        assert(catalog_name(29)[0] != catalog_name(59)[0]);
        assert(catalog_name(29) != catalog_name(59));
    } else if i == 29 && j == 64 {
        assert(catalog_name(29)[0] != catalog_name(64)[0]);
        assert(catalog_name(29) != catalog_name(64));
    } else if i == 29 && j == 95 {
        assert(catalog_name(29)[0] != catalog_name(95)[0]);
        assert(catalog_name(29) != catalog_name(95));
    } else if i == 43 && j == 59 {
        assert(catalog_name(43)[0] != catalog_name(59)[0]);
        assert(catalog_name(43) != catalog_name(59));
    } else if i == 43 && j == 64 {
        assert(catalog_name(43)[0] != catalog_name(64)[0]);
        assert(catalog_name(43) != catalog_name(64));
    } else if i == 43 && j == 95 {
        assert(catalog_name(43)[0] != catalog_name(95)[0]);
        assert(catalog_name(43) != catalog_name(95));
    } else if i == 59 && j == 64 {
        assert(catalog_name(59)[1] != catalog_name(64)[1]);
        assert(catalog_name(59) != catalog_name(64));
    } else if i == 59 && j == 95 {
        assert(catalog_name(59)[0] != catalog_name(95)[0]);
        assert(catalog_name(59) != catalog_name(95));
    } else if i == 64 && j == 95 {
        assert(catalog_name(64)[0] != catalog_name(95)[0]);
        assert(catalog_name(64) != catalog_name(95));
    } else if i == 18 && j == 58 {
        assert(catalog_name(18)[0] != catalog_name(58)[0]);
        assert(catalog_name(18) != catalog_name(58));
    } else if i == 18 && j == 67 {
        assert(catalog_name(18)[0] != catalog_name(67)[0]);
        assert(catalog_name(18) != catalog_name(67));
    } else if i == 18 && j == 72 {
        assert(catalog_name(18)[0] != catalog_name(72)[0]);
        assert(catalog_name(18) != catalog_name(72));
    } else if i == 58 && j == 67 {
        assert(catalog_name(58)[0] != catalog_name(67)[0]);
        assert(catalog_name(58) != catalog_name(67));
    } else if i == 58 && j == 72 {
        assert(catalog_name(58)[0] != catalog_name(72)[0]);
        assert(catalog_name(58) != catalog_name(72));
    } else if i == 67 && j == 72 {
        assert(catalog_name(67)[0] != catalog_name(72)[0]);
        assert(catalog_name(67) != catalog_name(72));
    } else if i == 9 && j == 26 {
        assert(catalog_name(9)[0] != catalog_name(26)[0]);
        assert(catalog_name(9) != catalog_name(26));
    } else if i == 9 && j == 51 {
        assert(catalog_name(9)[0] != catalog_name(51)[0]);
        assert(catalog_name(9) != catalog_name(51));
    } else if i == 9 && j == 100 {
        assert(catalog_name(9)[0] != catalog_name(100)[0]);
        assert(catalog_name(9) != catalog_name(100));
    } else if i == 26 && j == 51 {
        assert(catalog_name(26)[3] != catalog_name(51)[3]);
        assert(catalog_name(26) != catalog_name(51));
    } else if i == 26 && j == 100 {
        assert(catalog_name(26)[0] != catalog_name(100)[0]);
        assert(catalog_name(26) != catalog_name(100));
    } else if i == 51 && j == 100 {
        assert(catalog_name(51)[0] != catalog_name(100)[0]);
        assert(catalog_name(51) != catalog_name(100));
    } else if i == 66 && j == 98 {
        assert(catalog_name(66)[0] != catalog_name(98)[0]);
        assert(catalog_name(66) != catalog_name(98));
    } else if i == 20 && j == 65 {
        assert(catalog_name(20)[0] != catalog_name(65)[0]);
        assert(catalog_name(20) != catalog_name(65));
    } else if i == 20 && j == 97 {
        assert(catalog_name(20)[0] != catalog_name(97)[0]);
        assert(catalog_name(20) != catalog_name(97));
    } else if i == 65 && j == 97 {
        assert(catalog_name(65)[0] != catalog_name(97)[0]);
        assert(catalog_name(65) != catalog_name(97));
    } else {
        assert(catalog_name_len(i) != catalog_name_len(j));
        assert(catalog_name(i).len() != catalog_name(j).len());
    }
}

/// A lookup that starts at or before the first entry carrying the text
/// lands exactly on that entry.
proof fn lemma_lookup_exact(s: Seq<char>, k: int, i: int)
    requires
        0 <= k <= i < catalog_len(),
        catalog_name(i) == s,
        forall|j: int| k <= j < i ==> #[trigger] catalog_name(j) != s,
    ensures
        movement_lookup(s, k) == Some(catalog_movement(i)),
    decreases i - k,
{
    if k < i {
        lemma_lookup_exact(s, k + 1, i);
    }
}

} // verus!
