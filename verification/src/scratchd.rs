use vstd::prelude::*;
use crate::movement::catalog_name;
verus! {
proof fn try_distinct_last() {
    reveal_strlit("air squat");
    reveal_strlit("back rack lunge");
    reveal_strlit("back squat");
    reveal_strlit("bar mu");
    reveal_strlit("bar muscle up");
    reveal_strlit("bench press");
    reveal_strlit("bike");
    reveal_strlit("box jump");
    reveal_strlit("box jump over");
    reveal_strlit("burpee");
    reveal_strlit("burpee box jump");
    reveal_strlit("burpee box jump over");
    reveal_strlit("burpee over the bar");
    reveal_strlit("burpee pull up");
    reveal_strlit("burpee to target");
    reveal_strlit("c2b");
    reveal_strlit("chest to bar");
    reveal_strlit("chin up");
    reveal_strlit("clean");
    reveal_strlit("clean and jerk");
    reveal_strlit("clean pull");
    reveal_strlit("clean-deadlift");
    reveal_strlit("db clean");
    reveal_strlit("db clean and jerk");
    reveal_strlit("db hang clean");
    reveal_strlit("db power clean");
    reveal_strlit("db snatch");
    reveal_strlit("dball");
    reveal_strlit("dball carry");
    reveal_strlit("dball hold");
    reveal_strlit("deadlift");
    reveal_strlit("devil press");
    reveal_strlit("double under");
    reveal_strlit("du");
    reveal_strlit("dumbbell clean");
    reveal_strlit("dumbbell clean and jerk");
    reveal_strlit("dumbbell hang clean");
    reveal_strlit("dumbbell power clean");
    reveal_strlit("dumbbell snatch");
    reveal_strlit("echo bike");
    reveal_strlit("farmer carry");
    reveal_strlit("front rack lunge");
    reveal_strlit("front squat");
    reveal_strlit("ghd");
    reveal_strlit("goblet squat");
    reveal_strlit("handstand hold");
    reveal_strlit("handstand push up");
    reveal_strlit("handstand walk");
    reveal_strlit("hang clean");
    reveal_strlit("hang power clean");
    reveal_strlit("hang power snatch");
    reveal_strlit("hang snatch");
    reveal_strlit("hs walk");
    reveal_strlit("hspu");
    reveal_strlit("hsw");
    reveal_strlit("kettlebell swing");
    reveal_strlit("knees to elbows");
    reveal_strlit("l-sit");
    reveal_strlit("legless rc");
    reveal_strlit("legless rope climb");
    reveal_strlit("muscle snatch");
    reveal_strlit("muscle up");
    reveal_strlit("ohs");
    reveal_strlit("overhead squat");
    reveal_strlit("overhead walking lunge");
    reveal_strlit("pistol squat");
    reveal_strlit("power clean");
    reveal_strlit("power clean and jerk");
    reveal_strlit("power snatch");
    reveal_strlit("pull up");
    reveal_strlit("push jerk");
    reveal_strlit("push press");
    reveal_strlit("push up");
    reveal_strlit("rc");
    reveal_strlit("rest");
    reveal_strlit("ring mu");
    reveal_strlit("ring muscle up");
    reveal_strlit("romanian deadlift");
    reveal_strlit("rope climb");
    reveal_strlit("row");
    reveal_strlit("run");
    reveal_strlit("sandbag clean");
    reveal_strlit("shoulder press");
    reveal_strlit("shspu");
    reveal_strlit("sit up");
    reveal_strlit("ski");
    reveal_strlit("sled drag");
    reveal_strlit("sled pull");
    reveal_strlit("sled push");
    reveal_strlit("snatch");
    reveal_strlit("snatch balance");
    reveal_strlit("snatch deadlift");
    reveal_strlit("snatch pull");
    reveal_strlit("split jerk");
    reveal_strlit("strict pull up");
    reveal_strlit("sumo deadlift");
    reveal_strlit("t2b");
    reveal_strlit("thruster");
    reveal_strlit("toes to bar");
    reveal_strlit("turkish get up");
    reveal_strlit("v up");
    reveal_strlit("wall ball");
    reveal_strlit("wall walk");
    assert forall|j: int| 0 <= j < 102 implies #[trigger] catalog_name(j) != catalog_name(102) by {
        if j == 0 {
            assert(catalog_name(0).len() != catalog_name(102).len());
            assert(catalog_name(0) != catalog_name(102));
        } else if j == 1 {
            assert(catalog_name(1).len() != catalog_name(102).len());
            assert(catalog_name(1) != catalog_name(102));
        } else if j == 2 {
            assert(catalog_name(2).len() != catalog_name(102).len());
            assert(catalog_name(2) != catalog_name(102));
        } else if j == 3 {
            assert(catalog_name(3).len() != catalog_name(102).len());
            assert(catalog_name(3) != catalog_name(102));
        } else if j == 4 {
            assert(catalog_name(4).len() != catalog_name(102).len());
            assert(catalog_name(4) != catalog_name(102));
        } else if j == 5 {
            assert(catalog_name(5).len() != catalog_name(102).len());
            assert(catalog_name(5) != catalog_name(102));
        } else if j == 6 {
            assert(catalog_name(6).len() != catalog_name(102).len());
            assert(catalog_name(6) != catalog_name(102));
        } else if j == 7 {
            assert(catalog_name(7).len() != catalog_name(102).len());
            assert(catalog_name(7) != catalog_name(102));
        } else if j == 8 {
            assert(catalog_name(8).len() != catalog_name(102).len());
            assert(catalog_name(8) != catalog_name(102));
        } else if j == 9 {
            assert(catalog_name(9).len() != catalog_name(102).len());
            assert(catalog_name(9) != catalog_name(102));
        } else if j == 10 {
            assert(catalog_name(10).len() != catalog_name(102).len());
            assert(catalog_name(10) != catalog_name(102));
        } else if j == 11 {
            assert(catalog_name(11).len() != catalog_name(102).len());
            assert(catalog_name(11) != catalog_name(102));
        } else if j == 12 {
            assert(catalog_name(12).len() != catalog_name(102).len());
            assert(catalog_name(12) != catalog_name(102));
        } else if j == 13 {
            assert(catalog_name(13).len() != catalog_name(102).len());
            assert(catalog_name(13) != catalog_name(102));
        } else if j == 14 {
            assert(catalog_name(14).len() != catalog_name(102).len());
            assert(catalog_name(14) != catalog_name(102));
        } else if j == 15 {
            assert(catalog_name(15).len() != catalog_name(102).len());
            assert(catalog_name(15) != catalog_name(102));
        } else if j == 16 {
            assert(catalog_name(16).len() != catalog_name(102).len());
            assert(catalog_name(16) != catalog_name(102));
        } else if j == 17 {
            assert(catalog_name(17).len() != catalog_name(102).len());
            assert(catalog_name(17) != catalog_name(102));
        } else if j == 18 {
            assert(catalog_name(18).len() != catalog_name(102).len());
            assert(catalog_name(18) != catalog_name(102));
        } else if j == 19 {
            assert(catalog_name(19).len() != catalog_name(102).len());
            assert(catalog_name(19) != catalog_name(102));
        } else if j == 20 {
            assert(catalog_name(20).len() != catalog_name(102).len());
            assert(catalog_name(20) != catalog_name(102));
        } else if j == 21 {
            assert(catalog_name(21).len() != catalog_name(102).len());
            assert(catalog_name(21) != catalog_name(102));
        } else if j == 22 {
            assert(catalog_name(22).len() != catalog_name(102).len());
            assert(catalog_name(22) != catalog_name(102));
        } else if j == 23 {
            assert(catalog_name(23).len() != catalog_name(102).len());
            assert(catalog_name(23) != catalog_name(102));
        } else if j == 24 {
            assert(catalog_name(24).len() != catalog_name(102).len());
            assert(catalog_name(24) != catalog_name(102));
        } else if j == 25 {
            assert(catalog_name(25).len() != catalog_name(102).len());
            assert(catalog_name(25) != catalog_name(102));
        } else if j == 26 {
            assert(catalog_name(26).len() != catalog_name(102).len());
            assert(catalog_name(26) != catalog_name(102));
        } else if j == 27 {
            assert(catalog_name(27).len() != catalog_name(102).len());
            assert(catalog_name(27) != catalog_name(102));
        } else if j == 28 {
            assert(catalog_name(28).len() != catalog_name(102).len());
            assert(catalog_name(28) != catalog_name(102));
        } else if j == 29 {
            assert(catalog_name(29).len() != catalog_name(102).len());
            assert(catalog_name(29) != catalog_name(102));
        } else if j == 30 {
            assert(catalog_name(30).len() != catalog_name(102).len());
            assert(catalog_name(30) != catalog_name(102));
        } else if j == 31 {
            assert(catalog_name(31).len() != catalog_name(102).len());
            assert(catalog_name(31) != catalog_name(102));
        } else if j == 32 {
            assert(catalog_name(32).len() != catalog_name(102).len());
            assert(catalog_name(32) != catalog_name(102));
        } else if j == 33 {
            assert(catalog_name(33).len() != catalog_name(102).len());
            assert(catalog_name(33) != catalog_name(102));
        } else if j == 34 {
            assert(catalog_name(34).len() != catalog_name(102).len());
            assert(catalog_name(34) != catalog_name(102));
        } else if j == 35 {
            assert(catalog_name(35).len() != catalog_name(102).len());
            assert(catalog_name(35) != catalog_name(102));
        } else if j == 36 {
            assert(catalog_name(36).len() != catalog_name(102).len());
            assert(catalog_name(36) != catalog_name(102));
        } else if j == 37 {
            assert(catalog_name(37).len() != catalog_name(102).len());
            assert(catalog_name(37) != catalog_name(102));
        } else if j == 38 {
            assert(catalog_name(38).len() != catalog_name(102).len());
            assert(catalog_name(38) != catalog_name(102));
        } else if j == 39 {
            assert(catalog_name(39).len() != catalog_name(102).len());
            assert(catalog_name(39) != catalog_name(102));
        } else if j == 40 {
            assert(catalog_name(40).len() != catalog_name(102).len());
            assert(catalog_name(40) != catalog_name(102));
        } else if j == 41 {
            assert(catalog_name(41).len() != catalog_name(102).len());
            assert(catalog_name(41) != catalog_name(102));
        } else if j == 42 {
            assert(catalog_name(42).len() != catalog_name(102).len());
            assert(catalog_name(42) != catalog_name(102));
        } else if j == 43 {
            assert(catalog_name(43).len() != catalog_name(102).len());
            assert(catalog_name(43) != catalog_name(102));
        } else if j == 44 {
            assert(catalog_name(44).len() != catalog_name(102).len());
            assert(catalog_name(44) != catalog_name(102));
        } else if j == 45 {
            assert(catalog_name(45).len() != catalog_name(102).len());
            assert(catalog_name(45) != catalog_name(102));
        } else if j == 46 {
            assert(catalog_name(46)[0] != catalog_name(102)[0]);
            assert(catalog_name(46) != catalog_name(102));
        } else if j == 47 {
            assert(catalog_name(47).len() != catalog_name(102).len());
            assert(catalog_name(47) != catalog_name(102));
        } else if j == 48 {
            assert(catalog_name(48).len() != catalog_name(102).len());
            assert(catalog_name(48) != catalog_name(102));
        } else if j == 49 {
            assert(catalog_name(49).len() != catalog_name(102).len());
            assert(catalog_name(49) != catalog_name(102));
        } else if j == 50 {
            assert(catalog_name(50)[0] != catalog_name(102)[0]);
            assert(catalog_name(50) != catalog_name(102));
        } else if j == 51 {
            assert(catalog_name(51).len() != catalog_name(102).len());
            assert(catalog_name(51) != catalog_name(102));
        } else if j == 52 {
            assert(catalog_name(52).len() != catalog_name(102).len());
            assert(catalog_name(52) != catalog_name(102));
        } else if j == 53 {
            assert(catalog_name(53).len() != catalog_name(102).len());
            assert(catalog_name(53) != catalog_name(102));
        } else if j == 54 {
            assert(catalog_name(54).len() != catalog_name(102).len());
            assert(catalog_name(54) != catalog_name(102));
        } else if j == 55 {
            assert(catalog_name(55).len() != catalog_name(102).len());
            assert(catalog_name(55) != catalog_name(102));
        } else if j == 56 {
            assert(catalog_name(56).len() != catalog_name(102).len());
            assert(catalog_name(56) != catalog_name(102));
        } else if j == 57 {
            assert(catalog_name(57).len() != catalog_name(102).len());
            assert(catalog_name(57) != catalog_name(102));
        } else if j == 58 {
            assert(catalog_name(58).len() != catalog_name(102).len());
            assert(catalog_name(58) != catalog_name(102));
        } else if j == 59 {
            assert(catalog_name(59).len() != catalog_name(102).len());
            assert(catalog_name(59) != catalog_name(102));
        } else if j == 60 {
            assert(catalog_name(60).len() != catalog_name(102).len());
            assert(catalog_name(60) != catalog_name(102));
        } else if j == 61 {
            assert(catalog_name(61).len() != catalog_name(102).len());
            assert(catalog_name(61) != catalog_name(102));
        } else if j == 62 {
            assert(catalog_name(62).len() != catalog_name(102).len());
            assert(catalog_name(62) != catalog_name(102));
        } else if j == 63 {
            assert(catalog_name(63).len() != catalog_name(102).len());
            assert(catalog_name(63) != catalog_name(102));
        } else if j == 64 {
            assert(catalog_name(64).len() != catalog_name(102).len());
            assert(catalog_name(64) != catalog_name(102));
        } else if j == 65 {
            assert(catalog_name(65).len() != catalog_name(102).len());
            assert(catalog_name(65) != catalog_name(102));
        } else if j == 66 {
            assert(catalog_name(66).len() != catalog_name(102).len());
            assert(catalog_name(66) != catalog_name(102));
        } else if j == 67 {
            assert(catalog_name(67).len() != catalog_name(102).len());
            assert(catalog_name(67) != catalog_name(102));
        } else if j == 68 {
            assert(catalog_name(68).len() != catalog_name(102).len());
            assert(catalog_name(68) != catalog_name(102));
        } else if j == 69 {
            assert(catalog_name(69).len() != catalog_name(102).len());
            assert(catalog_name(69) != catalog_name(102));
        } else if j == 70 {
            assert(catalog_name(70).len() != catalog_name(102).len());
            assert(catalog_name(70) != catalog_name(102));
        } else if j == 71 {
            assert(catalog_name(71).len() != catalog_name(102).len());
            assert(catalog_name(71) != catalog_name(102));
        } else if j == 72 {
            assert(catalog_name(72).len() != catalog_name(102).len());
            assert(catalog_name(72) != catalog_name(102));
        } else if j == 73 {
            assert(catalog_name(73).len() != catalog_name(102).len());
            assert(catalog_name(73) != catalog_name(102));
        } else if j == 74 {
            assert(catalog_name(74).len() != catalog_name(102).len());
            assert(catalog_name(74) != catalog_name(102));
        } else if j == 75 {
            assert(catalog_name(75).len() != catalog_name(102).len());
            assert(catalog_name(75) != catalog_name(102));
        } else if j == 76 {
            assert(catalog_name(76).len() != catalog_name(102).len());
            assert(catalog_name(76) != catalog_name(102));
        } else if j == 77 {
            assert(catalog_name(77).len() != catalog_name(102).len());
            assert(catalog_name(77) != catalog_name(102));
        } else if j == 78 {
            assert(catalog_name(78).len() != catalog_name(102).len());
            assert(catalog_name(78) != catalog_name(102));
        } else if j == 79 {
            assert(catalog_name(79).len() != catalog_name(102).len());
            assert(catalog_name(79) != catalog_name(102));
        } else if j == 80 {
            assert(catalog_name(80).len() != catalog_name(102).len());
            assert(catalog_name(80) != catalog_name(102));
        } else if j == 81 {
            assert(catalog_name(81).len() != catalog_name(102).len());
            assert(catalog_name(81) != catalog_name(102));
        } else if j == 82 {
            assert(catalog_name(82).len() != catalog_name(102).len());
            assert(catalog_name(82) != catalog_name(102));
        } else if j == 83 {
            assert(catalog_name(83).len() != catalog_name(102).len());
            assert(catalog_name(83) != catalog_name(102));
        } else if j == 84 {
            assert(catalog_name(84).len() != catalog_name(102).len());
            assert(catalog_name(84) != catalog_name(102));
        } else if j == 85 {
            assert(catalog_name(85).len() != catalog_name(102).len());
            assert(catalog_name(85) != catalog_name(102));
        } else if j == 86 {
            assert(catalog_name(86).len() != catalog_name(102).len());
            assert(catalog_name(86) != catalog_name(102));
        } else if j == 87 {
            assert(catalog_name(87).len() != catalog_name(102).len());
            assert(catalog_name(87) != catalog_name(102));
        } else if j == 88 {
            assert(catalog_name(88)[0] != catalog_name(102)[0]);
            assert(catalog_name(88) != catalog_name(102));
        } else if j == 89 {
            assert(catalog_name(89).len() != catalog_name(102).len());
            assert(catalog_name(89) != catalog_name(102));
        } else if j == 90 {
            assert(catalog_name(90).len() != catalog_name(102).len());
            assert(catalog_name(90) != catalog_name(102));
        } else if j == 91 {
            assert(catalog_name(91).len() != catalog_name(102).len());
            assert(catalog_name(91) != catalog_name(102));
        } else if j == 92 {
            assert(catalog_name(92).len() != catalog_name(102).len());
            assert(catalog_name(92) != catalog_name(102));
        } else if j == 93 {
            assert(catalog_name(93).len() != catalog_name(102).len());
            assert(catalog_name(93) != catalog_name(102));
        } else if j == 94 {
            assert(catalog_name(94).len() != catalog_name(102).len());
            assert(catalog_name(94) != catalog_name(102));
        } else if j == 95 {
            assert(catalog_name(95).len() != catalog_name(102).len());
            assert(catalog_name(95) != catalog_name(102));
        } else if j == 96 {
            assert(catalog_name(96).len() != catalog_name(102).len());
            assert(catalog_name(96) != catalog_name(102));
        } else if j == 97 {
            assert(catalog_name(97).len() != catalog_name(102).len());
            assert(catalog_name(97) != catalog_name(102));
        } else if j == 98 {
            assert(catalog_name(98).len() != catalog_name(102).len());
            assert(catalog_name(98) != catalog_name(102));
        } else if j == 99 {
            assert(catalog_name(99).len() != catalog_name(102).len());
            assert(catalog_name(99) != catalog_name(102));
        } else if j == 100 {
            assert(catalog_name(100).len() != catalog_name(102).len());
            assert(catalog_name(100) != catalog_name(102));
        } else if j == 101 {
            assert(catalog_name(101).len() != catalog_name(102).len());
            assert(catalog_name(101) != catalog_name(102));
        }
    }
}
} // verus!
