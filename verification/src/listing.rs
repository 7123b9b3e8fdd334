//! The movement listing: each movement's display name with a link to an
//! explanatory page, and the markdown list built from the entries that
//! have one.

use vstd::prelude::*;
use crate::text::join_sep;
use vstd::string::StringExecFns;

verus! {

/// The number of entries in the link table.
pub open spec fn url_table_len() -> int {
    77
}

/// The display name of the link-table entry at the given position. The
/// table is ordered by name.
pub open spec fn url_name(i: int) -> Seq<char> {
    if i == 0 {
        "Air Squat"@
    } else if i == 1 {
        "Back Rack Lunge"@
    } else if i == 2 {
        "Back Squat"@
    } else if i == 3 {
        "Bar Muscle Up"@
    } else if i == 4 {
        "Bench Press"@
    } else if i == 5 {
        "Bike"@
    } else if i == 6 {
        "Box Jump"@
    } else if i == 7 {
        "Box Jump Over"@
    } else if i == 8 {
        "Burpee"@
    } else if i == 9 {
        "Burpee Box Jump"@
    } else if i == 10 {
        "Burpee Box Jump Over"@
    } else if i == 11 {
        "Burpee Over The Bar"@
    } else if i == 12 {
        "Burpee To Target"@
    } else if i == 13 {
        "Chest To Bar"@
    } else if i == 14 {
        "Chin Up"@
    } else if i == 15 {
        "Clean"@
    } else if i == 16 {
        "Clean And Jerk"@
    } else if i == 17 {
        "Clean Deadlift"@
    } else if i == 18 {
        "Clean Pull"@
    } else if i == 19 {
        "Deadlift"@
    } else if i == 20 {
        "Devil Press"@
    } else if i == 21 {
        "Double Under"@
    } else if i == 22 {
        "Dumbbell Clean"@
    } else if i == 23 {
        "Dumbbell Clean And Jerk"@
    } else if i == 24 {
        "Dumbbell Hang Clean"@
    } else if i == 25 {
        "Dumbbell Hang Clean And Jerk"@
    } else if i == 26 {
        "Dumbbell Power Clean"@
    } else if i == 27 {
        "Dumbbell Snatch"@
    } else if i == 28 {
        "Echo Bike"@
    } else if i == 29 {
        "Farmer's Carry"@
    } else if i == 30 {
        "Front Rack Lunge"@
    } else if i == 31 {
        "Front Squat"@
    } else if i == 32 {
        "Goblet Squat"@
    } else if i == 33 {
        "Handstand Hold"@
    } else if i == 34 {
        "Handstand Push Up"@
    } else if i == 35 {
        "Handstand Walk"@
    } else if i == 36 {
        "Hang Clean"@
    } else if i == 37 {
        "Hang Power Clean"@
    } else if i == 38 {
        "Hang Power Snatch"@
    } else if i == 39 {
        "Hang Snatch"@
    } else if i == 40 {
        "Kettlebell Swing"@
    } else if i == 41 {
        "Knees To Elbows"@
    } else if i == 42 {
        "L Sit"@
    } else if i == 43 {
        "Muscle Snatch"@
    } else if i == 44 {
        "Muscle Up"@
    } else if i == 45 {
        "Overhead Squat"@
    } else if i == 46 {
        "Overhead Walking Lunge"@
    } else if i == 47 {
        "Pistol Squat"@
    } else if i == 48 {
        "Power Clean"@
    } else if i == 49 {
        "Power Clean And Jerk"@
    } else if i == 50 {
        "Power Snatch"@
    } else if i == 51 {
        "Pull Up"@
    } else if i == 52 {
        "Push Jerk"@
    } else if i == 53 {
        "Push Press"@
    } else if i == 54 {
        "Push Up"@
    } else if i == 55 {
        "Ring Muscle Up"@
    } else if i == 56 {
        "Romanian Deadlift"@
    } else if i == 57 {
        "Rope Climb"@
    } else if i == 58 {
        "Row"@
    } else if i == 59 {
        "Run"@
    } else if i == 60 {
        "Sandbag Clean"@
    } else if i == 61 {
        "Shoulder Press"@
    } else if i == 62 {
        "Ski"@
    } else if i == 63 {
        "Sled Drag"@
    } else if i == 64 {
        "Sled Pull"@
    } else if i == 65 {
        "Sled Push"@
    } else if i == 66 {
        "Snatch"@
    } else if i == 67 {
        "Snatch Balance"@
    } else if i == 68 {
        "Snatch Deadlift"@
    } else if i == 69 {
        "Snatch Pull"@
    } else if i == 70 {
        "Split Jerk"@
    } else if i == 71 {
        "Strict Handstand Push Up"@
    } else if i == 72 {
        "Strict Pull Up"@
    } else if i == 73 {
        "Sumo Deadlift"@
    } else if i == 74 {
        "Turkish Get Up"@
    } else if i == 75 {
        "Wall Ball"@
    } else if i == 76 {
        "Wall Walk"@
    } else {
        ""@
    }
}

/// The link of the link-table entry at the given position; empty when no
/// explanatory page is recorded.
pub open spec fn url_link(i: int) -> Seq<char> {
    if i == 0 {
        "https://www.crossfit.com/essentials/the-air-squat"@
    } else if i == 1 {
        ""@
    } else if i == 2 {
        "https://www.crossfit.com/essentials/the-back-squat"@
    } else if i == 3 {
        ""@
    } else if i == 4 {
        "https://www.crossfit.com/essentials/the-bench-press"@
    } else if i == 5 {
        ""@
    } else if i == 6 {
        ""@
    } else if i == 7 {
        ""@
    } else if i == 8 {
        ""@
    } else if i == 9 {
        ""@
    } else if i == 10 {
        ""@
    } else if i == 11 {
        ""@
    } else if i == 12 {
        ""@
    } else if i == 13 {
        ""@
    } else if i == 14 {
        ""@
    } else if i == 15 {
        "https://www.crossfit.com/essentials/the-clean-2"@
    } else if i == 16 {
        "https://www.crossfit.com/essentials/the-clean-and-jerk"@
    } else if i == 17 {
        ""@
    } else if i == 18 {
        ""@
    } else if i == 19 {
        "https://www.crossfit.com/essentials/the-deadlift"@
    } else if i == 20 {
        ""@
    } else if i == 21 {
        ""@
    } else if i == 22 {
        ""@
    } else if i == 23 {
        ""@
    } else if i == 24 {
        ""@
    } else if i == 25 {
        ""@
    } else if i == 26 {
        ""@
    } else if i == 27 {
        ""@
    } else if i == 28 {
        ""@
    } else if i == 29 {
        ""@
    } else if i == 30 {
        ""@
    } else if i == 31 {
        "https://www.crossfit.com/essentials/the-front-squat"@
    } else if i == 32 {
        ""@
    } else if i == 33 {
        ""@
    } else if i == 34 {
        ""@
    } else if i == 35 {
        ""@
    } else if i == 36 {
        "https://www.crossfit.com/essentials/the-hang-squat-clean"@
    } else if i == 37 {
        "https://www.crossfit.com/essentials/the-hang-power-clean"@
    } else if i == 38 {
        "https://www.crossfit.com/essentials/the-hang-power-snatch"@
    } else if i == 39 {
        "https://www.crossfit.com/essentials/the-hang-snatch"@
    } else if i == 40 {
        ""@
    } else if i == 41 {
        ""@
    } else if i == 42 {
        ""@
    } else if i == 43 {
        "https://www.crossfit.com/essentials/the-muscle-snatch"@
    } else if i == 44 {
        ""@
    } else if i == 45 {
        "https://www.crossfit.com/essentials/the-overhead-squat"@
    } else if i == 46 {
        ""@
    } else if i == 47 {
        "https://www.crossfit.com/essentials/the-single-leg-squat"@
    } else if i == 48 {
        "https://www.crossfit.com/essentials/the-power-clean"@
    } else if i == 49 {
        "https://www.crossfit.com/essentials/the-squat-clean-and-push-jerk"@
    } else if i == 50 {
        "https://www.crossfit.com/essentials/the-power-snatch"@
    } else if i == 51 {
        ""@
    } else if i == 52 {
        "https://www.crossfit.com/essentials/the-push-jerk"@
    } else if i == 53 {
        "https://www.crossfit.com/essentials/the-push-press"@
    } else if i == 54 {
        ""@
    } else if i == 55 {
        ""@
    } else if i == 56 {
        ""@
    } else if i == 57 {
        ""@
    } else if i == 58 {
        ""@
    } else if i == 59 {
        ""@
    } else if i == 60 {
        ""@
    } else if i == 61 {
        "https://www.crossfit.com/essentials/the-shoulder-press"@
    } else if i == 62 {
        ""@
    } else if i == 63 {
        ""@
    } else if i == 64 {
        ""@
    } else if i == 65 {
        ""@
    } else if i == 66 {
        "https://www.crossfit.com/essentials/the-snatch"@
    } else if i == 67 {
        "https://www.crossfit.com/essentials/the-snatch-balance"@
    } else if i == 68 {
        ""@
    } else if i == 69 {
        ""@
    } else if i == 70 {
        "https://www.crossfit.com/essentials/the-split-jerk"@
    } else if i == 71 {
        ""@
    } else if i == 72 {
        ""@
    } else if i == 73 {
        "https://www.crossfit.com/essentials/the-sumo-deadlift"@
    } else if i == 74 {
        ""@
    } else if i == 75 {
        ""@
    } else if i == 76 {
        ""@
    } else {
        ""@
    }
}

/// The markdown line of one entry.
pub open spec fn entry_line(i: int) -> Seq<char> {
    "- ["@ + url_name(i) + "]("@ + url_link(i) + ")"@
}

/// The lines of the entries from position `i` on that have a link.
pub open spec fn linked_lines(i: int) -> Seq<Seq<char>>
    decreases url_table_len() - i when 0 <= i <= url_table_len()
{
    if i >= url_table_len() {
        Seq::empty()
    } else if url_link(i).len() == 0 {
        linked_lines(i + 1)
    } else {
        seq![entry_line(i)] + linked_lines(i + 1)
    }
}

/// The link table, ordered by display name.
fn movement_url_table() -> (v: Vec<(String, String)>)
    ensures
        v@.len() == url_table_len(),
        forall|i: int|
            0 <= i < url_table_len() ==> (#[trigger] v@[i]).0@ == url_name(i) && v@[i].1@
                == url_link(i),
{
    let mut v: Vec<(String, String)> = Vec::new();
    v.push((String::from_str("Air Squat"), String::from_str("https://www.crossfit.com/essentials/the-air-squat")));
    v.push((String::from_str("Back Rack Lunge"), String::from_str("")));
    v.push((String::from_str("Back Squat"), String::from_str("https://www.crossfit.com/essentials/the-back-squat")));
    v.push((String::from_str("Bar Muscle Up"), String::from_str("")));
    v.push((String::from_str("Bench Press"), String::from_str("https://www.crossfit.com/essentials/the-bench-press")));
    v.push((String::from_str("Bike"), String::from_str("")));
    v.push((String::from_str("Box Jump"), String::from_str("")));
    v.push((String::from_str("Box Jump Over"), String::from_str("")));
    v.push((String::from_str("Burpee"), String::from_str("")));
    v.push((String::from_str("Burpee Box Jump"), String::from_str("")));
    v.push((String::from_str("Burpee Box Jump Over"), String::from_str("")));
    v.push((String::from_str("Burpee Over The Bar"), String::from_str("")));
    v.push((String::from_str("Burpee To Target"), String::from_str("")));
    v.push((String::from_str("Chest To Bar"), String::from_str("")));
    v.push((String::from_str("Chin Up"), String::from_str("")));
    v.push((String::from_str("Clean"), String::from_str("https://www.crossfit.com/essentials/the-clean-2")));
    v.push((String::from_str("Clean And Jerk"), String::from_str("https://www.crossfit.com/essentials/the-clean-and-jerk")));
    v.push((String::from_str("Clean Deadlift"), String::from_str("")));
    v.push((String::from_str("Clean Pull"), String::from_str("")));
    v.push((String::from_str("Deadlift"), String::from_str("https://www.crossfit.com/essentials/the-deadlift")));
    v.push((String::from_str("Devil Press"), String::from_str("")));
    v.push((String::from_str("Double Under"), String::from_str("")));
    v.push((String::from_str("Dumbbell Clean"), String::from_str("")));
    v.push((String::from_str("Dumbbell Clean And Jerk"), String::from_str("")));
    v.push((String::from_str("Dumbbell Hang Clean"), String::from_str("")));
    v.push((String::from_str("Dumbbell Hang Clean And Jerk"), String::from_str("")));
    v.push((String::from_str("Dumbbell Power Clean"), String::from_str("")));
    v.push((String::from_str("Dumbbell Snatch"), String::from_str("")));
    v.push((String::from_str("Echo Bike"), String::from_str("")));
    v.push((String::from_str("Farmer's Carry"), String::from_str("")));
    v.push((String::from_str("Front Rack Lunge"), String::from_str("")));
    v.push((String::from_str("Front Squat"), String::from_str("https://www.crossfit.com/essentials/the-front-squat")));
    v.push((String::from_str("Goblet Squat"), String::from_str("")));
    v.push((String::from_str("Handstand Hold"), String::from_str("")));
    v.push((String::from_str("Handstand Push Up"), String::from_str("")));
    v.push((String::from_str("Handstand Walk"), String::from_str("")));
    v.push((String::from_str("Hang Clean"), String::from_str("https://www.crossfit.com/essentials/the-hang-squat-clean")));
    v.push((String::from_str("Hang Power Clean"), String::from_str("https://www.crossfit.com/essentials/the-hang-power-clean")));
    v.push((String::from_str("Hang Power Snatch"), String::from_str("https://www.crossfit.com/essentials/the-hang-power-snatch")));
    v.push((String::from_str("Hang Snatch"), String::from_str("https://www.crossfit.com/essentials/the-hang-snatch")));
    v.push((String::from_str("Kettlebell Swing"), String::from_str("")));
    v.push((String::from_str("Knees To Elbows"), String::from_str("")));
    v.push((String::from_str("L Sit"), String::from_str("")));
    v.push((String::from_str("Muscle Snatch"), String::from_str("https://www.crossfit.com/essentials/the-muscle-snatch")));
    v.push((String::from_str("Muscle Up"), String::from_str("")));
    v.push((String::from_str("Overhead Squat"), String::from_str("https://www.crossfit.com/essentials/the-overhead-squat")));
    v.push((String::from_str("Overhead Walking Lunge"), String::from_str("")));
    v.push((String::from_str("Pistol Squat"), String::from_str("https://www.crossfit.com/essentials/the-single-leg-squat")));
    v.push((String::from_str("Power Clean"), String::from_str("https://www.crossfit.com/essentials/the-power-clean")));
    v.push((String::from_str("Power Clean And Jerk"), String::from_str("https://www.crossfit.com/essentials/the-squat-clean-and-push-jerk")));
    v.push((String::from_str("Power Snatch"), String::from_str("https://www.crossfit.com/essentials/the-power-snatch")));
    v.push((String::from_str("Pull Up"), String::from_str("")));
    v.push((String::from_str("Push Jerk"), String::from_str("https://www.crossfit.com/essentials/the-push-jerk")));
    v.push((String::from_str("Push Press"), String::from_str("https://www.crossfit.com/essentials/the-push-press")));
    v.push((String::from_str("Push Up"), String::from_str("")));
    v.push((String::from_str("Ring Muscle Up"), String::from_str("")));
    v.push((String::from_str("Romanian Deadlift"), String::from_str("")));
    v.push((String::from_str("Rope Climb"), String::from_str("")));
    v.push((String::from_str("Row"), String::from_str("")));
    v.push((String::from_str("Run"), String::from_str("")));
    v.push((String::from_str("Sandbag Clean"), String::from_str("")));
    v.push((String::from_str("Shoulder Press"), String::from_str("https://www.crossfit.com/essentials/the-shoulder-press")));
    v.push((String::from_str("Ski"), String::from_str("")));
    v.push((String::from_str("Sled Drag"), String::from_str("")));
    v.push((String::from_str("Sled Pull"), String::from_str("")));
    v.push((String::from_str("Sled Push"), String::from_str("")));
    v.push((String::from_str("Snatch"), String::from_str("https://www.crossfit.com/essentials/the-snatch")));
    v.push((String::from_str("Snatch Balance"), String::from_str("https://www.crossfit.com/essentials/the-snatch-balance")));
    v.push((String::from_str("Snatch Deadlift"), String::from_str("")));
    v.push((String::from_str("Snatch Pull"), String::from_str("")));
    v.push((String::from_str("Split Jerk"), String::from_str("https://www.crossfit.com/essentials/the-split-jerk")));
    v.push((String::from_str("Strict Handstand Push Up"), String::from_str("")));
    v.push((String::from_str("Strict Pull Up"), String::from_str("")));
    v.push((String::from_str("Sumo Deadlift"), String::from_str("https://www.crossfit.com/essentials/the-sumo-deadlift")));
    v.push((String::from_str("Turkish Get Up"), String::from_str("")));
    v.push((String::from_str("Wall Ball"), String::from_str("")));
    v.push((String::from_str("Wall Walk"), String::from_str("")));
    proof {
        assert forall|i: int|
            0 <= i < url_table_len() implies (#[trigger] v@[i]).0@ == url_name(i) && v@[i].1@
            == url_link(i) by {
        }
    }
    v
}

/// Each movement's display name with the link to its explanatory page;
/// entries without a page carry an empty link. Ordered by name.
impl crate::movement::Movement {
    /// The table of display names and links, ordered by name.
    pub fn list_with_url() -> (v: Vec<(String, String)>)
        ensures
            v@.len() == url_table_len(),
            forall|i: int|
                0 <= i < url_table_len() ==> (#[trigger] v@[i]).0@ == url_name(i) && v@[i].1@
                    == url_link(i),
    {
        movement_url_table()
    }
}

/// The comma-separated language codes of a language list, in order.
pub fn get_languages(languages: &str) -> (r: Vec<String>)
    ensures
        r@.len() == crate::text::split_char(languages@, ',').len(),
        forall|i: int|
            0 <= i < r@.len() ==> (#[trigger] r@[i])@ == crate::text::split_char(
                languages@,
                ',',
            )[i],
{
    let v = crate::text::chars_of(languages);
    proof {
        assert(v@.subrange(0, v@.len() as int) =~= languages@);
    }
    let spans = crate::text::split_spans(&v, 0, v.len(), ',');
    let mut out: Vec<String> = Vec::new();
    let mut k: usize = 0;
    while k < spans.len()
        invariant
            v@ == languages@,
            spans@.len() == crate::text::split_char(languages@, ',').len(),
            forall|t: int|
                0 <= t < spans@.len() ==> 0 <= #[trigger] spans@[t].0 <= spans@[t].1 <= v@.len()
                    && v@.subrange(spans@[t].0 as int, spans@[t].1 as int)
                    == crate::text::split_char(languages@, ',')[t],
            k <= spans@.len(),
            out@.len() == k,
            forall|t: int|
                0 <= t < k ==> (#[trigger] out@[t])@ == crate::text::split_char(
                    languages@,
                    ',',
                )[t],
        decreases spans@.len() - k,
    {
        let part = crate::text::string_from_chars(&v, spans[k].0, spans[k].1);
        out.push(part);
        k = k + 1;
    }
    out
}

/// The markdown list of movements with explanatory pages: one line per
/// linked entry, blank lines between, and the page front matter first when
/// a full page is asked for.
pub open spec fn movement_list_text(page: bool) -> Seq<char> {
    let body = join_sep(linked_lines(0), "\n\n"@);
    if page {
        page_front_matter() + body
    } else {
        body
    }
}

/// The front matter of the generated movements page.
pub open spec fn page_front_matter() -> Seq<char> {
    "---\ntitle: \"CrossFit Movements\"\ndescription: \"List of movements with explanatory video\"\n---\n\nList of CrossFit movements, click on them to see an explanation.\n\n---\n\n"@
}

/// Builds the markdown list of movements, each linked to its explanatory
/// page; entries without a page are left out.
pub fn run_create_list_movements(page: bool) -> (r: String)
    ensures
        r@ == movement_list_text(page),
{
    let mut s = if page {
        String::from_str(
            "---\ntitle: \"CrossFit Movements\"\ndescription: \"List of movements with explanatory video\"\n---\n\nList of CrossFit movements, click on them to see an explanation.\n\n---\n\n",
        )
    } else {
        String::new()
    };
    let ghost head = s@;
    let table = movement_url_table();
    let n = table.len();
    let ghost all_lines = linked_lines(0);
    let mut first = true;
    let mut i: usize = 0;
    proof {
        assert(join_sep(linked_lines(0), "\n\n"@) =~= Seq::<char>::empty() + join_sep(
            linked_lines(0),
            "\n\n"@,
        ));
    }
    while i < n
        invariant
            n == url_table_len(),
            table@.len() == url_table_len(),
            forall|k: int|
                0 <= k < url_table_len() ==> (#[trigger] table@[k]).0@ == url_name(k)
                    && table@[k].1@ == url_link(k),
            head == (if page {
                page_front_matter()
            } else {
                Seq::<char>::empty()
            }),
            i <= n,
            first ==> s@ == head && linked_lines(0) == linked_lines(i as int),
            !first ==> head + join_sep(linked_lines(0), "\n\n"@) == s@ + join_prefixed(
                linked_lines(i as int),
            ),
        decreases n - i,
    {
        let ghost s_old = s@;
        let ghost was_first = first;
        let ghost li = linked_lines(i as int);
        let ghost li1 = linked_lines(i + 1);
        if !table[i].1.as_str().is_empty() {
            proof {
                assert(li =~= seq![entry_line(i as int)] + li1);
                assert(li.drop_first() =~= li1);
                lemma_join_first(li);
            }
            if first {
                first = false;
            } else {
                s.append("\n\n");
            }
            s.append("- [");
            s.append(table[i].0.as_str());
            s.append("](");
            s.append(table[i].1.as_str());
            s.append(")");
            proof {
                if was_first {
                    assert(s@ =~= head + entry_line(i as int));
                    assert(head + join_sep(linked_lines(0), "\n\n"@) =~= s@ + join_prefixed(li1));
                } else {
                    assert(s@ =~= s_old + "\n\n"@ + entry_line(i as int));
                    assert(head + join_sep(linked_lines(0), "\n\n"@) =~= s@ + join_prefixed(li1));
                }
            }
        } else {
            proof {
                assert(li =~= li1);
            }
        }
        i = i + 1;
    }
    proof {
        assert(linked_lines(n as int) =~= Seq::<Seq<char>>::empty());
        if first {
            assert(join_sep(linked_lines(0), "\n\n"@) =~= Seq::<char>::empty());
            assert(s@ =~= movement_list_text(page));
        } else {
            assert(join_prefixed(linked_lines(n as int)) =~= Seq::<char>::empty());
            assert(s@ =~= movement_list_text(page));
        }
    }
    s
}

/// The rest of a join that already has earlier pieces: a separator before
/// each remaining piece.
pub open spec fn join_prefixed(xs: Seq<Seq<char>>) -> Seq<char> {
    if xs.len() == 0 {
        Seq::empty()
    } else {
        "\n\n"@ + join_sep(xs, "\n\n"@)
    }
}

/// Splitting a non-empty join at its first piece.
proof fn lemma_join_first(xs: Seq<Seq<char>>)
    requires
        xs.len() >= 1,
    ensures
        join_sep(xs, "\n\n"@) == xs[0] + join_prefixed(xs.drop_first()),
{
    if xs.len() == 1 {
        assert(xs.drop_first().len() == 0);
        assert(xs[0] + Seq::<char>::empty() =~= xs[0]);
    }
}

} // verus!
