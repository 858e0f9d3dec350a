//! Rank names and their display colors.
//!
//! The color of a rank is decided case-insensitively: the rank text is
//! folded to lower case (ASCII folding; rank names are plain ASCII) and
//! compared against the known Codeforces rank names. Unknown ranks, and the
//! empty string, are shown in black.

use vstd::prelude::*;

verus! {

/// ASCII lower-case folding of one character: upper-case ASCII letters are
/// mapped to their lower-case form, every other character is unchanged.
pub open spec fn lower_char(c: char) -> char {
    if 65 <= c as u32 && c as u32 <= 90 {
        ((c as u32) + 32) as char
    } else {
        c
    }
}

/// ASCII lower-case folding of a whole string.
pub open spec fn lower_seq(s: Seq<char>) -> Seq<char> {
    s.map_values(|c: char| lower_char(c))
}

fn lower_char_exec(c: char) -> (r: char)
    ensures
        r == lower_char(c),
{
    let u = c as u32;
    if 65 <= u && u <= 90 {
        ((u + 32) as u8) as char
    } else {
        c
    }
}

/// Case-insensitive string equality: true exactly when the two strings agree
/// after lower-case folding.
pub fn eq_ignore_case(s: &str, t: &str) -> (r: bool)
    ensures
        r == (lower_seq(s@) == lower_seq(t@)),
{
    let n = s.unicode_len();
    let m = t.unicode_len();
    if n != m {
        proof {
            assert(lower_seq(s@).len() != lower_seq(t@).len());
        }
        return false;
    }
    let mut i: usize = 0;
    while i < n
        invariant
            n == s@.len(),
            n == t@.len(),
            i <= n,
            forall|j: int| 0 <= j < i ==> lower_char(s@[j]) == lower_char(t@[j]),
        decreases n - i,
    {
        let a = lower_char_exec(s.get_char(i));
        let b = lower_char_exec(t.get_char(i));
        if a != b {
            proof {
                assert(lower_seq(s@)[i as int] != lower_seq(t@)[i as int]);
            }
            return false;
        }
        i += 1;
    }
    proof {
        assert(lower_seq(s@) =~= lower_seq(t@));
    }
    true
}

/// The color token shown for a rank text: the text is folded to lower case
/// and matched against the known rank names; anything else is black.
pub open spec fn color_of(rank: Seq<char>) -> Seq<char> {
    let l = lower_seq(rank);
    if l == "newbie"@ {
        "gray"@
    } else if l == "pupil"@ {
        "green"@
    } else if l == "specialist"@ {
        "cyan"@
    } else if l == "expert"@ {
        "blue"@
    } else if l == "candidate master"@ {
        "violet"@
    } else if l == "master"@ {
        "lightorange"@
    } else if l == "international master"@ {
        "orange"@
    } else if l == "grandmaster"@ {
        "brightred"@
    } else if l == "international grandmaster"@ {
        "darkred"@
    } else if l == "legendary grandmaster"@ {
        "darkred"@
    } else {
        "black"@
    }
}

/// Each rank name is already lower case, so folding leaves it unchanged.
proof fn lemma_rank_names_are_lower()
    ensures
        lower_seq("newbie"@) == "newbie"@,
        lower_seq("pupil"@) == "pupil"@,
        lower_seq("specialist"@) == "specialist"@,
        lower_seq("expert"@) == "expert"@,
        lower_seq("candidate master"@) == "candidate master"@,
        lower_seq("master"@) == "master"@,
        lower_seq("international master"@) == "international master"@,
        lower_seq("grandmaster"@) == "grandmaster"@,
        lower_seq("international grandmaster"@) == "international grandmaster"@,
        lower_seq("legendary grandmaster"@) == "legendary grandmaster"@,
{
    reveal_strlit("newbie");
    reveal_strlit("pupil");
    reveal_strlit("specialist");
    reveal_strlit("expert");
    reveal_strlit("candidate master");
    reveal_strlit("master");
    reveal_strlit("international master");
    reveal_strlit("grandmaster");
    reveal_strlit("international grandmaster");
    reveal_strlit("legendary grandmaster");
    assert(lower_seq("newbie"@) =~= "newbie"@);
    assert(lower_seq("pupil"@) =~= "pupil"@);
    assert(lower_seq("specialist"@) =~= "specialist"@);
    assert(lower_seq("expert"@) =~= "expert"@);
    assert(lower_seq("candidate master"@) =~= "candidate master"@);
    assert(lower_seq("master"@) =~= "master"@);
    assert(lower_seq("international master"@) =~= "international master"@);
    assert(lower_seq("grandmaster"@) =~= "grandmaster"@);
    assert(lower_seq("international grandmaster"@) =~= "international grandmaster"@);
    assert(lower_seq("legendary grandmaster"@) =~= "legendary grandmaster"@);
}

/// The color for a rank text. Total: every input, known rank name or not, in
/// any casing, is mapped to a color.
pub fn rank_color(rank: &str) -> (r: &'static str)
    ensures
        r@ == color_of(rank@),
{
    proof {
        lemma_rank_names_are_lower();
    }
    if eq_ignore_case(rank, "newbie") {
        "gray"
    } else if eq_ignore_case(rank, "pupil") {
        "green"
    } else if eq_ignore_case(rank, "specialist") {
        "cyan"
    } else if eq_ignore_case(rank, "expert") {
        "blue"
    } else if eq_ignore_case(rank, "candidate master") {
        "violet"
    } else if eq_ignore_case(rank, "master") {
        "lightorange"
    } else if eq_ignore_case(rank, "international master") {
        "orange"
    } else if eq_ignore_case(rank, "grandmaster") {
        "brightred"
    } else if eq_ignore_case(rank, "international grandmaster") {
        "darkred"
    } else if eq_ignore_case(rank, "legendary grandmaster") {
        "darkred"
    } else {
        "black"
    }
}

/// The color of a rank is decided case-insensitively: two rank texts that
/// agree after lower-case folding are shown in the same color.
pub proof fn lemma_rank_color_case_insensitive(s: Seq<char>, t: Seq<char>)
    requires
        lower_seq(s) == lower_seq(t),
    ensures
        color_of(s) == color_of(t),
{
}

} // verus!
