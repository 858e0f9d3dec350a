use cf_profile::rank::rank_color;

#[test]
fn rank_color_is_case_insensitive() {
    assert_eq!(rank_color("ExPeRt"), rank_color("expert"));
    assert_eq!(rank_color("ExPeRt"), "blue");
    assert_eq!(rank_color("NEWBIE"), "gray");
    assert_eq!(rank_color("Candidate Master"), "violet");
    assert_eq!(rank_color("LeGeNdArY gRaNdMaStEr"), "darkred");
}

#[test]
fn rank_color_unknown_is_black() {
    assert_eq!(rank_color("unranked-nonsense"), "black");
    assert_eq!(rank_color(""), "black");
}

#[test]
fn rank_color_known_names() {
    assert_eq!(rank_color("newbie"), "gray");
    assert_eq!(rank_color("pupil"), "green");
    assert_eq!(rank_color("specialist"), "cyan");
    assert_eq!(rank_color("expert"), "blue");
    assert_eq!(rank_color("candidate master"), "violet");
    assert_eq!(rank_color("master"), "lightorange");
    assert_eq!(rank_color("international master"), "orange");
    assert_eq!(rank_color("grandmaster"), "brightred");
    assert_eq!(rank_color("international grandmaster"), "darkred");
    assert_eq!(rank_color("legendary grandmaster"), "darkred");
}

#[test]
fn rank_color_near_misses_are_black() {
    assert_eq!(rank_color("grand master"), "black");
    assert_eq!(rank_color("expert "), "black");
    assert_eq!(rank_color("candidatemaster"), "black");
}
