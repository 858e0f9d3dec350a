use cf_profile::profile::Profile;

#[test]
fn missing_rating_displays_zero() {
    let mut p = Profile::default();
    p.handle = String::from("fresh");
    assert_eq!(p.display_rating(), 0);
    assert_eq!(p.display_max_rating(), 0);
    assert_eq!(p.display_contribution(), 0);
}

#[test]
fn missing_texts_display_placeholders() {
    let p = Profile::default();
    assert_eq!(p.display_organization(), "N/A");
    assert_eq!(p.display_country(), "N/A");
    assert_eq!(p.display_title_photo(), "");
    assert_eq!(p.display_rank(), "");
    assert_eq!(p.display_rank_color(), "black");
}

#[test]
fn present_fields_display_their_values() {
    let p = Profile {
        handle: String::from("someone"),
        rating: Some(1612),
        max_rating: Some(1700),
        rank: Some(String::from("Expert")),
        country: Some(String::from("Norway")),
        title_photo: Some(String::from("https://example.org/p.png")),
        organization: Some(String::from("NTNU")),
        contribution: Some(-3),
    };
    assert_eq!(p.display_rating(), 1612);
    assert_eq!(p.display_max_rating(), 1700);
    assert_eq!(p.display_contribution(), -3);
    assert_eq!(p.display_rank(), "Expert");
    assert_eq!(p.display_rank_color(), "blue");
    assert_eq!(p.display_organization(), "NTNU");
    assert_eq!(p.display_country(), "Norway");
    assert_eq!(p.display_title_photo(), "https://example.org/p.png");
}

#[test]
fn default_profile_is_all_defaults() {
    let p = Profile::default();
    assert_eq!(p.handle, "");
    assert!(p.rating.is_none());
    assert!(p.max_rating.is_none());
    assert!(p.rank.is_none());
    assert!(p.country.is_none());
    assert!(p.title_photo.is_none());
    assert!(p.organization.is_none());
    assert!(p.contribution.is_none());
}
