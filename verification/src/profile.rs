//! The profile record that the widget displays, with the placeholders shown
//! for absent optional fields: `0` for the integer scores, `"N/A"` for
//! organization and country, the empty string for photo and rank.

use vstd::prelude::*;
use crate::rank::color_of;
use crate::rank::rank_color;

verus! {

/// One user profile as rendered by the widget. Every field but the handle is
/// optional on the wire; an absent field is rendered as its placeholder.
pub struct Profile {
    pub handle: String,
    pub rating: Option<i32>,
    pub max_rating: Option<i32>,
    pub rank: Option<String>,
    pub country: Option<String>,
    pub title_photo: Option<String>,
    pub organization: Option<String>,
    pub contribution: Option<i32>,
}

/// The mathematical value of a [`Profile`]: each text field as a sequence of
/// characters.
pub struct ProfileView {
    pub handle: Seq<char>,
    pub rating: Option<i32>,
    pub max_rating: Option<i32>,
    pub rank: Option<Seq<char>>,
    pub country: Option<Seq<char>>,
    pub title_photo: Option<Seq<char>>,
    pub organization: Option<Seq<char>>,
    pub contribution: Option<i32>,
}

/// The view of an optional text field.
pub open spec fn opt_text_view(o: Option<String>) -> Option<Seq<char>> {
    match o {
        Some(s) => Some(s@),
        None => None,
    }
}

impl View for Profile {
    type V = ProfileView;

    open spec fn view(&self) -> ProfileView {
        ProfileView {
            handle: self.handle@,
            rating: self.rating,
            max_rating: self.max_rating,
            rank: opt_text_view(self.rank),
            country: opt_text_view(self.country),
            title_photo: opt_text_view(self.title_photo),
            organization: opt_text_view(self.organization),
            contribution: self.contribution,
        }
    }
}

/// The all-defaults profile: empty handle, every optional field absent.
pub open spec fn default_profile_view() -> ProfileView {
    ProfileView {
        handle: Seq::<char>::empty(),
        rating: None,
        max_rating: None,
        rank: None,
        country: None,
        title_photo: None,
        organization: None,
        contribution: None,
    }
}

impl Default for Profile {
    /// The profile shown before any lookup, and after a failed one.
    fn default() -> (p: Self)
        ensures
            p@ == default_profile_view(),
    {
        Profile {
            handle: String::new(),
            rating: None,
            max_rating: None,
            rank: None,
            country: None,
            title_photo: None,
            organization: None,
            contribution: None,
        }
    }
}

/// The rating shown for a profile: the rating, or `0` when absent.
pub open spec fn rating_shown(p: ProfileView) -> i32 {
    match p.rating {
        Some(v) => v,
        None => 0,
    }
}

/// The peak rating shown for a profile: the peak, or `0` when absent.
pub open spec fn max_rating_shown(p: ProfileView) -> i32 {
    match p.max_rating {
        Some(v) => v,
        None => 0,
    }
}

/// The contribution shown for a profile: the contribution, or `0` when absent.
pub open spec fn contribution_shown(p: ProfileView) -> i32 {
    match p.contribution {
        Some(v) => v,
        None => 0,
    }
}

/// The rank text shown for a profile: the rank, or the empty string.
pub open spec fn rank_shown(p: ProfileView) -> Seq<char> {
    match p.rank {
        Some(s) => s,
        None => Seq::<char>::empty(),
    }
}

/// The organization shown for a profile: the organization, or `"N/A"`.
pub open spec fn organization_shown(p: ProfileView) -> Seq<char> {
    match p.organization {
        Some(s) => s,
        None => "N/A"@,
    }
}

/// The country shown for a profile: the country, or `"N/A"`.
pub open spec fn country_shown(p: ProfileView) -> Seq<char> {
    match p.country {
        Some(s) => s,
        None => "N/A"@,
    }
}

/// The photo URL shown for a profile: the URL, or the empty string.
pub open spec fn title_photo_shown(p: ProfileView) -> Seq<char> {
    match p.title_photo {
        Some(s) => s,
        None => Seq::<char>::empty(),
    }
}

impl Profile {
    /// The rating to display, with its placeholder.
    pub fn display_rating(&self) -> (r: i32)
        ensures
            r == rating_shown(self@),
    {
        match self.rating {
            Some(v) => v,
            None => 0,
        }
    }

    /// The peak rating to display, with its placeholder.
    pub fn display_max_rating(&self) -> (r: i32)
        ensures
            r == max_rating_shown(self@),
    {
        match self.max_rating {
            Some(v) => v,
            None => 0,
        }
    }

    /// The contribution to display, with its placeholder.
    pub fn display_contribution(&self) -> (r: i32)
        ensures
            r == contribution_shown(self@),
    {
        match self.contribution {
            Some(v) => v,
            None => 0,
        }
    }

    /// The rank text to display, with its placeholder.
    pub fn display_rank(&self) -> (r: String)
        ensures
            r@ == rank_shown(self@),
    {
        match &self.rank {
            Some(s) => s.clone(),
            None => String::new(),
        }
    }

    /// The organization to display, with its placeholder.
    pub fn display_organization(&self) -> (r: String)
        ensures
            r@ == organization_shown(self@),
    {
        match &self.organization {
            Some(s) => s.clone(),
            None => String::from_str("N/A"),
        }
    }

    /// The country to display, with its placeholder.
    pub fn display_country(&self) -> (r: String)
        ensures
            r@ == country_shown(self@),
    {
        match &self.country {
            Some(s) => s.clone(),
            None => String::from_str("N/A"),
        }
    }

    /// The photo URL to display, with its placeholder.
    pub fn display_title_photo(&self) -> (r: String)
        ensures
            r@ == title_photo_shown(self@),
    {
        match &self.title_photo {
            Some(s) => s.clone(),
            None => String::new(),
        }
    }

    /// The color in which the profile's rank is displayed: the color of the
    /// displayed rank text.
    pub fn display_rank_color(&self) -> (r: &'static str)
        ensures
            r@ == color_of(rank_shown(self@)),
    {
        match &self.rank {
            Some(s) => rank_color(s.as_str()),
            None => {
                proof {
                    reveal_strlit("");
                    assert(""@ =~= Seq::<char>::empty());
                }
                rank_color("")
            },
        }
    }
}

} // verus!
