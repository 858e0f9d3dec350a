//! The lookup flow: the response envelope, the rule that turns one lookup
//! outcome into the displayed profile, and the controller holding the
//! widget's two pieces of state.
//!
//! Every failure — transport error, unparseable body, status other than
//! `"OK"`, empty record list — collapses to the same result: the displayed
//! profile is reset to the all-defaults profile. Only a parsed envelope with
//! status `"OK"` and at least one record replaces it, and then with that
//! first record, the rest being discarded.

use vstd::prelude::*;
use crate::profile::Profile;
use crate::profile::ProfileView;
use crate::profile::default_profile_view;

verus! {

/// The wire-level response wrapper: a status text and an ordered list of
/// profile records. The upstream API returns a list even for a single-handle
/// query; only the first record is ever used.
pub struct LookupEnvelope {
    pub status: String,
    pub result: Vec<Profile>,
}

/// A lookup outcome as handed back by the transport: the parsed envelope, or
/// `None` for any transport-level failure or unparseable body.
pub type LookupOutcome = Option<LookupEnvelope>;

/// An envelope delivers a profile exactly when its status is `"OK"` and it
/// carries at least one record.
pub open spec fn envelope_delivers(env: LookupEnvelope) -> bool {
    env.status@ == "OK"@ && env.result@.len() > 0
}

/// The profile displayed after a lookup outcome: the first record of a
/// delivering envelope, the all-defaults profile otherwise.
pub open spec fn outcome_profile_view(outcome: LookupOutcome) -> ProfileView {
    match outcome {
        Some(env) => if envelope_delivers(env) {
            env.result@[0]@
        } else {
            default_profile_view()
        },
        None => default_profile_view(),
    }
}

/// The profile to display for one lookup outcome. A delivering envelope
/// yields its first record verbatim; any failure yields the all-defaults
/// profile.
pub fn profile_from_outcome(outcome: LookupOutcome) -> (p: Profile)
    ensures
        p@ == outcome_profile_view(outcome),
        (outcome matches Some(env) && envelope_delivers(env)) ==> p == outcome->Some_0.result@[0],
{
    match outcome {
        Some(env) => {
            let ok = String::from_str("OK");
            if env.status == ok && env.result.len() > 0 {
                let mut records = env.result;
                records.remove(0)
            } else {
                Profile::default()
            }
        },
        None => Profile::default(),
    }
}

/// The widget's state: the text in the input field and the profile on
/// display. The two are independent; a lookup replaces the profile wholesale
/// and leaves the input text alone.
pub struct ProfileLookupController {
    pub handle_text: String,
    pub profile: Profile,
}

impl ProfileLookupController {
    /// The state at startup: empty input, all-defaults profile.
    pub fn new() -> (c: Self)
        ensures
            c.handle_text@ == Seq::<char>::empty(),
            c.profile@ == default_profile_view(),
    {
        ProfileLookupController { handle_text: String::new(), profile: Profile::default() }
    }

    /// Replaces the input text unconditionally: no validation, no trimming.
    /// The displayed profile is untouched.
    pub fn on_handle_text_changed(&mut self, new_text: String)
        ensures
            final(self).handle_text == new_text,
            final(self).profile == old(self).profile,
    {
        self.handle_text = new_text;
    }

    /// The URL that a search queries: the endpoint with the current input
    /// text interpolated verbatim as the `handles` parameter.
    pub fn lookup_url(&self) -> (u: String)
        ensures
            u@ == "https://codeforces.com/api/user.info?handles="@ + self.handle_text@,
    {
        let mut u = String::from_str("https://codeforces.com/api/user.info?handles=");
        u.append(self.handle_text.as_str());
        u
    }

    /// Applies one completed lookup: the displayed profile becomes the
    /// outcome's profile, whatever was displayed before; the input text is
    /// untouched.
    pub fn apply_lookup_outcome(&mut self, outcome: LookupOutcome)
        ensures
            final(self).handle_text == old(self).handle_text,
            final(self).profile@ == outcome_profile_view(outcome),
    {
        self.profile = profile_from_outcome(outcome);
    }
}

/// Two searches resolved by the same backend outcome display the same
/// profile, whatever was displayed before either of them: the displayed
/// profile depends on the outcome alone.
pub proof fn lemma_lookup_idempotent(
    first: ProfileView,
    second: ProfileView,
    outcome: LookupOutcome,
)
    requires
        first == outcome_profile_view(outcome),
        second == outcome_profile_view(outcome),
    ensures
        first == second,
{
}

} // verus!
