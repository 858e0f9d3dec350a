//! A verified model of a Codeforces profile lookup widget: the rank-to-color
//! mapping, the profile record with its display placeholders, and the
//! controller that turns a lookup outcome into the displayed profile.

pub mod lookup;
pub mod profile;
pub mod rank;
