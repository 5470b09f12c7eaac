//! The schedule data model: the root document with its markets, cinemas,
//! presentations, shows and sessions, together with the mathematical views
//! that the library's contracts are stated over.
use vstd::prelude::*;

verus! {

/// A movie title entity.
pub struct Show {
    pub slug: String,
    pub legacy_slug: Option<String>,
    pub title: String,
}

/// A specific bookable screening configuration of a Show, keyed by `slug`.
pub struct Presentation {
    pub slug: String,
    pub legacy_slug: Option<String>,
    pub show: Show,
}

/// A single theater location, keyed by `id`.
pub struct Cinema {
    pub id: String,
    pub loyalty_cinema_id: String,
    pub slug: String,
    pub name: String,
}

/// A geographic schedule grouping containing theaters.
pub struct Market {
    pub id: String,
    pub slug: String,
    pub name: String,
    pub status: String,
    pub cinemas: Vec<Cinema>,
}

/// One scheduled showing of a Presentation at a Cinema at a local time,
/// carried as the raw text `show_time_clt` (`YYYY-MM-DDTHH:MM:SS`).
pub struct Session {
    pub cinema_id: String,
    pub session_id: String,
    pub presentation_slug: String,
    pub legacy_slug: Option<String>,
    pub show_time_clt: String,
    pub format_slug: Option<String>,
}

/// The payload of the root document.
pub struct RawDataContent {
    pub presentations: Vec<Presentation>,
    pub market: Vec<Market>,
    pub sessions: Vec<Session>,
}

/// The root schedule document.
pub struct RawData {
    pub data: RawDataContent,
}

/// The mathematical value of a Session: each text field as a sequence of
/// characters.
pub ghost struct SessionView {
    pub cinema_id: Seq<char>,
    pub session_id: Seq<char>,
    pub presentation_slug: Seq<char>,
    pub legacy_slug: Option<Seq<char>>,
    pub show_time_clt: Seq<char>,
    pub format_slug: Option<Seq<char>>,
}

/// The view of an optional string.
pub open spec fn opt_view(o: Option<String>) -> Option<Seq<char>> {
    match o {
        Some(s) => Some(s@),
        None => None,
    }
}

impl View for Session {
    type V = SessionView;

    open spec fn view(&self) -> SessionView {
        SessionView {
            cinema_id: self.cinema_id@,
            session_id: self.session_id@,
            presentation_slug: self.presentation_slug@,
            legacy_slug: opt_view(self.legacy_slug),
            show_time_clt: self.show_time_clt@,
            format_slug: opt_view(self.format_slug),
        }
    }
}

impl DeepView for Session {
    type V = SessionView;

    open spec fn deep_view(&self) -> SessionView {
        self.view()
    }
}

/// Clones an optional string, keeping its view.
fn clone_opt_string(o: &Option<String>) -> (r: Option<String>)
    ensures
        opt_view(r) == opt_view(*o),
{
    match o {
        Some(s) => Some(s.clone()),
        None => None,
    }
}

impl Clone for Session {
    /// A clone of a session has the same view.
    fn clone(&self) -> (r: Self)
        ensures
            r@ == self@,
    {
        Session {
            cinema_id: self.cinema_id.clone(),
            session_id: self.session_id.clone(),
            presentation_slug: self.presentation_slug.clone(),
            legacy_slug: clone_opt_string(&self.legacy_slug),
            show_time_clt: self.show_time_clt.clone(),
            format_slug: clone_opt_string(&self.format_slug),
        }
    }
}

/// The views of a sequence of sessions.
pub open spec fn session_views(ss: Seq<Session>) -> Seq<SessionView> {
    ss.map_values(|s: Session| s@)
}

} // verus!
