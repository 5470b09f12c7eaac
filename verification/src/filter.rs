//! The session filters: each mode keeps the sessions whose show time parses
//! in the fixed shape and whose instant falls in a half-open time window,
//! the open-caption mode asking for the open-caption format and the
//! recently-showing mode shutting out one named theater.
use vstd::prelude::*;
use crate::clock::eastern_epoch;
use crate::clock::eastern_epoch_of;
use crate::clock::local_epoch;
use crate::lookup::NameMap;
use crate::lookup::theater_name;
use crate::lookup::theater_of;
use crate::schedule::RawData;
use crate::schedule::Session;
use crate::schedule::SessionView;
use crate::schedule::session_views;
use crate::timestamp::day_of;
use crate::timestamp::hour_of;
use crate::timestamp::minute_of;
use crate::timestamp::month_of;
use crate::timestamp::parse_show_time;
use crate::timestamp::second_of;
use crate::timestamp::valid_show_time;
use crate::timestamp::year_of;

verus! {

/// The selectable filtering strategy.
#[derive(Clone, Copy, PartialEq, Eq, Structural)]
pub enum Mode {
    /// Open-captioned showings in a time window.
    OpenCaption,
    /// Any showing in a time window, outside the Staten Island theater.
    RecentlyShowing,
}

/// The instant of a valid show-time text read in the Eastern-US zone;
/// nothing for a text that is not a valid date-time.
pub open spec fn eastern_instant(t: Seq<char>) -> Option<i64> {
    if valid_show_time(t) {
        eastern_epoch_of(year_of(t), month_of(t), day_of(t), hour_of(t), minute_of(t), second_of(t))
    } else {
        None
    }
}

/// The Eastern instants of a session list, one entry per session.
pub open spec fn eastern_instants(ss: Seq<SessionView>) -> Seq<Option<i64>> {
    Seq::new(ss.len(), |i: int| eastern_instant(ss[i].show_time_clt))
}

/// Whether one session is kept: its show time is a valid date-time, the
/// instant that show time maps to lies in the half-open window `(now, end]`,
/// and the active mode's own test passes.
pub open spec fn session_keep(
    s: SessionView,
    epoch: Option<i64>,
    names: Seq<(Seq<char>, Seq<char>)>,
    mode: Mode,
    now: i64,
    end: i64,
) -> bool {
    &&& valid_show_time(s.show_time_clt)
    &&& match epoch {
        Some(e) => now < e && e <= end,
        None => false,
    }
    &&& match mode {
        Mode::OpenCaption => s.format_slug == Some("open-caption"@),
        Mode::RecentlyShowing => theater_of(names, s.cinema_id) != "Staten Island"@,
    }
}

/// The subsequence of sessions that are kept, in input order, each judged
/// with the instant listed for it.
pub open spec fn filtered(
    ss: Seq<SessionView>,
    eps: Seq<Option<i64>>,
    names: Seq<(Seq<char>, Seq<char>)>,
    mode: Mode,
    now: i64,
    end: i64,
) -> Seq<SessionView>
    decreases ss.len(),
{
    if ss.len() == 0 || eps.len() != ss.len() {
        Seq::empty()
    } else {
        let rest = filtered(ss.drop_last(), eps.drop_last(), names, mode, now, end);
        if session_keep(ss.last(), eps.last(), names, mode, now, end) {
            rest.push(ss.last())
        } else {
            rest
        }
    }
}

/// Whether the given instant lies in the half-open window `(now, end]`.
fn in_window(epoch: &Option<i64>, now: i64, end: i64) -> (r: bool)
    ensures
        r == match *epoch {
            Some(e) => now < e && e <= end,
            None => false,
        },
{
    match epoch {
        Some(e) => now < *e && *e <= end,
        None => false,
    }
}

/// Whether the session's mode-specific test passes.
fn mode_test(session: &Session, names: &NameMap, mode: Mode) -> (r: bool)
    ensures
        r == match mode {
            Mode::OpenCaption => session@.format_slug == Some("open-caption"@),
            Mode::RecentlyShowing => theater_of(names@, session@.cinema_id) != "Staten Island"@,
        },
{
    match mode {
        Mode::OpenCaption => {
            match &session.format_slug {
                Some(f) => f.eq(&String::from_str("open-caption")),
                None => false,
            }
        },
        Mode::RecentlyShowing => {
            let theater = theater_name(names, &session.cinema_id);
            !theater.eq(&String::from_str("Staten Island"))
        },
    }
}

/// Keeps the sessions that pass the active mode's predicate, judging each
/// with the instant listed for it, in input order.
pub fn filter_sessions(
    sessions: &Vec<Session>,
    epochs: &Vec<Option<i64>>,
    names: &NameMap,
    mode: Mode,
    now: i64,
    end: i64,
) -> (r: Vec<Session>)
    requires
        epochs@.len() == sessions@.len(),
    ensures
        session_views(r@) == filtered(
            session_views(sessions@),
            epochs@,
            names@,
            mode,
            now,
            end,
        ),
{
    let mut r: Vec<Session> = Vec::new();
    let mut i: usize = 0;
    proof {
        assert(session_views(sessions@.take(0)) =~= Seq::<SessionView>::empty());
        assert(session_views(r@) =~= Seq::<SessionView>::empty());
    }
    while i < sessions.len()
        invariant
            0 <= i <= sessions@.len(),
            epochs@.len() == sessions@.len(),
            session_views(r@) == filtered(
                session_views(sessions@.take(i as int)),
                epochs@.take(i as int),
                names@,
                mode,
                now,
                end,
            ),
        decreases sessions@.len() - i,
    {
        let session = &sessions[i];
        let valid = parse_show_time(session.show_time_clt.as_str()).is_some();
        let keep = valid && in_window(&epochs[i], now, end) && mode_test(session, names, mode);
        let ghost prior = session_views(r@);
        if keep {
            r.push(session.clone());
        }
        proof {
            let svs = session_views(sessions@.take(i as int + 1));
            let eps = epochs@.take(i as int + 1);
            assert(svs.len() == i + 1 && eps.len() == i + 1);
            assert(svs.drop_last() =~= session_views(sessions@.take(i as int)));
            assert(eps.drop_last() =~= epochs@.take(i as int));
            assert(svs.last() == sessions@[i as int]@);
            assert(eps.last() == epochs@[i as int]);
            assert(keep == session_keep(sessions@[i as int]@, epochs@[i as int], names@, mode, now, end));
            if keep {
                assert(session_views(r@) =~= prior.push(sessions@[i as int]@));
            }
        }
        i += 1;
    }
    proof {
        assert(sessions@.take(sessions@.len() as int) =~= sessions@);
        assert(epochs@.take(epochs@.len() as int) =~= epochs@);
    }
    r
}

/// Lists the Eastern instant of every session's show time.
fn eastern_instants_exec(sessions: &Vec<Session>) -> (r: Vec<Option<i64>>)
    ensures
        r@ == eastern_instants(session_views(sessions@)),
{
    let mut r: Vec<Option<i64>> = Vec::new();
    let mut i: usize = 0;
    while i < sessions.len()
        invariant
            0 <= i <= sessions@.len(),
            r@.len() == i,
            forall|j: int|
                0 <= j < i ==> r@[j] == eastern_instant(#[trigger] sessions@[j]@.show_time_clt),
        decreases sessions@.len() - i,
    {
        let ep = match parse_show_time(sessions[i].show_time_clt.as_str()) {
            Some(st) => eastern_epoch(&st),
            None => None,
        };
        r.push(ep);
        i += 1;
    }
    proof {
        assert(r@ =~= eastern_instants(session_views(sessions@)));
    }
    r
}

/// Keeps the open-captioned sessions whose Eastern-US show-time instant
/// lies in `(now, end]`, in input order.
pub fn open_caption_sessions(data: &RawData, names: &NameMap, now: i64, end: i64) -> (r: Vec<
    Session,
>)
    ensures
        session_views(r@) == filtered(
            session_views(data.data.sessions@),
            eastern_instants(session_views(data.data.sessions@)),
            names@,
            Mode::OpenCaption,
            now,
            end,
        ),
        forall|j: int|
            0 <= j < r@.len() ==> valid_show_time(#[trigger] r@[j]@.show_time_clt)
                && r@[j]@.format_slug == Some("open-caption"@) && (match eastern_instant(
                r@[j]@.show_time_clt,
            ) {
                Some(e) => now < e && e <= end,
                None => false,
            }),
{
    let epochs = eastern_instants_exec(&data.data.sessions);
    let r = filter_sessions(&data.data.sessions, &epochs, names, Mode::OpenCaption, now, end);
    proof {
        let svs = session_views(data.data.sessions@);
        let eps = eastern_instants(svs);
        assert forall|j: int| 0 <= j < r@.len() implies valid_show_time(
            #[trigger] r@[j]@.show_time_clt,
        ) && r@[j]@.format_slug == Some("open-caption"@) && (match eastern_instant(
            r@[j]@.show_time_clt,
        ) {
            Some(e) => now < e && e <= end,
            None => false,
        }) by {
            assert(session_views(r@)[j] == r@[j]@);
            lemma_filtered_sound(svs, eps, names@, Mode::OpenCaption, now, end, j);
            let i = choose|i: int|
                0 <= i < svs.len() && svs[i] == filtered(
                    svs,
                    eps,
                    names@,
                    Mode::OpenCaption,
                    now,
                    end,
                )[j] && session_keep(svs[i], eps[i], names@, Mode::OpenCaption, now, end);
            assert(eps[i] == eastern_instant(svs[i].show_time_clt));
        }
    }
    r
}

/// Keeps the sessions whose show-time instant, read in the process's local
/// zone, lies in `(now, end]` and whose theater is not Staten Island, in
/// input order. The local zone depends on the machine, so the instants are
/// stated only as some listing, one per session; every emitted session
/// still provably has a valid show time and a theater other than Staten
/// Island.
pub fn recently_showing_movies(data: &RawData, cinema_names: &NameMap, now: i64, end: i64) -> (r:
    Vec<Session>)
    ensures
        exists|eps: Seq<Option<i64>>|
            session_views(r@) == filtered(
                session_views(data.data.sessions@),
                eps,
                cinema_names@,
                Mode::RecentlyShowing,
                now,
                end,
            ),
        forall|j: int|
            0 <= j < r@.len() ==> valid_show_time(#[trigger] r@[j]@.show_time_clt) && theater_of(
                cinema_names@,
                r@[j]@.cinema_id,
            ) != "Staten Island"@,
{
    let sessions = &data.data.sessions;
    let mut epochs: Vec<Option<i64>> = Vec::new();
    let mut i: usize = 0;
    while i < sessions.len()
        invariant
            0 <= i <= sessions@.len(),
            epochs@.len() == i,
        decreases sessions@.len() - i,
    {
        let ep = match parse_show_time(sessions[i].show_time_clt.as_str()) {
            Some(st) => local_epoch(&st),
            None => None,
        };
        epochs.push(ep);
        i += 1;
    }
    let r = filter_sessions(sessions, &epochs, cinema_names, Mode::RecentlyShowing, now, end);
    proof {
        let svs = session_views(data.data.sessions@);
        let eps = epochs@;
        assert(session_views(r@) == filtered(
            svs,
            eps,
            cinema_names@,
            Mode::RecentlyShowing,
            now,
            end,
        ));
        assert forall|j: int| 0 <= j < r@.len() implies valid_show_time(
            #[trigger] r@[j]@.show_time_clt,
        ) && theater_of(cinema_names@, r@[j]@.cinema_id) != "Staten Island"@ by {
            assert(session_views(r@)[j] == r@[j]@);
            lemma_filtered_sound(svs, eps, cinema_names@, Mode::RecentlyShowing, now, end, j);
        }
    }
    r
}

/// Everything the filter emits comes from the input and passes the active
/// mode's predicate with the instant listed for it: nothing outside the
/// time window, and in recently-showing mode no Staten Island showing, ever
/// appears.
pub proof fn lemma_filtered_sound(
    ss: Seq<SessionView>,
    eps: Seq<Option<i64>>,
    names: Seq<(Seq<char>, Seq<char>)>,
    mode: Mode,
    now: i64,
    end: i64,
    j: int,
)
    requires
        0 <= j < filtered(ss, eps, names, mode, now, end).len(),
    ensures
        exists|i: int|
            0 <= i < ss.len() && ss[i] == filtered(ss, eps, names, mode, now, end)[j]
                && session_keep(ss[i], eps[i], names, mode, now, end),
    decreases ss.len(),
{
    let f = filtered(ss, eps, names, mode, now, end);
    let rest = filtered(ss.drop_last(), eps.drop_last(), names, mode, now, end);
    if j < rest.len() {
        lemma_filtered_sound(ss.drop_last(), eps.drop_last(), names, mode, now, end, j);
        let i = choose|i: int|
            0 <= i < ss.drop_last().len() && ss.drop_last()[i] == rest[j] && session_keep(
                ss.drop_last()[i],
                eps.drop_last()[i],
                names,
                mode,
                now,
                end,
            );
        assert(0 <= i < ss.len() && ss[i] == f[j] && session_keep(
            ss[i],
            eps[i],
            names,
            mode,
            now,
            end,
        ));
    } else {
        let i = ss.len() - 1;
        assert(0 <= i < ss.len() && ss[i] == f[j] && session_keep(
            ss[i],
            eps[i],
            names,
            mode,
            now,
            end,
        ));
    }
}

} // verus!
