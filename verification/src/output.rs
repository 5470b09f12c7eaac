//! The display builders: filtered sessions resolved to display-ready
//! records, as rows of the text table or as the structured output with its
//! time range.
use vstd::prelude::*;
use crate::clock::local_rfc3339;
use crate::filter::Mode;
use crate::filter::eastern_instants;
use crate::filter::filtered;
use crate::filter::open_caption_sessions;
use crate::filter::recently_showing_movies;
use crate::lookup::NameMap;
use crate::lookup::movie_of;
use crate::lookup::movie_title;
use crate::lookup::theater_of;
use crate::lookup::theater_name;
use crate::schedule::RawData;
use crate::schedule::Session;
use crate::schedule::SessionView;
use crate::schedule::session_views;
use crate::sort::sort_sessions;
use crate::sort::sorted_by_time;
use crate::timestamp::display_time;
use crate::timestamp::format_show_time;
use crate::timestamp::parse_show_time;
use crate::timestamp::valid_show_time;

verus! {

/// One display-ready session record of the structured output.
pub struct ShowtimeInfo {
    pub show_time: String,
    pub movie: String,
    pub theater: String,
    pub cinema_id: String,
    pub session_id: String,
    pub presentation_slug: String,
}

/// The mathematical value of a ShowtimeInfo.
pub ghost struct ShowtimeInfoView {
    pub show_time: Seq<char>,
    pub movie: Seq<char>,
    pub theater: Seq<char>,
    pub cinema_id: Seq<char>,
    pub session_id: Seq<char>,
    pub presentation_slug: Seq<char>,
}

impl View for ShowtimeInfo {
    type V = ShowtimeInfoView;

    open spec fn view(&self) -> ShowtimeInfoView {
        ShowtimeInfoView {
            show_time: self.show_time@,
            movie: self.movie@,
            theater: self.theater@,
            cinema_id: self.cinema_id@,
            session_id: self.session_id@,
            presentation_slug: self.presentation_slug@,
        }
    }
}

/// The views of a list of records.
pub open spec fn info_views(rs: Seq<ShowtimeInfo>) -> Seq<ShowtimeInfoView> {
    rs.map_values(|r: ShowtimeInfo| r@)
}

/// The record of one session: its raw show-time text unchanged, the
/// resolved movie title and theater name (with their placeholders for a
/// foreign key that resolves to nothing), and the raw keys.
pub open spec fn info_of(
    s: SessionView,
    names: Seq<(Seq<char>, Seq<char>)>,
    titles: Seq<(Seq<char>, Seq<char>)>,
) -> ShowtimeInfoView {
    ShowtimeInfoView {
        show_time: s.show_time_clt,
        movie: movie_of(titles, s.presentation_slug),
        theater: theater_of(names, s.cinema_id),
        cinema_id: s.cinema_id,
        session_id: s.session_id,
        presentation_slug: s.presentation_slug,
    }
}

/// The records of a session list, in order.
pub open spec fn infos_of(
    ss: Seq<SessionView>,
    names: Seq<(Seq<char>, Seq<char>)>,
    titles: Seq<(Seq<char>, Seq<char>)>,
) -> Seq<ShowtimeInfoView> {
    ss.map_values(|s: SessionView| info_of(s, names, titles))
}

/// Resolves every session to its display record, in order.
pub fn build_showtime_infos(sessions: &Vec<Session>, names: &NameMap, titles: &NameMap) -> (r: Vec<
    ShowtimeInfo,
>)
    ensures
        info_views(r@) == infos_of(session_views(sessions@), names@, titles@),
{
    let mut r: Vec<ShowtimeInfo> = Vec::new();
    let mut i: usize = 0;
    while i < sessions.len()
        invariant
            0 <= i <= sessions@.len(),
            r@.len() == i,
            forall|j: int|
                0 <= j < i ==> #[trigger] r@[j]@ == info_of(sessions@[j]@, names@, titles@),
        decreases sessions@.len() - i,
    {
        let session = &sessions[i];
        let info = ShowtimeInfo {
            show_time: session.show_time_clt.clone(),
            movie: movie_title(titles, &session.presentation_slug),
            theater: theater_name(names, &session.cinema_id),
            cinema_id: session.cinema_id.clone(),
            session_id: session.session_id.clone(),
            presentation_slug: session.presentation_slug.clone(),
        };
        r.push(info);
        i += 1;
    }
    proof {
        assert(info_views(r@) =~= infos_of(session_views(sessions@), names@, titles@));
    }
    r
}

/// The time range a filter ran under, in interchange text form.
pub struct TimeRange {
    pub start: String,
    pub end: String,
}

/// The structured output: the applied time range and the display records.
pub struct ShowtimeOutput {
    pub time_range: TimeRange,
    pub showtimes: Vec<ShowtimeInfo>,
}

/// Builds the structured output from resolved sessions and the texts of the
/// window bounds that governed the filter.
pub fn build_showtime_output(
    sessions: &Vec<Session>,
    names: &NameMap,
    titles: &NameMap,
    start: String,
    end: String,
) -> (r: ShowtimeOutput)
    ensures
        r.time_range.start@ == start@,
        r.time_range.end@ == end@,
        info_views(r.showtimes@) == infos_of(session_views(sessions@), names@, titles@),
{
    let showtimes = build_showtime_infos(sessions, names, titles);
    ShowtimeOutput { time_range: TimeRange { start, end }, showtimes }
}

/// One row of the text table: the shortened show time with the resolved
/// names.
pub struct TextRow {
    pub show_time: String,
    pub movie: String,
    pub theater: String,
}

/// The mathematical value of a TextRow.
pub ghost struct TextRowView {
    pub show_time: Seq<char>,
    pub movie: Seq<char>,
    pub theater: Seq<char>,
}

impl View for TextRow {
    type V = TextRowView;

    open spec fn view(&self) -> TextRowView {
        TextRowView { show_time: self.show_time@, movie: self.movie@, theater: self.theater@ }
    }
}

/// The views of a list of rows.
pub open spec fn row_views(rs: Seq<TextRow>) -> Seq<TextRowView> {
    rs.map_values(|r: TextRow| r@)
}

/// The text-table row of one session: its show time shortened to
/// `MM/DD HH:MM` and the resolved names.
pub open spec fn row_of(
    s: SessionView,
    names: Seq<(Seq<char>, Seq<char>)>,
    titles: Seq<(Seq<char>, Seq<char>)>,
) -> TextRowView {
    TextRowView {
        show_time: display_time(s.show_time_clt),
        movie: movie_of(titles, s.presentation_slug),
        theater: theater_of(names, s.cinema_id),
    }
}

/// The rows of a session list, in order; a session whose show time is not a
/// valid date-time has no row, having already been shut out by the filter.
pub open spec fn rows_of(
    ss: Seq<SessionView>,
    names: Seq<(Seq<char>, Seq<char>)>,
    titles: Seq<(Seq<char>, Seq<char>)>,
) -> Seq<TextRowView>
    decreases ss.len(),
{
    if ss.len() == 0 {
        Seq::empty()
    } else {
        let rest = rows_of(ss.drop_last(), names, titles);
        if valid_show_time(ss.last().show_time_clt) {
            rest.push(row_of(ss.last(), names, titles))
        } else {
            rest
        }
    }
}

/// Renders every session with a valid show time as a text-table row, in
/// order.
pub fn text_rows(sessions: &Vec<Session>, names: &NameMap, titles: &NameMap) -> (r: Vec<TextRow>)
    ensures
        row_views(r@) == rows_of(session_views(sessions@), names@, titles@),
{
    let mut r: Vec<TextRow> = Vec::new();
    let mut i: usize = 0;
    proof {
        assert(rows_of(session_views(sessions@.take(0)), names@, titles@) =~= Seq::<
            TextRowView,
        >::empty());
        assert(session_views(sessions@.take(0)) =~= Seq::<SessionView>::empty());
        assert(row_views(r@) =~= Seq::<TextRowView>::empty());
    }
    while i < sessions.len()
        invariant
            0 <= i <= sessions@.len(),
            row_views(r@) == rows_of(session_views(sessions@.take(i as int)), names@, titles@),
        decreases sessions@.len() - i,
    {
        let session = &sessions[i];
        let ghost prior = row_views(r@);
        if parse_show_time(session.show_time_clt.as_str()).is_some() {
            let row = TextRow {
                show_time: format_show_time(session.show_time_clt.as_str()),
                movie: movie_title(titles, &session.presentation_slug),
                theater: theater_name(names, &session.cinema_id),
            };
            r.push(row);
            proof {
                assert(row_views(r@) =~= prior.push(row_of(sessions@[i as int]@, names@, titles@)));
            }
        }
        proof {
            let svs = session_views(sessions@.take(i as int + 1));
            assert(svs.drop_last() =~= session_views(sessions@.take(i as int)));
            assert(svs.last() == sessions@[i as int]@);
        }
        i += 1;
    }
    proof {
        assert(sessions@.take(sessions@.len() as int) =~= sessions@);
    }
    r
}

/// Builds the whole structured output of the recently-showing mode: the
/// sessions kept by that filter, sorted ascending by raw show-time text,
/// resolved to display records, under the very instants the filter ran
/// with, rendered as local-zone interchange texts.
pub fn recently_showing_output(
    data: &RawData,
    names: &NameMap,
    titles: &NameMap,
    now: i64,
    end: i64,
) -> (r: ShowtimeOutput)
    ensures
        exists|eps: Seq<Option<i64>>|
            info_views(r.showtimes@) == infos_of(
                sorted_by_time(
                    filtered(
                        session_views(data.data.sessions@),
                        eps,
                        names@,
                        Mode::RecentlyShowing,
                        now,
                        end,
                    ),
                ),
                names@,
                titles@,
            ),
{
    let kept = recently_showing_movies(data, names, now, end);
    let ordered = sort_sessions(kept);
    let start_text = local_rfc3339(now);
    let end_text = local_rfc3339(end);
    build_showtime_output(&ordered, names, titles, start_text, end_text)
}

/// Builds the whole text table body of the open-caption mode: the
/// open-captioned sessions whose Eastern-US instant lies in `(now, end]`,
/// sorted ascending by raw show-time text, each as a `MM/DD HH:MM` row with
/// its resolved names.
pub fn open_caption_rows(
    data: &RawData,
    names: &NameMap,
    titles: &NameMap,
    now: i64,
    end: i64,
) -> (r: Vec<TextRow>)
    ensures
        row_views(r@) == rows_of(
            sorted_by_time(
                filtered(
                    session_views(data.data.sessions@),
                    eastern_instants(session_views(data.data.sessions@)),
                    names@,
                    Mode::OpenCaption,
                    now,
                    end,
                ),
            ),
            names@,
            titles@,
        ),
{
    let kept = open_caption_sessions(data, names, now, end);
    let ordered = sort_sessions(kept);
    text_rows(&ordered, names, titles)
}

} // verus!
