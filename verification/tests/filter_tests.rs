use alamo_schedule::Cinema;
use alamo_schedule::Market;
use alamo_schedule::Presentation;
use alamo_schedule::RawData;
use alamo_schedule::RawDataContent;
use alamo_schedule::Session;
use alamo_schedule::Show;
use alamo_schedule::get_movie_schedule;
use alamo_schedule::open_caption_rows;
use alamo_schedule::open_caption_sessions;
use alamo_schedule::recently_showing_movies;
use chrono::TimeZone;

fn eastern_epoch(y: i32, mo: u32, d: u32, h: u32, mi: u32, s: u32) -> i64 {
    let dt = chrono::NaiveDate::from_ymd_opt(y, mo, d)
        .unwrap()
        .and_hms_opt(h, mi, s)
        .unwrap();
    chrono_tz::America::New_York
        .from_local_datetime(&dt)
        .single()
        .unwrap()
        .timestamp()
}

fn session(cinema_id: &str, pres: &str, when: &str, format: Option<&str>) -> Session {
    Session {
        cinema_id: cinema_id.to_string(),
        session_id: format!("sess-{}-{}", cinema_id, when),
        presentation_slug: pres.to_string(),
        legacy_slug: None,
        show_time_clt: when.to_string(),
        format_slug: format.map(|f| f.to_string()),
    }
}

fn one_cinema_schedule(cinema_name: &str, sessions: Vec<Session>) -> RawData {
    RawData {
        data: RawDataContent {
            presentations: vec![Presentation {
                slug: "p1".to_string(),
                legacy_slug: None,
                show: Show {
                    slug: "show-p1".to_string(),
                    legacy_slug: None,
                    title: "Dune".to_string(),
                },
            }],
            market: vec![Market {
                id: "m1".to_string(),
                slug: "nyc".to_string(),
                name: "NYC".to_string(),
                status: "open".to_string(),
                cinemas: vec![Cinema {
                    id: "c1".to_string(),
                    loyalty_cinema_id: "l1".to_string(),
                    slug: "village-east".to_string(),
                    name: cinema_name.to_string(),
                }],
            }],
            sessions,
        },
    }
}

#[test]
fn open_caption_end_to_end_row() {
    let data = one_cinema_schedule(
        "Village East",
        vec![session("c1", "p1", "2099-01-05T19:30:00", Some("open-caption"))],
    );
    let (names, titles) = get_movie_schedule(&data);
    let now = eastern_epoch(2099, 1, 1, 0, 0, 0);
    let end = now + 14 * 86400;
    let rows = open_caption_rows(&data, &names, &titles, now, end);
    assert_eq!(rows.len(), 1);
    assert_eq!(rows[0].show_time, "01/05 19:30");
    assert_eq!(rows[0].movie, "Dune");
    assert_eq!(rows[0].theater, "Village East");
}

#[test]
fn open_caption_mode_needs_the_format_flag() {
    let data = one_cinema_schedule(
        "Village East",
        vec![
            session("c1", "p1", "2099-01-05T19:30:00", None),
            session("c1", "p1", "2099-01-06T19:30:00", Some("subtitled")),
        ],
    );
    let (names, titles) = get_movie_schedule(&data);
    let now = eastern_epoch(2099, 1, 1, 0, 0, 0);
    let kept = open_caption_sessions(&data, &names, now, now + 14 * 86400);
    assert!(kept.is_empty());
}

#[test]
fn open_caption_mode_keeps_the_window_half_open() {
    let boundary = "2099-01-15T00:00:00";
    let data = one_cinema_schedule(
        "Village East",
        vec![
            session("c1", "p1", "2099-01-01T00:00:00", Some("open-caption")),
            session("c1", "p1", boundary, Some("open-caption")),
            session("c1", "p1", "2099-01-15T00:00:01", Some("open-caption")),
        ],
    );
    let (names, _titles) = get_movie_schedule(&data);
    let now = eastern_epoch(2099, 1, 1, 0, 0, 0);
    let end = eastern_epoch(2099, 1, 15, 0, 0, 0);
    let kept = open_caption_sessions(&data, &names, now, end);
    assert_eq!(kept.len(), 1);
    assert_eq!(kept[0].show_time_clt, boundary);
}

#[test]
fn open_caption_mode_counts_seconds_exactly() {
    let data = one_cinema_schedule(
        "Village East",
        vec![session("c1", "p1", "2099-01-05T19:30:00", Some("open-caption"))],
    );
    let (names, _titles) = get_movie_schedule(&data);
    let now = eastern_epoch(2099, 1, 5, 19, 29, 59);
    assert_eq!(open_caption_sessions(&data, &names, now, now + 60).len(), 1);
    let later = eastern_epoch(2099, 1, 5, 19, 30, 0);
    assert_eq!(open_caption_sessions(&data, &names, later, later + 60).len(), 0);
}

#[test]
fn unparsable_show_time_is_excluded_from_both_modes() {
    let data = one_cinema_schedule(
        "Village East",
        vec![session("c1", "p1", "2025-13-40T99:99:00", Some("open-caption"))],
    );
    let (names, _titles) = get_movie_schedule(&data);
    assert!(open_caption_sessions(&data, &names, 0, i64::MAX - 1).is_empty());
    assert!(recently_showing_movies(&data, &names, 0, i64::MAX - 1).is_empty());
}

#[test]
fn skipped_wall_clock_time_is_excluded() {
    let data = one_cinema_schedule(
        "Village East",
        vec![session("c1", "p1", "2025-03-09T02:30:00", Some("open-caption"))],
    );
    let (names, _titles) = get_movie_schedule(&data);
    assert!(open_caption_sessions(&data, &names, 0, i64::MAX - 1).is_empty());
}

#[test]
fn recently_showing_excludes_staten_island_regardless_of_window() {
    let data = one_cinema_schedule(
        "Staten Island",
        vec![session("c1", "p1", "2099-01-05T19:30:00", None)],
    );
    let (names, _titles) = get_movie_schedule(&data);
    let kept = recently_showing_movies(&data, &names, 0, i64::MAX - 1);
    assert!(kept.is_empty());
}

#[test]
fn recently_showing_keeps_other_theaters() {
    let data = one_cinema_schedule(
        "Village East",
        vec![session("c1", "p1", "2099-01-05T19:30:00", None)],
    );
    let (names, _titles) = get_movie_schedule(&data);
    let kept = recently_showing_movies(&data, &names, 0, i64::MAX - 1);
    assert_eq!(kept.len(), 1);
    assert_eq!(kept[0].show_time_clt, "2099-01-05T19:30:00");
}

#[test]
fn recently_showing_keeps_an_unknown_theater() {
    let data = one_cinema_schedule(
        "Staten Island",
        vec![session("c9", "p1", "2099-01-05T19:30:00", None)],
    );
    let (names, _titles) = get_movie_schedule(&data);
    let kept = recently_showing_movies(&data, &names, 0, i64::MAX - 1);
    assert_eq!(kept.len(), 1);
}
