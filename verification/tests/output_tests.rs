use alamo_schedule::Cinema;
use alamo_schedule::Market;
use alamo_schedule::Presentation;
use alamo_schedule::RawData;
use alamo_schedule::RawDataContent;
use alamo_schedule::Session;
use alamo_schedule::Show;
use alamo_schedule::build_showtime_infos;
use alamo_schedule::get_movie_schedule;
use alamo_schedule::recently_showing_output;
use alamo_schedule::text_rows;
use chrono::TimeZone;

fn session(cinema_id: &str, pres: &str, when: &str) -> Session {
    Session {
        cinema_id: cinema_id.to_string(),
        session_id: format!("sess-{}", when),
        presentation_slug: pres.to_string(),
        legacy_slug: None,
        show_time_clt: when.to_string(),
        format_slug: None,
    }
}

fn small_schedule(sessions: Vec<Session>) -> RawData {
    RawData {
        data: RawDataContent {
            presentations: vec![Presentation {
                slug: "p1".to_string(),
                legacy_slug: None,
                show: Show {
                    slug: "show-p1".to_string(),
                    legacy_slug: None,
                    title: "Dune".to_string(),
                },
            }],
            market: vec![Market {
                id: "m1".to_string(),
                slug: "nyc".to_string(),
                name: "NYC".to_string(),
                status: "open".to_string(),
                cinemas: vec![Cinema {
                    id: "c1".to_string(),
                    loyalty_cinema_id: "l1".to_string(),
                    slug: "village-east".to_string(),
                    name: "Village East".to_string(),
                }],
            }],
            sessions,
        },
    }
}

fn local_rfc3339(epoch: i64) -> String {
    chrono::Local.timestamp_opt(epoch, 0).unwrap().to_rfc3339()
}

#[test]
fn records_carry_raw_fields_and_resolved_names() {
    let data = small_schedule(vec![session("c1", "p1", "2099-01-05T19:30:00")]);
    let (names, titles) = get_movie_schedule(&data);
    let infos = build_showtime_infos(&data.data.sessions, &names, &titles);
    assert_eq!(infos.len(), 1);
    assert_eq!(infos[0].show_time, "2099-01-05T19:30:00");
    assert_eq!(infos[0].movie, "Dune");
    assert_eq!(infos[0].theater, "Village East");
    assert_eq!(infos[0].cinema_id, "c1");
    assert_eq!(infos[0].session_id, "sess-2099-01-05T19:30:00");
    assert_eq!(infos[0].presentation_slug, "p1");
}

#[test]
fn records_fall_back_to_placeholders() {
    let data = small_schedule(vec![session("missing-cinema", "missing-pres", "2099-01-05T19:30:00")]);
    let (names, titles) = get_movie_schedule(&data);
    let infos = build_showtime_infos(&data.data.sessions, &names, &titles);
    assert_eq!(infos[0].movie, "Unknown Movie");
    assert_eq!(infos[0].theater, "Unknown Theater");
}

#[test]
fn text_rows_shorten_times_and_resolve_names() {
    let data = small_schedule(vec![
        session("c1", "p1", "2099-01-05T19:30:00"),
        session("c1", "p1", "not a date"),
    ]);
    let (names, titles) = get_movie_schedule(&data);
    let rows = text_rows(&data.data.sessions, &names, &titles);
    assert_eq!(rows.len(), 1);
    assert_eq!(rows[0].show_time, "01/05 19:30");
    assert_eq!(rows[0].movie, "Dune");
    assert_eq!(rows[0].theater, "Village East");
}

#[test]
fn structured_output_carries_the_filter_window() {
    let data = small_schedule(vec![session("c1", "p1", "2099-01-05T19:30:00")]);
    let (names, titles) = get_movie_schedule(&data);
    let now: i64 = 1700000000;
    let end: i64 = now + 12 * 3600;
    let out = recently_showing_output(&data, &names, &titles, now, end);
    assert_eq!(out.time_range.start, local_rfc3339(now));
    assert_eq!(out.time_range.end, local_rfc3339(end));
    assert!(out.showtimes.is_empty());
}

#[test]
fn structured_output_lists_sessions_sorted() {
    let data = small_schedule(vec![
        session("c1", "p1", "2099-01-06T10:00:00"),
        session("c1", "p1", "2099-01-05T19:30:00"),
    ]);
    let (names, titles) = get_movie_schedule(&data);
    let out = recently_showing_output(&data, &names, &titles, 0, i64::MAX - 1);
    assert_eq!(out.showtimes.len(), 2);
    assert_eq!(out.showtimes[0].show_time, "2099-01-05T19:30:00");
    assert_eq!(out.showtimes[1].show_time, "2099-01-06T10:00:00");
    assert_eq!(out.showtimes[0].movie, "Dune");
    assert_eq!(out.showtimes[0].theater, "Village East");
}
