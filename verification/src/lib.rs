//! A verified library for a cinema chain's schedule feed: the schedule data
//! model, the fixed-format show-time grammar, the time-windowed session
//! filters, the stable sort on raw show-time text, and the display builders.
mod args;
mod clock;
mod filter;
mod lex;
mod lookup;
mod output;
mod schedule;
mod sort;
mod timestamp;

pub use args::ArgsOutcome;
pub use args::OutputFormat;
pub use args::WarnKind;
pub use args::arg_views;
pub use args::args_spec;
pub use args::parse_args;
pub use args::parsed_args;
pub use args::warn_views;
pub use clock::eastern_epoch_of;
pub use filter::Mode;
pub use filter::eastern_instant;
pub use filter::eastern_instants;
pub use filter::filter_sessions;
pub use filter::filtered;
pub use filter::lemma_filtered_sound;
pub use filter::open_caption_sessions;
pub use filter::recently_showing_movies;
pub use filter::session_keep;
pub use lex::lex_le;
pub use lex::lex_lt;
pub use lex::str_lex_le;
pub use lookup::NameMap;
pub use lookup::get_movie_schedule;
pub use lookup::lemma_lookup_unmatched;
pub use lookup::lemma_unknown_movie;
pub use lookup::lemma_unknown_theater;
pub use lookup::lookup_spec;
pub use lookup::market_entries;
pub use lookup::movie_of;
pub use lookup::movie_title;
pub use lookup::presentation_entries;
pub use lookup::theater_name;
pub use lookup::theater_of;
pub use output::ShowtimeInfo;
pub use output::ShowtimeInfoView;
pub use output::ShowtimeOutput;
pub use output::TextRow;
pub use output::TextRowView;
pub use output::TimeRange;
pub use output::build_showtime_infos;
pub use output::build_showtime_output;
pub use output::info_of;
pub use output::info_views;
pub use output::infos_of;
pub use output::open_caption_rows;
pub use output::recently_showing_output;
pub use output::row_of;
pub use output::row_views;
pub use output::rows_of;
pub use output::text_rows;
pub use schedule::Cinema;
pub use schedule::Market;
pub use schedule::Presentation;
pub use schedule::RawData;
pub use schedule::RawDataContent;
pub use schedule::Session;
pub use schedule::SessionView;
pub use schedule::Show;
pub use schedule::opt_view;
pub use schedule::session_views;
pub use sort::lemma_sorted_by_time_multiset;
pub use sort::lemma_sorted_by_time_sorted;
pub use sort::lemma_sorted_by_time_stable;
pub use sort::sort_sessions;
pub use sort::sorted_by_time;
pub use sort::time_key;
pub use sort::time_sorted;
pub use sort::with_key;
pub use timestamp::Stamp;
pub use timestamp::days_in_month;
pub use timestamp::display_time;
pub use timestamp::fields_valid;
pub use timestamp::format_show_time;
pub use timestamp::is_leap_year;
pub use timestamp::parse_show_time;
pub use timestamp::stamp_shape;
pub use timestamp::valid_show_time;
