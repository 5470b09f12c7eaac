use alamo_schedule::OutputFormat;
use alamo_schedule::WarnKind;
use alamo_schedule::parse_args;

fn args(items: &[&str]) -> Vec<String> {
    items.iter().map(|a| a.to_string()).collect()
}

#[test]
fn a_bare_path_is_taken_with_text_output() {
    let (path, format, warnings) = parse_args(&args(&["prog", "schedule.json"]));
    assert_eq!(path, Some("schedule.json".to_string()));
    assert_eq!(format, OutputFormat::Text);
    assert!(warnings.is_empty());
}

#[test]
fn no_arguments_means_no_path() {
    let (path, format, warnings) = parse_args(&args(&["prog"]));
    assert_eq!(path, None);
    assert_eq!(format, OutputFormat::Text);
    assert!(warnings.is_empty());
}

#[test]
fn output_json_is_honored() {
    let (path, format, warnings) = parse_args(&args(&["prog", "--output", "json", "a.json"]));
    assert_eq!(path, Some("a.json".to_string()));
    assert_eq!(format, OutputFormat::Json);
    assert!(warnings.is_empty());
}

#[test]
fn the_last_output_value_wins() {
    let (_, format, warnings) =
        parse_args(&args(&["prog", "--output", "json", "--output", "text"]));
    assert_eq!(format, OutputFormat::Text);
    assert!(warnings.is_empty());
}

#[test]
fn an_unknown_output_value_warns_and_keeps_text() {
    let (_, format, warnings) = parse_args(&args(&["prog", "--output", "yaml"]));
    assert_eq!(format, OutputFormat::Text);
    assert_eq!(warnings.len(), 1);
    assert_eq!(warnings[0].0, WarnKind::UnknownFormat);
    assert_eq!(warnings[0].1, "yaml");
}

#[test]
fn a_trailing_output_flag_warns() {
    let (_, format, warnings) = parse_args(&args(&["prog", "--output"]));
    assert_eq!(format, OutputFormat::Text);
    assert_eq!(warnings.len(), 1);
    assert_eq!(warnings[0].0, WarnKind::MissingValue);
    assert_eq!(warnings[0].1, "--output");
}

#[test]
fn an_unknown_flag_warns_and_is_ignored() {
    let (path, format, warnings) = parse_args(&args(&["prog", "--verbose", "a.json"]));
    assert_eq!(path, Some("a.json".to_string()));
    assert_eq!(format, OutputFormat::Text);
    assert_eq!(warnings.len(), 1);
    assert_eq!(warnings[0].0, WarnKind::UnknownFlag);
    assert_eq!(warnings[0].1, "--verbose");
}

#[test]
fn only_the_first_path_is_honored() {
    let (path, _, warnings) = parse_args(&args(&["prog", "first.json", "second.json"]));
    assert_eq!(path, Some("first.json".to_string()));
    assert!(warnings.is_empty());
}

#[test]
fn an_output_value_is_consumed_even_when_it_looks_like_a_flag() {
    let (path, format, warnings) = parse_args(&args(&["prog", "--output", "--weird"]));
    assert_eq!(path, None);
    assert_eq!(format, OutputFormat::Text);
    assert_eq!(warnings.len(), 1);
    assert_eq!(warnings[0].0, WarnKind::UnknownFormat);
    assert_eq!(warnings[0].1, "--weird");
}
