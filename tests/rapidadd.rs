use rapidadd::cli::{confirmation, printed_text, read_failure, select_mode, Mode, UsageError};
use rapidadd::config::AppConfig;
use rapidadd::daily::{
    daily_file_name, daily_file_path_on, get_daily_file_path, new_entry_line, new_entry_region,
    CivilDate,
};
use rapidadd::entry::{append_region, entry_line, format_clock, join_tokens};

fn test_config() -> AppConfig {
    AppConfig::from_settings(
        Some("/tmp/journal".to_string()),
        Some("md".to_string()),
        Some("%Y-%m-%d".to_string()),
    )
}

fn append(contents: &[u8], last_line: &str) -> Vec<u8> {
    let mut out = contents.to_vec();
    out.extend(append_region(contents.last().copied(), last_line));
    out
}

/// True when `s` is `- HH:MM <text>` with two-digit hour and minute.
fn is_entry_for(s: &str, text: &str) -> bool {
    let b = s.as_bytes();
    b.len() == 8 + text.len()
        && &b[0..2] == b"- "
        && b[2].is_ascii_digit()
        && b[3].is_ascii_digit()
        && b[4] == b':'
        && b[5].is_ascii_digit()
        && b[6].is_ascii_digit()
        && b[7] == b' '
        && &s[8..] == text
}

#[test]
fn test_cli_no_args() {
    let r = select_mode(false, vec![]);
    assert_eq!(r, Err(UsageError::MissingEntry));
    let msg = r.unwrap_err().message();
    assert!(msg.contains("The following required arguments were not provided:"));
}

#[test]
fn test_cli_append_entry() {
    let test_entry = "Test entry on existing file";
    let initial = b"Initial content\n";
    let tokens = vec![test_entry.to_string()];
    let mut contents = initial.to_vec();
    contents.extend(new_entry_region(initial.last().copied(), &tokens));
    let text = String::from_utf8(contents).unwrap();
    assert!(text.starts_with("Initial content\n"), "The file does not contain the expected text.");
    assert!(text.ends_with('\n'));
    let added = &text["Initial content\n".len()..text.len() - 1];
    assert!(is_entry_for(added, test_entry), "The file does not contain the expected text.");
}

#[test]
fn test_cli_print() {
    let out = printed_text("Test content for printing\n");
    assert!(out.contains("Test content for printing"));
    assert_eq!(out, "Test content for printing\n\n");
}

#[test]
fn test_cli_print_non_existing_file_error() {
    let msg = read_failure("No such file or directory (os error 2)");
    assert!(msg.contains("No such file or directory"));
    assert!(msg.contains("Failed to read the daily file"));
    assert_eq!(msg, "Failed to read the daily file: No such file or directory (os error 2)");
}

#[test]
fn append_heals_missing_newline() {
    let line = entry_line(9, 5, &vec!["x".to_string()]);
    assert_eq!(line, "- 09:05 x");
    let out = append(b"Initial content", &line);
    assert_eq!(out, b"Initial content\n- 09:05 x\n".to_vec());
}

#[test]
fn append_to_empty_file_adds_no_leading_newline() {
    assert_eq!(append_region(None, "- 00:00 a"), b"- 00:00 a\n".to_vec());
}

#[test]
fn append_to_terminated_file() {
    assert_eq!(append_region(Some(b'\n'), "- 23:59 y"), b"- 23:59 y\n".to_vec());
    assert_eq!(append_region(Some(b'z'), "- 23:59 y"), b"\n- 23:59 y\n".to_vec());
}

#[test]
fn append_non_utf8_last_byte_is_healed() {
    assert_eq!(append_region(Some(0xFF), "l"), b"\nl\n".to_vec());
}

#[test]
fn append_keeps_multibyte_text() {
    assert_eq!(append_region(None, "é"), vec![0xC3, 0xA9, b'\n']);
}

#[test]
fn two_appends_give_two_lines() {
    let first = entry_line(7, 30, &vec!["same".to_string()]);
    let second = entry_line(7, 31, &vec!["same".to_string()]);
    let once = append(b"start\n", &first);
    let twice = append(&once, &second);
    assert_eq!(twice, b"start\n- 07:30 same\n- 07:31 same\n".to_vec());
    let text = String::from_utf8(twice).unwrap();
    let lines: Vec<&str> = text.lines().collect();
    assert_eq!(lines.len(), 3);
    assert!(is_entry_for(lines[1], "same"));
    assert!(is_entry_for(lines[2], "same"));
    assert!(text.ends_with("same\n") && !text.ends_with("\n\n"));
}

#[test]
fn entry_with_empty_text_keeps_trailing_space() {
    assert_eq!(entry_line(12, 0, &vec![]), "- 12:00 ");
    assert_eq!(entry_line(12, 0, &vec!["".to_string()]), "- 12:00 ");
}

#[test]
fn tokens_join_with_single_spaces() {
    let tokens = vec!["a".to_string(), "bc".to_string(), "d".to_string()];
    assert_eq!(join_tokens(&tokens), "a bc d");
    assert_eq!(join_tokens(&vec![]), "");
    assert_eq!(entry_line(1, 2, &tokens), "- 01:02 a bc d");
}

#[test]
fn clock_is_zero_padded() {
    assert_eq!(format_clock(0, 0), "00:00");
    assert_eq!(format_clock(9, 7), "09:07");
    assert_eq!(format_clock(23, 59), "23:59");
}

#[test]
fn new_entry_line_has_entry_shape() {
    let line = new_entry_line(&vec!["hello".to_string(), "world".to_string()]);
    assert!(is_entry_for(&line, "hello world"));
}

#[test]
fn file_name_is_formatted_date_dot_extension() {
    let date = CivilDate { year: 2024, month: 3, day: 5 };
    assert_eq!(daily_file_name(&test_config(), &date), Some("2024-03-05.md".to_string()));
    let defaults = AppConfig::defaults();
    assert_eq!(daily_file_name(&defaults, &date), Some("2024-03-05_Tue.md".to_string()));
}

#[test]
fn file_extension_is_taken_literally() {
    let cfg = AppConfig::from_settings(None, Some("txt.bak".to_string()), Some("%d%m%Y".to_string()));
    let date = CivilDate { year: 1999, month: 12, day: 31 };
    assert_eq!(daily_file_name(&cfg, &date), Some("31121999.txt.bak".to_string()));
}

#[test]
fn file_path_joins_directory_and_name() {
    let date = CivilDate { year: 2024, month: 3, day: 5 };
    assert_eq!(
        daily_file_path_on(&test_config(), &date),
        Some("/tmp/journal/2024-03-05.md".to_string())
    );
    assert_eq!(
        daily_file_path_on(&AppConfig::defaults(), &date),
        Some("./2024-03-05_Tue.md".to_string())
    );
}

#[test]
fn invalid_date_or_pattern_gives_no_name() {
    let feb30 = CivilDate { year: 2023, month: 2, day: 30 };
    assert_eq!(daily_file_name(&test_config(), &feb30), None);
    let cfg = AppConfig::from_settings(None, None, Some("%Y-%Q".to_string()));
    let date = CivilDate { year: 2024, month: 3, day: 5 };
    assert_eq!(daily_file_name(&cfg, &date), None);
    assert_eq!(daily_file_path_on(&cfg, &date), None);
}

#[test]
fn todays_path_uses_configured_directory() {
    let path = get_daily_file_path(&test_config()).unwrap();
    assert!(path.starts_with("/tmp/journal/"));
    assert!(path.ends_with(".md"));
    assert_eq!(path.len(), "/tmp/journal/".len() + "YYYY-MM-DD.md".len());
}

#[test]
fn defaults_apply_without_config_file() {
    let cfg = AppConfig::from_settings(None, None, None);
    assert_eq!(cfg.daily_path, "./");
    assert_eq!(cfg.file_extension, "md");
    assert_eq!(cfg.date_format, "%Y-%m-%d_%a");
    let d = AppConfig::defaults();
    assert_eq!(d.daily_path, cfg.daily_path);
}

#[test]
fn settings_override_defaults_and_empty_counts_as_absent() {
    let cfg = AppConfig::from_settings(Some("notes".to_string()), Some(String::new()), None);
    assert_eq!(cfg.daily_path, "notes");
    assert_eq!(cfg.file_extension, "md");
    assert_eq!(cfg.date_format, "%Y-%m-%d_%a");
}

#[test]
fn mode_selection() {
    assert_eq!(select_mode(true, vec![]), Ok(Mode::Print));
    assert_eq!(
        select_mode(false, vec!["a".to_string(), "b".to_string()]),
        Ok(Mode::Append(vec!["a".to_string(), "b".to_string()]))
    );
    let both = select_mode(true, vec!["a".to_string()]);
    assert_eq!(both, Err(UsageError::PrintWithEntry));
    assert!(both.unwrap_err().message().contains("--print"));
}

#[test]
fn confirmation_names_the_path() {
    assert_eq!(confirmation("./2024-03-05.md"), "Entry added to ./2024-03-05.md");
}

#[test]
fn leap_day_is_a_calendar_date() {
    let leap = CivilDate { year: 2024, month: 2, day: 29 };
    assert_eq!(daily_file_name(&test_config(), &leap), Some("2024-02-29.md".to_string()));
    let not_leap = CivilDate { year: 1900, month: 2, day: 29 };
    assert_eq!(daily_file_name(&test_config(), &not_leap), None);
}
