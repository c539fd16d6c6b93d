use input_locale::cli::plan_invocation;
use input_locale::cli::read_locale;
use input_locale::cli::write_request_outcome;
use input_locale::cli::Command;
use input_locale::error::LocaleError;
use input_locale::numerals::locale_text;

fn args(parts: &[&str]) -> Vec<String> {
    parts.iter().map(|p| p.to_string()).collect()
}

#[test]
fn no_argument_means_read() {
    assert_eq!(plan_invocation(&args(&["program"])), Ok(Command::Read));
}

#[test]
fn one_integer_argument_means_write() {
    assert_eq!(
        plan_invocation(&args(&["program", "1033"])),
        Ok(Command::Write(1033))
    );
    assert_eq!(
        plan_invocation(&args(&["program", "-1"])),
        Ok(Command::Write(-1))
    );
}

#[test]
fn non_integer_argument_is_invalid() {
    assert_eq!(
        plan_invocation(&args(&["program", "abc"])),
        Err(LocaleError::InvalidArgument)
    );
    assert_eq!(
        plan_invocation(&args(&["program", ""])),
        Err(LocaleError::InvalidArgument)
    );
}

#[test]
fn too_many_arguments_is_a_usage_error() {
    assert_eq!(
        plan_invocation(&args(&["program", "a", "b"])),
        Err(LocaleError::UsageError)
    );
    assert_eq!(
        plan_invocation(&args(&["program", "1", "2", "3"])),
        Err(LocaleError::UsageError)
    );
    assert_eq!(plan_invocation(&args(&[])), Err(LocaleError::UsageError));
}

#[test]
fn read_reports_the_masked_locale() {
    assert_eq!(read_locale(Some(0x11220409)), Ok(0x0409));
    assert_eq!(read_locale(Some(0x0804)), Ok(0x0804));
}

#[test]
fn read_prints_a_nonnegative_decimal() {
    let locale = read_locale(Some(0xFEDC0409)).unwrap();
    assert!(locale < 0x10000);
    let text = locale_text(locale);
    assert!(!text.is_empty());
    assert!(text.chars().all(|c| c.is_ascii_digit()));
    assert_eq!(text, "1033");
}

#[test]
fn read_without_focus_fails() {
    assert_eq!(read_locale(None), Err(LocaleError::NoForegroundWindow));
}

#[test]
fn write_succeeds_only_when_accepted() {
    assert_eq!(write_request_outcome(true, true), Ok(()));
    assert_eq!(
        write_request_outcome(true, false),
        Err(LocaleError::PostRequestFailed)
    );
}

#[test]
fn both_paths_fail_alike_without_focus() {
    let read_error = read_locale(None).unwrap_err();
    let write_error = write_request_outcome(false, true).unwrap_err();
    let write_error_again = write_request_outcome(false, false).unwrap_err();
    assert_eq!(read_error, LocaleError::NoForegroundWindow);
    assert_eq!(write_error, read_error);
    assert_eq!(write_error_again, read_error);
}

#[test]
fn reading_twice_gives_the_same_value() {
    let first = read_locale(Some(0x04090409));
    let second = read_locale(Some(0x04090409));
    assert_eq!(first, second);
    assert_eq!(first, Ok(0x0409));
}

#[test]
fn each_error_describes_itself() {
    assert_eq!(
        LocaleError::NoForegroundWindow.describe(),
        "foreground is invalid"
    );
    assert_eq!(LocaleError::InvalidArgument.describe(), "Invalid locale string");
    assert_eq!(
        LocaleError::PostRequestFailed.describe(),
        "failed to set input method"
    );
    assert_eq!(
        LocaleError::UsageError.describe(),
        "usage: expected at most one locale argument"
    );
}
