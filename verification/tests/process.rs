use fleet_deploy::run_util::decimal_string;
use fleet_deploy::run_util::exit_result;
use fleet_deploy::run_util::label_line;
use fleet_deploy::run_util::line_content;
use fleet_deploy::run_util::stream_plan;
use fleet_deploy::run_util::ProcessError;
use fleet_deploy::run_util::StreamMode;
use fleet_deploy::run_util::NO_EXIT_CODE;

#[test]
fn zero_exit_is_success() {
    assert_eq!(exit_result(true, Some(0)), Ok(()));
}

#[test]
fn nonzero_exit_carries_the_code() {
    assert_eq!(exit_result(true, Some(1)), Err(ProcessError::NonZeroExit(1)));
    assert_eq!(exit_result(true, Some(255)), Err(ProcessError::NonZeroExit(255)));
    assert_eq!(exit_result(true, Some(-7)), Err(ProcessError::NonZeroExit(-7)));
}

#[test]
fn missing_exit_code_gives_the_sentinel() {
    assert_eq!(NO_EXIT_CODE, -1);
    assert_eq!(exit_result(true, None), Err(ProcessError::NonZeroExit(-1)));
}

#[test]
fn failed_launch_is_reported_as_such() {
    assert_eq!(exit_result(false, None), Err(ProcessError::LaunchFailed));
    assert_eq!(exit_result(false, Some(0)), Err(ProcessError::LaunchFailed));
}

#[test]
fn streams_are_wired_by_mode() {
    let plain = stream_plan(false);
    assert_eq!(plain.stdin, StreamMode::Null);
    assert_eq!(plain.stdout, StreamMode::Inherit);
    assert_eq!(plain.stderr, StreamMode::Inherit);
    let wrapped = stream_plan(true);
    assert_eq!(wrapped.stdin, StreamMode::Null);
    assert_eq!(wrapped.stdout, StreamMode::Piped);
    assert_eq!(wrapped.stderr, StreamMode::Piped);
}

#[test]
fn decimal_strings() {
    assert_eq!(decimal_string(0), "0");
    assert_eq!(decimal_string(7), "7");
    assert_eq!(decimal_string(10), "10");
    assert_eq!(decimal_string(127), "127");
    assert_eq!(decimal_string(-1), "-1");
    assert_eq!(decimal_string(1234567890), "1234567890");
    assert_eq!(decimal_string(i32::MAX), "2147483647");
    assert_eq!(decimal_string(i32::MIN), "-2147483648");
}

#[test]
fn decimal_strings_agree_with_formatting() {
    for n in [-100000, -99, -10, -9, 1, 9, 11, 99, 100, 101, 4096, 65535] {
        assert_eq!(decimal_string(n), format!("{}", n));
    }
}

#[test]
fn process_error_messages() {
    assert_eq!(ProcessError::NonZeroExit(2).message(), "Command failed with exit code 2");
    assert_eq!(ProcessError::NonZeroExit(-1).message(), "Command failed with exit code -1");
    assert_eq!(ProcessError::LaunchFailed.message(), "Failed to run the command");
}

#[test]
fn labelled_lines() {
    assert_eq!(label_line("web1", "building..."), "web1: building...");
    assert_eq!(label_line("web1", ""), "web1: ");
}

#[test]
fn line_endings_are_left_out() {
    assert_eq!(line_content(&b"abc\n".to_vec()), 3);
    assert_eq!(line_content(&b"abc\r\n".to_vec()), 3);
    assert_eq!(line_content(&b"abc".to_vec()), 3);
    assert_eq!(line_content(&b"abc\r".to_vec()), 4);
    assert_eq!(line_content(&b"abc\n\n".to_vec()), 4);
    assert_eq!(line_content(&b"\n".to_vec()), 0);
    assert_eq!(line_content(&b"\r\n".to_vec()), 0);
    assert_eq!(line_content(&Vec::new()), 0);
}
