use log_agent::config::ConfigError;
use log_agent::detector::DetectError;
use std::io;
use std::io::ErrorKind;

#[test]
fn config_errors_report_themselves() {
    assert_eq!(
        ConfigError::InvalidEndPoint("ftp://host".to_string()).message(),
        "Invalid endpoint ftp://host"
    );
    assert_eq!(ConfigError::SendTaskIsUnderOne.message(), "send task is must be over 1");
    assert_eq!(ConfigError::RetryCountIsUnderOne.message(), "Retry count is must be over 1");
    assert_eq!(ConfigError::ChannelBoundIsUnderOne.message(), "Channel bound is must be over 1");
    assert_eq!(
        ConfigError::DuplicateSourceName("app1".to_string()).message(),
        "Duplicated source name in config: 'app1'"
    );
    assert_eq!(
        ConfigError::DuplicateLogPath("app1.log".to_string()).message(),
        "Duplicated log file path in config: 'app1.log'"
    );
}

#[test]
fn config_errors_report_what_they_carry() {
    let unreadable = ConfigError::CanNotRead(io::Error::new(ErrorKind::NotFound, "no such file"));
    assert_eq!(unreadable.message(), "Failed to read config file: no such file");

    let broken = "[global\nagent_name = \"agent\"".parse::<toml::Table>().expect_err("broken TOML");
    let detail = broken.to_string();
    assert_eq!(
        ConfigError::CanNotParseToml(broken).message(),
        format!("Failed to Parse TOML: {}", detail)
    );
}

#[test]
fn detect_errors_report_themselves() {
    let passing = DetectError::from_io_error(io::Error::new(ErrorKind::Interrupted, "signal"));
    assert_eq!(passing.message(), "signal");
    let fatal = DetectError::from_io_error(io::Error::new(ErrorKind::NotFound, "gone"));
    assert_eq!(fatal.message(), "gone");
    assert_eq!(DetectError::ChannelClosed.message(), "receiver channel closed");
}
