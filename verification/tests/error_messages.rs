use cdtest::error::Error;

#[test]
fn message_of_each_plain_error() {
    assert_eq!(Error::InitializeVarFailed.to_string(), "Failed to initialize /var/tmp/cdtest");
    assert_eq!(Error::InitializeTmpFailed.to_string(), "Failed to initialize /tmp/cdtest");
    assert_eq!(Error::ProjectDirectoryInvalid.to_string(), "The project directory is invalid");
    assert_eq!(Error::ProjectSetupFailed.to_string(), "Project failed to set up");
    assert_eq!(Error::SubprocessFailed.to_string(), "Subprocess failed to execute correctly");
    assert_eq!(Error::WriteOutFailed.to_string(), "Failed to write out project");
}

#[test]
fn message_quotes_what_failed_to_parse() {
    let time = Error::ParseFailedTime { from: "soon".to_string() };
    assert_eq!(time.to_string(), "Failed to parse time from `soon`");
    let toml = Error::ParseFailedToml { from: "name = ".to_string() };
    assert_eq!(toml.to_string(), "Failed to parse toml from `name = `");
    let path = Error::ParseFailedPath { from: "/tmp/cdtest/x/.cdtest.toml".to_string() };
    assert_eq!(path.to_string(), "Failed to parse path from `/tmp/cdtest/x/.cdtest.toml`");
}

#[test]
fn message_of_an_empty_quote() {
    let time = Error::ParseFailedTime { from: String::new() };
    assert_eq!(time.to_string(), "Failed to parse time from ``");
}

#[test]
fn errors_compare_and_clone() {
    let first = Error::ParseFailedTime { from: "x".to_string() };
    assert_eq!(first.clone(), first);
    assert_ne!(first, Error::ParseFailedToml { from: "x".to_string() });
    assert_ne!(Error::InitializeVarFailed, Error::InitializeTmpFailed);
}
