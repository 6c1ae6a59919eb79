use secure_chat::greet;
use secure_chat::log_level::LogLevel;
use secure_chat::messages::PayloadType;
use secure_chat::transport::ConnectionType;

#[test]
fn greet_names_the_caller() {
    assert_eq!(greet("Ada").message, "Hello, Ada! You've been greeted from the Rust backend!");
}

#[test]
fn test_log_level_from_str() {
    assert_eq!(LogLevel::from("TRACE"), LogLevel::Trace);
    assert_eq!(LogLevel::from("DEBUG"), LogLevel::Debug);
    assert_eq!(LogLevel::from("INFO"), LogLevel::Info);
    assert_eq!(LogLevel::from("WARN"), LogLevel::Warn);
    assert_eq!(LogLevel::from("ERROR"), LogLevel::Error);
}

#[test]
fn test_log_level_as_str() {
    assert_eq!(LogLevel::Trace.as_str(), "TRACE");
    assert_eq!(LogLevel::Debug.as_str(), "DEBUG");
    assert_eq!(LogLevel::Info.as_str(), "INFO");
    assert_eq!(LogLevel::Warn.as_str(), "WARN");
    assert_eq!(LogLevel::Error.as_str(), "ERROR");
}

#[test]
fn unknown_log_level_is_refused() {
    assert_eq!(LogLevel::parse("info"), None);
    assert_eq!(LogLevel::parse("WARN"), Some(LogLevel::Warn));
}

#[test]
fn socket_kind_follows_first_envelope() {
    assert_eq!(ConnectionType::Unknown.after_envelope(&PayloadType::UserHello), ConnectionType::Client);
    assert_eq!(ConnectionType::Unknown.after_envelope(&PayloadType::ServerHelloJoin), ConnectionType::Server);
    assert_eq!(ConnectionType::Unknown.after_envelope(&PayloadType::Ack), ConnectionType::Unknown);
    assert_eq!(ConnectionType::Client.after_envelope(&PayloadType::Heartbeat), ConnectionType::Client);
}
