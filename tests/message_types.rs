use secure_chat::messages::{ErrorCode, PayloadType};


#[test]
fn test_payload_type_from_str_server_messages() {
    assert_eq!(
        PayloadType::from("SERVER_HELLO_JOIN"),
        PayloadType::ServerHelloJoin
    );
    assert_eq!(
        PayloadType::from("SERVER_WELCOME"),
        PayloadType::ServerWelcome
    );
    assert_eq!(
        PayloadType::from("SERVER_ANNOUNCE"),
        PayloadType::ServerAnnounce
    );
    assert_eq!(
        PayloadType::from("USER_ADVERTISE"),
        PayloadType::UserAdvertise
    );
    assert_eq!(PayloadType::from("USER_REMOVE"), PayloadType::UserRemove);
    assert_eq!(
        PayloadType::from("SERVER_DELIVER"),
        PayloadType::ServerDeliver
    );
    assert_eq!(PayloadType::from("HEARTBEAT"), PayloadType::Heartbeat);
}

#[test]
fn test_payload_type_from_str_user_messages() {
    assert_eq!(PayloadType::from("USER_HELLO"), PayloadType::UserHello);
    assert_eq!(PayloadType::from("LIST_USERS"), PayloadType::ListUsers);
    assert_eq!(PayloadType::from("USER_LOGIN"), PayloadType::UserLogin);
    assert_eq!(
        PayloadType::from("USER_REGISTER"),
        PayloadType::UserRegister
    );
    assert_eq!(PayloadType::from("MSG_DIRECT"), PayloadType::MsgDirect);
    assert_eq!(PayloadType::from("USER_DELIVER"), PayloadType::UserDeliver);
}

#[test]
fn test_payload_type_from_str_public_channel_messages() {
    assert_eq!(
        PayloadType::from("PUBLIC_CHANNEL_ADD"),
        PayloadType::PublicChannelAdd
    );
    assert_eq!(
        PayloadType::from("PUBLIC_CHANNEL_UPDATED"),
        PayloadType::PublicChannelUpdated
    );
    assert_eq!(
        PayloadType::from("PUBLIC_CHANNEL_KEY_SHARE"),
        PayloadType::PublicChannelKeyShare
    );
    assert_eq!(
        PayloadType::from("MSG_PUBLIC_CHANNEL"),
        PayloadType::MsgPublicChannel
    );
}

#[test]
fn test_payload_type_from_str_file_transfer_messages() {
    assert_eq!(PayloadType::from("FILE_START"), PayloadType::FileStart);
    assert_eq!(PayloadType::from("FILE_CHUNK"), PayloadType::FileChunk);
    assert_eq!(PayloadType::from("FILE_END"), PayloadType::FileEnd);
}

#[test]
fn test_payload_type_from_str_acknowledgement_messages() {
    assert_eq!(PayloadType::from("ACK"), PayloadType::Ack);
    assert_eq!(PayloadType::from("ERROR"), PayloadType::Error);
}

#[test]
fn test_payload_type_from_str_invalid() {
    let invalid_type = PayloadType::from("INVALID_MESSAGE_TYPE");
    match invalid_type {
        PayloadType::InvalidType(msg) => assert_eq!(msg, "INVALID_MESSAGE_TYPE"),
        _ => panic!("Expected InvalidType variant"),
    }

    let empty_type = PayloadType::from("");
    match empty_type {
        PayloadType::InvalidType(msg) => assert_eq!(msg, ""),
        _ => panic!("Expected InvalidType variant"),
    }

    let random_type = PayloadType::from("RANDOM_STRING_1234567890");
    match random_type {
        PayloadType::InvalidType(msg) => assert_eq!(msg, "RANDOM_STRING_1234567890"),
        _ => panic!("Expected InvalidType variant"),
    }
}

#[test]
fn test_payload_type_from_str_case_sensitive() {
    // Test that the conversion is case-sensitive
    let lowercase_type = PayloadType::from("server_hello_join");
    match lowercase_type {
        PayloadType::InvalidType(msg) => assert_eq!(msg, "server_hello_join"),
        _ => panic!("Expected InvalidType variant for lowercase input"),
    }

    let mixed_case_type = PayloadType::from("Server_Hello_Join");
    match mixed_case_type {
        PayloadType::InvalidType(msg) => assert_eq!(msg, "Server_Hello_Join"),
        _ => panic!("Expected InvalidType variant for mixed case input"),
    }
}

#[test]
fn test_error_code_from_str_valid() {
    assert_eq!(ErrorCode::from("USER_NOT_FOUND"), ErrorCode::UserNotFound);
    assert_eq!(ErrorCode::from("INVALID_SIG"), ErrorCode::InvalidSig);
    assert_eq!(ErrorCode::from("BAD_KEY"), ErrorCode::BadKey);
    assert_eq!(ErrorCode::from("TIMEOUT"), ErrorCode::Timeout);
    assert_eq!(ErrorCode::from("UNKNOWN_TYPE"), ErrorCode::UnknownType);
    assert_eq!(ErrorCode::from("NAME_IN_USE"), ErrorCode::NameInUse);
}

#[test]
fn test_error_code_from_str_invalid() {
    assert_eq!(
        ErrorCode::from("INVALID_ERROR_CODE"),
        ErrorCode::InvalidErrorCode
    );
    assert_eq!(
        ErrorCode::from("NONEXISTENT_ERROR"),
        ErrorCode::InvalidErrorCode
    );
    assert_eq!(ErrorCode::from(""), ErrorCode::InvalidErrorCode);
    assert_eq!(
        ErrorCode::from("random_string"),
        ErrorCode::InvalidErrorCode
    );
}

#[test]
fn test_error_code_from_str_case_sensitive() {
    // Test that the conversion is case-sensitive
    assert_eq!(
        ErrorCode::from("user_not_found"),
        ErrorCode::InvalidErrorCode
    );
    assert_eq!(
        ErrorCode::from("User_Not_Found"),
        ErrorCode::InvalidErrorCode
    );
    assert_eq!(ErrorCode::from("INVALID_sig"), ErrorCode::InvalidErrorCode);
}

#[test]
fn test_error_code_from_str_whitespace() {
    // Test that whitespace is not handled
    assert_eq!(
        ErrorCode::from(" USER_NOT_FOUND"),
        ErrorCode::InvalidErrorCode
    );
    assert_eq!(
        ErrorCode::from("USER_NOT_FOUND "),
        ErrorCode::InvalidErrorCode
    );
    assert_eq!(
        ErrorCode::from(" USER_NOT_FOUND "),
        ErrorCode::InvalidErrorCode
    );
}
