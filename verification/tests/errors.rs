use lcd_rpc::error::{INTERNAL_MESSAGE, INVALID_PARAMS_MESSAGE, VALIDATION_MESSAGE};
use lcd_rpc::{DecodeFailure, Error, ErrorCode, Msg, ValidationFailure, WriteError};

#[test]
fn code_numbers() {
    assert_eq!(ErrorCode::InvalidParams.number(), -32602);
    assert_eq!(ErrorCode::Validation.number(), 1);
    assert_eq!(ErrorCode::Internal.number(), -32603);
}

#[test]
fn messages_read_as_documented() {
    assert_eq!(INVALID_PARAMS_MESSAGE, "invalid params");
    assert_eq!(VALIDATION_MESSAGE, "validation error");
    assert_eq!(INTERNAL_MESSAGE, "internal error");
}

#[test]
fn invalid_position_maps_to_validation_error() {
    let e = Msg::new(41, String::from("x")).validate().unwrap_err();
    let wire = Error::from(WriteError::Invalid { e });
    assert_eq!(
        wire,
        Error {
            code: ErrorCode::Validation,
            message: "validation error",
            data: Some(String::from("position not in range 0-40")),
        }
    );
}

#[test]
fn invalid_string_maps_to_validation_error() {
    let e = Msg::new(0, "a".repeat(41)).validate().unwrap_err();
    let wire = Error::from(WriteError::Invalid { e });
    assert_eq!(wire.code, ErrorCode::Validation);
    assert_eq!(wire.message, "validation error");
    assert_eq!(wire.data.as_deref(), Some("string length > 40 characters"));
}

#[test]
fn only_the_first_failing_field_is_reported() {
    let e = Msg::new(99, "a".repeat(50)).validate().unwrap_err();
    let wire = Error::from(WriteError::Invalid { e });
    assert_eq!(wire.data.as_deref(), Some("position not in range 0-40"));
}

#[test]
fn first_reason_is_carried_verbatim() {
    let e = ValidationFailure::Both { position: String::from("first"), string: String::from("second") };
    let wire = Error::from(WriteError::Invalid { e });
    assert_eq!(wire.data.as_deref(), Some("first"));
}

#[test]
fn missing_params_maps_to_invalid_params() {
    let e = DecodeFailure { message: String::from("Invalid params: missing field `string`.") };
    let wire = Error::from(WriteError::MissingParams { e });
    assert_eq!(
        wire,
        Error {
            code: ErrorCode::InvalidParams,
            message: "invalid params",
            data: Some(String::from("Invalid params: missing field `string`.")),
        }
    );
    assert_eq!(wire.code.number(), -32602);
}

#[test]
fn other_faults_map_to_internal_error() {
    let wire = Error::from(WriteError::Internal { e: String::from("Poisoned") });
    assert_eq!(
        wire,
        Error {
            code: ErrorCode::Internal,
            message: "internal error",
            data: Some(String::from("Poisoned")),
        }
    );
    assert_eq!(wire.code.number(), -32603);
}

#[test]
fn conversion_also_works_through_into() {
    let wire: Error = WriteError::Internal { e: String::from("x") }.into();
    assert_eq!(wire.code, ErrorCode::Internal);
}
