use dlt_user::error::{DltError, DltUserError};
use dlt_user::return_value::DltReturnValue;
use dlt_user::MessageContext;

#[test]
fn verbose_message_bytes() {
    let context = MessageContext::new(String::from("ECU1"), true).unwrap();
    assert_eq!(
        context.as_bytes(),
        vec![
            0x44, 0x4c, 0x54, 0x01, 0, 0, 0, 0, 0, 0, 0, 0, 0x45, 0x43, 0x55, 0x31, 0x22, 0, 0, 4
        ]
    );
}

#[test]
fn non_verbose_message_bytes() {
    let context = MessageContext::new(String::from("AB"), false).unwrap();
    assert_eq!(
        context.as_bytes(),
        vec![
            0x44, 0x4c, 0x54, 0x01, 0, 0, 0, 0, 0, 0, 0, 0, 0x41, 0x42, 0, 0, 0x22, 0, 0, 8, 0, 0,
            0, 0
        ]
    );
}

#[test]
fn error_texts() {
    assert_eq!(DltUserError::Unknown.message(), "unknown error");
    assert_eq!(
        DltError::ConfigFileError(String::from("x")).message(),
        "Config file error"
    );
    assert_eq!(DltError::FileSizeError.message(), "file size error");
    assert_eq!(DltError::DltReturnLoggingDisabled.message(), "Logging diabled");
    assert_eq!(DltError::DltReturnUserBufferFull.message(), "User Buffer Full");
    assert_eq!(DltError::DltReturnWrongParameter.message(), "Wrong Parameter");
    assert_eq!(DltError::DltReturnBufferFull.message(), "Buffer Full");
    assert_eq!(DltError::DltReturnPipeFull.message(), "Pipe Full");
    assert_eq!(DltError::DltReturnPipeError.message(), "Pipe error");
    assert_eq!(DltError::DltReturnError.message(), "error");
    assert_eq!(DltError::DltReturnOk.message(), "ok");
    assert_eq!(DltError::DltReturnTrue.message(), "true");
}

#[test]
fn return_values() {
    assert_eq!(DltReturnValue::DLT_RETURN_FILESZERR.value(), -8);
    assert_eq!(DltReturnValue::DLT_RETURN_LOGGING_DISABLED.value(), -7);
    assert_eq!(DltReturnValue::DLT_RETURN_USER_BUFFER_FULL.value(), -6);
    assert_eq!(DltReturnValue::DLT_RETURN_WRONG_PARAMETER.value(), -5);
    assert_eq!(DltReturnValue::DLT_RETURN_BUFFER_FULL.value(), -4);
    assert_eq!(DltReturnValue::DLT_RETURN_PIPE_FULL.value(), -3);
    assert_eq!(DltReturnValue::DLT_RETURN_PIPE_ERROR.value(), -2);
    assert_eq!(DltReturnValue::DLT_RETURN_ERROR.value(), -1);
    assert_eq!(DltReturnValue::DLT_RETURN_OK.value(), 0);
    assert_eq!(DltReturnValue::DLT_RETURN_TRUE.value(), 1);
}

#[test]
fn identifiers_in_the_storage_header() {
    let context = MessageContext::new(String::from("LONGER"), true).unwrap();
    assert_eq!(
        context.as_bytes(),
        vec![
            0x44, 0x4c, 0x54, 0x01, 0, 0, 0, 0, 0, 0, 0, 0, 0x4c, 0x4f, 0x4e, 0x47, 0x45, 0x52,
            0x22, 0, 0, 4
        ]
    );
    let context = MessageContext::new(String::from("\u{e9}"), false).unwrap();
    assert_eq!(
        context.as_bytes(),
        vec![
            0x44, 0x4c, 0x54, 0x01, 0, 0, 0, 0, 0, 0, 0, 0, 0xc3, 0xa9, 0, 0, 0x22, 0, 0, 8, 0, 0,
            0, 0
        ]
    );
    let context = MessageContext::new(String::new(), true).unwrap();
    assert_eq!(
        context.as_bytes(),
        vec![0x44, 0x4c, 0x54, 0x01, 0, 0, 0, 0, 0, 0, 0, 0, 0, 0, 0, 0, 0x22, 0, 0, 4]
    );
}
