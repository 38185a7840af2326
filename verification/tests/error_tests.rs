use opc_da_client::error::{OpcError, OpcResult};
use opc_da_client::types::OpcValueError;

#[test]
fn test_opc_error_creation() {
    let op_failed = OpcError::operation_failed("test operation");
    let conn_failed = OpcError::connection_failed("test connection");
    let invalid_params = OpcError::invalid_parameters("test params");
    let value_error =
        OpcError::ValueConversionError(OpcValueError::type_mismatch("Int32", "String"));
    let com_error = OpcError::ComInitializationFailed("test com".to_string());
    let server_not_found = OpcError::ServerNotFound("test server".to_string());
    let item_not_found = OpcError::ItemNotFound("test item".to_string());
    let group_error = OpcError::GroupCreationFailed("test group".to_string());
    let async_error = OpcError::AsyncSubscriptionFailed("test async".to_string());
    let timeout_error = OpcError::Timeout("test timeout".to_string());

    assert!(op_failed.to_string().contains("OPC operation failed"));
    assert!(conn_failed.to_string().contains("Connection failed"));
    assert!(invalid_params.to_string().contains("Invalid parameters"));
    assert!(value_error.to_string().contains("Value conversion error"));
    assert!(com_error.to_string().contains("COM initialization failed"));
    assert!(server_not_found.to_string().contains("Server not found"));
    assert!(item_not_found.to_string().contains("Item not found"));
    assert!(group_error.to_string().contains("Failed to create group"));
    assert!(async_error.to_string().contains("Failed to enable async subscription"));
    assert!(timeout_error.to_string().contains("Operation timed out"));
}

#[test]
fn test_opc_error_convenience_methods() {
    let err1 = OpcError::operation_failed("test");
    let err2 = OpcError::connection_failed("test");
    let err3 = OpcError::invalid_parameters("test");

    match err1 {
        OpcError::OperationFailed(msg) => assert_eq!(msg, "test"),
        _ => panic!("Wrong error type"),
    }

    match err2 {
        OpcError::ConnectionFailed(msg) => assert_eq!(msg, "test"),
        _ => panic!("Wrong error type"),
    }

    match err3 {
        OpcError::InvalidParameters(msg) => assert_eq!(msg, "test"),
        _ => panic!("Wrong error type"),
    }
}

fn doubled() -> OpcResult<i32> {
    let result: OpcResult<i32> = Ok(100);
    let value = result?;
    Ok(value * 2)
}

#[test]
fn test_opc_result_type() {
    let success: OpcResult<i32> = Ok(42);
    let error: OpcResult<i32> = Err(OpcError::operation_failed("test"));

    assert_eq!(success.unwrap(), 42);
    assert!(error.is_err());

    assert_eq!(doubled().unwrap(), 200);
}

#[test]
fn test_error_conversion() {
    let value_error = OpcValueError::type_mismatch("Int32", "String");
    let opc_error: OpcError = value_error.into();

    match opc_error {
        OpcError::ValueConversionError(_) => assert!(true),
        _ => panic!("Expected ValueConversionError"),
    }
}

#[test]
fn test_error_types() {
    let operation_error = OpcError::operation_failed("test operation");
    assert!(matches!(operation_error, OpcError::OperationFailed(_)));

    let connection_error = OpcError::connection_failed("test connection");
    assert!(matches!(connection_error, OpcError::ConnectionFailed(_)));

    let param_error = OpcError::invalid_parameters("test params");
    assert!(matches!(param_error, OpcError::InvalidParameters(_)));
}

#[test]
fn error_messages_are_exact() {
    assert_eq!(OpcError::operation_failed("a").to_string(), "OPC operation failed: a");
    assert_eq!(OpcError::connection_failed("b").to_string(), "Connection failed: b");
    assert_eq!(OpcError::invalid_parameters("c").to_string(), "Invalid parameters: c");
    assert_eq!(
        OpcError::ComInitializationFailed("d".to_string()).to_string(),
        "COM initialization failed: d"
    );
    assert_eq!(OpcError::ServerNotFound("e".to_string()).to_string(), "Server not found: e");
    assert_eq!(OpcError::ItemNotFound("f".to_string()).to_string(), "Item not found: f");
    assert_eq!(
        OpcError::GroupCreationFailed("g".to_string()).to_string(),
        "Failed to create group: g"
    );
    assert_eq!(
        OpcError::AsyncSubscriptionFailed("h".to_string()).to_string(),
        "Failed to enable async subscription: h"
    );
    assert_eq!(OpcError::Timeout("i".to_string()).to_string(), "Operation timed out: i");
    assert_eq!(
        OpcError::ValueConversionError(OpcValueError::type_mismatch("Int32", "String"))
            .to_string(),
        "Value conversion error: Type mismatch: expected Int32, got String"
    );
    assert_eq!(
        OpcError::ValueConversionError(OpcValueError::conversion_error("broken")).to_string(),
        "Value conversion error: Conversion error: broken"
    );
    assert_eq!(
        OpcError::ValueConversionError(OpcValueError::InvalidValueType(4095)).to_string(),
        "Value conversion error: Invalid value type: 4095"
    );
    assert_eq!(OpcValueError::InvalidValueType(0).to_string(), "Invalid value type: 0");
}

#[test]
fn conversion_error_is_wrapped_unchanged() {
    let inner = OpcValueError::InvalidValueType(77);
    let outer = OpcError::from(inner.clone());
    assert_eq!(outer, OpcError::ValueConversionError(inner));
}
