use lambda_web_adapter::{effective_compression, u16_to_string, LambdaInvokeMode, Protocol};

#[test]
fn test_u16_to_string() {
    assert_eq!(u16_to_string(0), "0");
    assert_eq!(u16_to_string(7), "7");
    assert_eq!(u16_to_string(502), "502");
    assert_eq!(u16_to_string(65535), "65535");
}

#[test]
fn test_protocol_from_str() {
    assert_eq!(Protocol::from("http"), Protocol::Http);
    assert_eq!(Protocol::from("HTTP"), Protocol::Http);
    assert_eq!(Protocol::from("tcp"), Protocol::Tcp);
    assert_eq!(Protocol::from("TCP"), Protocol::Tcp);
    assert_eq!(Protocol::from("anything-else"), Protocol::Http);
}

#[test]
fn test_invoke_mode_from_str() {
    assert_eq!(LambdaInvokeMode::from("buffered"), LambdaInvokeMode::Buffered);
    assert_eq!(LambdaInvokeMode::from("response_stream"), LambdaInvokeMode::ResponseStream);
    assert_eq!(LambdaInvokeMode::from("RESPONSE_STREAM"), LambdaInvokeMode::ResponseStream);
    assert_eq!(LambdaInvokeMode::from("other"), LambdaInvokeMode::Buffered);
}

#[test]
fn test_compression_disabled_when_streaming() {
    assert!(effective_compression(true, LambdaInvokeMode::Buffered));
    assert!(!effective_compression(true, LambdaInvokeMode::ResponseStream));
    assert!(!effective_compression(false, LambdaInvokeMode::Buffered));
    assert!(!effective_compression(false, LambdaInvokeMode::ResponseStream));
}
