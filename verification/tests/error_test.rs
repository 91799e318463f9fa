use estream_runtime::industrial::error::{exception_message, IndustrialError};

#[test]
fn test_error_codes() {
    let err = IndustrialError::ConnectionTimeout {
        address: "192.168.1.10:502".into(),
        timeout_ms: 5000,
    };
    assert_eq!(err.error_code(), 101);

    let err = IndustrialError::modbus_exception(0x03, 0x02);
    assert_eq!(err.error_code(), 202);
}

#[test]
fn test_recoverable() {
    let err = IndustrialError::ResponseTimeout { transaction_id: 1 };
    assert!(err.is_recoverable());

    let err = IndustrialError::DeviceNotFound { device_id: "plc-01".into() };
    assert!(!err.is_recoverable());
}

#[test]
fn error_code_of_every_variant() {
    let s = || String::from("x");
    let cases: Vec<(IndustrialError, u16)> = vec![
        (IndustrialError::ConnectionFailed { address: s(), reason: s() }, 100),
        (IndustrialError::ConnectionTimeout { address: s(), timeout_ms: 1 }, 101),
        (IndustrialError::ConnectionRefused { address: s() }, 102),
        (IndustrialError::ConnectionReset { address: s() }, 103),
        (IndustrialError::NotConnected { device_id: s() }, 104),
        (IndustrialError::modbus_exception(3, 6), 206),
        (IndustrialError::ResponseTimeout { transaction_id: 1 }, 210),
        (IndustrialError::InvalidResponse { reason: s() }, 211),
        (IndustrialError::TransactionMismatch { expected: 7, actual: 9 }, 212),
        (IndustrialError::CrcError { expected: 1, actual: 2 }, 213),
        (IndustrialError::InvalidConfig { reason: s() }, 300),
        (IndustrialError::DeviceNotFound { device_id: s() }, 301),
        (IndustrialError::RegisterNotFound { device_id: s(), name: s() }, 302),
        (IndustrialError::LimitExceeded { limit_name: s(), max: 1, requested: 2 }, 303),
        (IndustrialError::SerialError { port: s(), reason: s() }, 400),
        (IndustrialError::FramingError { port: s() }, 401),
        (IndustrialError::ParityError { port: s() }, 402),
        (IndustrialError::GatewayNotRunning, 500),
        (IndustrialError::GatewayAlreadyRunning, 501),
        (IndustrialError::ShutdownError { reason: s() }, 502),
        (IndustrialError::Internal { reason: s() }, 900),
        (IndustrialError::Io(s()), 901),
        (IndustrialError::ChannelSend, 902),
        (IndustrialError::ChannelReceive, 903),
    ];
    for (err, code) in cases.iter() {
        assert_eq!(err.error_code(), *code);
    }
}

#[test]
fn recoverable_errors_are_the_retryable_ones() {
    let s = || String::from("x");
    assert!(IndustrialError::ConnectionTimeout { address: s(), timeout_ms: 1 }.is_recoverable());
    assert!(IndustrialError::ConnectionReset { address: s() }.is_recoverable());
    assert!(IndustrialError::FramingError { port: s() }.is_recoverable());
    assert!(IndustrialError::ParityError { port: s() }.is_recoverable());
    assert!(IndustrialError::modbus_exception(3, 5).is_recoverable());
    assert!(IndustrialError::modbus_exception(3, 6).is_recoverable());
    assert!(!IndustrialError::modbus_exception(3, 1).is_recoverable());
    assert!(!IndustrialError::modbus_exception(3, 2).is_recoverable());
    assert!(!IndustrialError::modbus_exception(3, 4).is_recoverable());
    assert!(!IndustrialError::ConnectionFailed { address: s(), reason: s() }.is_recoverable());
    assert!(!IndustrialError::ConnectionRefused { address: s() }.is_recoverable());
    assert!(!IndustrialError::InvalidResponse { reason: s() }.is_recoverable());
    assert!(!IndustrialError::TransactionMismatch { expected: 7, actual: 9 }.is_recoverable());
    assert!(!IndustrialError::CrcError { expected: 1, actual: 2 }.is_recoverable());
    assert!(!IndustrialError::GatewayNotRunning.is_recoverable());
    assert!(!IndustrialError::Internal { reason: s() }.is_recoverable());
}

#[test]
fn exception_names() {
    assert_eq!(exception_message(1), "Illegal Function");
    assert_eq!(exception_message(2), "Illegal Data Address");
    assert_eq!(exception_message(3), "Illegal Data Value");
    assert_eq!(exception_message(4), "Slave Device Failure");
    assert_eq!(exception_message(5), "Acknowledge");
    assert_eq!(exception_message(6), "Slave Device Busy");
    assert_eq!(exception_message(0), "Unknown Exception");
    assert_eq!(exception_message(7), "Unknown Exception");
    match IndustrialError::modbus_exception(0x03, 0x02) {
        IndustrialError::ModbusException { function_code, exception_code, message } => {
            assert_eq!(function_code, 0x03);
            assert_eq!(exception_code, 0x02);
            assert_eq!(message, "Illegal Data Address");
        }
        _ => panic!("not a MODBUS exception"),
    }
}
