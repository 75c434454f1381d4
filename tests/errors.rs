use mcp3008::Mcp3008Error;

#[test]
fn out_of_range_message() {
    let e = Mcp3008Error::AdcOutOfRangeError(8);
    assert_eq!(e.to_string(), "invalid adc number (8)");
    assert_eq!(Mcp3008Error::AdcOutOfRangeError(42).to_string(), "invalid adc number (42)");
    assert_eq!(Mcp3008Error::AdcOutOfRangeError(255).to_string(), "invalid adc number (255)");
    assert_eq!(Mcp3008Error::AdcOutOfRangeError(100).to_string(), "invalid adc number (100)");
    assert_eq!(e.description(), "invalid adc number");
    assert!(e.cause().is_none());
}

#[test]
fn unsupported_os_message() {
    let e = Mcp3008Error::UnsupportedOSError;
    assert_eq!(e.to_string(), "unsupported os");
    assert_eq!(e.description(), "unsupported os");
    assert!(e.cause().is_none());
}

#[test]
fn bus_error_keeps_its_cause() {
    let io = std::io::Error::new(std::io::ErrorKind::NotFound, "no such device");
    let e = Mcp3008Error::from(io);
    assert!(matches!(e, Mcp3008Error::SpidevError(_)));
    assert_eq!(e.to_string(), "no such device");
    assert_eq!(e.cause().unwrap().kind(), std::io::ErrorKind::NotFound);
}
