use mcp3008::driver::channel_command;
use mcp3008::driver::sample_from_transfer;
use mcp3008::protocol::command;
use mcp3008::protocol::decode;
use mcp3008::Mcp3008;
use mcp3008::Mcp3008Error;

fn bus_failure() -> std::io::Error {
    std::io::Error::new(std::io::ErrorKind::Other, "bus fault")
}

#[test]
fn command_for_channel_zero() {
    assert_eq!(command(0), [0xC0, 0x00, 0x00]);
}

#[test]
fn command_for_channel_seven() {
    assert_eq!(command(7), [0xF8, 0x00, 0x00]);
}

#[test]
fn command_for_every_channel() {
    for c in 0u8..8 {
        let tx = channel_command(c).unwrap();
        assert_eq!(tx, [0b1100_0000 | ((c & 0x07) << 3), 0, 0]);
    }
    assert_eq!(channel_command(3).unwrap(), [0xD8, 0, 0]);
}

#[test]
fn channel_past_the_last_is_refused() {
    assert!(matches!(channel_command(8), Err(Mcp3008Error::AdcOutOfRangeError(8))));
    assert!(matches!(channel_command(255), Err(Mcp3008Error::AdcOutOfRangeError(255))));
}

#[test]
fn decode_all_ones_response() {
    assert_eq!(decode(&[0x01, 0xFF, 0x80]), 1023);
    assert_eq!(sample_from_transfer(Ok([0x01, 0xFF, 0x80])).unwrap(), 1023);
}

#[test]
fn decode_zero_response() {
    assert_eq!(decode(&[0, 0, 0]), 0);
}

#[test]
fn decode_ignores_bits_outside_the_sample() {
    assert_eq!(decode(&[0xFE, 0x00, 0x7F]), 0);
    assert_eq!(decode(&[0xFF, 0xFF, 0xFF]), 1023);
}

#[test]
fn decode_exact_values() {
    assert_eq!(decode(&[0x00, 0x01, 0x00]), 2);
    assert_eq!(decode(&[0x00, 0x00, 0x80]), 1);
    assert_eq!(decode(&[0x01, 0x00, 0x00]), 512);
    assert_eq!(decode(&[0x03, 0x80, 0xC0]), 769);
    assert_eq!(decode(&[0x00, 0x7F, 0x00]), 254);
}

#[test]
fn decode_stays_in_ten_bits() {
    for r0 in [0u8, 1, 2, 0x7F, 0xFF] {
        for r1 in [0u8, 1, 0x55, 0xAA, 0xFF] {
            for r2 in [0u8, 0x7F, 0x80, 0xFF] {
                let v = decode(&[r0, r1, r2]);
                assert!(v <= 1023);
                let expected = (((r0 as u16 & 1) << 9) | ((r1 as u16 & 0xFF) << 1) | ((r2 as u16 & 0x80) >> 7)) & 0x3FF;
                assert_eq!(v, expected);
            }
        }
    }
}

#[test]
fn transport_failure_then_recovery() {
    let failed = sample_from_transfer(Err(bus_failure()));
    match failed {
        Err(e) => {
            assert!(matches!(e, Mcp3008Error::SpidevError(_)));
            let cause = e.cause().unwrap();
            assert_eq!(cause.kind(), std::io::ErrorKind::Other);
            assert_eq!(cause.to_string(), "bus fault");
        }
        Ok(_) => panic!("a failed transaction gave a sample"),
    }
    assert_eq!(sample_from_transfer(Ok([0x00, 0x80, 0x00])).unwrap(), 256);
}

#[test]
fn open_of_missing_device_fails() {
    let r = Mcp3008::new("/nonexistent/spidev9.9");
    assert!(matches!(r, Err(Mcp3008Error::SpidevError(_))));
}

#[test]
fn bus_configuration() {
    let o = mcp3008::driver::bus_options();
    assert_eq!(o.max_speed_hz, Some(1_000_000));
    assert_eq!(o.spi_mode, Some(spidev::SpiModeFlags::SPI_MODE_0));
    assert_eq!(o.lsb_first, Some(false));
    assert_eq!(o.bits_per_word, None);
}
