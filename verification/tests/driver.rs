use ssd1306_driver::{Address, MockTransport, SSD1306, SSD1306Error};

const INIT_PAYLOAD: [u8; 19] = [
    0xAE, 0xA8, 0x3F, 0xD3, 0x00, 0x40, 0xA0, 0xC0, 0xDA, 0x12, 0x81, 0x7F, 0xA4, 0xA6, 0xD5,
    0x80, 0x8D, 0x14, 0xAF,
];

#[test]
fn new_performs_no_bus_io() {
    let driver = SSD1306::new(MockTransport::new(), Address::DEFAULT);
    let mock = driver.release();
    assert_eq!(mock.write_count(), 0);
}

#[test]
fn send_commands_frames_payload_with_command_control_byte() {
    let mut driver = SSD1306::new(MockTransport::new(), Address::DEFAULT);
    let payload = [0x01u8, 0x02, 0x03];
    assert!(driver.send_commands(&payload).is_ok());
    let mock = driver.release();
    assert_eq!(mock.write_count(), 1);
    assert_eq!(mock.write_address(0), 0x3C);
    assert_eq!(mock.write_bytes(0), vec![0x00, 0x01, 0x02, 0x03]);
}

#[test]
fn send_data_frames_payload_with_data_control_byte() {
    let mut driver = SSD1306::new(MockTransport::new(), Address::DEFAULT);
    let payload = [0x09u8, 0x08];
    assert!(driver.send_data(&payload).is_ok());
    let mock = driver.release();
    assert_eq!(mock.write_count(), 1);
    assert_eq!(mock.write_bytes(0), vec![0x40, 0x09, 0x08]);
}

#[test]
fn send_commands_accepts_empty_payload() {
    let mut driver = SSD1306::new(MockTransport::new(), Address::DEFAULT);
    assert!(driver.send_commands(&[]).is_ok());
    let mock = driver.release();
    assert_eq!(mock.write_count(), 1);
    assert_eq!(mock.write_bytes(0), vec![0x00]);
}

#[test]
fn send_commands_accepts_full_128_byte_payload() {
    let mut driver = SSD1306::new(MockTransport::new(), Address::DEFAULT);
    let payload = [0xABu8; 128];
    assert!(driver.send_commands(&payload).is_ok());
    let mock = driver.release();
    assert_eq!(mock.write_count(), 1);
    let bytes = mock.write_bytes(0);
    assert_eq!(bytes.len(), 129);
    assert_eq!(bytes[0], 0x00);
    assert!(bytes[1..].iter().all(|&b| b == 0xAB));
}

#[test]
fn send_commands_rejects_oversize_payload_without_bus_io() {
    let mut driver = SSD1306::new(MockTransport::new(), Address::DEFAULT);
    let payload = [0x00u8; 129];
    let result = driver.send_commands(&payload);
    assert!(matches!(result, Err(SSD1306Error::BufferTooSmall)));
    let mock = driver.release();
    assert_eq!(mock.write_count(), 0);
}

#[test]
fn send_data_rejects_oversize_payload_without_bus_io() {
    let mut driver = SSD1306::new(MockTransport::new(), Address::DEFAULT);
    let payload = [0xFFu8; 129];
    let result = driver.send_data(&payload);
    assert!(matches!(result, Err(SSD1306Error::BufferTooSmall)));
    let mock = driver.release();
    assert_eq!(mock.write_count(), 0);
}

#[test]
fn set_page_encodes_every_page_in_one_byte() {
    for page in 0u8..8 {
        let mut driver = SSD1306::new(MockTransport::new(), Address::DEFAULT);
        assert!(driver.set_page(page).is_ok());
        let mock = driver.release();
        assert_eq!(mock.write_count(), 1);
        assert_eq!(mock.write_bytes(0), vec![0x00, 0xB0 | page]);
    }
}

#[test]
fn set_column_encodes_every_column_as_two_nibble_commands() {
    for column in 0u8..128 {
        let mut driver = SSD1306::new(MockTransport::new(), Address::DEFAULT);
        assert!(driver.set_column(column).is_ok());
        let mock = driver.release();
        assert_eq!(mock.write_count(), 1);
        assert_eq!(
            mock.write_bytes(0),
            vec![0x00, column & 0x0F, 0x10 | ((column >> 4) & 0x0F)]
        );
    }
}

#[test]
fn set_page_rejects_page_8_without_bus_io() {
    let mut driver = SSD1306::new(MockTransport::new(), Address::DEFAULT);
    let result = driver.set_page(8);
    assert!(matches!(result, Err(SSD1306Error::OutOfRange)));
    let mock = driver.release();
    assert_eq!(mock.write_count(), 0);
}

#[test]
fn set_column_rejects_column_128_without_bus_io() {
    let mut driver = SSD1306::new(MockTransport::new(), Address::DEFAULT);
    let result = driver.set_column(128);
    assert!(matches!(result, Err(SSD1306Error::OutOfRange)));
    let mock = driver.release();
    assert_eq!(mock.write_count(), 0);
}

#[test]
fn clear_issues_26_transactions_in_order() {
    let mut driver = SSD1306::new(MockTransport::new(), Address::DEFAULT);
    assert!(driver.clear().is_ok());
    let mock = driver.release();
    assert_eq!(mock.write_count(), 26);
    for page in 0usize..8 {
        assert_eq!(mock.write_bytes(3 * page), vec![0x00, 0xB0 | page as u8]);
        assert_eq!(mock.write_bytes(3 * page + 1), vec![0x00, 0x00, 0x10]);
        let data = mock.write_bytes(3 * page + 2);
        assert_eq!(data.len(), 129);
        assert_eq!(data[0], 0x40);
        assert!(data[1..].iter().all(|&b| b == 0x00));
    }
    assert_eq!(mock.write_bytes(24), vec![0x00, 0xB0]);
    assert_eq!(mock.write_bytes(25), vec![0x00, 0x00, 0x10]);
}

#[test]
fn clear_aborts_on_transport_failure_mid_sequence() {
    // The fifth of the 26 internal calls (zero-based index 4) fails.
    let mut driver = SSD1306::new(MockTransport::failing_on(4, 0xEE), Address::DEFAULT);
    let result = driver.clear();
    assert!(matches!(result, Err(SSD1306Error::I2CError(0xEE))));
    let mock = driver.release();
    assert_eq!(mock.write_count(), 5);
    for i in 0..4 {
        assert!(mock.write_succeeded(i));
    }
    assert!(!mock.write_succeeded(4));
}

#[test]
fn init_sends_single_transaction_with_datasheet_sequence() {
    let mut driver = SSD1306::new(MockTransport::new(), Address::DEFAULT);
    assert!(driver.init().is_ok());
    let mock = driver.release();
    assert_eq!(mock.write_count(), 1);
    assert_eq!(mock.write_address(0), 0x3C);
    let bytes = mock.write_bytes(0);
    assert_eq!(bytes.len(), 20);
    assert_eq!(bytes[0], 0x00);
    assert_eq!(&bytes[1..], &INIT_PAYLOAD);
}

#[test]
fn alternative_address_reaches_the_bus() {
    let mut driver = SSD1306::new(MockTransport::new(), Address::ALTERNATIVE);
    assert!(driver.init().is_ok());
    let mock = driver.release();
    assert_eq!(mock.write_address(0), 0x3D);
}

#[test]
fn page_mode_setup_is_one_batched_transaction() {
    let mut driver = SSD1306::new(MockTransport::new(), Address::DEFAULT);
    assert!(driver.set_memory_addressing_page_mode(3, 90).is_ok());
    let mock = driver.release();
    assert_eq!(mock.write_count(), 1);
    assert_eq!(
        mock.write_bytes(0),
        vec![0x00, 0x20, 0x02, 0xB3, 0x0A, 0x15]
    );
}

#[test]
fn page_mode_setup_rejects_out_of_range_arguments() {
    let mut driver = SSD1306::new(MockTransport::new(), Address::DEFAULT);
    assert!(matches!(
        driver.set_memory_addressing_page_mode(8, 0),
        Err(SSD1306Error::OutOfRange)
    ));
    assert!(matches!(
        driver.set_memory_addressing_page_mode(0, 128),
        Err(SSD1306Error::OutOfRange)
    ));
    let mock = driver.release();
    assert_eq!(mock.write_count(), 0);
}

#[test]
fn display_toggles_send_their_single_command() {
    let mut driver = SSD1306::new(MockTransport::new(), Address::DEFAULT);
    assert!(driver.display_on().is_ok());
    assert!(driver.display_on_ignore_ram().is_ok());
    let mock = driver.release();
    assert_eq!(mock.write_count(), 2);
    assert_eq!(mock.write_bytes(0), vec![0x00, 0xA4]);
    assert_eq!(mock.write_bytes(1), vec![0x00, 0xA5]);
}

#[test]
fn transport_error_is_forwarded_unchanged() {
    let mut driver = SSD1306::new(MockTransport::failing_on(0, 0x2A), Address::DEFAULT);
    let result = driver.send_commands(&[0x01]);
    assert!(matches!(result, Err(SSD1306Error::I2CError(0x2A))));
    let mock = driver.release();
    // The failing write itself still reached the transport.
    assert_eq!(mock.write_count(), 1);
}
