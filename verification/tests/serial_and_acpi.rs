use kernel::acpi::{BaseAcpiHandler, MappedRegion};
use kernel::com_ports::disable_dlab;
use kernel::serial_debug::serial_printer::{
    bytes_to_send, is_sent, send_str, SerialDebugPrinter, SerialPrinter, SerialPrinterLockFree,
};
use std::cell::RefCell;

#[test]
fn printable_bytes_and_newline_are_sent() {
    assert!(is_sent(b'a'));
    assert!(is_sent(b' '));
    assert!(is_sent(b'~'));
    assert!(is_sent(b'\n'));
    assert!(is_sent(0x80));
    assert!(is_sent(0xFF));
}

#[test]
fn control_characters_are_not_sent() {
    assert!(!is_sent(0));
    assert!(!is_sent(b'\r'));
    assert!(!is_sent(b'\t'));
    assert!(!is_sent(0x1B));
    assert!(!is_sent(0x1F));
    assert!(!is_sent(0x7F));
    for ch in 0..=255u8 {
        assert_eq!(is_sent(ch), !ch.is_ascii_control() || ch == b'\n');
    }
}

#[test]
fn string_is_sent_without_its_control_characters() {
    assert_eq!(bytes_to_send(""), Vec::<u8>::new());
    assert_eq!(bytes_to_send("INFO: boot\n"), b"INFO: boot\n".to_vec());
    assert_eq!(bytes_to_send("a\tb\r\nc\x1b[0m\x7f"), b"ab\nc[0m".to_vec());
    assert_eq!(bytes_to_send("\r\t\x00"), Vec::<u8>::new());
    assert_eq!(bytes_to_send("é"), vec![0xC3, 0xA9]);
}

#[test]
fn bytes_are_handed_on_in_their_order() {
    let port = RefCell::new(Vec::new());
    assert_eq!(send_str("a\tb\r\nc\x1b[0m\x7f", |ch| port.borrow_mut().push(ch)), 7);
    assert_eq!(*port.borrow(), b"ab\nc[0m".to_vec());
    assert_eq!(send_str("\r\t", |ch| port.borrow_mut().push(ch)), 0);
    assert_eq!(port.borrow().len(), 7);
}

#[test]
fn all_printers_send_the_same_bytes() {
    let s = "x\r\ny\x07z";
    let port = RefCell::new(Vec::new());
    assert_eq!(SerialPrinter.write_str(s, |ch| port.borrow_mut().push(ch)), 4);
    assert_eq!(SerialPrinterLockFree.write_str(s, |ch| port.borrow_mut().push(ch)), 4);
    assert_eq!(SerialDebugPrinter.write_str(s, |ch| port.borrow_mut().push(ch)), 4);
    assert_eq!(*port.borrow(), b"x\nyzx\nyzx\nyz".to_vec());
}

#[test]
fn acpi_region_is_its_mirror() {
    let handler = BaseAcpiHandler;
    assert_eq!(
        handler.map_physical_region(0xE0000, 36),
        MappedRegion {
            physical_start: 0xE0000,
            virtual_start: 0xFFFF_A000_000E_0000,
            region_length: 36,
            mapped_length: 4096,
        }
    );
    assert_eq!(
        handler.map_physical_region(0x7FE_1234, 5000),
        MappedRegion {
            physical_start: 0x7FE_1234,
            virtual_start: 0xFFFF_A000_07FE_1234,
            region_length: 5000,
            mapped_length: 4096,
        }
    );
    assert_eq!(handler.map_physical_region(0x7FE_1FFF, 1).mapped_length, 4096);
}

#[test]
fn dlab_is_the_most_significant_bit_of_the_line_control_register() {
    assert_eq!(disable_dlab(0b1000_0011), 0b0000_0011);
    assert_eq!(disable_dlab(0b0000_0011), 0b0000_0011);
    assert_eq!(disable_dlab(0xFF), 0x7F);
    assert_eq!(disable_dlab(0x80), 0);
    assert_eq!(disable_dlab(0), 0);
}
