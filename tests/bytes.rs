use tacacs_plus::bytes::{read_string, u32_from_be_bytes, u32_to_be_bytes, ByteCursor};
use tacacs_plus::error::ReadError;
use tacacs_plus::flags::{TacacsAccountingFlags, TacacsFlags};

#[test]
fn cursor_reads_in_order_and_stops_at_end() {
    let data = [0x01u8, 0x02, 0x03, 0x04, 0x05];
    let mut cursor = ByteCursor::new(&data);
    assert_eq!(cursor.remaining(), 5);
    assert_eq!(cursor.read_u8(), Some(0x01));
    assert_eq!(cursor.read_u16_be(), Some(0x0203));
    assert_eq!(cursor.read_bytes(3), None);
    assert_eq!(cursor.position(), 3);
    assert_eq!(cursor.read_bytes(2), Some(&data[3..5]));
    assert_eq!(cursor.read_u8(), None);
    assert_eq!(cursor.read_u16_be(), None);
    assert_eq!(cursor.remaining(), 0);
}

#[test]
fn read_string_rejects_invalid_utf8_and_moves_past_it() {
    let data = [0xffu8, b'o', b'k'];
    let mut cursor = ByteCursor::new(&data);
    assert_eq!(read_string(&mut cursor, 1), Err(ReadError::InvalidUtf8));
    assert_eq!(cursor.position(), 1);
    assert_eq!(read_string(&mut cursor, 2), Ok("ok".to_string()));
    assert_eq!(read_string(&mut cursor, 0), Ok(String::new()));
}

#[test]
fn big_endian_u32() {
    assert_eq!(u32_to_be_bytes(0xdeadbeef), [0xde, 0xad, 0xbe, 0xef]);
    assert_eq!(u32_from_be_bytes(0x00, 0x00, 0x01, 0x22), 0x122);
}

#[test]
fn header_flag_operations() {
    assert_eq!(TacacsFlags::from_bits(0x04), Some(TacacsFlags::single_connect_flag()));
    assert_eq!(TacacsFlags::from_bits(0x08), None);
    let mut f = TacacsFlags::empty();
    f.insert(&TacacsFlags::unencrypted_flag());
    assert!(f.contains(&TacacsFlags::unencrypted_flag()));
    assert!(!f.contains(&TacacsFlags::single_connect_flag()));
    f.insert(&TacacsFlags::single_connect_flag());
    assert_eq!(f.bits(), 0x05);
    f.remove(&TacacsFlags::unencrypted_flag());
    assert_eq!(f.bits(), 0x04);
}

#[test]
fn accounting_flag_bytes() {
    let all = TacacsAccountingFlags::start_flag()
        .union(&TacacsAccountingFlags::stop_flag())
        .union(&TacacsAccountingFlags::watchdog_flag());
    assert_eq!(all.bits(), 0x0e);
    assert_eq!(TacacsAccountingFlags::from_bits(0x0e), Some(all));
    assert_eq!(TacacsAccountingFlags::from_bits(0x01), None);
    assert_eq!(TacacsAccountingFlags::from_bits(0x10), None);
    assert_eq!(TacacsAccountingFlags::from_bits(0x08), Some(TacacsAccountingFlags::watchdog_flag()));
}
