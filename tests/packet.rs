use tacacs_plus::enumerations::{TacacsMajorVersion, TacacsMinorVersion, TacacsType};
use tacacs_plus::error::{CodecError, Field};
use tacacs_plus::flags::TacacsFlags;
use tacacs_plus::header::Header;
use tacacs_plus::packet::{Packet, PacketTrait};

fn header(length: u32) -> Header {
    Header {
        major_version: TacacsMajorVersion::TacacsPlusMajor1,
        minor_version: TacacsMinorVersion::TacacsPlusMinorVerDefault,
        tacacs_type: TacacsType::TacPlusAccounting,
        seq_no: 2,
        flags: TacacsFlags::unencrypted_flag(),
        session_id: 42,
        length,
    }
}

#[test]
fn packet_new_rejects_short_body() {
    assert_eq!(Packet::new(header(3), vec![1, 2]).unwrap_err(), CodecError::BodyTooShort(Field::Packet));
    let p = Packet::new(header(2), vec![1, 2, 3]).unwrap();
    assert_eq!(p.body(), &vec![1, 2, 3]);
    assert_eq!(p.body_copy(), vec![1, 2, 3]);
}

#[test]
fn packet_bytes_round_trip() {
    let p = Packet::new(header(3), vec![9, 8, 7]).unwrap();
    let bytes = p.to_bytes();
    assert_eq!(bytes, vec![0xc0, 0x03, 0x02, 0x01, 0, 0, 0, 42, 0, 0, 0, 3, 9, 8, 7]);
    let q = Packet::from_bytes(&bytes).unwrap();
    assert_eq!(q.header(), p.header());
    assert_eq!(q.body(), p.body());
}

#[test]
fn packet_from_bytes_errors() {
    let p = Packet::new(header(3), vec![9, 8, 7]).unwrap();
    let bytes = p.to_bytes();
    assert_eq!(Packet::from_bytes(&bytes[..14]).unwrap_err(), CodecError::BodyTooShort(Field::Packet));
    assert_eq!(Packet::from_bytes(&bytes[..8]).unwrap_err(), CodecError::ShortBuffer(Field::Header));
}
