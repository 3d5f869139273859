use tacacs_plus::accounting_reply::AccountingReply;
use tacacs_plus::enumerations::{TacacsAccountingStatus, TacacsMajorVersion, TacacsMinorVersion, TacacsType};
use tacacs_plus::error::{CodecError, Field};
use tacacs_plus::flags::TacacsFlags;
use tacacs_plus::header::Header;
use tacacs_plus::packet::Packet;

fn generate_accounting_reply_data() -> Vec<u8> {
    let server_message_string = "server_msg";
    let data_string = "data";

    let mut data: Vec<u8> = Vec::new();
    data.extend((server_message_string.len() as u16).to_be_bytes()); // 0: server_msg_len
    data.extend((data_string.len() as u16).to_be_bytes()); // 1: data_len
    data.push(TacacsAccountingStatus::TacPlusAcctStatusSuccess.to_u8()); // 2: status

    data.extend(server_message_string.as_bytes());
    data.extend(data_string.as_bytes());

    data
}

fn packet_of(data: Vec<u8>) -> Packet {
    let header = Header {
        major_version: TacacsMajorVersion::TacacsPlusMajor1,
        minor_version: TacacsMinorVersion::TacacsPlusMinorVerDefault,
        tacacs_type: TacacsType::TacPlusAccounting,
        seq_no: 1,
        flags: TacacsFlags::empty(),
        session_id: 0,
        length: data.len() as u32,
    };
    Packet::new(header, data).unwrap()
}

#[test]
fn test_reply_from_bytes() {
    let bytes = generate_accounting_reply_data();
    let reply = AccountingReply::from_bytes(&bytes).unwrap();

    assert_eq!(reply.server_msg, "server_msg");
    assert_eq!(reply.data, "data");
    assert_eq!(reply.status, TacacsAccountingStatus::TacPlusAcctStatusSuccess);
}

#[test]
fn test_read_bytes_incorrect_status() {
    let mut data = generate_accounting_reply_data();
    data[4] = 0xff; // status is set to 0xff
    let reply = AccountingReply::from_bytes(&data);
    assert!(reply.is_err());
    assert_eq!(reply.unwrap_err(), CodecError::InvalidEnum(Field::Status), "Unable to convert status to TacacsAccountingStatus");
}

#[test]
fn test_read_bytes_truncated() {
    let data = generate_accounting_reply_data();
    let reply = AccountingReply::from_bytes(&data[..data.len() - 1]);
    assert!(reply.is_err());
    assert_eq!(reply.unwrap_err(), CodecError::ShortBuffer(Field::Data), "Unable to read data");
}

#[test]
fn test_reply_to_bytes() {
    let bytes = generate_accounting_reply_data();
    let reply = AccountingReply::from_bytes(&bytes).unwrap();
    assert_eq!(reply.to_bytes(), bytes);
}

#[test]
fn test_reply_size_from_bytes() {
    let bytes = generate_accounting_reply_data();
    let size = AccountingReply::size_from_bytes(&bytes).unwrap();
    assert_eq!(size, bytes.len());
}

#[test]
fn test_reply_from_packet() {
    let data = generate_accounting_reply_data();
    let packet = packet_of(data);
    let reply = AccountingReply::from_packet(&packet).unwrap();

    assert_eq!(reply.server_msg, "server_msg");
    assert_eq!(reply.data, "data");
    assert_eq!(reply.status, TacacsAccountingStatus::TacPlusAcctStatusSuccess);
}

#[test]
fn test_reply_from_packet_invalid_length() {
    let mut data = generate_accounting_reply_data();
    data[0] = 0xff; // first byte of server_msg_len is set to 0xff
    let packet = packet_of(data);
    let reply = AccountingReply::from_packet(&packet);
    assert!(reply.is_err());
    assert_eq!(reply.unwrap_err(), CodecError::BodyTooShort(Field::ReplyBody), "Packet body length does not match expected length");
}

#[test]
fn reply_short_fixed_fields() {
    assert_eq!(AccountingReply::from_bytes(&[0]).unwrap_err(), CodecError::ShortBuffer(Field::ServerMsgLen));
    assert_eq!(AccountingReply::from_bytes(&[0, 0, 0]).unwrap_err(), CodecError::ShortBuffer(Field::DataLen));
    assert_eq!(AccountingReply::from_bytes(&[0, 0, 0, 0]).unwrap_err(), CodecError::ShortBuffer(Field::Status));
    assert_eq!(AccountingReply::size_from_bytes(&[0, 0, 0]).unwrap_err(), CodecError::ShortBuffer(Field::DataLen));
    let reply = AccountingReply::from_bytes(&[0, 0, 0, 0, 2]).unwrap();
    assert_eq!(reply.status, TacacsAccountingStatus::TacPlusAcctStatusError);
    assert!(reply.server_msg.is_empty() && reply.data.is_empty());
}

#[test]
fn reply_non_utf8_strings_are_rejected() {
    let mut data = generate_accounting_reply_data();
    data[5] = 0xc3; // a lead byte with no continuation
    assert_eq!(AccountingReply::from_bytes(&data).unwrap_err(), CodecError::InvalidUtf8(Field::ServerMsg));
    let mut data = generate_accounting_reply_data();
    data[15] = 0x80;
    assert_eq!(AccountingReply::from_bytes(&data).unwrap_err(), CodecError::InvalidUtf8(Field::Data));
}

#[test]
fn reply_round_trip() {
    let reply = AccountingReply {
        status: TacacsAccountingStatus::TacPlusAcctStatusFollow,
        server_msg: "é".repeat(300),
        data: "".to_string(),
    };
    assert!(reply.is_legal());
    let bytes = reply.to_bytes();
    assert_eq!(&bytes[..5], &[0x02, 0x58, 0x00, 0x00, 0x21]);
    let back = AccountingReply::from_bytes(&bytes).unwrap();
    assert_eq!(back.status, reply.status);
    assert_eq!(back.server_msg, reply.server_msg);
    assert_eq!(back.data, reply.data);
}
