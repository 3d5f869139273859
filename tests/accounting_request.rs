use tacacs_plus::accounting_request::{AccountingRequest, TACACS_ACCOUNTING_REQUEST_MIN_LENGTH};
use tacacs_plus::bytes::{read_string, ByteCursor};
use tacacs_plus::enumerations::{
    TacacsAuthenticationMethod, TacacsAuthenticationService, TacacsAuthenticationType,
    TacacsMajorVersion, TacacsMinorVersion, TacacsType,
};
use tacacs_plus::error::{CodecError, Field, ReadError};
use tacacs_plus::flags::{TacacsAccountingFlags, TacacsFlags};
use tacacs_plus::header::Header;
use tacacs_plus::packet::Packet;

fn generate_accounting_request_data() -> Vec<u8> {
    let mut data: Vec<u8> = Vec::new();
    data.push(TacacsAccountingFlags::empty().bits()); // 0: flags
    data.push(TacacsAuthenticationMethod::TacPlusAuthenMethodTacacsplus.to_u8()); // 1: authen_method
    data.push(0); // 2: priv_lvl
    data.push(TacacsAuthenticationType::TacPlusAuthenTypePap.to_u8()); // 3: authen_type
    data.push(TacacsAuthenticationService::TacPlusAuthenSvcNone.to_u8()); // 4: authen_service

    data.push(1); // 5: user_len
    data.push(1); // 6: port_len
    data.push(1); // 7: rem_addr_len
    data.push(3); // 8: arg_cnt
    data.push(1); // 9+0: arg_1_len
    data.push(1); // 9+1: arg_2_len
    data.push(1); // 9+2: arg_3_len

    data.push(b'A'); // 12: user
    data.push(b'B'); // 13: port
    data.push(b'C'); // 14: rem_addr
    data.push(b'D'); // 15: arg_1
    data.push(b'E'); // 16: arg_2
    data.push(b'F'); // 17: arg_3

    data
}

fn size_table_data() -> Vec<u8> {
    let mut data: Vec<u8> = Vec::new();
    data.push(0); // 0: flags
    data.push(0); // 1: authen_method
    data.push(0); // 2: priv_lvl
    data.push(0); // 3: authen_type
    data.push(0); // 4: authen_service

    data.push(1); // 5: user_len
    data.push(2); // 6: port_len
    data.push(3); // 7: rem_addr_len
    data.push(3); // 8: arg_cnt
    data.push(4); // 9+0: arg_1_len
    data.push(5); // 9+1: arg_2_len
    data.push(6); // 9+2: arg_3_len
    data
}

fn packet_of(data: Vec<u8>) -> Packet {
    let header = Header {
        major_version: TacacsMajorVersion::TacacsPlusMajor1,
        minor_version: TacacsMinorVersion::TacacsPlusMinorVerDefault,
        tacacs_type: TacacsType::TacPlusAccounting,
        seq_no: 0,
        flags: TacacsFlags::empty(),
        session_id: 0,
        length: data.len() as u32,
    };
    Packet::new(header, data).unwrap()
}

#[test]
fn request_test_size_from_bytes() {
    let data: Vec<u8> = vec![0; TACACS_ACCOUNTING_REQUEST_MIN_LENGTH];
    let size = AccountingRequest::size_from_bytes(&data);
    assert_eq!(size, TACACS_ACCOUNTING_REQUEST_MIN_LENGTH);
}

#[test]
fn accounting_test_size_from_bytes() {
    let data: Vec<u8> = vec![0; TACACS_ACCOUNTING_REQUEST_MIN_LENGTH];
    let size = AccountingRequest::size_from_bytes(&data);
    assert_eq!(size, TACACS_ACCOUNTING_REQUEST_MIN_LENGTH);
}

// The declared size counts the length table too: one byte per argument.
#[test]
fn request_test_size_from_bytes_with_args() {
    let data = size_table_data();
    let size = AccountingRequest::size_from_bytes(&data);
    assert_eq!(size, TACACS_ACCOUNTING_REQUEST_MIN_LENGTH + 3 + 1 + 2 + 3 + 4 + 5 + 6);
}

#[test]
fn accounting_test_size_from_bytes_with_args() {
    let data = size_table_data();
    let size = AccountingRequest::size_from_bytes(&data);
    assert_eq!(size, TACACS_ACCOUNTING_REQUEST_MIN_LENGTH + 3 + 1 + 2 + 3 + 4 + 5 + 6);
}

#[test]
fn request_test_read_string() {
    let data = vec![65_u8, 66, 67, 68, 69, 70];
    let mut cursor = ByteCursor::new(data.as_slice());
    let string = AccountingRequest::read_string(&mut cursor, 6).unwrap();
    assert_eq!(string, "ABCDEF");
}

#[test]
fn accounting_test_read_string() {
    let data = vec![65_u8, 66, 67, 68, 69, 70];
    let mut cursor = ByteCursor::new(data.as_slice());
    let string = read_string(&mut cursor, 6).unwrap();
    assert_eq!(string, "ABCDEF");
    assert_eq!(cursor.position(), 6);
}

#[test]
fn test_from_data() {
    let data = generate_accounting_request_data();
    let accounting_request = AccountingRequest::from_bytes(data.as_slice()).unwrap();

    assert_eq!(accounting_request.flags.bits(), 0);
    assert_eq!(accounting_request.authen_method, TacacsAuthenticationMethod::TacPlusAuthenMethodTacacsplus);
    assert_eq!(accounting_request.priv_lvl, 0);
    assert_eq!(accounting_request.authen_type, TacacsAuthenticationType::TacPlusAuthenTypePap);
    assert_eq!(accounting_request.authen_service, TacacsAuthenticationService::TacPlusAuthenSvcNone);
    assert_eq!(accounting_request.user, "A");
    assert_eq!(accounting_request.port, "B");
    assert_eq!(accounting_request.rem_address, "C");
    assert_eq!(accounting_request.args.len(), 3);
    assert_eq!(accounting_request.args[0], "D");
    assert_eq!(accounting_request.args[1], "E");
    assert_eq!(accounting_request.args[2], "F");
}

#[test]
fn test_to_data() {
    let data = generate_accounting_request_data();
    let accounting_request = AccountingRequest::from_bytes(data.as_slice()).unwrap();
    let new_data = accounting_request.to_bytes();
    assert_eq!(data, new_data);
}

#[test]
fn test_read_string_exception_not_enough_data() {
    let data = vec![65_u8, 66, 67, 68, 69, 70];
    let mut cursor = ByteCursor::new(data.as_slice());
    let result = AccountingRequest::read_string(&mut cursor, 700);
    assert_eq!(result, Err(ReadError::ShortBuffer), "Remaining buffer too short");
    assert_eq!(cursor.position(), 0);
}

#[test]
fn test_read_bytes_not_enough_data() {
    let data = vec![65_u8, 66, 67, 68, 69, 70];
    let result = AccountingRequest::from_bytes(data.as_slice());
    assert_eq!(result.unwrap_err(), CodecError::ShortBuffer(Field::RequestBody), "Data too short");
}

#[test]
fn test_read_bytes_incorrect_accounting_flags() {
    let mut data = generate_accounting_request_data();
    data[0] = 0b11111111;
    let result = AccountingRequest::from_bytes(data.as_slice());
    assert_eq!(result.unwrap_err(), CodecError::InvalidFlags(Field::AccountingFlags), "Invalid flags");
}

#[test]
fn test_read_bytes_incorrect_authen_method() {
    let mut data = generate_accounting_request_data();
    data[1] = 0b11111111;
    let result = AccountingRequest::from_bytes(data.as_slice());
    assert_eq!(result.unwrap_err(), CodecError::InvalidEnum(Field::AuthenMethod), "Invalid authen_method");
}

#[test]
fn test_read_bytes_incorrect_authen_type() {
    let mut data = generate_accounting_request_data();
    data[3] = 0b11111111;
    let result = AccountingRequest::from_bytes(data.as_slice());
    assert_eq!(result.unwrap_err(), CodecError::InvalidEnum(Field::AuthenType), "Invalid authen_type");
}

#[test]
fn test_read_bytes_incorrect_authen_service() {
    let mut data = generate_accounting_request_data();
    data[4] = 0b11111111;
    let result = AccountingRequest::from_bytes(data.as_slice());
    assert_eq!(result.unwrap_err(), CodecError::InvalidEnum(Field::AuthenService), "Invalid authen_service");
}

#[test]
fn test_packet_has_nonzero_argcount_but_missing_arg_sizes_data() {
    let mut data = generate_accounting_request_data();
    data.truncate(TACACS_ACCOUNTING_REQUEST_MIN_LENGTH);
    let result = AccountingRequest::from_bytes(data.as_slice());
    assert_eq!(result.unwrap_err(), CodecError::ShortBuffer(Field::ArgSize), "Invalid arg_size");
}

#[test]
fn test_from_packet() {
    let data = generate_accounting_request_data();
    let packet = packet_of(data);
    let accounting_request = AccountingRequest::from_packet(&packet).unwrap();
    assert_eq!(accounting_request.to_bytes(), packet.body_copy());
}

#[test]
fn test_correct_packet_size_with_invalid_size_based_on_parameters() {
    let mut data = generate_accounting_request_data();
    data[5] = 255; // Set user_len to 255
    let packet = packet_of(data);
    let result = AccountingRequest::from_packet(&packet);
    assert_eq!(result.unwrap_err(), CodecError::BodyTooShort(Field::RequestBody), "Invalid body length");
}

#[test]
fn request_declared_length_past_buffer() {
    let mut data = generate_accounting_request_data();
    data[6] = 9; // port_len now runs past the end
    assert_eq!(AccountingRequest::from_bytes(&data).unwrap_err(), CodecError::ShortBuffer(Field::Port));
    let mut data = generate_accounting_request_data();
    data[11] = 2; // the last argument runs past the end
    assert_eq!(AccountingRequest::from_bytes(&data).unwrap_err(), CodecError::ShortBuffer(Field::Arg));
}

#[test]
fn request_non_utf8_strings_are_rejected() {
    for (index, field) in [(12, Field::User), (13, Field::Port), (14, Field::RemAddress), (16, Field::Arg)] {
        let mut data = generate_accounting_request_data();
        data[index] = 0xff;
        assert_eq!(AccountingRequest::from_bytes(&data).unwrap_err(), CodecError::InvalidUtf8(field));
    }
}

#[test]
fn request_round_trip_with_multibyte_strings() {
    let request = AccountingRequest {
        flags: TacacsAccountingFlags::watchdog_flag(),
        authen_method: TacacsAuthenticationMethod::TacPlusAuthenMethodRadius,
        priv_lvl: 15,
        authen_type: TacacsAuthenticationType::TacPlusAuthenTypeMschapv2,
        authen_service: TacacsAuthenticationService::TacPlusAuthenSvcFwproxy,
        user: "jürgen".to_string(),
        port: "".to_string(),
        rem_address: "10.0.0.1".to_string(),
        args: vec!["".to_string(), "cmd=ls ✓".to_string()],
    };
    assert!(request.is_legal());
    let bytes = request.to_bytes();
    assert_eq!(bytes.len(), AccountingRequest::size_from_bytes(&bytes));
    let back = AccountingRequest::from_bytes(&bytes).unwrap();
    assert_eq!(back.flags, request.flags);
    assert_eq!(back.authen_method, request.authen_method);
    assert_eq!(back.priv_lvl, 15);
    assert_eq!(back.authen_type, request.authen_type);
    assert_eq!(back.authen_service, request.authen_service);
    assert_eq!(back.user, request.user);
    assert_eq!(back.port, request.port);
    assert_eq!(back.rem_address, request.rem_address);
    assert_eq!(back.args, request.args);
}

#[test]
fn request_with_no_args_and_trailing_bytes() {
    let mut data = vec![0x02, 0x01, 0x00, 0x00, 0x00, 0x01, 0x00, 0x00, 0x00, b'u'];
    data.extend_from_slice(&[0xff, 0xff]);
    let packet = packet_of(data);
    let request = AccountingRequest::from_packet(&packet).unwrap();
    assert_eq!(request.user, "u");
    assert!(request.args.is_empty());
    assert!(request.flags.start && !request.flags.stop);
}

#[test]
fn request_too_long_is_not_legal() {
    let request = AccountingRequest {
        flags: TacacsAccountingFlags::empty(),
        authen_method: TacacsAuthenticationMethod::TacPlusAuthenMethodNone,
        priv_lvl: 0,
        authen_type: TacacsAuthenticationType::TacPlusAuthenTypeNotSet,
        authen_service: TacacsAuthenticationService::TacPlusAuthenSvcNone,
        user: "x".repeat(256),
        port: String::new(),
        rem_address: String::new(),
        args: vec![],
    };
    assert!(!request.is_legal());
}
