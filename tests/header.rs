use tacacs_plus::enumerations::{
    TacacsAccountingStatus, TacacsAuthenticationMethod, TacacsMajorVersion, TacacsMinorVersion,
    TacacsType,
};
use tacacs_plus::error::{CodecError, Field};
use tacacs_plus::flags::TacacsFlags;
use tacacs_plus::header::{Header, TACACS_HEADER_LENGTH};

fn generate_packet(
    major_version_o: Option<TacacsMajorVersion>,
    minor_version_o: Option<TacacsMinorVersion>,
    tacacs_type_o: Option<TacacsType>,
    sequence_number_o: Option<u8>,
    tacacs_flags_o: Option<TacacsFlags>,
    session_id_o: Option<u32>,
    length_o: Option<u32>,
) -> [u8; 12] {
    let major_version = major_version_o.unwrap_or(TacacsMajorVersion::TacacsPlusMajor1);
    let minor_version = minor_version_o.unwrap_or(TacacsMinorVersion::TacacsPlusMinorVerOne);
    let tacacs_type = tacacs_type_o.unwrap_or(TacacsType::TacPlusAccounting);
    let tacacs_flags = tacacs_flags_o.unwrap_or(TacacsFlags::unencrypted_flag());

    let sequence_number = sequence_number_o.unwrap_or(1 as u8);
    let session_id = session_id_o.unwrap_or(0xdeadbeef as u32);
    let length = length_o.unwrap_or(1 as u32);

    let session_id_bytes = session_id.to_be_bytes();
    let length_bytes = length.to_be_bytes();

    [
        major_version.to_u8() << 4 | minor_version.to_u8(),
        tacacs_type.to_u8(),
        sequence_number,
        tacacs_flags.bits(),
        session_id_bytes[0],
        session_id_bytes[1],
        session_id_bytes[2],
        session_id_bytes[3],
        length_bytes[0],
        length_bytes[1],
        length_bytes[2],
        length_bytes[3],
    ]
}

fn generate_default_packet() -> [u8; 12] {
    generate_packet(None, None, None, None, None, None, None)
}

#[test]
fn deserialisation_good_data() {
    let binary_data = generate_default_packet();
    let header = Header::from_bytes(&binary_data).expect("Failed to create TacacsPacket");

    assert_eq!(header.major_version.to_u8(), 0xc as u8, "Major version mismatch");
    assert_eq!(header.minor_version.to_u8(), 1 as u8, "Minor version mismatch");
    assert_eq!(header.tacacs_type.to_u8(), 3 as u8, "TACACS+ type mismatch");
    assert_eq!(header.seq_no, 1, "Sequence number mismatch");
    assert_eq!(header.flags.bits(), (0xff & 0x01) as u8, "Flags mismatch");
    assert_eq!(header.session_id as u32, 0xdeadbeef as u32, "Session ID mismatch");
    assert_eq!(header.length, 1, "Length mismatch");
}

#[test]
fn deserialisation_bad_short_data() {
    let binary_data_expected_length = generate_default_packet();
    let binary_data_short = &binary_data_expected_length[0..TACACS_HEADER_LENGTH - 1];
    let result = Header::from_bytes(binary_data_short);
    assert_eq!(result, Err(CodecError::ShortBuffer(Field::Header)), "Data too short");
}

#[test]
fn deserialisation_invalid_major_version() {
    let mut binary_data = generate_default_packet();
    binary_data[0] = 0x0f;
    let result = Header::from_bytes(&binary_data);
    assert_eq!(result, Err(CodecError::InvalidEnum(Field::MajorVersion)), "Invalid major version");
}

#[test]
fn deserialisation_invalid_minor_version() {
    let mut binary_data = generate_default_packet();
    binary_data[0] = 0xc7;
    let result = Header::from_bytes(&binary_data);
    assert_eq!(result, Err(CodecError::InvalidEnum(Field::MinorVersion)), "Invalid minor version");
}

#[test]
fn deserialisation_invalid_tacacs_type() {
    let mut binary_data = generate_default_packet();
    binary_data[1] = 0xff;
    let result = Header::from_bytes(&binary_data);
    assert_eq!(result, Err(CodecError::InvalidEnum(Field::PacketType)), "Invalid TACACS+ type");
}

#[test]
fn deserialisation_invalid_flags() {
    let mut binary_data = generate_default_packet();
    let flags = TacacsFlags::unencrypted_flag();
    binary_data[3] = flags.bits() | 0x80;
    let result = Header::from_bytes(&binary_data);
    assert_eq!(result, Err(CodecError::InvalidFlags(Field::HeaderFlags)), "Invalid flags");
}

#[test]
fn serialisation() {
    let binary_data = generate_default_packet();
    let header = Header::from_bytes(&binary_data).expect("Failed to create TacacsPacket");
    let binary_data_serialised = header.to_bytes();
    assert_eq!(binary_data, binary_data_serialised, "Serialised data does not match the data it was decoded from");
}

#[test]
fn header_reserved_flag_bit_is_rejected() {
    let mut binary_data = generate_default_packet();
    binary_data[3] = 0x02;
    assert_eq!(Header::from_bytes(&binary_data), Err(CodecError::InvalidFlags(Field::HeaderFlags)));
    binary_data[3] = 0x05;
    let header = Header::from_bytes(&binary_data).unwrap();
    assert!(header.flags.unencrypted && header.flags.single_connect);
}

#[test]
fn header_round_trip_of_every_type_and_minor() {
    let types = [TacacsType::TacPlusAuthentication, TacacsType::TacPlusAuthorisation, TacacsType::TacPlusAccounting];
    let minors = [TacacsMinorVersion::TacacsPlusMinorVerDefault, TacacsMinorVersion::TacacsPlusMinorVerOne];
    let flag_sets = [TacacsFlags::empty(), TacacsFlags::unencrypted_flag(), TacacsFlags::single_connect_flag()];
    for t in types {
        for m in minors {
            for f in flag_sets {
                let h = Header {
                    major_version: TacacsMajorVersion::TacacsPlusMajor1,
                    minor_version: m,
                    tacacs_type: t,
                    seq_no: 0xfe,
                    flags: f,
                    session_id: 0x0102_0304,
                    length: 0xa0b0_c0d0,
                };
                let bytes = h.to_bytes();
                assert_eq!(Header::from_bytes(&bytes), Ok(h));
            }
        }
    }
}

#[test]
fn header_to_bytes_exact_layout() {
    let h = Header {
        major_version: TacacsMajorVersion::TacacsPlusMajor1,
        minor_version: TacacsMinorVersion::TacacsPlusMinorVerOne,
        tacacs_type: TacacsType::TacPlusAuthorisation,
        seq_no: 7,
        flags: TacacsFlags::single_connect_flag(),
        session_id: 0xdeadbeef,
        length: 0x0000_0122,
    };
    assert_eq!(h.version(), 0xc1);
    assert_eq!(h.to_bytes(), [0xc1, 0x02, 0x07, 0x04, 0xde, 0xad, 0xbe, 0xef, 0x00, 0x00, 0x01, 0x22]);
}

#[test]
fn enumeration_bytes_and_names() {
    assert_eq!(TacacsAuthenticationMethod::from_u8(0x20), Some(TacacsAuthenticationMethod::TacPlusAuthenMethodRcmd));
    assert_eq!(TacacsAuthenticationMethod::from_u8(0x07), None);
    assert_eq!(TacacsAuthenticationMethod::TacPlusAuthenMethodGuest.to_u8(), 0x08);
    assert_eq!(TacacsAccountingStatus::from_u8(0x21), Some(TacacsAccountingStatus::TacPlusAcctStatusFollow));
    assert_eq!(TacacsAccountingStatus::TacPlusAcctStatusSuccess.name(), "TAC_PLUS_ACCT_STATUS_SUCCESS");
    assert_eq!(TacacsType::TacPlusAccounting.name(), "TAC_PLUS_ACCOUNTING");
}
