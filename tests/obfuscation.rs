use md5::Digest;
use tacacs_plus::enumerations::{TacacsMajorVersion, TacacsMinorVersion, TacacsType};
use tacacs_plus::flags::TacacsFlags;
use tacacs_plus::header::Header;
use tacacs_plus::obfuscation::{convert, convert_inplace, generate_pad, get_first_block, pad_of_length};
use tacacs_plus::packet::{Packet, PacketTrait};

fn accounting_header(length: u32) -> Header {
    Header {
        major_version: TacacsMajorVersion::TacacsPlusMajor1,
        minor_version: TacacsMinorVersion::TacacsPlusMinorVerOne,
        tacacs_type: TacacsType::TacPlusAccounting,
        seq_no: 1,
        flags: TacacsFlags::empty(),
        session_id: 0xdeadbeef,
        length,
    }
}

fn md5_of(data: &[u8]) -> Vec<u8> {
    md5::Md5::digest(data).to_vec()
}

#[test]
fn test_generate_pad() {
    let header = accounting_header(16);
    let obfuscation_key = b"tac_plus_key";
    let pad = generate_pad(&header, obfuscation_key);
    assert_eq!(pad.len(), 16);
}

#[test]
fn test_convert() {
    let header = accounting_header(16);
    let obfuscation_key = b"tac_plus_key";
    let data = vec![0; 16];
    let output = convert(&header, &data, obfuscation_key);
    assert_eq!(output.len(), 16);
}

#[test]
fn test_decrypt() {
    let encrypted_bytes = [
        0xc0_u8, 0x01, 0x01, 0x00, 0xc6, 0x03, 0xad, 0x17, 0x00, 0x00, 0x00, 0x22, 0xc0, 0x01,
        0x01, 0x00, 0xc6, 0x03, 0xad, 0x17, 0x00, 0x00, 0x00, 0x00, 0xc0, 0x01, 0x01, 0x00,
        0xc6, 0x03, 0xad, 0x17, 0x00, 0x00, 0x00, 0x00, 0xc0, 0x01, 0x01, 0x00, 0xc6, 0x03,
        0xad, 0x17, 0x00, 0x00,
    ];

    let decrypted_bytes = [
        0x46_u8, 0x2e, 0x48, 0x27, 0xb8, 0xfe, 0x61, 0xbc, 0x73, 0x54, 0x3c, 0xee, 0xb1, 0xa8,
        0x3c, 0xa7, 0x78, 0xd5, 0xf1, 0xc4, 0xb4, 0x6a, 0x8e, 0xc6, 0x9b, 0x71, 0xe7, 0x7a,
        0x8f, 0x3c, 0xd3, 0xf1, 0x98, 0x27,
    ];

    let packet = Packet::from_bytes(&encrypted_bytes).unwrap();
    assert!(!packet.header().flags.contains(&TacacsFlags::unencrypted_flag()));
    assert_eq!(packet.header().length, 34);

    let obfuscation_key = b"XX";
    let body_data = convert(packet.header(), packet.body(), obfuscation_key);
    assert_eq!(body_data, decrypted_bytes);

    let decrypted_packet = packet.as_deobfuscated(obfuscation_key).unwrap();
    assert_eq!(decrypted_packet.body(), &decrypted_bytes);
    assert!(decrypted_packet.header().flags.contains(&TacacsFlags::unencrypted_flag()));
}

#[test]
fn pad_is_chained_md5_of_first_block() {
    let header = accounting_header(32);
    let key = b"tac_plus_key";
    let iv = get_first_block(&header, key);
    let mut expected_iv = vec![0xde, 0xad, 0xbe, 0xef];
    expected_iv.extend_from_slice(key);
    expected_iv.push(0xc1);
    expected_iv.push(0x01);
    assert_eq!(iv, expected_iv);

    let h0 = md5_of(&iv);
    let mut second = iv.clone();
    second.extend_from_slice(&h0);
    let h1 = md5_of(&second);
    let mut expected_pad = h0.clone();
    expected_pad.extend_from_slice(&h1);

    let pad = generate_pad(&header, key);
    assert_eq!(pad, expected_pad);

    let zeros = vec![0u8; 32];
    let obfuscated = convert(&header, &zeros, key);
    assert_eq!(obfuscated, expected_pad);
    assert_eq!(convert(&header, &obfuscated, key), zeros);
}

#[test]
fn pad_length_matches_requested_length() {
    let header = accounting_header(0);
    for n in [0usize, 1, 15, 16, 17, 33, 100] {
        let pad = pad_of_length(&header, b"k", n);
        assert_eq!(pad.len(), n);
    }
    let long = pad_of_length(&header, b"k", 40);
    let short = pad_of_length(&header, b"k", 20);
    assert_eq!(&long[..20], &short[..]);
}

#[test]
fn pad_depends_only_on_id_version_seq_and_key() {
    let a = accounting_header(24);
    let mut b = accounting_header(99);
    b.tacacs_type = TacacsType::TacPlusAuthentication;
    b.flags = TacacsFlags::unencrypted_flag();
    assert_eq!(pad_of_length(&a, b"key", 24), pad_of_length(&b, b"key", 24));
    let mut c = accounting_header(24);
    c.seq_no = 3;
    assert_ne!(pad_of_length(&a, b"key", 24), pad_of_length(&c, b"key", 24));
    assert_ne!(pad_of_length(&a, b"key", 24), pad_of_length(&a, b"other", 24));
}

#[test]
fn convert_twice_restores_body() {
    let header = accounting_header(5);
    let body = b"hello, accounting".to_vec();
    let once = convert(&header, &body, b"secret");
    assert_ne!(once, body);
    assert_eq!(once.len(), body.len());
    assert_eq!(convert(&header, &once, b"secret"), body);

    let mut in_place = body.clone();
    convert_inplace(&header, &mut in_place, b"secret");
    assert_eq!(in_place, once);
    convert_inplace(&header, &mut in_place, b"secret");
    assert_eq!(in_place, body);
}

#[test]
fn packet_obfuscation_affordances() {
    let mut header = accounting_header(4);
    header.flags = TacacsFlags::unencrypted_flag();
    let packet = Packet::new(header, vec![1, 2, 3, 4]).unwrap();
    assert!(packet.as_deobfuscated(b"k").is_none());

    let hidden = packet.as_obfuscated(b"k").unwrap();
    assert!(!hidden.header().flags.unencrypted);
    assert_eq!(hidden.body(), &convert(&header, &[1, 2, 3, 4], b"k"));
    assert!(hidden.as_obfuscated(b"k").is_none());

    let shown = hidden.as_deobfuscated(b"k").unwrap();
    assert_eq!(shown.header(), packet.header());
    assert_eq!(shown.body(), packet.body());

    let moved = packet.clone().to_obfuscated(b"k");
    assert_eq!(moved.body(), hidden.body());
    assert!(!moved.header().flags.unencrypted);
    let still = moved.to_obfuscated(b"k");
    assert_eq!(still.body(), hidden.body());
    let back = still.to_deobfuscated(b"k");
    assert_eq!(back.body(), packet.body());
    assert!(back.header().flags.unencrypted);
    let same = back.to_deobfuscated(b"k");
    assert_eq!(same.body(), packet.body());
}
