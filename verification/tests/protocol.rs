use mysql_ha::ha::procotol::{MyProtocol, Null, RecPacket, ResponseFault};
use mysql_ha::readvalue::{read_u64, write_u64};
use mysql_ha::strutil::{parse_usize, prefix_until, str_starts_with, u64_to_string};
use mysql_ha::{Config, Opt};

#[test]
fn u64_big_endian_bytes_round_trip() {
    let bytes = write_u64(0x0102030405060708);
    assert_eq!(bytes, vec![1u8, 2, 3, 4, 5, 6, 7, 8]);
    assert_eq!(read_u64(&bytes), 0x0102030405060708);
    let zero = write_u64(0);
    assert_eq!(zero, vec![0u8; 8]);
    assert_eq!(read_u64(&zero), 0);
    let max = write_u64(u64::MAX);
    assert_eq!(max, vec![0xffu8; 8]);
    assert_eq!(read_u64(&max), u64::MAX);
}

#[test]
fn protocol_codes_round_trip() {
    let codes: Vec<u8> = vec![
        0xfe, 0xfd, 0xfc, 0xfb, 0xfa, 0xf9, 0xf8, 0xf7, 0xf6, 0xf5, 0xf4, 0xf3, 0xf2, 0x00, 0x01,
        0x03, 0x04, 0x05, 0x09,
    ];
    for c in codes {
        let p = MyProtocol::new(&c);
        assert!(p != MyProtocol::UnKnow);
        assert_eq!(p.get_code(), c);
    }
    assert_eq!(MyProtocol::new(&0x42), MyProtocol::UnKnow);
    assert_eq!(MyProtocol::UnKnow.get_code(), 0xff);
}

#[test]
fn protocol_code_of_each_operation() {
    assert_eq!(MyProtocol::MysqlCheck.get_code(), 0xfe);
    assert_eq!(MyProtocol::SetMaster.get_code(), 0xfa);
    assert_eq!(MyProtocol::ChangeMaster.get_code(), 0xf9);
    assert_eq!(MyProtocol::PullBinlog.get_code(), 0xf8);
    assert_eq!(MyProtocol::PushBinlog.get_code(), 0xf2);
    assert_eq!(MyProtocol::RecoveryCluster.get_code(), 0xf7);
    assert_eq!(MyProtocol::GetRecoveryInfo.get_code(), 0xf3);
    assert_eq!(MyProtocol::DownNodeCheck.get_code(), 0xf4);
    assert_eq!(MyProtocol::ResponseOk.get_code(), 0x00);
    assert_eq!(MyProtocol::ResponseError.get_code(), 0x09);
}

#[test]
fn frame_header_layout() {
    let h = MyProtocol::MysqlCheck.header(3);
    assert_eq!(h, vec![0xfeu8, 0, 0, 0, 0, 0, 0, 0, 3]);
}

#[test]
fn frame_encode_decode_round_trip() {
    let payload: Vec<u8> = vec![10, 20, 30, 40];
    let frame = MyProtocol::DownNodeCheck.encode_packet(&payload);
    assert_eq!(frame.len(), 13);
    let packet = RecPacket::decode(&frame).unwrap();
    assert_eq!(packet.type_code, MyProtocol::DownNodeCheck);
    assert_eq!(packet.payload, 4);
    assert_eq!(packet.value, payload);
}

#[test]
fn truncated_frame_is_refused() {
    let short: Vec<u8> = vec![0xfe, 0, 0];
    assert!(RecPacket::decode(&short).is_err());
    let mut frame = MyProtocol::Ping.encode_packet(&vec![1, 2, 3]);
    frame.pop();
    assert!(RecPacket::decode(&frame).is_err());
    frame = MyProtocol::Ping.encode_packet(&vec![1, 2, 3]);
    frame.push(9);
    assert!(RecPacket::decode(&frame).is_err());
}

#[test]
fn response_code_classification() {
    let ok = RecPacket::decode(&MyProtocol::ResponseOk.encode_packet(&Vec::new())).unwrap();
    let err = RecPacket::decode(&MyProtocol::ResponseError.encode_packet(&Vec::new())).unwrap();
    let odd = RecPacket::decode(&MyProtocol::Ping.encode_packet(&Vec::new())).unwrap();
    assert!(MyProtocol::SetMaster.response_code_check(&ok).is_ok());
    assert_eq!(
        MyProtocol::SetMaster.response_code_check(&err),
        Err(ResponseFault::ErrorPacket)
    );
    assert_eq!(
        MyProtocol::SetMaster.response_code_check(&odd),
        Err(ResponseFault::UnexpectedCode)
    );
    assert!(MyProtocol::Ping.response_is_self(&odd).is_ok());
    assert!(MyProtocol::SetMaster.response_is_self(&odd).is_err());
}

#[test]
fn null_payload_defaults() {
    let n = Null::new();
    assert_eq!(n.default, 0);
}

#[test]
fn host_prefix_splitting() {
    assert_eq!(prefix_until("10.0.1.5:3306", ':'), "10.0.1.5");
    assert_eq!(prefix_until("nocolon", ':'), "nocolon");
    assert_eq!(prefix_until("", ':'), "");
    assert_eq!(prefix_until(":3306", ':'), "");
}

#[test]
fn decimal_rendering() {
    assert_eq!(u64_to_string(0), "0");
    assert_eq!(u64_to_string(7), "7");
    assert_eq!(u64_to_string(12034), "12034");
    assert_eq!(u64_to_string(1000000), "1000000");
}

#[test]
fn decimal_parsing() {
    assert_eq!(parse_usize("8099"), Some(8099));
    assert_eq!(parse_usize("0"), Some(0));
    assert_eq!(parse_usize(""), None);
    assert_eq!(parse_usize("80x9"), None);
    assert_eq!(parse_usize("99999999999999999999999999"), None);
}

#[test]
fn starts_with_checks() {
    assert!(str_starts_with("10.0.1.5:3306", "10.0.1.5"));
    assert!(!str_starts_with("10.0.1.5:3306", "10.0.1.6"));
    assert!(str_starts_with("abc", ""));
    assert!(!str_starts_with("ab", "abc"));
}

#[test]
fn config_defaults_and_port() {
    let c = Config::new(Opt { port: None, listen: None }).unwrap();
    assert_eq!(c.port, 8099);
    assert_eq!(c.listen, "127.0.0.1");
    let c2 = Config::new(Opt {
        port: Some(String::from("9000")),
        listen: Some(String::from("0.0.0.0")),
    })
    .unwrap();
    assert_eq!(c2.port, 9000);
    assert_eq!(c2.listen, "0.0.0.0");
}

#[test]
fn random_hook_id_has_32_characters() {
    let a = mysql_ha::rand_string();
    assert_eq!(a.chars().count(), 32);
    assert!(a.chars().all(|c| c.is_ascii_alphanumeric()));
}

#[test]
fn timestamp_is_non_negative_now() {
    assert!(mysql_ha::timestamp() >= 0);
}
