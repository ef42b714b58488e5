use hwsim_medium::attrs::{decode_attrs, encode_attrs, CodecError, HwsimAttrs};
use hwsim_medium::frame::{Frame, IEEE80211Header, TXInfo, TXInfoFlag};

fn sample_header() -> IEEE80211Header {
    IEEE80211Header {
        frame_control: [0x08, 0x00],
        duration_id: [0x2c, 0x00],
        addr1: [0xff, 0xff, 0xff, 0xff, 0xff, 0xff],
        addr2: [0x42, 0x00, 0x00, 0x00, 0x00, 0x01],
        addr3: [0x42, 0x00, 0x00, 0x00, 0x00, 0x01],
        seq_ctrl: [0x10, 0x00],
        addr4: [0, 0, 0, 0, 0, 0],
        qos: [0, 0],
    }
}

fn sample_frame() -> Frame {
    Frame { header: sample_header(), payload: vec![0xde, 0xad, 0xbe, 0xef, 0x01] }
}

#[test]
fn attr_round_trip_every_variant() {
    let attrs = vec![
        HwsimAttrs::AddrReceiver([1, 2, 3, 4, 5, 6]),
        HwsimAttrs::AddrTransmitter([6, 5, 4, 3, 2, 1]),
        HwsimAttrs::Frame(sample_frame()),
        HwsimAttrs::Flags(0x1234_5678),
        HwsimAttrs::RXRate(7),
        HwsimAttrs::Signal(0xFFFF_FFC3),
        HwsimAttrs::TXInfo([
            TXInfo { idx: -1, count: 0 },
            TXInfo { idx: 3, count: 2 },
            TXInfo { idx: 0, count: 0 },
            TXInfo { idx: 5, count: 1 },
        ]),
        HwsimAttrs::Cookie(0x1122_3344_5566_7788),
        HwsimAttrs::Channels(2),
        HwsimAttrs::RadioID(9),
        HwsimAttrs::RegHintAlpha2(vec![b'U', b'S']),
        HwsimAttrs::RegCustomReg(77),
        HwsimAttrs::RegStrictReg(true),
        HwsimAttrs::SupportP2PDevice(true),
        HwsimAttrs::UseChanctx(true),
        HwsimAttrs::DestroyRadioOnClose(true),
        HwsimAttrs::RadioName(b"radio0".to_vec()),
        HwsimAttrs::NoVif(true),
        HwsimAttrs::Freq(2412),
        HwsimAttrs::TXInfoFlags([
            TXInfoFlag { idx: -1, flags: 0 },
            TXInfoFlag { idx: 2, flags: 0x0102 },
            TXInfoFlag { idx: 0, flags: 0 },
            TXInfoFlag { idx: 1, flags: 0xffff },
        ]),
        HwsimAttrs::PermAddr([0x42, 0, 0, 0, 1, 0]),
        HwsimAttrs::IftypeSupport(0xff),
        HwsimAttrs::CipherSupport(vec![1, 2, 3]),
        HwsimAttrs::SharedMemoryPointer(4096),
        HwsimAttrs::SharedMemoryPageNum(2),
    ];
    let buf = encode_attrs(&attrs);
    let back = decode_attrs(&buf).expect("well-formed attributes decode");
    assert_eq!(attrs, back);
}

#[test]
fn attr_round_trip_empty_run() {
    let buf = encode_attrs(&Vec::new());
    assert!(buf.is_empty());
    assert_eq!(decode_attrs(&buf), Ok(Vec::new()));
}

#[test]
fn attr_exact_wire_bytes() {
    // A 32-bit attribute: total length 8, type code 4, little-endian value.
    let buf = encode_attrs(&vec![HwsimAttrs::Flags(1)]);
    assert_eq!(buf, vec![8, 0, 4, 0, 1, 0, 0, 0]);
    // A hardware address: total length 10, type code 1, six bytes, two
    // bytes of zero padding to the four-byte boundary.
    let buf = encode_attrs(&vec![HwsimAttrs::AddrReceiver([1, 2, 3, 4, 5, 6])]);
    assert_eq!(buf, vec![10, 0, 1, 0, 1, 2, 3, 4, 5, 6, 0, 0]);
    // A presence flag: header only, no value.
    let buf = encode_attrs(&vec![HwsimAttrs::NoVif(true)]);
    assert_eq!(buf, vec![4, 0, 18, 0]);
    // A cookie: total length 12, type code 8, eight little-endian bytes.
    let buf = encode_attrs(&vec![HwsimAttrs::Cookie(0x0102_0304_0506_0708)]);
    assert_eq!(buf, vec![12, 0, 8, 0, 8, 7, 6, 5, 4, 3, 2, 1]);
}

#[test]
fn unknown_attr_is_skipped() {
    // [known][unknown type 200][known]: both known attributes survive.
    let mut buf = encode_attrs(&vec![HwsimAttrs::Flags(5)]);
    buf.extend_from_slice(&[8, 0, 200, 0, 9, 9, 9, 9]);
    buf.extend(encode_attrs(&vec![HwsimAttrs::Cookie(7)]));
    let back = decode_attrs(&buf).expect("unknown attribute must not poison the run");
    assert_eq!(back, vec![HwsimAttrs::Flags(5), HwsimAttrs::Cookie(7)]);
}

#[test]
fn placeholder_type_codes_are_skipped() {
    // Type codes 0 and 20 are placeholders the schema does not decode.
    let mut buf = vec![4, 0, 0, 0];
    buf.extend_from_slice(&[4, 0, 20, 0]);
    buf.extend(encode_attrs(&vec![HwsimAttrs::RadioID(3)]));
    assert_eq!(decode_attrs(&buf), Ok(vec![HwsimAttrs::RadioID(3)]));
}

#[test]
fn overrunning_length_is_malformed() {
    // Declared total length 12, but the buffer holds 8 bytes.
    let buf = vec![12, 0, 4, 0, 1, 0, 0, 0];
    assert_eq!(decode_attrs(&buf), Err(CodecError::MalformedAttribute));
    // A length below the header's own four bytes.
    let buf = vec![2, 0, 4, 0];
    assert_eq!(decode_attrs(&buf), Err(CodecError::MalformedAttribute));
    // A trailing fragment shorter than one header.
    let buf = vec![8, 0];
    assert_eq!(decode_attrs(&buf), Err(CodecError::MalformedAttribute));
}

#[test]
fn wrong_width_value_is_malformed() {
    // Type code 4 wants four value bytes; this record declares two.
    let buf = vec![6, 0, 4, 0, 1, 0, 0, 0];
    assert_eq!(decode_attrs(&buf), Err(CodecError::MalformedAttribute));
    // A frame attribute shorter than its 32-byte header.
    let buf = vec![8, 0, 3, 0, 1, 2, 3, 4];
    assert_eq!(decode_attrs(&buf), Err(CodecError::MalformedAttribute));
}

#[test]
fn final_attr_may_lack_padding() {
    // The last record's padding may be absent at the buffer's end.
    let buf = vec![10, 0, 1, 0, 1, 2, 3, 4, 5, 6];
    assert_eq!(decode_attrs(&buf), Ok(vec![HwsimAttrs::AddrReceiver([1, 2, 3, 4, 5, 6])]));
}

#[test]
fn attr_member_functions_report_wire_shape() {
    let a = HwsimAttrs::Frame(sample_frame());
    assert_eq!(a.kind(), 3);
    assert_eq!(a.value_len(), 32 + 5);
    let mut out = Vec::new();
    a.emit_value(&mut out);
    assert_eq!(out.len(), 37);
    assert_eq!(&out[32..], &[0xde, 0xad, 0xbe, 0xef, 0x01]);
}
