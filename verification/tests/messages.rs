use hwsim_medium::attrs::{CodecError, HwsimAttrs};
use hwsim_medium::frame::{Frame, IEEE80211Header, TXInfo};
use hwsim_medium::msg::{parse_genl_payload, GenlMAC, HwsimCmd, ProtocolError};
use hwsim_medium::structs::{
    GenlFrameRX, GenlFrameTX, GenlNewRadio, GenlRadioOps, GenlRegister, GenlTXInfoFrame,
};

fn plain_frame(payload: Vec<u8>) -> Frame {
    Frame {
        header: IEEE80211Header {
            frame_control: [0x08, 0x00],
            duration_id: [0, 0],
            addr1: [0xaa, 0xbb, 0xcc, 0xdd, 0xee, 0xff],
            addr2: [1, 1, 1, 1, 1, 1],
            addr3: [1, 1, 1, 1, 1, 1],
            seq_ctrl: [0, 0],
            addr4: [0, 0, 0, 0, 0, 0],
            qos: [0, 0],
        },
        payload,
    }
}

#[test]
fn command_codes_match_registered_numbering() {
    assert_eq!(HwsimCmd::Register.code(), 1);
    assert_eq!(HwsimCmd::Frame.code(), 2);
    assert_eq!(HwsimCmd::TXInfoFrame.code(), 3);
    assert_eq!(HwsimCmd::NewRadio.code(), 4);
    assert_eq!(HwsimCmd::DelRadio.code(), 5);
    assert_eq!(HwsimCmd::GetRadio.code(), 6);
    assert_eq!(HwsimCmd::AddMACAddr.code(), 7);
    assert_eq!(HwsimCmd::DelMACAddr.code(), 8);
    assert_eq!(HwsimCmd::TXInfoNotify.code(), 9);
    assert_eq!(HwsimCmd::RXInfoNotify.code(), 10);
    for code in 1u8..=10 {
        assert_eq!(HwsimCmd::from_code(code).unwrap().code(), code);
    }
    assert_eq!(HwsimCmd::from_code(0), Err(ProtocolError::UnknownCommand(0)));
    assert_eq!(HwsimCmd::from_code(99), Err(ProtocolError::UnknownCommand(99)));
}

#[test]
fn genl_mac_payload_round_trip() {
    let msg = GenlMAC {
        cmd: HwsimCmd::Frame,
        nlas: vec![HwsimAttrs::Flags(3), HwsimAttrs::Cookie(42)],
    };
    let bytes = msg.emit();
    assert_eq!(msg.buffer_len(), bytes.len());
    let back = parse_genl_payload(msg.command(), &bytes).unwrap();
    assert_eq!(back, msg);
}

#[test]
fn unknown_command_is_dropped_not_fatal() {
    let r = parse_genl_payload(0x77, &[]);
    assert_eq!(r, Err(ProtocolError::UnknownCommand(0x77)));
}

#[test]
fn damaged_payload_surfaces_as_codec_error() {
    // A known command whose attribute run declares more bytes than exist.
    let r = parse_genl_payload(2, &[12, 0, 4, 0, 1, 0, 0, 0]);
    assert_eq!(r, Err(ProtocolError::Codec(CodecError::MalformedAttribute)));
}

#[test]
fn family_identity() {
    let msg = GenlMAC { cmd: HwsimCmd::Register, nlas: vec![] };
    assert_eq!(GenlMAC::family_name(), "MAC80211_HWSIM");
    assert_eq!(msg.version(), 1);
    assert_eq!(msg.command(), 1);
}

#[test]
fn frame_tx_round_trip_via_attrs() {
    // A transmission event rebuilt from its own canonical attribute run.
    let tx_info = [
        TXInfo { idx: 2, count: 1 },
        TXInfo { idx: -1, count: 0 },
        TXInfo { idx: -1, count: 0 },
        TXInfo { idx: -1, count: 0 },
    ];
    let msg = GenlMAC {
        cmd: HwsimCmd::Frame,
        nlas: vec![
            HwsimAttrs::AddrTransmitter([0x42, 0, 0, 0, 0, 1]),
            HwsimAttrs::Frame(plain_frame(vec![1, 2, 3])),
            HwsimAttrs::Flags(9),
            HwsimAttrs::TXInfo(tx_info),
            HwsimAttrs::Cookie(777),
            HwsimAttrs::Freq(2437),
        ],
    };
    let ftx = GenlFrameTX::parse(&msg).unwrap();
    assert_eq!(ftx.addr_transmitter, [0x42, 0, 0, 0, 0, 1]);
    assert_eq!(ftx.frame, plain_frame(vec![1, 2, 3]));
    assert_eq!(ftx.flags, 9);
    assert_eq!(ftx.tx_info, tx_info);
    assert_eq!(ftx.cookie, 777);
    assert_eq!(ftx.freq, 2437);
    assert!(!ftx.is_ack);
}

#[test]
fn frame_tx_last_occurrence_wins() {
    let msg = GenlMAC {
        cmd: HwsimCmd::Frame,
        nlas: vec![HwsimAttrs::Cookie(1), HwsimAttrs::Cookie(2)],
    };
    assert_eq!(GenlFrameTX::parse(&msg).unwrap().cookie, 2);
}

#[test]
fn frame_tx_ignores_unrelated_attrs() {
    let msg = GenlMAC {
        cmd: HwsimCmd::Frame,
        nlas: vec![HwsimAttrs::RadioID(5), HwsimAttrs::Cookie(3)],
    };
    let ftx = GenlFrameTX::parse(&msg).unwrap();
    assert_eq!(ftx.cookie, 3);
    assert_eq!(ftx.addr_transmitter, [0, 0, 0, 0, 0, 0]);
}

#[test]
fn frame_rx_emits_canonical_attrs() {
    let rx = GenlFrameRX {
        addr_receiver: [9, 8, 7, 6, 5, 4],
        frame: plain_frame(vec![0x55]),
        rx_rate: 2,
        signal: 0xFFFF_FFC3,
        freq: 2412,
    };
    let msg = rx.generate_genl_message().unwrap();
    assert_eq!(msg.cmd, HwsimCmd::Frame);
    assert_eq!(
        msg.nlas,
        vec![
            HwsimAttrs::AddrReceiver([9, 8, 7, 6, 5, 4]),
            HwsimAttrs::Frame(plain_frame(vec![0x55])),
            HwsimAttrs::RXRate(2),
            HwsimAttrs::Signal(0xFFFF_FFC3),
            HwsimAttrs::Freq(2412),
        ]
    );
}

#[test]
fn tx_info_frame_emits_canonical_attrs() {
    let tx_info = [TXInfo { idx: 1, count: 1 }; 4];
    let echo = GenlTXInfoFrame {
        addr_transmitter: [1, 2, 3, 4, 5, 6],
        flags: 8,
        cookie: 99,
        signal: 7,
        tx_info,
    };
    let msg = echo.generate_genl_message().unwrap();
    assert_eq!(msg.cmd, HwsimCmd::TXInfoFrame);
    assert_eq!(
        msg.nlas,
        vec![
            HwsimAttrs::AddrTransmitter([1, 2, 3, 4, 5, 6]),
            HwsimAttrs::Flags(8),
            HwsimAttrs::Cookie(99),
            HwsimAttrs::Signal(7),
            HwsimAttrs::TXInfo(tx_info),
        ]
    );
}

#[test]
fn new_radio_presence_flags_only_when_true() {
    let mut nr = GenlNewRadio::default();
    nr.channels = 2;
    nr.radio_name = b"r0".to_vec();
    nr.perm_addr = [0x42, 0, 0, 0, 0, 1];
    let plain = nr.generate_genl_message().unwrap();
    assert_eq!(plain.cmd, HwsimCmd::NewRadio);
    assert_eq!(
        plain.nlas,
        vec![
            HwsimAttrs::Channels(2),
            HwsimAttrs::RadioName(b"r0".to_vec()),
            HwsimAttrs::PermAddr([0x42, 0, 0, 0, 0, 1]),
        ]
    );
    nr.support_p2p_device = true;
    nr.use_chanctx = true;
    nr.destroy_radio_on_close = true;
    nr.no_vif = true;
    let full = nr.generate_genl_message().unwrap();
    assert_eq!(
        full.nlas,
        vec![
            HwsimAttrs::Channels(2),
            HwsimAttrs::SupportP2PDevice(true),
            HwsimAttrs::UseChanctx(true),
            HwsimAttrs::DestroyRadioOnClose(true),
            HwsimAttrs::RadioName(b"r0".to_vec()),
            HwsimAttrs::NoVif(true),
            HwsimAttrs::PermAddr([0x42, 0, 0, 0, 0, 1]),
        ]
    );
}

#[test]
fn directional_contract_is_enforced() {
    let dummy = GenlMAC { cmd: HwsimCmd::Register, nlas: vec![] };
    assert_eq!(GenlRegister::parse(&dummy), Err(ProtocolError::Unsupported));
    assert_eq!(GenlFrameTX::default().generate_genl_message(), Err(ProtocolError::Unsupported));
    assert_eq!(GenlFrameRX::parse(&dummy), Err(ProtocolError::Unsupported));
    assert_eq!(GenlTXInfoFrame::parse(&dummy), Err(ProtocolError::Unsupported));
    assert_eq!(GenlNewRadio::parse(&dummy), Err(ProtocolError::Unsupported));
}

#[test]
fn radio_queries() {
    let ops = GenlRadioOps { idx: 4 };
    let dump = ops.generate_genl_dump();
    assert_eq!(dump.cmd, HwsimCmd::GetRadio);
    assert!(dump.nlas.is_empty());
    let get = ops.generate_genl_get();
    assert_eq!(get.cmd, HwsimCmd::GetRadio);
    assert_eq!(get.nlas, vec![HwsimAttrs::RadioID(4)]);
}
