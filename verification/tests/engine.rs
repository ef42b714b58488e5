use hwsim_medium::attrs::HwsimAttrs;
use hwsim_medium::engine::{
    EngineAction, EngineEvent, EngineState, PeerFrame, RadioDescriptor, RadioEngine, UnitError,
    DEFAULT_SIGNAL,
};
use hwsim_medium::frame::{Frame, IEEE80211Header, TXInfo};
use hwsim_medium::msg::{GenlMAC, HwsimCmd};
use hwsim_medium::topology::{HwsimRadio, Link, Topology};

const ADDR_A: [u8; 6] = [0xaa, 0xaa, 0xaa, 0xaa, 0xaa, 0xaa];
const ADDR_B: [u8; 6] = [0xbb, 0xbb, 0xbb, 0xbb, 0xbb, 0xbb];
const ADDR_C: [u8; 6] = [0xcc, 0xcc, 0xcc, 0xcc, 0xcc, 0xcc];
const BROADCAST: [u8; 6] = [0xff; 6];

fn descriptor(id: u32, perm_addr: [u8; 6]) -> RadioDescriptor {
    RadioDescriptor {
        id,
        perm_addr,
        channels: 2,
        support_p2p_device: false,
        use_chanctx: false,
        destroy_radio_on_close: true,
        no_vif: false,
        radio_name: format!("radio{id}").into_bytes(),
    }
}

fn two_radio_topology() -> Topology {
    let radios = vec![
        HwsimRadio { addr: ADDR_A, hw_addr: ADDR_A },
        HwsimRadio { addr: ADDR_B, hw_addr: ADDR_B },
    ];
    let links = vec![Link { source: 0, destination: 1, mutual: true }];
    Topology::new(&radios, &links).unwrap()
}

fn frame_to(dest: [u8; 6], payload: &[u8]) -> Frame {
    Frame {
        header: IEEE80211Header {
            frame_control: [0x08, 0x00],
            duration_id: [0, 0],
            addr1: dest,
            addr2: ADDR_A,
            addr3: ADDR_A,
            seq_ctrl: [0, 0],
            addr4: [0, 0, 0, 0, 0, 0],
            qos: [0, 0],
        },
        payload: payload.to_vec(),
    }
}

fn rates() -> [TXInfo; 4] {
    [
        TXInfo { idx: 3, count: 1 },
        TXInfo { idx: -1, count: 0 },
        TXInfo { idx: -1, count: 0 },
        TXInfo { idx: -1, count: 0 },
    ]
}

fn started_engine(id: u32, addr: [u8; 6]) -> RadioEngine {
    let mut e = RadioEngine::new(descriptor(id, addr), 256, 256, 128);
    e.start(true, true).unwrap();
    e
}

#[test]
fn start_emits_register_and_new_radio() {
    let mut e = RadioEngine::new(descriptor(0, ADDR_A), 256, 256, 128);
    assert_eq!(e.state, EngineState::Initializing);
    let acts = e.start(true, true).unwrap();
    assert_eq!(e.state, EngineState::Running);
    assert_eq!(acts.len(), 2);
    match &acts[0] {
        EngineAction::SendControl(m) => {
            assert_eq!(m.cmd, HwsimCmd::Register);
            assert!(m.nlas.is_empty());
        },
        other => panic!("expected a control send, got {other:?}"),
    }
    match &acts[1] {
        EngineAction::SendControl(m) => {
            assert_eq!(m.cmd, HwsimCmd::NewRadio);
            assert!(m.nlas.contains(&HwsimAttrs::Channels(2)));
            assert!(m.nlas.contains(&HwsimAttrs::RadioName(b"radio0".to_vec())));
            assert!(m.nlas.contains(&HwsimAttrs::PermAddr(ADDR_A)));
            assert!(m.nlas.contains(&HwsimAttrs::DestroyRadioOnClose(true)));
        },
        other => panic!("expected a control send, got {other:?}"),
    }
}

#[test]
fn start_failures_stop_only_this_unit() {
    let mut sandboxless = RadioEngine::new(descriptor(0, ADDR_A), 256, 256, 128);
    assert_eq!(sandboxless.start(false, true), Err(UnitError::SandboxError));
    assert_eq!(sandboxless.state, EngineState::Stopped);
    let mut unmapped = RadioEngine::new(descriptor(1, ADDR_B), 256, 256, 128);
    assert_eq!(unmapped.start(true, false), Err(UnitError::MappingError));
    assert_eq!(unmapped.state, EngineState::Stopped);
}

#[test]
fn registration_rejection_stops_only_this_unit() {
    let mut e = started_engine(0, ADDR_A);
    e.registration_failed();
    assert_eq!(e.state, EngineState::Stopped);
}

#[test]
fn broadcast_scenario_delivers_and_echoes() {
    // Two radios, one mutual link. Radio 0 transmits to the broadcast
    // address: radio 1's ring receives exactly one record with the
    // original payload, and radio 0's control channel gets a status echo
    // with the same cookie.
    let topo = two_radio_topology();
    let mut e0 = started_engine(0, ADDR_A);
    let mut e1 = started_engine(1, ADDR_B);

    let frame = frame_to(BROADCAST, b"ping");
    let mut fb = Vec::new();
    frame.emit(&mut fb);
    e0.kernel_write_tx(0, &fb);

    let ctrl = GenlMAC {
        cmd: HwsimCmd::Frame,
        nlas: vec![
            HwsimAttrs::AddrTransmitter(ADDR_A),
            HwsimAttrs::Flags(0),
            HwsimAttrs::TXInfo(rates()),
            HwsimAttrs::Cookie(0x1234),
            HwsimAttrs::Freq(2412),
            HwsimAttrs::SharedMemoryPointer(0),
        ],
    };
    let acts = e0.handle_control(&topo, &ctrl);
    assert_eq!(acts.len(), 2);

    let pf = match &acts[0] {
        EngineAction::Deliver(id, pf) => {
            assert_eq!(*id, 1);
            assert_eq!(pf.frame, frame);
            assert_eq!(pf.cookie, 0x1234);
            pf
        },
        other => panic!("expected a delivery, got {other:?}"),
    };
    match &acts[1] {
        EngineAction::SendControl(m) => {
            assert_eq!(m.cmd, HwsimCmd::TXInfoFrame);
            assert!(m.nlas.contains(&HwsimAttrs::Cookie(0x1234)));
            assert!(m.nlas.contains(&HwsimAttrs::AddrTransmitter(ADDR_A)));
            assert!(m.nlas.contains(&HwsimAttrs::Signal(DEFAULT_SIGNAL)));
        },
        other => panic!("expected the status echo, got {other:?}"),
    }

    // Radio 1 takes the forwarded frame: one record in its receive ring,
    // one reception notice back to the kernel driver.
    let acts1 = e1.handle_peer(pf);
    let (record, next) = e1.rx_ring.read_record(0, 256).unwrap();
    assert_eq!(record, fb);
    assert_eq!(&record[32..], b"ping");
    assert_eq!(e1.rx_cursor, next);
    assert_eq!(acts1.len(), 1);
    match &acts1[0] {
        EngineAction::SendControl(m) => {
            assert_eq!(m.cmd, HwsimCmd::RXInfoNotify);
            assert!(m.nlas.contains(&HwsimAttrs::AddrReceiver(ADDR_B)));
            assert!(m.nlas.contains(&HwsimAttrs::Cookie(0x1234)));
            assert!(m.nlas.contains(&HwsimAttrs::RXRate(3)));
            assert!(m.nlas.contains(&HwsimAttrs::Signal(DEFAULT_SIGNAL)));
            assert!(m.nlas.contains(&HwsimAttrs::SharedMemoryPointer(0)));
        },
        other => panic!("expected a reception notice, got {other:?}"),
    }
}

#[test]
fn inline_frame_without_ring_pointer() {
    let topo = two_radio_topology();
    let mut e0 = started_engine(0, ADDR_A);
    let frame = frame_to(ADDR_B, b"direct");
    let ctrl = GenlMAC {
        cmd: HwsimCmd::Frame,
        nlas: vec![
            HwsimAttrs::AddrTransmitter(ADDR_A),
            HwsimAttrs::Frame(frame.clone()),
            HwsimAttrs::TXInfo(rates()),
            HwsimAttrs::Cookie(5),
        ],
    };
    let acts = e0.handle_control(&topo, &ctrl);
    assert_eq!(acts.len(), 2);
    match &acts[0] {
        EngineAction::Deliver(id, pf) => {
            assert_eq!(*id, 1);
            assert_eq!(pf.frame, frame);
        },
        other => panic!("expected a delivery, got {other:?}"),
    }
}

#[test]
fn unroutable_destination_still_echoes() {
    let topo = two_radio_topology();
    let mut e0 = started_engine(0, ADDR_A);
    let ctrl = GenlMAC {
        cmd: HwsimCmd::Frame,
        nlas: vec![
            HwsimAttrs::Frame(frame_to(ADDR_C, b"nobody")),
            HwsimAttrs::Cookie(8),
        ],
    };
    let acts = e0.handle_control(&topo, &ctrl);
    // No neighbor wears that address: the frame goes nowhere, the echo
    // still answers the kernel driver.
    assert_eq!(acts.len(), 1);
    match &acts[0] {
        EngineAction::SendControl(m) => assert_eq!(m.cmd, HwsimCmd::TXInfoFrame),
        other => panic!("expected only the echo, got {other:?}"),
    }
}

#[test]
fn corrupt_ring_record_drops_the_event() {
    let topo = two_radio_topology();
    let mut e0 = started_engine(0, ADDR_A);
    // A bogus length prefix in the transmit ring.
    e0.kernel_write_tx(0, &[0xff; 200]);
    let ctrl = GenlMAC {
        cmd: HwsimCmd::Frame,
        nlas: vec![HwsimAttrs::SharedMemoryPointer(0)],
    };
    let acts = e0.handle_control(&topo, &ctrl);
    assert!(acts.is_empty());
    assert_eq!(e0.state, EngineState::Running);
}

#[test]
fn unrelated_commands_are_ignored() {
    let topo = two_radio_topology();
    let mut e0 = started_engine(0, ADDR_A);
    let ctrl = GenlMAC { cmd: HwsimCmd::DelRadio, nlas: vec![] };
    assert!(e0.handle_control(&topo, &ctrl).is_empty());
    assert_eq!(e0.state, EngineState::Running);
}

#[test]
fn termination_reaches_stopped_and_ends_ring_writes() {
    let topo = two_radio_topology();
    let mut e0 = started_engine(0, ADDR_A);
    let acts = e0.on_terminate();
    assert_eq!(acts, vec![EngineAction::ReleaseIsolation, EngineAction::ReleaseMapping]);
    assert_eq!(e0.state, EngineState::Terminating);
    // Delivered again, the signal is a no-op.
    assert!(e0.on_terminate().is_empty());
    e0.on_teardown_complete();
    assert_eq!(e0.state, EngineState::Stopped);

    // No further event does anything: no actions, no ring writes.
    let ring_before = e0.rx_ring.read_bytes(0, 256);
    let pf = PeerFrame {
        addr_transmitter: ADDR_B,
        frame: frame_to(ADDR_A, b"late"),
        tx_info: rates(),
        flags: 0,
        cookie: 1,
        freq: 2412,
    };
    assert!(e0.step(&topo, &EngineEvent::Peer(pf)).is_empty());
    let ctrl = GenlMAC {
        cmd: HwsimCmd::Frame,
        nlas: vec![HwsimAttrs::Frame(frame_to(BROADCAST, b"x"))],
    };
    assert!(e0.step(&topo, &EngineEvent::Control(ctrl)).is_empty());
    assert!(e0.step(&topo, &EngineEvent::Terminate).is_empty());
    assert_eq!(e0.rx_ring.read_bytes(0, 256), ring_before);
    assert_eq!(e0.state, EngineState::Stopped);
}

#[test]
fn mapping_failure_for_one_radio_leaves_siblings_working() {
    // Three radios; the link joins radio 0 and radio 2. Radio 1 fails to
    // map its region; radios 0 and 2 still run their loops end to end.
    let radios = vec![
        HwsimRadio { addr: ADDR_A, hw_addr: ADDR_A },
        HwsimRadio { addr: ADDR_B, hw_addr: ADDR_B },
        HwsimRadio { addr: ADDR_C, hw_addr: ADDR_C },
    ];
    let links = vec![Link { source: 0, destination: 2, mutual: true }];
    let topo = Topology::new(&radios, &links).unwrap();

    let mut a = started_engine(0, ADDR_A);
    let mut b = RadioEngine::new(descriptor(1, ADDR_B), 256, 256, 128);
    assert_eq!(b.start(true, false), Err(UnitError::MappingError));
    assert_eq!(b.state, EngineState::Stopped);
    let mut c = started_engine(2, ADDR_C);

    let ctrl = GenlMAC {
        cmd: HwsimCmd::Frame,
        nlas: vec![
            HwsimAttrs::AddrTransmitter(ADDR_A),
            HwsimAttrs::Frame(frame_to(BROADCAST, b"still-on")),
            HwsimAttrs::TXInfo(rates()),
            HwsimAttrs::Cookie(21),
        ],
    };
    let acts = a.handle_control(&topo, &ctrl);
    assert_eq!(acts.len(), 2);
    match &acts[0] {
        EngineAction::Deliver(id, pf) => {
            assert_eq!(*id, 2);
            let acts_c = c.handle_peer(pf);
            assert_eq!(acts_c.len(), 1);
            let (record, _) = c.rx_ring.read_record(0, 256).unwrap();
            assert_eq!(&record[32..], b"still-on");
        },
        other => panic!("expected a delivery, got {other:?}"),
    }
    // The failed unit stays inert throughout.
    let ctrl2 = GenlMAC { cmd: HwsimCmd::Frame, nlas: vec![] };
    assert!(b.step(&topo, &EngineEvent::Control(ctrl2)).is_empty());
    assert_eq!(b.state, EngineState::Stopped);
}

#[test]
fn oversized_forwarded_frame_is_dropped() {
    let mut e1 = started_engine(1, ADDR_B);
    // The receive ring holds 256 bytes; this frame cannot fit.
    let pf = PeerFrame {
        addr_transmitter: ADDR_A,
        frame: frame_to(ADDR_B, &[0u8; 400]),
        tx_info: rates(),
        flags: 0,
        cookie: 2,
        freq: 2412,
    };
    assert!(e1.handle_peer(&pf).is_empty());
    assert_eq!(e1.rx_cursor, 0);
}
