use hwsim_medium::config::{Config, Radio};
use hwsim_medium::topology::{HwsimRadio, Link, Topology};

const ADDR_A: [u8; 6] = [0xaa, 0, 0, 0, 0, 1];
const ADDR_B: [u8; 6] = [0xbb, 0, 0, 0, 0, 2];
const ADDR_C: [u8; 6] = [0xcc, 0, 0, 0, 0, 3];
const BROADCAST: [u8; 6] = [0xff; 6];
const ZERO: [u8; 6] = [0; 6];

fn radio(addr: [u8; 6]) -> HwsimRadio {
    HwsimRadio { addr, hw_addr: addr }
}

fn three_radios() -> Vec<HwsimRadio> {
    vec![radio(ADDR_A), radio(ADDR_B), radio(ADDR_C)]
}

#[test]
fn broadcast_reaches_every_peer_but_the_source() {
    let links = vec![
        Link { source: 0, destination: 1, mutual: true },
        Link { source: 0, destination: 2, mutual: false },
    ];
    let t = Topology::new(&three_radios(), &links).unwrap();
    let from_a = t.resolve(0, &BROADCAST);
    assert_eq!(from_a.len(), 2);
    assert_eq!(from_a[0].id, 1);
    assert_eq!(from_a[0].hw_addr, ADDR_B);
    assert_eq!(from_a[1].id, 2);
    assert_eq!(from_a[1].hw_addr, ADDR_C);
    // The mutual link carries traffic back; the one-way link does not.
    let from_b = t.resolve(1, &BROADCAST);
    assert_eq!(from_b.len(), 1);
    assert_eq!(from_b[0].id, 0);
    assert!(t.resolve(2, &BROADCAST).is_empty());
}

#[test]
fn zero_address_routes_like_broadcast() {
    let links = vec![Link { source: 0, destination: 1, mutual: true }];
    let t = Topology::new(&three_radios(), &links).unwrap();
    let r = t.resolve(0, &ZERO);
    assert_eq!(r.len(), 1);
    assert_eq!(r[0].id, 1);
}

#[test]
fn unicast_reaches_at_most_the_matching_peer() {
    let links = vec![
        Link { source: 0, destination: 1, mutual: false },
        Link { source: 0, destination: 2, mutual: false },
    ];
    let t = Topology::new(&three_radios(), &links).unwrap();
    let hit = t.resolve(0, &ADDR_C);
    assert_eq!(hit.len(), 1);
    assert_eq!(hit[0].id, 2);
    // An address nobody wears: a silent miss, not an error.
    let miss = t.resolve(0, &[0x11, 0x22, 0x33, 0x44, 0x55, 0x66]);
    assert!(miss.is_empty());
    // A neighbor's address is no help if no link reaches it.
    let unlinked = t.resolve(1, &ADDR_C);
    assert!(unlinked.is_empty());
}

#[test]
fn unknown_source_reaches_nobody() {
    let links = vec![Link { source: 0, destination: 1, mutual: true }];
    let t = Topology::new(&three_radios(), &links).unwrap();
    assert!(t.resolve(9, &BROADCAST).is_empty());
}

#[test]
fn duplicate_links_deliver_once() {
    let links = vec![
        Link { source: 0, destination: 1, mutual: false },
        Link { source: 0, destination: 1, mutual: true },
    ];
    let t = Topology::new(&three_radios(), &links).unwrap();
    assert_eq!(t.resolve(0, &BROADCAST).len(), 1);
}

#[test]
fn self_links_never_deliver() {
    let links = vec![Link { source: 0, destination: 0, mutual: true }];
    let t = Topology::new(&three_radios(), &links).unwrap();
    assert!(t.resolve(0, &BROADCAST).is_empty());
}

#[test]
fn duplicate_address_is_rejected() {
    let radios = vec![radio(ADDR_A), radio(ADDR_A)];
    assert!(Topology::new(&radios, &Vec::new()).is_none());
}

#[test]
fn link_to_undefined_radio_is_rejected() {
    let links = vec![Link { source: 0, destination: 7, mutual: false }];
    assert!(Topology::new(&three_radios(), &links).is_none());
}

#[test]
fn config_conversions() {
    let r = Radio {
        channels: 2,
        support_p2p_device: true,
        use_chanctx: false,
        destroy_radio_on_close: true,
        no_vif: false,
        perm_addr: ADDR_A,
    };
    let nr = r.into_new_radio();
    assert_eq!(nr.channels, 2);
    assert!(nr.support_p2p_device);
    assert!(!nr.use_chanctx);
    assert!(nr.destroy_radio_on_close);
    assert!(!nr.no_vif);
    assert_eq!(nr.perm_addr, ADDR_A);
    assert!(nr.radio_name.is_empty());
    assert_eq!(nr.reg_custom_reg, 0);
    let cfg = Config { radios: vec![r] };
    let registry = cfg.to_hwsim_radios();
    assert_eq!(registry.radios.len(), 1);
    assert_eq!(registry.radios[0].addr, ADDR_A);
    assert_eq!(registry.radios[0].hw_addr, ADDR_A);
}
