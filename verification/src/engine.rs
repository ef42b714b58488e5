//! The per-radio forwarding engine: a state machine from events to actions.
//!
//! One engine runs per configured radio. Its lifecycle is Initializing,
//! Running, Terminating, Stopped. While Running it answers three kinds of
//! event: a control message from the kernel driver (a transmission event is
//! routed to the peers the topology selects, and a status echo goes back),
//! a frame forwarded by a peer engine (written into this radio's own
//! receive ring, answered with a reception notice), and the shared
//! termination signal (the engine leaves Running for good).
//!
//! The engine decides; it performs no I/O. Every decision comes back as an
//! [`EngineAction`] for the surrounding runtime to carry out: send a
//! control message, hand a frame to a peer's queue, release the isolation
//! context or the mapping. Failures stay local: a damaged ring record or an
//! unroutable frame costs that one event, never the engine.

use crate::attrs::{attrs_model, AttrModel, HwsimAttrs};
use crate::frame::{frame_bytes, Frame, TXInfo};
use crate::msg::{GenlMAC, HwsimCmd};
use crate::ring::{record_bytes, ring_read, ring_write, RingRegion, MAX_RING_SIZE};
use crate::structs::{
    fold_frame_tx, frame_tx_default, new_radio_attr_models, tx_info_frame_attr_models,
    GenlFrameTX, GenlNewRadio, GenlNewRadioView, GenlRegister, GenlTXInfoFrame,
    GenlTXInfoFrameView,
};
use crate::topology::{is_broadcast_addr, is_zero_addr, Topology};
use crate::MACAddress;
use vstd::bytes::spec_u32_from_le_bytes;
use vstd::prelude::*;

verus! {

broadcast use vstd::array::group_array_axioms;

/// The synthesized signal strength reported for every delivered frame:
/// a fixed constant standing in for path loss, in two's complement inside
/// an unsigned field.
pub const DEFAULT_SIGNAL: u32 = 0xFFFF_FFC3;

/// A resource-acquisition failure while a radio unit starts. Fatal to that
/// unit alone.
#[derive(Clone, Copy, Debug, PartialEq, Eq, Structural)]
pub enum UnitError {
    SandboxError,
    MappingError,
    RegistrationError,
}

/// Where a radio unit stands in its lifecycle.
#[derive(Clone, Copy, Debug, PartialEq, Eq, Structural)]
pub enum EngineState {
    Initializing,
    Running,
    Terminating,
    Stopped,
}

/// A radio's identity and capabilities, fixed at startup from
/// configuration.
#[derive(Debug, PartialEq, Eq)]
pub struct RadioDescriptor {
    pub id: u32,
    pub perm_addr: MACAddress,
    pub channels: u32,
    pub support_p2p_device: bool,
    pub use_chanctx: bool,
    pub destroy_radio_on_close: bool,
    pub no_vif: bool,
    pub radio_name: Vec<u8>,
}

impl Clone for RadioDescriptor {
    /// A copy of the descriptor: every field equal, the name byte for
    /// byte.
    fn clone(&self) -> (r: Self)
        ensures
            r.id == self.id,
            r.perm_addr == self.perm_addr,
            r.channels == self.channels,
            r.support_p2p_device == self.support_p2p_device,
            r.use_chanctx == self.use_chanctx,
            r.destroy_radio_on_close == self.destroy_radio_on_close,
            r.no_vif == self.no_vif,
            r.radio_name@ == self.radio_name@,
    {
        let mut radio_name: Vec<u8> = Vec::new();
        radio_name.extend_from_slice(self.radio_name.as_slice());
        let r = RadioDescriptor {
            id: self.id,
            perm_addr: self.perm_addr,
            channels: self.channels,
            support_p2p_device: self.support_p2p_device,
            use_chanctx: self.use_chanctx,
            destroy_radio_on_close: self.destroy_radio_on_close,
            no_vif: self.no_vif,
            radio_name,
        };
        proof {
            assert(r.radio_name@ =~= self.radio_name@);
        }
        r
    }
}

/// The radio creation request a descriptor stands for.
pub open spec fn new_radio_of_descriptor(d: RadioDescriptor) -> GenlNewRadioView {
    GenlNewRadioView {
        channels: d.channels,
        reg_hint_alpha2: Seq::empty(),
        reg_custom_reg: 0,
        reg_strict_reg: false,
        support_p2p_device: d.support_p2p_device,
        use_chanctx: d.use_chanctx,
        destroy_radio_on_close: d.destroy_radio_on_close,
        radio_name: d.radio_name@,
        no_vif: d.no_vif,
        perm_addr: d.perm_addr@,
        iftype_support: 0,
        cipher_support: Seq::empty(),
    }
}

/// A frame in flight between engines, with the transmit bookkeeping the
/// destination needs to answer.
#[derive(Debug, PartialEq, Eq)]
pub struct PeerFrame {
    pub addr_transmitter: MACAddress,
    pub frame: Frame,
    pub tx_info: [TXInfo; 4],
    pub flags: u32,
    pub cookie: u64,
    pub freq: u32,
}

/// A forwarded frame as a mathematical value.
#[verifier::ext_equal]
pub struct PeerFrameView {
    pub addr_transmitter: Seq<u8>,
    pub frame: Seq<u8>,
    pub tx_info: Seq<TXInfo>,
    pub flags: u32,
    pub cookie: u64,
    pub freq: u32,
}

impl View for PeerFrame {
    type V = PeerFrameView;

    open spec fn view(&self) -> PeerFrameView {
        PeerFrameView {
            addr_transmitter: self.addr_transmitter@,
            frame: frame_bytes(self.frame),
            tx_info: self.tx_info@,
            flags: self.flags,
            cookie: self.cookie,
            freq: self.freq,
        }
    }
}

/// What the runtime must do on the engine's behalf.
#[derive(Debug, PartialEq, Eq)]
pub enum EngineAction {
    /// Send this control message to the kernel driver.
    SendControl(GenlMAC),
    /// Hand this frame to the named radio's inbound queue.
    Deliver(u32, PeerFrame),
    /// Release the unit's isolation context.
    ReleaseIsolation,
    /// Release the unit's ring mapping.
    ReleaseMapping,
}

/// What the engine can be asked to handle.
#[derive(Debug, PartialEq, Eq)]
pub enum EngineEvent {
    /// A control message arrived from the kernel driver.
    Control(GenlMAC),
    /// A peer engine forwarded a frame.
    Peer(PeerFrame),
    /// The shared termination signal fired.
    Terminate,
}

/// The signed rate index as the kernel's unsigned rate field carries it.
pub open spec fn rate_field(x: i8) -> u32 {
    if x >= 0 {
        x as u32
    } else {
        (x + 0x1_0000_0000) as u32
    }
}

/// The last shared-memory pointer among the attributes, if any.
pub open spec fn sm_pointer_of(s: Seq<AttrModel>) -> Option<u64>
    decreases s.len(),
{
    if s.len() == 0 {
        Option::None
    } else {
        match s.last() {
            AttrModel::MSmPointer(x) => Option::Some(x),
            _ => sm_pointer_of(s.drop_last()),
        }
    }
}

/// One radio's forwarding engine.
#[derive(Debug, PartialEq, Eq)]
pub struct RadioEngine {
    pub descriptor: RadioDescriptor,
    pub state: EngineState,
    /// The receive half of this radio's region: this engine writes records
    /// here for the kernel driver to read.
    pub rx_ring: RingRegion,
    /// The transmit half: the kernel driver writes records here and hands
    /// this engine offsets into it.
    pub tx_ring: RingRegion,
    /// This engine's write cursor into its receive half. Owned exclusively
    /// here; the reader never advances it.
    pub rx_cursor: usize,
    /// Longest record this engine accepts from its transmit half.
    pub max_record: usize,
}

impl RadioEngine {
    /// Structural health: usable rings and an in-range cursor.
    pub open spec fn wf(self) -> bool {
        &&& self.rx_ring.wf()
        &&& self.tx_ring.wf()
        &&& self.rx_cursor < self.rx_ring@.len()
        &&& 4 <= self.rx_ring@.len()
        &&& 4 <= self.tx_ring@.len()
    }
}

/// Nothing about the engine moved.
pub open spec fn engine_unchanged(pre: RadioEngine, post: RadioEngine) -> bool {
    &&& post.descriptor == pre.descriptor
    &&& post.state == pre.state
    &&& post.rx_ring@ == pre.rx_ring@
    &&& post.tx_ring@ == pre.tx_ring@
    &&& post.rx_cursor == pre.rx_cursor
    &&& post.max_record == pre.max_record
}

/// Only the lifecycle state moved.
pub open spec fn engine_at_state(pre: RadioEngine, post: RadioEngine, st: EngineState) -> bool {
    &&& post.descriptor == pre.descriptor
    &&& post.state == st
    &&& post.rx_ring@ == pre.rx_ring@
    &&& post.tx_ring@ == pre.tx_ring@
    &&& post.rx_cursor == pre.rx_cursor
    &&& post.max_record == pre.max_record
}

/// What the termination signal does: a unit that is Initializing or
/// Running moves to Terminating and asks for its resources to be released;
/// a unit already on its way down, or down, is left alone — the signal is
/// idempotent, safe to deliver more than once.
pub open spec fn terminate_post(
    pre: RadioEngine,
    post: RadioEngine,
    actions: Seq<EngineAction>,
) -> bool {
    match pre.state {
        EngineState::Initializing | EngineState::Running => {
            &&& engine_at_state(pre, post, EngineState::Terminating)
            &&& actions =~= seq![EngineAction::ReleaseIsolation, EngineAction::ReleaseMapping]
        },
        EngineState::Terminating | EngineState::Stopped => {
            &&& engine_unchanged(pre, post)
            &&& actions.len() == 0
        },
    }
}

/// The attribute run of the reception notice an engine sends after
/// writing a forwarded frame into its receive ring at `offset`.
pub open spec fn rx_notify_models(
    pre: RadioEngine,
    pfv: PeerFrameView,
    offset: int,
) -> Seq<AttrModel> {
    seq![
        AttrModel::MAddrReceiver(pre.descriptor.perm_addr@),
        AttrModel::MRXRate(rate_field(pfv.tx_info[0].idx)),
        AttrModel::MSignal(DEFAULT_SIGNAL),
        AttrModel::MFreq(pfv.freq),
        AttrModel::MCookie(pfv.cookie),
        AttrModel::MSmPointer(offset as u64),
    ]
}

/// What a forwarded frame does: a unit that is not Running ignores it; a
/// frame too big for the receive ring is dropped; otherwise the frame's
/// wire bytes go into the receive ring as one record at the write cursor,
/// the cursor advances past the record, and one reception notice goes back
/// to the kernel driver carrying the record's offset.
pub open spec fn peer_post(
    pre: RadioEngine,
    post: RadioEngine,
    pfv: PeerFrameView,
    actions: Seq<EngineAction>,
) -> bool {
    if pre.state != EngineState::Running {
        engine_unchanged(pre, post) && actions.len() == 0
    } else if pfv.frame.len() + 4 > pre.rx_ring@.len() {
        engine_unchanged(pre, post) && actions.len() == 0
    } else {
        &&& post.descriptor == pre.descriptor
        &&& post.state == pre.state
        &&& post.tx_ring@ == pre.tx_ring@
        &&& post.max_record == pre.max_record
        &&& post.rx_ring@ == ring_write(
            pre.rx_ring@,
            pre.rx_cursor as int,
            record_bytes(pfv.frame),
        )
        &&& post.rx_cursor == (pre.rx_cursor + 4 + pfv.frame.len()) % (pre.rx_ring@.len() as int)
        &&& actions.len() == 1
        &&& actions[0] matches EngineAction::SendControl(msg) && msg.cmd == HwsimCmd::RXInfoNotify
            && attrs_model(msg.nlas@) == rx_notify_models(pre, pfv, pre.rx_cursor as int)
    }
}

/// The frame bytes a transmission event refers to: taken from the
/// transmit ring when the message carries a shared-memory pointer, inline
/// from the frame attribute otherwise. `None` means the event is dropped —
/// a pointer outside the ring, a corrupt record, or a record too short to
/// hold a frame header.
pub open spec fn control_frame_source(pre: RadioEngine, models: Seq<AttrModel>) -> Option<Seq<u8>> {
    match sm_pointer_of(models) {
        Option::None => Option::Some(fold_frame_tx(frame_tx_default(), models).frame),
        Option::Some(off) => {
            let m = pre.tx_ring@.len() as int;
            if off >= m {
                Option::None
            } else {
                let declared = spec_u32_from_le_bytes(ring_read(pre.tx_ring@, off as int, 4)) as int;
                if declared > pre.max_record || declared + 4 > m {
                    Option::None
                } else {
                    let rec = ring_read(pre.tx_ring@, (off + 4) % m, declared);
                    if rec.len() < 32 {
                        Option::None
                    } else {
                        Option::Some(rec)
                    }
                }
            }
        },
    }
}

/// The destination address a frame's wire bytes carry.
pub open spec fn frame_dest(fb: Seq<u8>) -> Seq<u8>
    recommends
        fb.len() >= 32,
{
    fb.subrange(4, 10)
}

/// The status echo answering a transmission event.
pub open spec fn echo_view(ftxv: crate::structs::GenlFrameTXView) -> GenlTXInfoFrameView {
    GenlTXInfoFrameView {
        addr_transmitter: ftxv.addr_transmitter,
        flags: ftxv.flags,
        cookie: ftxv.cookie,
        signal: DEFAULT_SIGNAL,
        tx_info: ftxv.tx_info,
    }
}

/// What a control message does. A unit that is not Running, or any command
/// but a transmission event, is ignored. A transmission event resolves its
/// frame bytes (ring or inline; a bad record drops the event), then emits
/// one delivery per peer the topology selects for the frame's destination
/// address, and one status echo back to the kernel driver. The engine
/// itself does not change: reading its transmit ring moves nothing.
pub open spec fn control_post(
    pre: RadioEngine,
    post: RadioEngine,
    topo: Topology,
    cmd: HwsimCmd,
    models: Seq<AttrModel>,
    actions: Seq<EngineAction>,
) -> bool {
    if pre.state != EngineState::Running || cmd != HwsimCmd::Frame {
        engine_unchanged(pre, post) && actions.len() == 0
    } else {
        match control_frame_source(pre, models) {
            Option::None => engine_unchanged(pre, post) && actions.len() == 0,
            Option::Some(fb) => {
                let ftxv = fold_frame_tx(frame_tx_default(), models);
                let dest = frame_dest(fb);
                let src = pre.descriptor.id as int;
                let pfv = PeerFrameView {
                    addr_transmitter: ftxv.addr_transmitter,
                    frame: fb,
                    tx_info: ftxv.tx_info,
                    flags: ftxv.flags,
                    cookie: ftxv.cookie,
                    freq: ftxv.freq,
                };
                &&& engine_unchanged(pre, post)
                &&& actions.len() >= 1
                &&& actions.last() matches EngineAction::SendControl(msg) && msg.cmd
                    == HwsimCmd::TXInfoFrame && attrs_model(msg.nlas@)
                    == tx_info_frame_attr_models(echo_view(ftxv))
                &&& forall|k: int|
                    0 <= k < actions.len() - 1 ==> ((#[trigger] actions[k]) matches
                        EngineAction::Deliver(id, pfo) && pfo@ == pfv && id != pre.descriptor.id)
                &&& (src >= topo.radio_count() ==> actions.len() == 1)
                &&& (src < topo.radio_count() && (is_broadcast_addr(dest) || is_zero_addr(dest))
                    ==> {
                    &&& actions.len() - 1 == topo.peers_of(src).len()
                    &&& forall|k: int|
                        0 <= k < actions.len() - 1 ==> ((#[trigger] actions[k]) matches
                            EngineAction::Deliver(id, pfo) && id == topo.peers_of(src)[k].id)
                })
                &&& (src < topo.radio_count() && !(is_broadcast_addr(dest) || is_zero_addr(dest))
                    ==> {
                    &&& actions.len() - 1 <= 1
                    &&& ((exists|j: int|
                        0 <= j < topo.peers_of(src).len() && (#[trigger] topo.peers_of(src)[j]).hw_addr@
                            == dest) <==> actions.len() - 1 == 1)
                    &&& (actions.len() - 1 == 1 ==> (actions[0] matches EngineAction::Deliver(
                        id,
                        pfo,
                    ) && exists|j: int|
                        0 <= j < topo.peers_of(src).len() && (#[trigger] topo.peers_of(src)[j]).id
                            == id && topo.peers_of(src)[j].hw_addr@ == dest))
                })
            },
        }
    }
}

/// The step relation of the whole engine, by event kind.
pub open spec fn step_post(
    pre: RadioEngine,
    post: RadioEngine,
    topo: Topology,
    ev: EngineEvent,
    actions: Seq<EngineAction>,
) -> bool {
    match ev {
        EngineEvent::Control(m) => control_post(
            pre,
            post,
            topo,
            m.cmd,
            attrs_model(m.nlas@),
            actions,
        ),
        EngineEvent::Peer(pf) => peer_post(pre, post, pf@, actions),
        EngineEvent::Terminate => terminate_post(pre, post, actions),
    }
}


/// Finds the last shared-memory pointer attribute, if any.
fn find_sm_pointer(nlas: &Vec<HwsimAttrs>) -> (r: Option<u64>)
    ensures
        r == sm_pointer_of(attrs_model(nlas@)),
{
    let ghost models = attrs_model(nlas@);
    let n: usize = nlas.len();
    let mut cur: Option<u64> = Option::None;
    let mut i: usize = 0;
    while i < n
        invariant
            i <= n,
            n == nlas@.len(),
            models == attrs_model(nlas@),
            cur == sm_pointer_of(models.subrange(0, i as int)),
        decreases n - i,
    {
        match &nlas[i] {
            HwsimAttrs::SharedMemoryPointer(v) => {
                cur = Option::Some(*v);
            },
            _ => {},
        }
        proof {
            assert(models[i as int] == crate::attrs::attr_model(nlas@[i as int]));
            assert(models.subrange(0, i + 1).drop_last() =~= models.subrange(0, i as int));
            assert(models.subrange(0, i + 1).last() == models[i as int]);
        }
        i = i + 1;
    }
    proof {
        assert(models.subrange(0, n as int) =~= models);
    }
    cur
}

impl RadioEngine {
    /// A fresh engine for one radio: zeroed rings of the given sizes, the
    /// receive cursor at the region's start, waiting to be started.
    pub fn new(descriptor: RadioDescriptor, rx_size: usize, tx_size: usize, max_record: usize) -> (r:
        RadioEngine)
        requires
            4 <= rx_size <= MAX_RING_SIZE,
            4 <= tx_size <= MAX_RING_SIZE,
        ensures
            r.state == EngineState::Initializing,
            r.descriptor == descriptor,
            r.rx_ring@ == Seq::new(rx_size as nat, |i: int| 0u8),
            r.tx_ring@ == Seq::new(tx_size as nat, |i: int| 0u8),
            r.rx_cursor == 0,
            r.max_record == max_record,
            r.wf(),
    {
        RadioEngine {
            descriptor,
            state: EngineState::Initializing,
            rx_ring: RingRegion::new(rx_size),
            tx_ring: RingRegion::new(tx_size),
            rx_cursor: 0,
            max_record,
        }
    }

    /// Brings the unit up. The runtime reports whether the isolation
    /// context and the ring mapping could be acquired; either failure
    /// stops this unit — and only this unit — with the matching error.
    /// On success the unit is Running and asks the runtime to send its
    /// registration and its radio creation message.
    pub fn start(&mut self, isolation_ok: bool, mapping_ok: bool) -> (r: Result<
        Vec<EngineAction>,
        UnitError,
    >)
        requires
            old(self).state == EngineState::Initializing,
            old(self).descriptor.radio_name@.len() + 4 <= 0xFFFF,
        ensures
            !isolation_ok ==> engine_at_state(*old(self), *final(self), EngineState::Stopped) && r
                == Result::<Vec<EngineAction>, UnitError>::Err(UnitError::SandboxError),
            isolation_ok && !mapping_ok ==> engine_at_state(
                *old(self),
                *final(self),
                EngineState::Stopped,
            ) && r == Result::<Vec<EngineAction>, UnitError>::Err(UnitError::MappingError),
            isolation_ok && mapping_ok ==> engine_at_state(
                *old(self),
                *final(self),
                EngineState::Running,
            ) && (r matches Result::Ok(acts) && acts@.len() == 2 && (acts@[0] matches
                EngineAction::SendControl(m0) && m0.cmd == HwsimCmd::Register && m0.nlas@.len()
                == 0) && (acts@[1] matches EngineAction::SendControl(m1) && m1.cmd
                == HwsimCmd::NewRadio && attrs_model(m1.nlas@) == new_radio_attr_models(
                new_radio_of_descriptor(old(self).descriptor),
            ))),
    {
        if !isolation_ok {
            self.state = EngineState::Stopped;
            return Result::Err(UnitError::SandboxError);
        }
        if !mapping_ok {
            self.state = EngineState::Stopped;
            return Result::Err(UnitError::MappingError);
        }
        self.state = EngineState::Running;
        let reg = GenlRegister {};
        let reg_msg = match reg.generate_genl_message() {
            Result::Ok(m) => m,
            Result::Err(_) => {
                proof {
                    assert(false);
                }
                return Result::Err(UnitError::RegistrationError);
            },
        };
        let nr = GenlNewRadio {
            channels: self.descriptor.channels,
            reg_hint_alpha2: Vec::new(),
            reg_custom_reg: 0,
            reg_strict_reg: false,
            support_p2p_device: self.descriptor.support_p2p_device,
            use_chanctx: self.descriptor.use_chanctx,
            destroy_radio_on_close: self.descriptor.destroy_radio_on_close,
            radio_name: clone_bytes(&self.descriptor.radio_name),
            no_vif: self.descriptor.no_vif,
            perm_addr: self.descriptor.perm_addr,
            iftype_support: 0,
            cipher_support: Vec::new(),
        };
        proof {
            assert(nr@ =~= new_radio_of_descriptor(old(self).descriptor));
        }
        let nr_msg = match nr.generate_genl_message() {
            Result::Ok(m) => m,
            Result::Err(_) => {
                proof {
                    assert(false);
                }
                return Result::Err(UnitError::RegistrationError);
            },
        };
        let mut acts: Vec<EngineAction> = Vec::new();
        acts.push(EngineAction::SendControl(reg_msg));
        acts.push(EngineAction::SendControl(nr_msg));
        Result::Ok(acts)
    }

    /// The kernel driver rejected this unit's registration: the unit stops,
    /// its siblings are untouched.
    pub fn registration_failed(&mut self)
        requires
            old(self).state == EngineState::Running,
        ensures
            engine_at_state(*old(self), *final(self), EngineState::Stopped),
    {
        self.state = EngineState::Stopped;
    }

    /// The runtime finished releasing this unit's resources: the unit is
    /// down for good.
    pub fn on_teardown_complete(&mut self)
        requires
            old(self).state == EngineState::Terminating,
        ensures
            engine_at_state(*old(self), *final(self), EngineState::Stopped),
    {
        self.state = EngineState::Stopped;
    }

    /// The driver's side of the shared mapping: lays a record into this
    /// radio's transmit half. The runtime (and the tests) stand in for the
    /// kernel here.
    pub fn kernel_write_tx(&mut self, start: usize, payload: &[u8]) -> (next: usize)
        requires
            old(self).wf(),
            start < old(self).tx_ring@.len(),
            payload@.len() + 4 <= old(self).tx_ring@.len(),
        ensures
            final(self).wf(),
            final(self).tx_ring@ == ring_write(
                old(self).tx_ring@,
                start as int,
                record_bytes(payload@),
            ),
            final(self).rx_ring@ == old(self).rx_ring@,
            final(self).state == old(self).state,
            final(self).descriptor == old(self).descriptor,
            final(self).rx_cursor == old(self).rx_cursor,
            final(self).max_record == old(self).max_record,
            next == (start + 4 + payload@.len()) % (old(self).tx_ring@.len() as int),
    {
        self.tx_ring.write_record(start, payload)
    }

    /// The shared termination signal: leave Running (or a never-started
    /// Initializing) for Terminating and ask the runtime to release this
    /// unit's resources. Safe to receive more than once.
    pub fn on_terminate(&mut self) -> (actions: Vec<EngineAction>)
        ensures
            terminate_post(*old(self), *final(self), actions@),
            final(self).wf() == old(self).wf(),
    {
        match self.state {
            EngineState::Initializing | EngineState::Running => {
                self.state = EngineState::Terminating;
                let mut acts: Vec<EngineAction> = Vec::new();
                acts.push(EngineAction::ReleaseIsolation);
                acts.push(EngineAction::ReleaseMapping);
                proof {
                    assert(acts@ =~= seq![
                        EngineAction::ReleaseIsolation,
                        EngineAction::ReleaseMapping,
                    ]);
                }
                acts
            },
            EngineState::Terminating | EngineState::Stopped => Vec::new(),
        }
    }

    /// A frame forwarded by a peer engine: write it into this radio's
    /// receive ring and notify the kernel driver where it lies.
    pub fn handle_peer(&mut self, pf: &PeerFrame) -> (actions: Vec<EngineAction>)
        requires
            old(self).wf(),
        ensures
            final(self).wf(),
            peer_post(*old(self), *final(self), pf@, actions@),
    {
        if !(self.state == EngineState::Running) {
            return Vec::new();
        }
        let rxs = self.rx_ring.size();
        proof {
            crate::frame::lemma_header_bytes_len(pf.frame.header);
        }
        if pf.frame.payload.len() > rxs {
            return Vec::new();
        }
        if pf.frame.payload.len() + 36 > rxs {
            return Vec::new();
        }
        let mut fbv: Vec<u8> = Vec::new();
        pf.frame.emit(&mut fbv);
        proof {
            assert(fbv@ =~= frame_bytes(pf.frame));
        }
        let offset = self.rx_cursor;
        let next = self.rx_ring.write_record(offset, fbv.as_slice());
        proof {
            vstd::arithmetic::div_mod::lemma_mod_bound(
                (offset + 4 + fbv@.len()) as int,
                old(self).rx_ring@.len() as int,
            );
        }
        self.rx_cursor = next;
        let idx0 = pf.tx_info[0].idx;
        let rate: u32 = if idx0 >= 0 {
            idx0 as u32
        } else {
            ((idx0 as i64) + 0x1_0000_0000) as u32
        };
        let mut nlas: Vec<HwsimAttrs> = Vec::new();
        nlas.push(HwsimAttrs::AddrReceiver(self.descriptor.perm_addr));
        nlas.push(HwsimAttrs::RXRate(rate));
        nlas.push(HwsimAttrs::Signal(DEFAULT_SIGNAL));
        nlas.push(HwsimAttrs::Freq(pf.freq));
        nlas.push(HwsimAttrs::Cookie(pf.cookie));
        nlas.push(HwsimAttrs::SharedMemoryPointer(offset as u64));
        proof {
            assert(attrs_model(nlas@) =~= rx_notify_models(*old(self), pf@, offset as int));
        }
        let msg = GenlMAC { cmd: HwsimCmd::RXInfoNotify, nlas };
        let mut acts: Vec<EngineAction> = Vec::new();
        acts.push(EngineAction::SendControl(msg));
        acts
    }
}

/// Copies a byte vector.
fn clone_bytes(v: &Vec<u8>) -> (r: Vec<u8>)
    ensures
        r@ == v@,
{
    let mut out: Vec<u8> = Vec::new();
    out.extend_from_slice(v.as_slice());
    proof {
        assert(out@ =~= v@);
    }
    out
}


impl RadioEngine {
    /// A control message from the kernel driver. Only a transmission event
    /// does work: its frame is taken from the transmit ring (when the
    /// message points there) or from the frame attribute, the topology
    /// picks the peers for the frame's destination address, one delivery
    /// goes to each, and a status echo goes back. Anything else — another
    /// command, a bad ring record — is ignored and costs nothing.
    #[verifier::loop_isolation(false)]
    pub fn handle_control(&mut self, topo: &Topology, m: &GenlMAC) -> (actions: Vec<EngineAction>)
        requires
            old(self).wf(),
            topo.wf(),
        ensures
            final(self).wf(),
            control_post(*old(self), *final(self), *topo, m.cmd, attrs_model(m.nlas@), actions@),
    {
        if !(self.state == EngineState::Running) {
            return Vec::new();
        }
        if !(m.cmd == HwsimCmd::Frame) {
            return Vec::new();
        }
        let ghost models = attrs_model(m.nlas@);
        let ftx = match GenlFrameTX::parse(m) {
            Result::Ok(f) => f,
            Result::Err(_) => {
                proof {
                    assert(false);
                }
                return Vec::new();
            },
        };
        let ghost ftxv = fold_frame_tx(frame_tx_default(), models);
        let addr_tx = ftx.addr_transmitter;
        let txi = ftx.tx_info;
        let fl = ftx.flags;
        let ck = ftx.cookie;
        let fq = ftx.freq;
        let sm = find_sm_pointer(&m.nlas);
        let frame: Frame;
        match sm {
            Option::Some(off) => {
                let txs = self.tx_ring.size();
                if off >= txs as u64 {
                    return Vec::new();
                }
                let offu = off as usize;
                match self.tx_ring.read_record(offu, self.max_record) {
                    Result::Err(_) => {
                        return Vec::new();
                    },
                    Result::Ok((payload, _next)) => {
                        if payload.len() < 32 {
                            return Vec::new();
                        }
                        frame = Frame::from_bytes(payload.as_slice());
                    },
                }
            },
            Option::None => {
                frame = ftx.frame;
            },
        }
        let ghost fb = frame_bytes(frame);
        proof {
            assert(control_frame_source(*old(self), models) == Option::Some(fb));
            assert(fb.len() >= 32);
        }
        let dest: MACAddress = frame.header.addr1;
        proof {
            crate::frame::lemma_header_bytes_len(frame.header);
            assert(frame_dest(fb) =~= dest@);
        }
        let ghost pfv = PeerFrameView {
            addr_transmitter: ftxv.addr_transmitter,
            frame: fb,
            tx_info: ftxv.tx_info,
            flags: ftxv.flags,
            cookie: ftxv.cookie,
            freq: ftxv.freq,
        };
        let resolved = topo.resolve(self.descriptor.id, &dest);
        let n: usize = resolved.len();
        let mut acts: Vec<EngineAction> = Vec::new();
        let mut k: usize = 0;
        while k < n
            invariant
                k <= n,
                n == resolved@.len(),
                acts@.len() == k,
                addr_tx@ == ftxv.addr_transmitter,
                txi@ == ftxv.tx_info,
                fl == ftxv.flags,
                ck == ftxv.cookie,
                fq == ftxv.freq,
                fb == frame_bytes(frame),
                forall|i: int|
                    0 <= i < k ==> ((#[trigger] acts@[i]) matches EngineAction::Deliver(id, pfo)
                        && id == resolved@[i].id && pfo@ == pfv),
            decreases n - k,
        {
            let p = resolved[k];
            let pfo = PeerFrame {
                addr_transmitter: addr_tx,
                frame: frame.clone(),
                tx_info: txi,
                flags: fl,
                cookie: ck,
                freq: fq,
            };
            proof {
                assert(pfo@ =~= pfv);
            }
            acts.push(EngineAction::Deliver(p.id, pfo));
            k = k + 1;
        }
        let echo = GenlTXInfoFrame {
            addr_transmitter: addr_tx,
            flags: fl,
            cookie: ck,
            signal: DEFAULT_SIGNAL,
            tx_info: txi,
        };
        proof {
            assert(echo@ =~= echo_view(ftxv));
        }
        let echo_msg = match echo.generate_genl_message() {
            Result::Ok(mm) => mm,
            Result::Err(_) => {
                proof {
                    assert(false);
                }
                return Vec::new();
            },
        };
        acts.push(EngineAction::SendControl(echo_msg));
        proof {
            let pre = *old(self);
            let src = pre.descriptor.id as int;
            assert(acts@.len() == n + 1);
            assert(acts@.last() matches EngineAction::SendControl(msg) && msg.cmd
                == HwsimCmd::TXInfoFrame && attrs_model(msg.nlas@) == tx_info_frame_attr_models(
                echo_view(ftxv),
            ));
            assert forall|i: int| 0 <= i < acts@.len() - 1 implies ((#[trigger] acts@[i]) matches
                EngineAction::Deliver(id, pfo) && pfo@ == pfv && id != pre.descriptor.id) by {
                assert(acts@[i] matches EngineAction::Deliver(id, pfo) && id == resolved@[i].id
                    && pfo@ == pfv);
                assert(resolved@[i].id != pre.descriptor.id);
            }
            if src < topo.radio_count() && (is_broadcast_addr(dest@) || is_zero_addr(dest@)) {
                assert(resolved@ == topo.peers_of(src));
            }
        }
        acts
    }

    /// One step of the engine: dispatch the event to its handler.
    pub fn step(&mut self, topo: &Topology, ev: &EngineEvent) -> (actions: Vec<EngineAction>)
        requires
            old(self).wf(),
            topo.wf(),
        ensures
            final(self).wf(),
            step_post(*old(self), *final(self), *topo, *ev, actions@),
    {
        match ev {
            EngineEvent::Control(m) => self.handle_control(topo, m),
            EngineEvent::Peer(pf) => self.handle_peer(pf),
            EngineEvent::Terminate => self.on_terminate(),
        }
    }
}

/// The termination signal never leaves a unit Running: a live unit moves
/// to Terminating, a unit already down stays down.
pub proof fn lemma_terminate_leaves_running(
    pre: RadioEngine,
    post: RadioEngine,
    actions: Seq<EngineAction>,
)
    requires
        terminate_post(pre, post, actions),
    ensures
        post.state != EngineState::Running,
        pre.state == EngineState::Running ==> post.state == EngineState::Terminating,
        post.rx_ring@ == pre.rx_ring@,
        post.tx_ring@ == pre.tx_ring@,
{
}

/// A unit past the termination signal is inert: whatever event reaches it,
/// nothing changes — in particular its rings take no further writes — and
/// no action is emitted.
pub proof fn lemma_terminated_unit_inert(
    pre: RadioEngine,
    post: RadioEngine,
    topo: Topology,
    ev: EngineEvent,
    actions: Seq<EngineAction>,
)
    requires
        pre.state == EngineState::Terminating || pre.state == EngineState::Stopped,
        step_post(pre, post, topo, ev, actions),
    ensures
        engine_unchanged(pre, post),
        actions.len() == 0,
{
}

} // verus!
