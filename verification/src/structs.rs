//! The typed control messages: each is a projection over an attribute run.
//!
//! Building a message from attributes starts from the default value and
//! assigns a field for every recognized attribute, in order — so a repeated
//! attribute's last occurrence wins; unrecognized attributes are ignored.
//! The fold is stated by the `fold_*` spec functions over attribute models.
//! Emitting a message lays down exactly its relevant attributes in a fixed
//! canonical order; presence flags go out only when true.
//!
//! Each kind supports one message direction: asking a receive-only kind for
//! an outbound message (or an outbound kind for a parse) answers
//! [`ProtocolError::Unsupported`] instead.

use crate::attrs::{attr_wf, attrs_model, AttrModel, HwsimAttrs};
use crate::constants::IEEE80211_TX_MAX_RATES;
use crate::frame::{frame_wf, Frame, TXInfo, TXInfoFlag};
use crate::msg::{GenlMAC, HwsimCmd, ProtocolError};
use crate::MACAddress;
use vstd::prelude::*;

verus! {

broadcast use vstd::array::group_array_axioms;

/// Registers this process with the kernel driver as the medium. Carries no
/// attributes; outbound only.
#[derive(Clone, Debug, PartialEq, Eq)]
pub struct GenlRegister {}

impl GenlRegister {
    /// The registration message: the register command, no attributes.
    pub fn generate_genl_message(&self) -> (r: Result<GenlMAC, ProtocolError>)
        ensures
            r matches Result::Ok(m) && m.cmd == HwsimCmd::Register && m.nlas@ == Seq::<
                HwsimAttrs,
            >::empty(),
    {
        Result::Ok(GenlMAC { cmd: HwsimCmd::Register, nlas: Vec::new() })
    }

    /// Registration is outbound only.
    pub fn parse(_data: &GenlMAC) -> (r: Result<GenlRegister, ProtocolError>)
        ensures
            r == Result::<GenlRegister, ProtocolError>::Err(ProtocolError::Unsupported),
    {
        Result::Err(ProtocolError::Unsupported)
    }
}

/// A transmission event received from the kernel driver: who transmitted,
/// the frame, the rate attempts and the bookkeeping to echo back.
#[derive(Debug, PartialEq, Eq)]
pub struct GenlFrameTX {
    pub addr_transmitter: MACAddress,
    pub frame: Frame,
    pub flags: u32,
    pub tx_info: [TXInfo; IEEE80211_TX_MAX_RATES],
    pub cookie: u64,
    pub freq: u32,
    pub tx_info_flags: [TXInfoFlag; IEEE80211_TX_MAX_RATES],
    pub is_ack: bool,
}

/// A transmission event as a mathematical value.
#[verifier::ext_equal]
pub struct GenlFrameTXView {
    pub addr_transmitter: Seq<u8>,
    pub frame: Seq<u8>,
    pub flags: u32,
    pub tx_info: Seq<TXInfo>,
    pub cookie: u64,
    pub freq: u32,
    pub tx_info_flags: Seq<TXInfoFlag>,
    pub is_ack: bool,
}

impl View for GenlFrameTX {
    type V = GenlFrameTXView;

    open spec fn view(&self) -> GenlFrameTXView {
        GenlFrameTXView {
            addr_transmitter: self.addr_transmitter@,
            frame: crate::frame::frame_bytes(self.frame),
            flags: self.flags,
            tx_info: self.tx_info@,
            cookie: self.cookie,
            freq: self.freq,
            tx_info_flags: self.tx_info_flags@,
            is_ack: self.is_ack,
        }
    }
}

/// The default transmission event: zero addresses, an empty frame, unused
/// rate attempts.
pub open spec fn frame_tx_default() -> GenlFrameTXView {
    GenlFrameTXView {
        addr_transmitter: Seq::new(6, |i: int| 0u8),
        frame: Seq::new(32, |i: int| 0u8),
        flags: 0,
        tx_info: Seq::new(4, |i: int| TXInfo { idx: 0 as i8, count: 0u8 }),
        cookie: 0,
        freq: 0,
        tx_info_flags: Seq::new(4, |i: int| TXInfoFlag { idx: 0 as i8, flags: 0u16 }),
        is_ack: false,
    }
}

/// One attribute's effect on a transmission event under construction.
pub open spec fn apply_frame_tx(m: GenlFrameTXView, a: AttrModel) -> GenlFrameTXView {
    match a {
        AttrModel::MAddrTransmitter(v) => GenlFrameTXView { addr_transmitter: v, ..m },
        AttrModel::MFrame(b) => GenlFrameTXView { frame: b, ..m },
        AttrModel::MFlags(x) => GenlFrameTXView { flags: x, ..m },
        AttrModel::MTXInfo(t) => GenlFrameTXView { tx_info: t, ..m },
        AttrModel::MCookie(x) => GenlFrameTXView { cookie: x, ..m },
        AttrModel::MFreq(x) => GenlFrameTXView { freq: x, ..m },
        AttrModel::MTXInfoFlags(t) => GenlFrameTXView { tx_info_flags: t, ..m },
        _ => m,
    }
}

/// Folds a run of attribute models over a transmission event, first to last.
pub open spec fn fold_frame_tx(m: GenlFrameTXView, s: Seq<AttrModel>) -> GenlFrameTXView
    decreases s.len(),
{
    if s.len() == 0 {
        m
    } else {
        fold_frame_tx(apply_frame_tx(m, s[0]), s.drop_first())
    }
}

pub proof fn lemma_fold_frame_tx_concat(m: GenlFrameTXView, s1: Seq<AttrModel>, s2: Seq<AttrModel>)
    ensures
        fold_frame_tx(m, s1 + s2) == fold_frame_tx(fold_frame_tx(m, s1), s2),
    decreases s1.len(),
{
    if s1.len() == 0 {
        assert(s1 + s2 =~= s2);
    } else {
        assert((s1 + s2)[0] == s1[0]);
        assert((s1 + s2).drop_first() =~= s1.drop_first() + s2);
        lemma_fold_frame_tx_concat(apply_frame_tx(m, s1[0]), s1.drop_first(), s2);
    }
}

pub proof fn lemma_fold_frame_tx_one(m: GenlFrameTXView, a: AttrModel)
    ensures
        fold_frame_tx(m, seq![a]) == apply_frame_tx(m, a),
{
    assert(seq![a].drop_first() =~= Seq::<AttrModel>::empty());
    assert(fold_frame_tx(apply_frame_tx(m, a), seq![a].drop_first()) == apply_frame_tx(m, a));
}

impl Default for GenlFrameTX {
    /// The default transmission event.
    fn default() -> (r: Self)
        ensures
            r@ == frame_tx_default(),
    {
        let r = GenlFrameTX {
            addr_transmitter: [0, 0, 0, 0, 0, 0],
            frame: Frame::empty(),
            flags: 0,
            tx_info: [TXInfo { idx: 0, count: 0 };4],
            cookie: 0,
            freq: 0,
            tx_info_flags: [TXInfoFlag { idx: 0, flags: 0 };4],
            is_ack: false,
        };
        proof {
            assert(r.addr_transmitter@ =~= Seq::new(6, |i: int| 0u8));
            assert(crate::frame::frame_bytes(r.frame) =~= Seq::new(32, |i: int| 0u8));
            assert(r.tx_info@ =~= Seq::new(4, |i: int| TXInfo { idx: 0 as i8, count: 0u8 }));
            assert(r.tx_info_flags@ =~= Seq::new(
                4,
                |i: int| TXInfoFlag { idx: 0 as i8, flags: 0u16 },
            ));
            assert(r@ =~= frame_tx_default());
        }
        r
    }
}

impl GenlFrameTX {
    /// Builds the transmission event from a received message's attributes:
    /// default fields, then every recognized attribute assigns its field,
    /// last occurrence winning.
    pub fn parse(data: &GenlMAC) -> (r: Result<GenlFrameTX, ProtocolError>)
        ensures
            r matches Result::Ok(m) && m@ == fold_frame_tx(
                frame_tx_default(),
                attrs_model(data.nlas@),
            ),
    {
        let ghost models = attrs_model(data.nlas@);
        let mut m = GenlFrameTX::default();
        let n: usize = data.nlas.len();
        let mut i: usize = 0;
        while i < n
            invariant
                i <= n,
                n == data.nlas@.len(),
                models == attrs_model(data.nlas@),
                m@ == fold_frame_tx(frame_tx_default(), models.subrange(0, i as int)),
            decreases n - i,
        {
            let ghost prior = m@;
            match &data.nlas[i] {
                HwsimAttrs::AddrTransmitter(v) => {
                    m.addr_transmitter = *v;
                },
                HwsimAttrs::Frame(f) => {
                    m.frame = f.clone();
                },
                HwsimAttrs::Flags(x) => {
                    m.flags = *x;
                },
                HwsimAttrs::TXInfo(t) => {
                    m.tx_info = *t;
                },
                HwsimAttrs::Cookie(x) => {
                    m.cookie = *x;
                },
                HwsimAttrs::Freq(x) => {
                    m.freq = *x;
                },
                HwsimAttrs::TXInfoFlags(t) => {
                    m.tx_info_flags = *t;
                },
                _ => {},
            }
            proof {
                assert(models[i as int] == crate::attrs::attr_model(data.nlas@[i as int]));
                assert(m@ =~= apply_frame_tx(prior, models[i as int]));
                assert(models.subrange(0, i + 1) =~= models.subrange(0, i as int) + seq![models[i as int]]);
                lemma_fold_frame_tx_concat(
                    frame_tx_default(),
                    models.subrange(0, i as int),
                    seq![models[i as int]],
                );
                lemma_fold_frame_tx_one(prior, models[i as int]);
            }
            i = i + 1;
        }
        proof {
            assert(models.subrange(0, n as int) =~= models);
        }
        Result::Ok(m)
    }

    /// Transmission events come only from the kernel driver.
    pub fn generate_genl_message(&self) -> (r: Result<GenlMAC, ProtocolError>)
        ensures
            r == Result::<GenlMAC, ProtocolError>::Err(ProtocolError::Unsupported),
    {
        Result::Err(ProtocolError::Unsupported)
    }
}


/// A synthesized reception event sent to the kernel driver: the receiving
/// radio, the frame, and the synthesized rate and signal. Outbound only.
#[derive(Debug, PartialEq, Eq)]
pub struct GenlFrameRX {
    pub addr_receiver: MACAddress,
    pub frame: Frame,
    pub rx_rate: u32,
    pub signal: u32,
    pub freq: u32,
}

/// A reception event as a mathematical value.
#[verifier::ext_equal]
pub struct GenlFrameRXView {
    pub addr_receiver: Seq<u8>,
    pub frame: Seq<u8>,
    pub rx_rate: u32,
    pub signal: u32,
    pub freq: u32,
}

impl View for GenlFrameRX {
    type V = GenlFrameRXView;

    open spec fn view(&self) -> GenlFrameRXView {
        GenlFrameRXView {
            addr_receiver: self.addr_receiver@,
            frame: crate::frame::frame_bytes(self.frame),
            rx_rate: self.rx_rate,
            signal: self.signal,
            freq: self.freq,
        }
    }
}

/// The default reception event.
pub open spec fn frame_rx_default() -> GenlFrameRXView {
    GenlFrameRXView {
        addr_receiver: Seq::new(6, |i: int| 0u8),
        frame: Seq::new(32, |i: int| 0u8),
        rx_rate: 0,
        signal: 0,
        freq: 0,
    }
}

/// One attribute's effect on a reception event under construction.
pub open spec fn apply_frame_rx(m: GenlFrameRXView, a: AttrModel) -> GenlFrameRXView {
    match a {
        AttrModel::MAddrReceiver(v) => GenlFrameRXView { addr_receiver: v, ..m },
        AttrModel::MFrame(b) => GenlFrameRXView { frame: b, ..m },
        AttrModel::MRXRate(x) => GenlFrameRXView { rx_rate: x, ..m },
        AttrModel::MSignal(x) => GenlFrameRXView { signal: x, ..m },
        AttrModel::MFreq(x) => GenlFrameRXView { freq: x, ..m },
        _ => m,
    }
}

/// Folds a run of attribute models over a reception event, first to last.
pub open spec fn fold_frame_rx(m: GenlFrameRXView, s: Seq<AttrModel>) -> GenlFrameRXView
    decreases s.len(),
{
    if s.len() == 0 {
        m
    } else {
        fold_frame_rx(apply_frame_rx(m, s[0]), s.drop_first())
    }
}

/// The canonical attribute run of a reception event, in emission order.
pub open spec fn frame_rx_attr_models(v: GenlFrameRXView) -> Seq<AttrModel> {
    seq![
        AttrModel::MAddrReceiver(v.addr_receiver),
        AttrModel::MFrame(v.frame),
        AttrModel::MRXRate(v.rx_rate),
        AttrModel::MSignal(v.signal),
        AttrModel::MFreq(v.freq),
    ]
}

impl Default for GenlFrameRX {
    /// The default reception event.
    fn default() -> (r: Self)
        ensures
            r@ == frame_rx_default(),
    {
        let r = GenlFrameRX {
            addr_receiver: [0, 0, 0, 0, 0, 0],
            frame: Frame::empty(),
            rx_rate: 0,
            signal: 0,
            freq: 0,
        };
        proof {
            assert(r.addr_receiver@ =~= Seq::new(6, |i: int| 0u8));
            assert(crate::frame::frame_bytes(r.frame) =~= Seq::new(32, |i: int| 0u8));
            assert(r@ =~= frame_rx_default());
        }
        r
    }
}

impl GenlFrameRX {
    /// The reception event's attributes, in canonical order.
    pub fn to_attrs(&self) -> (r: Vec<HwsimAttrs>)
        requires
            frame_wf(self.frame),
        ensures
            attrs_model(r@) == frame_rx_attr_models(self@),
            forall|i: int| 0 <= i < r@.len() ==> attr_wf(#[trigger] r@[i]),
    {
        let mut v: Vec<HwsimAttrs> = Vec::new();
        v.push(HwsimAttrs::AddrReceiver(self.addr_receiver));
        v.push(HwsimAttrs::Frame(self.frame.clone()));
        v.push(HwsimAttrs::RXRate(self.rx_rate));
        v.push(HwsimAttrs::Signal(self.signal));
        v.push(HwsimAttrs::Freq(self.freq));
        proof {
            assert(attrs_model(v@) =~= frame_rx_attr_models(self@));
        }
        v
    }

    /// The outbound reception message: the frame command with the canonical
    /// attributes.
    pub fn generate_genl_message(&self) -> (r: Result<GenlMAC, ProtocolError>)
        requires
            frame_wf(self.frame),
        ensures
            r matches Result::Ok(m) && m.cmd == HwsimCmd::Frame && attrs_model(m.nlas@)
                == frame_rx_attr_models(self@) && (forall|i: int|
                0 <= i < m.nlas@.len() ==> attr_wf(#[trigger] m.nlas@[i])),
    {
        Result::Ok(GenlMAC { cmd: HwsimCmd::Frame, nlas: self.to_attrs() })
    }

    /// Reception events are outbound only.
    pub fn parse(_data: &GenlMAC) -> (r: Result<GenlFrameRX, ProtocolError>)
        ensures
            r == Result::<GenlFrameRX, ProtocolError>::Err(ProtocolError::Unsupported),
    {
        Result::Err(ProtocolError::Unsupported)
    }
}

/// A transmission status echo sent back to the kernel driver: the
/// transmitter, the echoed bookkeeping, the synthesized signal. Outbound
/// only.
#[derive(Debug, PartialEq, Eq)]
pub struct GenlTXInfoFrame {
    pub addr_transmitter: MACAddress,
    pub flags: u32,
    pub cookie: u64,
    pub signal: u32,
    pub tx_info: [TXInfo; IEEE80211_TX_MAX_RATES],
}

/// A transmission status echo as a mathematical value.
#[verifier::ext_equal]
pub struct GenlTXInfoFrameView {
    pub addr_transmitter: Seq<u8>,
    pub flags: u32,
    pub cookie: u64,
    pub signal: u32,
    pub tx_info: Seq<TXInfo>,
}

impl View for GenlTXInfoFrame {
    type V = GenlTXInfoFrameView;

    open spec fn view(&self) -> GenlTXInfoFrameView {
        GenlTXInfoFrameView {
            addr_transmitter: self.addr_transmitter@,
            flags: self.flags,
            cookie: self.cookie,
            signal: self.signal,
            tx_info: self.tx_info@,
        }
    }
}

/// The default transmission status echo.
pub open spec fn tx_info_frame_default() -> GenlTXInfoFrameView {
    GenlTXInfoFrameView {
        addr_transmitter: Seq::new(6, |i: int| 0u8),
        flags: 0,
        cookie: 0,
        signal: 0,
        tx_info: Seq::new(4, |i: int| TXInfo { idx: 0 as i8, count: 0u8 }),
    }
}

/// One attribute's effect on a status echo under construction.
pub open spec fn apply_tx_info_frame(m: GenlTXInfoFrameView, a: AttrModel) -> GenlTXInfoFrameView {
    match a {
        AttrModel::MAddrTransmitter(v) => GenlTXInfoFrameView { addr_transmitter: v, ..m },
        AttrModel::MFlags(x) => GenlTXInfoFrameView { flags: x, ..m },
        AttrModel::MCookie(x) => GenlTXInfoFrameView { cookie: x, ..m },
        AttrModel::MSignal(x) => GenlTXInfoFrameView { signal: x, ..m },
        AttrModel::MTXInfo(t) => GenlTXInfoFrameView { tx_info: t, ..m },
        _ => m,
    }
}

/// Folds a run of attribute models over a status echo, first to last.
pub open spec fn fold_tx_info_frame(m: GenlTXInfoFrameView, s: Seq<AttrModel>) -> GenlTXInfoFrameView
    decreases s.len(),
{
    if s.len() == 0 {
        m
    } else {
        fold_tx_info_frame(apply_tx_info_frame(m, s[0]), s.drop_first())
    }
}

/// The canonical attribute run of a status echo, in emission order.
pub open spec fn tx_info_frame_attr_models(v: GenlTXInfoFrameView) -> Seq<AttrModel> {
    seq![
        AttrModel::MAddrTransmitter(v.addr_transmitter),
        AttrModel::MFlags(v.flags),
        AttrModel::MCookie(v.cookie),
        AttrModel::MSignal(v.signal),
        AttrModel::MTXInfo(v.tx_info),
    ]
}

impl Default for GenlTXInfoFrame {
    /// The default transmission status echo.
    fn default() -> (r: Self)
        ensures
            r@ == tx_info_frame_default(),
    {
        let r = GenlTXInfoFrame {
            addr_transmitter: [0, 0, 0, 0, 0, 0],
            flags: 0,
            cookie: 0,
            signal: 0,
            tx_info: [TXInfo { idx: 0, count: 0 };4],
        };
        proof {
            assert(r.addr_transmitter@ =~= Seq::new(6, |i: int| 0u8));
            assert(r.tx_info@ =~= Seq::new(4, |i: int| TXInfo { idx: 0 as i8, count: 0u8 }));
            assert(r@ =~= tx_info_frame_default());
        }
        r
    }
}

impl GenlTXInfoFrame {
    /// The status echo's attributes, in canonical order.
    pub fn to_attrs(&self) -> (r: Vec<HwsimAttrs>)
        ensures
            attrs_model(r@) == tx_info_frame_attr_models(self@),
            forall|i: int| 0 <= i < r@.len() ==> attr_wf(#[trigger] r@[i]),
    {
        let mut v: Vec<HwsimAttrs> = Vec::new();
        v.push(HwsimAttrs::AddrTransmitter(self.addr_transmitter));
        v.push(HwsimAttrs::Flags(self.flags));
        v.push(HwsimAttrs::Cookie(self.cookie));
        v.push(HwsimAttrs::Signal(self.signal));
        v.push(HwsimAttrs::TXInfo(self.tx_info));
        proof {
            assert(attrs_model(v@) =~= tx_info_frame_attr_models(self@));
        }
        v
    }

    /// The outbound status echo message.
    pub fn generate_genl_message(&self) -> (r: Result<GenlMAC, ProtocolError>)
        ensures
            r matches Result::Ok(m) && m.cmd == HwsimCmd::TXInfoFrame && attrs_model(m.nlas@)
                == tx_info_frame_attr_models(self@) && (forall|i: int|
                0 <= i < m.nlas@.len() ==> attr_wf(#[trigger] m.nlas@[i])),
    {
        Result::Ok(GenlMAC { cmd: HwsimCmd::TXInfoFrame, nlas: self.to_attrs() })
    }

    /// Status echoes are outbound only.
    pub fn parse(_data: &GenlMAC) -> (r: Result<GenlTXInfoFrame, ProtocolError>)
        ensures
            r == Result::<GenlTXInfoFrame, ProtocolError>::Err(ProtocolError::Unsupported),
    {
        Result::Err(ProtocolError::Unsupported)
    }
}


/// Asks the kernel driver to create a simulated radio with the given
/// capabilities. Outbound only.
#[derive(Debug, PartialEq, Eq)]
pub struct GenlNewRadio {
    pub channels: u32,
    pub reg_hint_alpha2: Vec<u8>,
    pub reg_custom_reg: u32,
    pub reg_strict_reg: bool,
    pub support_p2p_device: bool,
    pub use_chanctx: bool,
    pub destroy_radio_on_close: bool,
    pub radio_name: Vec<u8>,
    pub no_vif: bool,
    pub perm_addr: MACAddress,
    pub iftype_support: u32,
    pub cipher_support: Vec<u32>,
}

/// A radio creation request as a mathematical value.
#[verifier::ext_equal]
pub struct GenlNewRadioView {
    pub channels: u32,
    pub reg_hint_alpha2: Seq<u8>,
    pub reg_custom_reg: u32,
    pub reg_strict_reg: bool,
    pub support_p2p_device: bool,
    pub use_chanctx: bool,
    pub destroy_radio_on_close: bool,
    pub radio_name: Seq<u8>,
    pub no_vif: bool,
    pub perm_addr: Seq<u8>,
    pub iftype_support: u32,
    pub cipher_support: Seq<u32>,
}

impl View for GenlNewRadio {
    type V = GenlNewRadioView;

    open spec fn view(&self) -> GenlNewRadioView {
        GenlNewRadioView {
            channels: self.channels,
            reg_hint_alpha2: self.reg_hint_alpha2@,
            reg_custom_reg: self.reg_custom_reg,
            reg_strict_reg: self.reg_strict_reg,
            support_p2p_device: self.support_p2p_device,
            use_chanctx: self.use_chanctx,
            destroy_radio_on_close: self.destroy_radio_on_close,
            radio_name: self.radio_name@,
            no_vif: self.no_vif,
            perm_addr: self.perm_addr@,
            iftype_support: self.iftype_support,
            cipher_support: self.cipher_support@,
        }
    }
}

/// The default radio creation request.
pub open spec fn new_radio_default() -> GenlNewRadioView {
    GenlNewRadioView {
        channels: 0,
        reg_hint_alpha2: Seq::empty(),
        reg_custom_reg: 0,
        reg_strict_reg: false,
        support_p2p_device: false,
        use_chanctx: false,
        destroy_radio_on_close: false,
        radio_name: Seq::empty(),
        no_vif: false,
        perm_addr: Seq::new(6, |i: int| 0u8),
        iftype_support: 0,
        cipher_support: Seq::empty(),
    }
}

/// One attribute's effect on a radio creation request under construction.
pub open spec fn apply_new_radio(m: GenlNewRadioView, a: AttrModel) -> GenlNewRadioView {
    match a {
        AttrModel::MChannels(x) => GenlNewRadioView { channels: x, ..m },
        AttrModel::MRegHintAlpha2(v) => GenlNewRadioView { reg_hint_alpha2: v, ..m },
        AttrModel::MRegCustomReg(x) => GenlNewRadioView { reg_custom_reg: x, ..m },
        AttrModel::MRegStrictReg => GenlNewRadioView { reg_strict_reg: true, ..m },
        AttrModel::MSupportP2PDevice => GenlNewRadioView { support_p2p_device: true, ..m },
        AttrModel::MUseChanctx => GenlNewRadioView { use_chanctx: true, ..m },
        AttrModel::MDestroyRadioOnClose => GenlNewRadioView { destroy_radio_on_close: true, ..m },
        AttrModel::MRadioName(v) => GenlNewRadioView { radio_name: v, ..m },
        AttrModel::MNoVif => GenlNewRadioView { no_vif: true, ..m },
        AttrModel::MPermAddr(v) => GenlNewRadioView { perm_addr: v, ..m },
        AttrModel::MIftypeSupport(x) => GenlNewRadioView { iftype_support: x, ..m },
        AttrModel::MCipherSupport(v) => GenlNewRadioView { cipher_support: v, ..m },
        _ => m,
    }
}

/// Folds a run of attribute models over a radio creation request.
pub open spec fn fold_new_radio(m: GenlNewRadioView, s: Seq<AttrModel>) -> GenlNewRadioView
    decreases s.len(),
{
    if s.len() == 0 {
        m
    } else {
        fold_new_radio(apply_new_radio(m, s[0]), s.drop_first())
    }
}

pub proof fn lemma_fold_new_radio_concat(
    m: GenlNewRadioView,
    s1: Seq<AttrModel>,
    s2: Seq<AttrModel>,
)
    ensures
        fold_new_radio(m, s1 + s2) == fold_new_radio(fold_new_radio(m, s1), s2),
    decreases s1.len(),
{
    if s1.len() == 0 {
        assert(s1 + s2 =~= s2);
    } else {
        assert((s1 + s2)[0] == s1[0]);
        assert((s1 + s2).drop_first() =~= s1.drop_first() + s2);
        lemma_fold_new_radio_concat(apply_new_radio(m, s1[0]), s1.drop_first(), s2);
    }
}

pub proof fn lemma_fold_new_radio_one(m: GenlNewRadioView, a: AttrModel)
    ensures
        fold_new_radio(m, seq![a]) == apply_new_radio(m, a),
{
    assert(seq![a].drop_first() =~= Seq::<AttrModel>::empty());
    assert(fold_new_radio(apply_new_radio(m, a), seq![a].drop_first()) == apply_new_radio(m, a));
}

/// The canonical attribute run of a radio creation request: channel count,
/// the capability flags that are set (presence flags, emitted only when
/// true), the radio's name, and its permanent address.
pub open spec fn new_radio_attr_models(v: GenlNewRadioView) -> Seq<AttrModel> {
    seq![AttrModel::MChannels(v.channels)] + (if v.support_p2p_device {
        seq![AttrModel::MSupportP2PDevice]
    } else {
        Seq::empty()
    }) + (if v.use_chanctx {
        seq![AttrModel::MUseChanctx]
    } else {
        Seq::empty()
    }) + (if v.destroy_radio_on_close {
        seq![AttrModel::MDestroyRadioOnClose]
    } else {
        Seq::empty()
    }) + seq![AttrModel::MRadioName(v.radio_name)] + (if v.no_vif {
        seq![AttrModel::MNoVif]
    } else {
        Seq::empty()
    }) + seq![AttrModel::MPermAddr(v.perm_addr)]
}

impl Default for GenlNewRadio {
    /// The default radio creation request.
    fn default() -> (r: Self)
        ensures
            r@ == new_radio_default(),
    {
        let r = GenlNewRadio {
            channels: 0,
            reg_hint_alpha2: Vec::new(),
            reg_custom_reg: 0,
            reg_strict_reg: false,
            support_p2p_device: false,
            use_chanctx: false,
            destroy_radio_on_close: false,
            radio_name: Vec::new(),
            no_vif: false,
            perm_addr: [0, 0, 0, 0, 0, 0],
            iftype_support: 0,
            cipher_support: Vec::new(),
        };
        proof {
            assert(r.perm_addr@ =~= Seq::new(6, |i: int| 0u8));
            assert(r@ =~= new_radio_default());
        }
        r
    }
}

impl GenlNewRadio {
    /// The creation request's attributes, in canonical order.
    pub fn to_attrs(&self) -> (r: Vec<HwsimAttrs>)
        requires
            self.radio_name@.len() + 4 <= 0xFFFF,
        ensures
            attrs_model(r@) == new_radio_attr_models(self@),
            forall|i: int| 0 <= i < r@.len() ==> attr_wf(#[trigger] r@[i]),
    {
        let mut v: Vec<HwsimAttrs> = Vec::new();
        v.push(HwsimAttrs::Channels(self.channels));
        if self.support_p2p_device {
            v.push(HwsimAttrs::SupportP2PDevice(true));
        }
        if self.use_chanctx {
            v.push(HwsimAttrs::UseChanctx(true));
        }
        if self.destroy_radio_on_close {
            v.push(HwsimAttrs::DestroyRadioOnClose(true));
        }
        let mut name: Vec<u8> = Vec::new();
        name.extend_from_slice(self.radio_name.as_slice());
        proof {
            assert(name@ =~= self.radio_name@);
        }
        v.push(HwsimAttrs::RadioName(name));
        if self.no_vif {
            v.push(HwsimAttrs::NoVif(true));
        }
        v.push(HwsimAttrs::PermAddr(self.perm_addr));
        proof {
            assert(attrs_model(v@) =~= new_radio_attr_models(self@));
        }
        v
    }

    /// The outbound radio creation message.
    pub fn generate_genl_message(&self) -> (r: Result<GenlMAC, ProtocolError>)
        requires
            self.radio_name@.len() + 4 <= 0xFFFF,
        ensures
            r matches Result::Ok(m) && m.cmd == HwsimCmd::NewRadio && attrs_model(m.nlas@)
                == new_radio_attr_models(self@) && (forall|i: int|
                0 <= i < m.nlas@.len() ==> attr_wf(#[trigger] m.nlas@[i])),
    {
        Result::Ok(GenlMAC { cmd: HwsimCmd::NewRadio, nlas: self.to_attrs() })
    }

    /// Radio creation requests are outbound only.
    pub fn parse(_data: &GenlMAC) -> (r: Result<GenlNewRadio, ProtocolError>)
        ensures
            r == Result::<GenlNewRadio, ProtocolError>::Err(ProtocolError::Unsupported),
    {
        Result::Err(ProtocolError::Unsupported)
    }
}

/// A radio as the kernel driver describes it back; the counterpart of
/// [`GenlNewRadio`] on the query path.
#[derive(Debug, PartialEq, Eq, Clone)]
pub struct GenlRadio {
    pub channels: u32,
    pub reg_hint_alpha2: Vec<u8>,
    pub reg_custom_reg: u32,
    pub reg_strict_reg: bool,
    pub support_p2p_device: bool,
    pub use_chanctx: bool,
    pub destroy_radio_on_close: bool,
    pub radio_name: Vec<u8>,
    pub no_vif: bool,
    pub perm_addr: MACAddress,
    pub iftype_support: u32,
    pub cipher_support: Vec<u32>,
}

/// Builds radio query messages.
#[derive(Debug, PartialEq, Eq, Clone)]
pub struct GenlRadioOps {
    pub idx: u32,
}

impl Default for GenlRadioOps {
    fn default() -> (r: Self)
        ensures
            r.idx == 0,
    {
        GenlRadioOps { idx: 0 }
    }
}

impl GenlRadioOps {
    /// The query that dumps every radio: the get command, no attributes.
    /// The transport marks the outer message as a dump request.
    pub fn generate_genl_dump(&self) -> (r: GenlMAC)
        ensures
            r.cmd == HwsimCmd::GetRadio,
            r.nlas@ == Seq::<HwsimAttrs>::empty(),
    {
        GenlMAC { cmd: HwsimCmd::GetRadio, nlas: Vec::new() }
    }

    /// The query for one radio by its id.
    pub fn generate_genl_get(&self) -> (r: GenlMAC)
        ensures
            r.cmd == HwsimCmd::GetRadio,
            attrs_model(r.nlas@) == seq![AttrModel::MRadioID(self.idx)],
            forall|i: int| 0 <= i < r.nlas@.len() ==> attr_wf(#[trigger] r.nlas@[i]),
    {
        let mut nlas: Vec<HwsimAttrs> = Vec::new();
        nlas.push(HwsimAttrs::RadioID(self.idx));
        proof {
            assert(attrs_model(nlas@) =~= seq![AttrModel::MRadioID(self.idx)]);
        }
        GenlMAC { cmd: HwsimCmd::GetRadio, nlas }
    }
}


/// The canonical attribute run of a transmission event. The kernel driver
/// emits these; the run is stated here so that the parse can be shown
/// faithful.
pub open spec fn frame_tx_attr_models(v: GenlFrameTXView) -> Seq<AttrModel> {
    seq![
        AttrModel::MAddrTransmitter(v.addr_transmitter),
        AttrModel::MFrame(v.frame),
        AttrModel::MFlags(v.flags),
        AttrModel::MTXInfo(v.tx_info),
        AttrModel::MCookie(v.cookie),
        AttrModel::MFreq(v.freq),
        AttrModel::MTXInfoFlags(v.tx_info_flags),
    ]
}

/// Round trip for transmission events: folding the canonical attribute run
/// of `v` over the default value gives `v` back. The acknowledgement bit
/// rides outside the attribute run, so it must hold its default.
pub proof fn lemma_frame_tx_round_trip(v: GenlFrameTXView)
    requires
        !v.is_ack,
    ensures
        fold_frame_tx(frame_tx_default(), frame_tx_attr_models(v)) == v,
{
    let s = frame_tx_attr_models(v);
    let d = frame_tx_default();
    let m1 = apply_frame_tx(d, s[0]);
    let s1 = s.drop_first();
    assert(fold_frame_tx(d, s) == fold_frame_tx(m1, s1));
    let m2 = apply_frame_tx(m1, s1[0]);
    let s2 = s1.drop_first();
    assert(fold_frame_tx(m1, s1) == fold_frame_tx(m2, s2));
    let m3 = apply_frame_tx(m2, s2[0]);
    let s3 = s2.drop_first();
    assert(fold_frame_tx(m2, s2) == fold_frame_tx(m3, s3));
    let m4 = apply_frame_tx(m3, s3[0]);
    let s4 = s3.drop_first();
    assert(fold_frame_tx(m3, s3) == fold_frame_tx(m4, s4));
    let m5 = apply_frame_tx(m4, s4[0]);
    let s5 = s4.drop_first();
    assert(fold_frame_tx(m4, s4) == fold_frame_tx(m5, s5));
    let m6 = apply_frame_tx(m5, s5[0]);
    let s6 = s5.drop_first();
    assert(fold_frame_tx(m5, s5) == fold_frame_tx(m6, s6));
    let m7 = apply_frame_tx(m6, s6[0]);
    let s7 = s6.drop_first();
    assert(fold_frame_tx(m6, s6) == fold_frame_tx(m7, s7));
    assert(s7.len() == 0);
    assert(m7 =~= v);
}

/// Round trip for reception events: folding the emitted attribute run of
/// `v` over the default value gives `v` back, for every `v`.
pub proof fn lemma_frame_rx_round_trip(v: GenlFrameRXView)
    ensures
        fold_frame_rx(frame_rx_default(), frame_rx_attr_models(v)) == v,
{
    let s = frame_rx_attr_models(v);
    let d = frame_rx_default();
    let m1 = apply_frame_rx(d, s[0]);
    let s1 = s.drop_first();
    assert(fold_frame_rx(d, s) == fold_frame_rx(m1, s1));
    let m2 = apply_frame_rx(m1, s1[0]);
    let s2 = s1.drop_first();
    assert(fold_frame_rx(m1, s1) == fold_frame_rx(m2, s2));
    let m3 = apply_frame_rx(m2, s2[0]);
    let s3 = s2.drop_first();
    assert(fold_frame_rx(m2, s2) == fold_frame_rx(m3, s3));
    let m4 = apply_frame_rx(m3, s3[0]);
    let s4 = s3.drop_first();
    assert(fold_frame_rx(m3, s3) == fold_frame_rx(m4, s4));
    let m5 = apply_frame_rx(m4, s4[0]);
    let s5 = s4.drop_first();
    assert(fold_frame_rx(m4, s4) == fold_frame_rx(m5, s5));
    assert(s5.len() == 0);
    assert(m5 =~= v);
}

/// Round trip for status echoes: folding the emitted attribute run of `v`
/// over the default value gives `v` back, for every `v`.
pub proof fn lemma_tx_info_frame_round_trip(v: GenlTXInfoFrameView)
    ensures
        fold_tx_info_frame(tx_info_frame_default(), tx_info_frame_attr_models(v)) == v,
{
    let s = tx_info_frame_attr_models(v);
    let d = tx_info_frame_default();
    let m1 = apply_tx_info_frame(d, s[0]);
    let s1 = s.drop_first();
    assert(fold_tx_info_frame(d, s) == fold_tx_info_frame(m1, s1));
    let m2 = apply_tx_info_frame(m1, s1[0]);
    let s2 = s1.drop_first();
    assert(fold_tx_info_frame(m1, s1) == fold_tx_info_frame(m2, s2));
    let m3 = apply_tx_info_frame(m2, s2[0]);
    let s3 = s2.drop_first();
    assert(fold_tx_info_frame(m2, s2) == fold_tx_info_frame(m3, s3));
    let m4 = apply_tx_info_frame(m3, s3[0]);
    let s4 = s3.drop_first();
    assert(fold_tx_info_frame(m3, s3) == fold_tx_info_frame(m4, s4));
    let m5 = apply_tx_info_frame(m4, s4[0]);
    let s5 = s4.drop_first();
    assert(fold_tx_info_frame(m4, s4) == fold_tx_info_frame(m5, s5));
    assert(s5.len() == 0);
    assert(m5 =~= v);
}

/// Round trip for radio creation requests: folding the emitted attribute
/// run of `v` over the default value gives `v` back. The regulatory and
/// cipher fields never go out on the wire, so they must hold their
/// defaults.
pub proof fn lemma_new_radio_round_trip(v: GenlNewRadioView)
    requires
        v.reg_hint_alpha2 == Seq::<u8>::empty(),
        v.reg_custom_reg == 0,
        !v.reg_strict_reg,
        v.iftype_support == 0,
        v.cipher_support == Seq::<u32>::empty(),
    ensures
        fold_new_radio(new_radio_default(), new_radio_attr_models(v)) == v,
{
    let d = new_radio_default();
    let t_ch = seq![AttrModel::MChannels(v.channels)];
    let f1: Seq<AttrModel> = if v.support_p2p_device {
        seq![AttrModel::MSupportP2PDevice]
    } else {
        Seq::empty()
    };
    let f2: Seq<AttrModel> = if v.use_chanctx {
        seq![AttrModel::MUseChanctx]
    } else {
        Seq::empty()
    };
    let f3: Seq<AttrModel> = if v.destroy_radio_on_close {
        seq![AttrModel::MDestroyRadioOnClose]
    } else {
        Seq::empty()
    };
    let t_name = seq![AttrModel::MRadioName(v.radio_name)];
    let f4: Seq<AttrModel> = if v.no_vif {
        seq![AttrModel::MNoVif]
    } else {
        Seq::empty()
    };
    let t_addr = seq![AttrModel::MPermAddr(v.perm_addr)];
    lemma_fold_new_radio_concat(d, t_ch + f1 + f2 + f3 + t_name + f4, t_addr);
    lemma_fold_new_radio_concat(d, t_ch + f1 + f2 + f3 + t_name, f4);
    lemma_fold_new_radio_concat(d, t_ch + f1 + f2 + f3, t_name);
    lemma_fold_new_radio_concat(d, t_ch + f1 + f2, f3);
    lemma_fold_new_radio_concat(d, t_ch + f1, f2);
    lemma_fold_new_radio_concat(d, t_ch, f1);
    lemma_fold_new_radio_one(d, t_ch[0]);
    let m1 = apply_new_radio(d, AttrModel::MChannels(v.channels));
    let m2 = fold_new_radio(m1, f1);
    if v.support_p2p_device {
        lemma_fold_new_radio_one(m1, f1[0]);
    } else {
        assert(f1.len() == 0);
        assert(fold_new_radio(m1, f1) == m1);
    }
    let m3 = fold_new_radio(m2, f2);
    if v.use_chanctx {
        lemma_fold_new_radio_one(m2, f2[0]);
    } else {
        assert(fold_new_radio(m2, f2) == m2);
    }
    let m4 = fold_new_radio(m3, f3);
    if v.destroy_radio_on_close {
        lemma_fold_new_radio_one(m3, f3[0]);
    } else {
        assert(fold_new_radio(m3, f3) == m3);
    }
    lemma_fold_new_radio_one(m4, t_name[0]);
    let m5 = apply_new_radio(m4, AttrModel::MRadioName(v.radio_name));
    let m6 = fold_new_radio(m5, f4);
    if v.no_vif {
        lemma_fold_new_radio_one(m5, f4[0]);
    } else {
        assert(fold_new_radio(m5, f4) == m5);
    }
    lemma_fold_new_radio_one(m6, t_addr[0]);
    assert(apply_new_radio(m6, AttrModel::MPermAddr(v.perm_addr)) =~= v);
}

} // verus!
