//! The attribute codec of the control protocol.
//!
//! A control message's payload is a run of attributes. Each attribute is
//! emitted as a four-byte header — a little-endian 16-bit total length
//! (header plus value), then a 16-bit type code — followed by the value
//! bytes, padded with zeros up to the next four-byte boundary.
//!
//! [`HwsimAttrs`] is the executable attribute value; [`AttrModel`] is its
//! mathematical shadow, with byte runs as sequences. Encoding is specified by
//! [`attrs_bytes`]; decoding by the recursive parser [`parse_attrs`], which
//! skips attributes of unrecognized type codes and rejects a buffer only for
//! structural damage (a declared length that overruns the buffer, or a known
//! type whose value has the wrong width).

use crate::constants::{
    HWSIM_ATTR_ADDR_RECEIVER, HWSIM_ATTR_ADDR_TRANSMITTER, HWSIM_ATTR_CHANNELS,
    HWSIM_ATTR_CIPHER_SUPPORT, HWSIM_ATTR_COOKIE, HWSIM_ATTR_DESTROY_RADIO_ON_CLOSE,
    HWSIM_ATTR_FLAGS, HWSIM_ATTR_FRAME, HWSIM_ATTR_FREQ, HWSIM_ATTR_IFTYPE_SUPPORT,
    HWSIM_ATTR_NO_VIF, HWSIM_ATTR_PAD, HWSIM_ATTR_PERM_ADDR, HWSIM_ATTR_RADIO_ID,
    HWSIM_ATTR_RADIO_NAME, HWSIM_ATTR_REG_CUSTOM_REG, HWSIM_ATTR_REG_HINT_ALPHA2,
    HWSIM_ATTR_REG_STRICT_REG, HWSIM_ATTR_RX_RATE, HWSIM_ATTR_SIGNAL, HWSIM_ATTR_SM_PAGE_NUM,
    HWSIM_ATTR_SM_POINTER, HWSIM_ATTR_SUPPORT_P2P_DEVICE, HWSIM_ATTR_TX_INFO,
    HWSIM_ATTR_TX_INFO_FLAGS, HWSIM_ATTR_UNSPEC, HWSIM_ATTR_USE_CHANCTX, IEEE80211_TX_MAX_RATES,
};
use crate::frame::{
    emit_tx_infos, emit_tx_info_flags, frame_bytes, frame_wf, read_tx_infos, read_tx_info_flags,
    tx_infos_bytes, tx_info_flags_bytes, Frame, TXInfo, TXInfoFlag,
};
use crate::wire::{byte_to_i8, push_u16_le, push_u32_le, push_u64_le};
use crate::MACAddress;
use vstd::bytes::{
    spec_u16_from_le_bytes, spec_u16_to_le_bytes, spec_u32_from_le_bytes, spec_u32_to_le_bytes,
    spec_u64_from_le_bytes, spec_u64_to_le_bytes,
};
use vstd::prelude::*;

verus! {

broadcast use vstd::array::group_array_axioms;

/// Decoding failed outright: an attribute's declared length overruns the
/// buffer, or a recognized attribute carries a value of the wrong width.
#[derive(Clone, Copy, Debug, PartialEq, Eq, Structural)]
pub enum CodecError {
    MalformedAttribute,
}

/// A typed attribute of the control protocol.
#[derive(Clone, Debug, PartialEq, Eq)]
pub enum HwsimAttrs {
    Unspec(),
    AddrReceiver(MACAddress),
    AddrTransmitter(MACAddress),
    Frame(Frame),
    Flags(u32),
    RXRate(u32),
    Signal(u32),
    TXInfo([TXInfo; IEEE80211_TX_MAX_RATES]),
    Cookie(u64),
    Channels(u32),
    RadioID(u32),
    RegHintAlpha2(Vec<u8>),
    RegCustomReg(u32),
    RegStrictReg(bool),
    SupportP2PDevice(bool),
    UseChanctx(bool),
    DestroyRadioOnClose(bool),
    RadioName(Vec<u8>),
    NoVif(bool),
    Freq(u32),
    Pad(),
    TXInfoFlags([TXInfoFlag; IEEE80211_TX_MAX_RATES]),
    PermAddr(MACAddress),
    IftypeSupport(u32),
    CipherSupport(Vec<u32>),
    SharedMemoryPointer(u64),
    SharedMemoryPageNum(u32),
}

/// What an attribute says, with every byte run abstracted to a sequence.
/// Two attributes with the same model are the same protocol value.
pub enum AttrModel {
    MUnspec,
    MPad,
    MAddrReceiver(Seq<u8>),
    MAddrTransmitter(Seq<u8>),
    MFrame(Seq<u8>),
    MFlags(u32),
    MRXRate(u32),
    MSignal(u32),
    MTXInfo(Seq<TXInfo>),
    MCookie(u64),
    MChannels(u32),
    MRadioID(u32),
    MRegHintAlpha2(Seq<u8>),
    MRegCustomReg(u32),
    MRegStrictReg,
    MSupportP2PDevice,
    MUseChanctx,
    MDestroyRadioOnClose,
    MRadioName(Seq<u8>),
    MNoVif,
    MFreq(u32),
    MTXInfoFlags(Seq<TXInfoFlag>),
    MPermAddr(Seq<u8>),
    MIftypeSupport(u32),
    MCipherSupport(Seq<u32>),
    MSmPointer(u64),
    MSmPageNum(u32),
}

/// The type code an attribute travels under.
pub open spec fn attr_kind(a: HwsimAttrs) -> u16 {
    match a {
        HwsimAttrs::Unspec() => HWSIM_ATTR_UNSPEC,
        HwsimAttrs::AddrReceiver(_) => HWSIM_ATTR_ADDR_RECEIVER,
        HwsimAttrs::AddrTransmitter(_) => HWSIM_ATTR_ADDR_TRANSMITTER,
        HwsimAttrs::Frame(_) => HWSIM_ATTR_FRAME,
        HwsimAttrs::Flags(_) => HWSIM_ATTR_FLAGS,
        HwsimAttrs::RXRate(_) => HWSIM_ATTR_RX_RATE,
        HwsimAttrs::Signal(_) => HWSIM_ATTR_SIGNAL,
        HwsimAttrs::TXInfo(_) => HWSIM_ATTR_TX_INFO,
        HwsimAttrs::Cookie(_) => HWSIM_ATTR_COOKIE,
        HwsimAttrs::Channels(_) => HWSIM_ATTR_CHANNELS,
        HwsimAttrs::RadioID(_) => HWSIM_ATTR_RADIO_ID,
        HwsimAttrs::RegHintAlpha2(_) => HWSIM_ATTR_REG_HINT_ALPHA2,
        HwsimAttrs::RegCustomReg(_) => HWSIM_ATTR_REG_CUSTOM_REG,
        HwsimAttrs::RegStrictReg(_) => HWSIM_ATTR_REG_STRICT_REG,
        HwsimAttrs::SupportP2PDevice(_) => HWSIM_ATTR_SUPPORT_P2P_DEVICE,
        HwsimAttrs::UseChanctx(_) => HWSIM_ATTR_USE_CHANCTX,
        HwsimAttrs::DestroyRadioOnClose(_) => HWSIM_ATTR_DESTROY_RADIO_ON_CLOSE,
        HwsimAttrs::RadioName(_) => HWSIM_ATTR_RADIO_NAME,
        HwsimAttrs::NoVif(_) => HWSIM_ATTR_NO_VIF,
        HwsimAttrs::Freq(_) => HWSIM_ATTR_FREQ,
        HwsimAttrs::Pad() => HWSIM_ATTR_PAD,
        HwsimAttrs::TXInfoFlags(_) => HWSIM_ATTR_TX_INFO_FLAGS,
        HwsimAttrs::PermAddr(_) => HWSIM_ATTR_PERM_ADDR,
        HwsimAttrs::IftypeSupport(_) => HWSIM_ATTR_IFTYPE_SUPPORT,
        HwsimAttrs::CipherSupport(_) => HWSIM_ATTR_CIPHER_SUPPORT,
        HwsimAttrs::SharedMemoryPointer(_) => HWSIM_ATTR_SM_POINTER,
        HwsimAttrs::SharedMemoryPageNum(_) => HWSIM_ATTR_SM_PAGE_NUM,
    }
}

/// Little-endian bytes of a run of 32-bit words, in order.
pub open spec fn u32s_bytes(s: Seq<u32>) -> Seq<u8>
    decreases s.len(),
{
    if s.len() == 0 {
        Seq::empty()
    } else {
        spec_u32_to_le_bytes(s[0]) + u32s_bytes(s.drop_first())
    }
}

/// An attribute's value bytes, before padding.
pub open spec fn attr_value_bytes(a: HwsimAttrs) -> Seq<u8> {
    match a {
        HwsimAttrs::Unspec() => Seq::empty(),
        HwsimAttrs::AddrReceiver(m) => m@,
        HwsimAttrs::AddrTransmitter(m) => m@,
        HwsimAttrs::Frame(f) => frame_bytes(f),
        HwsimAttrs::Flags(v) => spec_u32_to_le_bytes(v),
        HwsimAttrs::RXRate(v) => spec_u32_to_le_bytes(v),
        HwsimAttrs::Signal(v) => spec_u32_to_le_bytes(v),
        HwsimAttrs::TXInfo(t) => tx_infos_bytes(t@),
        HwsimAttrs::Cookie(v) => spec_u64_to_le_bytes(v),
        HwsimAttrs::Channels(v) => spec_u32_to_le_bytes(v),
        HwsimAttrs::RadioID(v) => spec_u32_to_le_bytes(v),
        HwsimAttrs::RegHintAlpha2(v) => v@,
        HwsimAttrs::RegCustomReg(v) => spec_u32_to_le_bytes(v),
        HwsimAttrs::RegStrictReg(_) => Seq::empty(),
        HwsimAttrs::SupportP2PDevice(_) => Seq::empty(),
        HwsimAttrs::UseChanctx(_) => Seq::empty(),
        HwsimAttrs::DestroyRadioOnClose(_) => Seq::empty(),
        HwsimAttrs::RadioName(v) => v@,
        HwsimAttrs::NoVif(_) => Seq::empty(),
        HwsimAttrs::Freq(v) => spec_u32_to_le_bytes(v),
        HwsimAttrs::Pad() => Seq::empty(),
        HwsimAttrs::TXInfoFlags(t) => tx_info_flags_bytes(t@),
        HwsimAttrs::PermAddr(m) => m@,
        HwsimAttrs::IftypeSupport(v) => spec_u32_to_le_bytes(v),
        HwsimAttrs::CipherSupport(v) => u32s_bytes(v@),
        HwsimAttrs::SharedMemoryPointer(v) => spec_u64_to_le_bytes(v),
        HwsimAttrs::SharedMemoryPageNum(v) => spec_u32_to_le_bytes(v),
    }
}

/// The protocol value an attribute stands for.
pub open spec fn attr_model(a: HwsimAttrs) -> AttrModel
    recommends
        attr_encodable(a),
{
    match a {
        HwsimAttrs::Unspec() => AttrModel::MUnspec,
        HwsimAttrs::AddrReceiver(m) => AttrModel::MAddrReceiver(m@),
        HwsimAttrs::AddrTransmitter(m) => AttrModel::MAddrTransmitter(m@),
        HwsimAttrs::Frame(f) => AttrModel::MFrame(frame_bytes(f)),
        HwsimAttrs::Flags(v) => AttrModel::MFlags(v),
        HwsimAttrs::RXRate(v) => AttrModel::MRXRate(v),
        HwsimAttrs::Signal(v) => AttrModel::MSignal(v),
        HwsimAttrs::TXInfo(t) => AttrModel::MTXInfo(t@),
        HwsimAttrs::Cookie(v) => AttrModel::MCookie(v),
        HwsimAttrs::Channels(v) => AttrModel::MChannels(v),
        HwsimAttrs::RadioID(v) => AttrModel::MRadioID(v),
        HwsimAttrs::RegHintAlpha2(v) => AttrModel::MRegHintAlpha2(v@),
        HwsimAttrs::RegCustomReg(v) => AttrModel::MRegCustomReg(v),
        HwsimAttrs::RegStrictReg(_) => AttrModel::MRegStrictReg,
        HwsimAttrs::SupportP2PDevice(_) => AttrModel::MSupportP2PDevice,
        HwsimAttrs::UseChanctx(_) => AttrModel::MUseChanctx,
        HwsimAttrs::DestroyRadioOnClose(_) => AttrModel::MDestroyRadioOnClose,
        HwsimAttrs::RadioName(v) => AttrModel::MRadioName(v@),
        HwsimAttrs::NoVif(_) => AttrModel::MNoVif,
        HwsimAttrs::Freq(v) => AttrModel::MFreq(v),
        HwsimAttrs::Pad() => AttrModel::MPad,
        HwsimAttrs::TXInfoFlags(t) => AttrModel::MTXInfoFlags(t@),
        HwsimAttrs::PermAddr(m) => AttrModel::MPermAddr(m@),
        HwsimAttrs::IftypeSupport(v) => AttrModel::MIftypeSupport(v),
        HwsimAttrs::CipherSupport(v) => AttrModel::MCipherSupport(v@),
        HwsimAttrs::SharedMemoryPointer(v) => AttrModel::MSmPointer(v),
        HwsimAttrs::SharedMemoryPageNum(v) => AttrModel::MSmPageNum(v),
    }
}

/// The models of a run of attributes, in order.
pub open spec fn attrs_model(s: Seq<HwsimAttrs>) -> Seq<AttrModel> {
    s.map_values(|a: HwsimAttrs| attr_model(a))
}

/// Whether the codec can emit this attribute: the placeholder variants have
/// no wire form, and a variable-length value must fit the 16-bit length
/// field next to its four header bytes.
pub open spec fn attr_encodable(a: HwsimAttrs) -> bool {
    match a {
        HwsimAttrs::Unspec() => false,
        HwsimAttrs::Pad() => false,
        HwsimAttrs::Frame(f) => frame_wf(f),
        HwsimAttrs::RegHintAlpha2(v) => v@.len() + 4 <= 0xFFFF,
        HwsimAttrs::RadioName(v) => v@.len() + 4 <= 0xFFFF,
        HwsimAttrs::CipherSupport(v) => v@.len() * 4 + 4 <= 0xFFFF,
        _ => true,
    }
}

/// An attribute that decoding can give back exactly: encodable, and any
/// presence flag carries `true` (a flag's wire form is its bare presence, so
/// a `false` flag has no faithful encoding).
pub open spec fn attr_wf(a: HwsimAttrs) -> bool {
    attr_encodable(a) && match a {
        HwsimAttrs::RegStrictReg(b) => b,
        HwsimAttrs::SupportP2PDevice(b) => b,
        HwsimAttrs::UseChanctx(b) => b,
        HwsimAttrs::DestroyRadioOnClose(b) => b,
        HwsimAttrs::NoVif(b) => b,
        _ => true,
    }
}

/// Rounds a byte count up to the next multiple of four.
pub open spec fn align4(n: int) -> int {
    if n % 4 == 0 {
        n
    } else {
        n + 4 - n % 4
    }
}

/// A whole attribute record for a given type code and value: length field,
/// type code, value, zero padding to a four-byte boundary.
pub open spec fn raw_attr_bytes(kind: u16, value: Seq<u8>) -> Seq<u8>
    recommends
        value.len() + 4 <= 0xFFFF,
{
    spec_u16_to_le_bytes((value.len() + 4) as u16) + spec_u16_to_le_bytes(kind) + value + Seq::new(
        (align4(value.len() + 4int) - (value.len() + 4)) as nat,
        |i: int| 0u8,
    )
}

/// The wire record of one attribute.
pub open spec fn attr_bytes(a: HwsimAttrs) -> Seq<u8> {
    raw_attr_bytes(attr_kind(a), attr_value_bytes(a))
}

/// The wire form of a run of attributes: records back to back.
pub open spec fn attrs_bytes(s: Seq<HwsimAttrs>) -> Seq<u8>
    decreases s.len(),
{
    if s.len() == 0 {
        Seq::empty()
    } else {
        attr_bytes(s[0]) + attrs_bytes(s.drop_first())
    }
}

impl HwsimAttrs {
    /// The attribute's type code on the wire.
    pub fn kind(&self) -> (r: u16)
        ensures
            r == attr_kind(*self),
    {
        match self {
            HwsimAttrs::Unspec() => HWSIM_ATTR_UNSPEC,
            HwsimAttrs::AddrReceiver(_) => HWSIM_ATTR_ADDR_RECEIVER,
            HwsimAttrs::AddrTransmitter(_) => HWSIM_ATTR_ADDR_TRANSMITTER,
            HwsimAttrs::Frame(_) => HWSIM_ATTR_FRAME,
            HwsimAttrs::Flags(_) => HWSIM_ATTR_FLAGS,
            HwsimAttrs::RXRate(_) => HWSIM_ATTR_RX_RATE,
            HwsimAttrs::Signal(_) => HWSIM_ATTR_SIGNAL,
            HwsimAttrs::TXInfo(_) => HWSIM_ATTR_TX_INFO,
            HwsimAttrs::Cookie(_) => HWSIM_ATTR_COOKIE,
            HwsimAttrs::Channels(_) => HWSIM_ATTR_CHANNELS,
            HwsimAttrs::RadioID(_) => HWSIM_ATTR_RADIO_ID,
            HwsimAttrs::RegHintAlpha2(_) => HWSIM_ATTR_REG_HINT_ALPHA2,
            HwsimAttrs::RegCustomReg(_) => HWSIM_ATTR_REG_CUSTOM_REG,
            HwsimAttrs::RegStrictReg(_) => HWSIM_ATTR_REG_STRICT_REG,
            HwsimAttrs::SupportP2PDevice(_) => HWSIM_ATTR_SUPPORT_P2P_DEVICE,
            HwsimAttrs::UseChanctx(_) => HWSIM_ATTR_USE_CHANCTX,
            HwsimAttrs::DestroyRadioOnClose(_) => HWSIM_ATTR_DESTROY_RADIO_ON_CLOSE,
            HwsimAttrs::RadioName(_) => HWSIM_ATTR_RADIO_NAME,
            HwsimAttrs::NoVif(_) => HWSIM_ATTR_NO_VIF,
            HwsimAttrs::Freq(_) => HWSIM_ATTR_FREQ,
            HwsimAttrs::Pad() => HWSIM_ATTR_PAD,
            HwsimAttrs::TXInfoFlags(_) => HWSIM_ATTR_TX_INFO_FLAGS,
            HwsimAttrs::PermAddr(_) => HWSIM_ATTR_PERM_ADDR,
            HwsimAttrs::IftypeSupport(_) => HWSIM_ATTR_IFTYPE_SUPPORT,
            HwsimAttrs::CipherSupport(_) => HWSIM_ATTR_CIPHER_SUPPORT,
            HwsimAttrs::SharedMemoryPointer(_) => HWSIM_ATTR_SM_POINTER,
            HwsimAttrs::SharedMemoryPageNum(_) => HWSIM_ATTR_SM_PAGE_NUM,
        }
    }

    /// How many value bytes the attribute emits.
    pub fn value_len(&self) -> (r: usize)
        requires
            attr_encodable(*self),
        ensures
            r == attr_value_bytes(*self).len(),
    {
        proof {
            vstd::bytes::lemma_auto_spec_u16_to_from_le_bytes();
            vstd::bytes::lemma_auto_spec_u32_to_from_le_bytes();
            vstd::bytes::lemma_auto_spec_u64_to_from_le_bytes();
        }
        match self {
            HwsimAttrs::Unspec() => 0,
            HwsimAttrs::AddrReceiver(_) => 6,
            HwsimAttrs::AddrTransmitter(_) => 6,
            HwsimAttrs::Frame(f) => f.buffer_len(),
            HwsimAttrs::Flags(_) => 4,
            HwsimAttrs::RXRate(_) => 4,
            HwsimAttrs::Signal(_) => 4,
            HwsimAttrs::TXInfo(_) => 8,
            HwsimAttrs::Cookie(_) => 8,
            HwsimAttrs::Channels(_) => 4,
            HwsimAttrs::RadioID(_) => 4,
            HwsimAttrs::RegHintAlpha2(v) => v.len(),
            HwsimAttrs::RegCustomReg(_) => 4,
            HwsimAttrs::RegStrictReg(_) => 0,
            HwsimAttrs::SupportP2PDevice(_) => 0,
            HwsimAttrs::UseChanctx(_) => 0,
            HwsimAttrs::DestroyRadioOnClose(_) => 0,
            HwsimAttrs::RadioName(v) => v.len(),
            HwsimAttrs::NoVif(_) => 0,
            HwsimAttrs::Freq(_) => 4,
            HwsimAttrs::Pad() => 0,
            HwsimAttrs::TXInfoFlags(_) => 12,
            HwsimAttrs::PermAddr(_) => 6,
            HwsimAttrs::IftypeSupport(_) => 4,
            HwsimAttrs::CipherSupport(v) => {
                proof {
                    lemma_u32s_bytes_len(v@);
                }
                4 * v.len()
            },
            HwsimAttrs::SharedMemoryPointer(_) => 8,
            HwsimAttrs::SharedMemoryPageNum(_) => 4,
        }
    }

    /// Appends the attribute's value bytes (no header, no padding) to `out`.
    pub fn emit_value(&self, out: &mut Vec<u8>)
        requires
            attr_encodable(*self),
        ensures
            final(out)@ == old(out)@ + attr_value_bytes(*self),
    {
        match self {
            HwsimAttrs::Unspec() => (),
            HwsimAttrs::AddrReceiver(m) => out.extend_from_slice(m.as_slice()),
            HwsimAttrs::AddrTransmitter(m) => out.extend_from_slice(m.as_slice()),
            HwsimAttrs::Frame(f) => f.emit(out),
            HwsimAttrs::Flags(v) => push_u32_le(out, *v),
            HwsimAttrs::RXRate(v) => push_u32_le(out, *v),
            HwsimAttrs::Signal(v) => push_u32_le(out, *v),
            HwsimAttrs::TXInfo(t) => emit_tx_infos(t, out),
            HwsimAttrs::Cookie(v) => push_u64_le(out, *v),
            HwsimAttrs::Channels(v) => push_u32_le(out, *v),
            HwsimAttrs::RadioID(v) => push_u32_le(out, *v),
            HwsimAttrs::RegHintAlpha2(v) => out.extend_from_slice(v.as_slice()),
            HwsimAttrs::RegCustomReg(v) => push_u32_le(out, *v),
            HwsimAttrs::RegStrictReg(_) => (),
            HwsimAttrs::SupportP2PDevice(_) => (),
            HwsimAttrs::UseChanctx(_) => (),
            HwsimAttrs::DestroyRadioOnClose(_) => (),
            HwsimAttrs::RadioName(v) => out.extend_from_slice(v.as_slice()),
            HwsimAttrs::NoVif(_) => (),
            HwsimAttrs::Freq(v) => push_u32_le(out, *v),
            HwsimAttrs::Pad() => (),
            HwsimAttrs::TXInfoFlags(t) => emit_tx_info_flags(t, out),
            HwsimAttrs::PermAddr(m) => out.extend_from_slice(m.as_slice()),
            HwsimAttrs::IftypeSupport(v) => push_u32_le(out, *v),
            HwsimAttrs::CipherSupport(v) => emit_u32s(v, out),
            HwsimAttrs::SharedMemoryPointer(v) => push_u64_le(out, *v),
            HwsimAttrs::SharedMemoryPageNum(v) => push_u32_le(out, *v),
        }
        proof {
            assert(final(out)@ =~= old(out)@ + attr_value_bytes(*self));
        }
    }

    /// Appends the attribute's whole wire record — header, value, padding —
    /// to `out`.
    pub fn emit(&self, out: &mut Vec<u8>)
        requires
            attr_encodable(*self),
        ensures
            final(out)@ == old(out)@ + attr_bytes(*self),
    {
        proof {
            lemma_attr_value_len(*self);
        }
        let vlen = self.value_len();
        let total: usize = vlen + 4;
        push_u16_le(out, total as u16);
        push_u16_le(out, self.kind());
        self.emit_value(out);
        let pad: usize = (4 - (total % 4)) % 4;
        let mut k: usize = 0;
        while k < pad
            invariant
                k <= pad,
                pad < 4,
                out@ == old(out)@ + spec_u16_to_le_bytes((attr_value_bytes(*self).len()
                    + 4) as u16) + spec_u16_to_le_bytes(attr_kind(*self)) + attr_value_bytes(*self)
                    + Seq::new(k as nat, |i: int| 0u8),
            decreases pad - k,
        {
            out.push(0);
            proof {
                assert(Seq::new((k + 1) as nat, |i: int| 0u8) =~= Seq::new(k as nat, |i: int| 0u8)
                    + seq![0u8]);
            }
            k = k + 1;
        }
        proof {
            assert(pad == align4(attr_value_bytes(*self).len() + 4int) - (attr_value_bytes(*self).len()
                + 4));
            assert(final(out)@ =~= old(out)@ + attr_bytes(*self));
        }
    }
}

/// Emits a run of 32-bit words little-endian.
fn emit_u32s(v: &Vec<u32>, out: &mut Vec<u8>)
    ensures
        final(out)@ == old(out)@ + u32s_bytes(v@),
{
    let n: usize = v.len();
    let mut i: usize = 0;
    while i < n
        invariant
            i <= n,
            n == v@.len(),
            out@ == old(out)@ + u32s_bytes(v@.subrange(0, i as int)),
        decreases n - i,
    {
        push_u32_le(out, v[i]);
        proof {
            assert(v@.subrange(0, i + 1).drop_last() =~= v@.subrange(0, i as int));
            lemma_u32s_bytes_snoc(v@.subrange(0, i + 1));
        }
        i = i + 1;
    }
    proof {
        assert(v@.subrange(0, n as int) =~= v@);
    }
}

/// An encodable attribute's value, together with the four header bytes,
/// fits the 16-bit length field.
pub proof fn lemma_attr_value_len(a: HwsimAttrs)
    requires
        attr_encodable(a),
    ensures
        attr_value_bytes(a).len() + 4 <= 0xFFFF,
{
    vstd::bytes::lemma_auto_spec_u32_to_from_le_bytes();
    vstd::bytes::lemma_auto_spec_u64_to_from_le_bytes();
    vstd::bytes::lemma_auto_spec_u16_to_from_le_bytes();
    match a {
        HwsimAttrs::CipherSupport(v) => {
            lemma_u32s_bytes_len(v@);
        },
        _ => {},
    }
}

/// Unrolls the word run's byte count.
pub proof fn lemma_u32s_bytes_len(s: Seq<u32>)
    ensures
        u32s_bytes(s).len() == 4 * s.len(),
    decreases s.len(),
{
    vstd::bytes::lemma_auto_spec_u32_to_from_le_bytes();
    if s.len() > 0 {
        lemma_u32s_bytes_len(s.drop_first());
    }
}

/// A nonempty word run's bytes are the bytes of all but the last word,
/// then the last word's bytes.
pub proof fn lemma_u32s_bytes_snoc(s: Seq<u32>)
    requires
        s.len() > 0,
    ensures
        u32s_bytes(s) == u32s_bytes(s.drop_last()) + spec_u32_to_le_bytes(s.last()),
    decreases s.len(),
{
    if s.len() == 1 {
        assert(s.drop_last() =~= Seq::<u32>::empty());
        assert(u32s_bytes(s.drop_first()) =~= Seq::<u8>::empty());
        assert(u32s_bytes(s) =~= u32s_bytes(s.drop_last()) + spec_u32_to_le_bytes(s.last()));
    } else {
        lemma_u32s_bytes_snoc(s.drop_first());
        assert(s.drop_first().drop_last() =~= s.drop_last().drop_first());
        assert(s.drop_first().last() == s.last());
        assert(s.drop_last().len() > 0 && s.drop_last()[0] == s[0]);
        assert(u32s_bytes(s.drop_last()) == spec_u32_to_le_bytes(s[0]) + u32s_bytes(
            s.drop_last().drop_first(),
        ));
        assert(u32s_bytes(s) == spec_u32_to_le_bytes(s[0]) + u32s_bytes(s.drop_first()));
        assert(u32s_bytes(s) =~= u32s_bytes(s.drop_last()) + spec_u32_to_le_bytes(s.last()));
    }
}

/// A run of attributes encodes as the first records followed by the last
/// attribute's record.
pub proof fn lemma_attrs_bytes_snoc(s: Seq<HwsimAttrs>)
    requires
        s.len() > 0,
    ensures
        attrs_bytes(s) == attrs_bytes(s.drop_last()) + attr_bytes(s.last()),
    decreases s.len(),
{
    if s.len() == 1 {
        assert(s.drop_last() =~= Seq::<HwsimAttrs>::empty());
        assert(attrs_bytes(s) =~= attrs_bytes(s.drop_last()) + attr_bytes(s.last()));
    } else {
        lemma_attrs_bytes_snoc(s.drop_first());
        assert(s.drop_first().drop_last() =~= s.drop_last().drop_first());
        assert(s.drop_first().last() == s.last());
        assert(s.drop_last().len() > 0 && s.drop_last()[0] == s[0]);
        assert(attrs_bytes(s.drop_last()) == attr_bytes(s[0]) + attrs_bytes(
            s.drop_last().drop_first(),
        ));
        assert(attrs_bytes(s) == attr_bytes(s[0]) + attrs_bytes(s.drop_first()));
        assert(attrs_bytes(s) =~= attrs_bytes(s.drop_last()) + attr_bytes(s.last()));
    }
}

/// Encodes a run of attributes into a fresh buffer: each record in order,
/// little-endian headers, zero padding to four-byte boundaries.
pub fn encode_attrs(attrs: &Vec<HwsimAttrs>) -> (r: Vec<u8>)
    requires
        forall|i: int| 0 <= i < attrs@.len() ==> attr_encodable(#[trigger] attrs@[i]),
    ensures
        r@ == attrs_bytes(attrs@),
{
    let n: usize = attrs.len();
    let mut out: Vec<u8> = Vec::new();
    let mut i: usize = 0;
    while i < n
        invariant
            i <= n,
            n == attrs@.len(),
            forall|j: int| 0 <= j < attrs@.len() ==> attr_encodable(#[trigger] attrs@[j]),
            out@ == attrs_bytes(attrs@.subrange(0, i as int)),
        decreases n - i,
    {
        attrs[i].emit(&mut out);
        proof {
            assert(attrs@.subrange(0, i + 1).drop_last() =~= attrs@.subrange(0, i as int));
            lemma_attrs_bytes_snoc(attrs@.subrange(0, i + 1));
        }
        i = i + 1;
    }
    proof {
        assert(attrs@.subrange(0, n as int) =~= attrs@);
    }
    out
}

/// Type codes the active schema recognizes. The placeholder codes and
/// anything past the schema's last code are unknown: their attributes are
/// skipped, not rejected.
pub open spec fn known_kind(k: u16) -> bool {
    (HWSIM_ATTR_ADDR_RECEIVER <= k <= HWSIM_ATTR_FREQ) || (HWSIM_ATTR_TX_INFO_FLAGS <= k
        <= HWSIM_ATTR_SM_PAGE_NUM)
}

/// Whether a recognized type code accepts a value of this width.
pub open spec fn value_ok(k: u16, v: Seq<u8>) -> bool {
    if k == HWSIM_ATTR_ADDR_RECEIVER || k == HWSIM_ATTR_ADDR_TRANSMITTER || k
        == HWSIM_ATTR_PERM_ADDR {
        v.len() == 6
    } else if k == HWSIM_ATTR_FRAME {
        v.len() >= 32
    } else if k == HWSIM_ATTR_FLAGS || k == HWSIM_ATTR_RX_RATE || k == HWSIM_ATTR_SIGNAL || k
        == HWSIM_ATTR_CHANNELS || k == HWSIM_ATTR_RADIO_ID || k == HWSIM_ATTR_REG_CUSTOM_REG || k
        == HWSIM_ATTR_FREQ || k == HWSIM_ATTR_IFTYPE_SUPPORT || k == HWSIM_ATTR_SM_PAGE_NUM {
        v.len() == 4
    } else if k == HWSIM_ATTR_TX_INFO || k == HWSIM_ATTR_COOKIE || k == HWSIM_ATTR_SM_POINTER {
        v.len() == 8
    } else if k == HWSIM_ATTR_TX_INFO_FLAGS {
        v.len() == 12
    } else if k == HWSIM_ATTR_CIPHER_SUPPORT {
        v.len() % 4 == 0
    } else {
        true
    }
}

/// Rate attempts read back from their eight wire bytes.
pub open spec fn tx_infos_of_bytes(v: Seq<u8>) -> Seq<TXInfo>
    recommends
        v.len() == 8,
{
    Seq::new(4, |i: int| TXInfo { idx: byte_to_i8(v[2 * i]), count: v[2 * i + 1] })
}

/// Flagged rate attempts read back from their twelve wire bytes.
pub open spec fn tx_info_flags_of_bytes(v: Seq<u8>) -> Seq<TXInfoFlag>
    recommends
        v.len() == 12,
{
    Seq::new(
        4,
        |i: int|
            TXInfoFlag {
                idx: byte_to_i8(v[3 * i]),
                flags: spec_u16_from_le_bytes(v.subrange(3 * i + 1, 3 * i + 3)),
            },
    )
}

/// 32-bit words read back from little-endian bytes.
pub open spec fn u32s_of_bytes(v: Seq<u8>) -> Seq<u32>
    recommends
        v.len() % 4 == 0,
{
    Seq::new((v.len() / 4) as nat, |i: int| spec_u32_from_le_bytes(v.subrange(4 * i, 4 * i + 4)))
}

/// The protocol value a recognized type code gives to a well-shaped value.
pub open spec fn value_model(k: u16, v: Seq<u8>) -> AttrModel
    recommends
        known_kind(k) && value_ok(k, v),
{
    if k == HWSIM_ATTR_ADDR_RECEIVER {
        AttrModel::MAddrReceiver(v)
    } else if k == HWSIM_ATTR_ADDR_TRANSMITTER {
        AttrModel::MAddrTransmitter(v)
    } else if k == HWSIM_ATTR_PERM_ADDR {
        AttrModel::MPermAddr(v)
    } else if k == HWSIM_ATTR_FRAME {
        AttrModel::MFrame(v)
    } else if k == HWSIM_ATTR_FLAGS {
        AttrModel::MFlags(spec_u32_from_le_bytes(v))
    } else if k == HWSIM_ATTR_RX_RATE {
        AttrModel::MRXRate(spec_u32_from_le_bytes(v))
    } else if k == HWSIM_ATTR_SIGNAL {
        AttrModel::MSignal(spec_u32_from_le_bytes(v))
    } else if k == HWSIM_ATTR_CHANNELS {
        AttrModel::MChannels(spec_u32_from_le_bytes(v))
    } else if k == HWSIM_ATTR_RADIO_ID {
        AttrModel::MRadioID(spec_u32_from_le_bytes(v))
    } else if k == HWSIM_ATTR_REG_CUSTOM_REG {
        AttrModel::MRegCustomReg(spec_u32_from_le_bytes(v))
    } else if k == HWSIM_ATTR_FREQ {
        AttrModel::MFreq(spec_u32_from_le_bytes(v))
    } else if k == HWSIM_ATTR_IFTYPE_SUPPORT {
        AttrModel::MIftypeSupport(spec_u32_from_le_bytes(v))
    } else if k == HWSIM_ATTR_SM_PAGE_NUM {
        AttrModel::MSmPageNum(spec_u32_from_le_bytes(v))
    } else if k == HWSIM_ATTR_TX_INFO {
        AttrModel::MTXInfo(tx_infos_of_bytes(v))
    } else if k == HWSIM_ATTR_COOKIE {
        AttrModel::MCookie(spec_u64_from_le_bytes(v))
    } else if k == HWSIM_ATTR_SM_POINTER {
        AttrModel::MSmPointer(spec_u64_from_le_bytes(v))
    } else if k == HWSIM_ATTR_TX_INFO_FLAGS {
        AttrModel::MTXInfoFlags(tx_info_flags_of_bytes(v))
    } else if k == HWSIM_ATTR_CIPHER_SUPPORT {
        AttrModel::MCipherSupport(u32s_of_bytes(v))
    } else if k == HWSIM_ATTR_REG_HINT_ALPHA2 {
        AttrModel::MRegHintAlpha2(v)
    } else if k == HWSIM_ATTR_RADIO_NAME {
        AttrModel::MRadioName(v)
    } else if k == HWSIM_ATTR_REG_STRICT_REG {
        AttrModel::MRegStrictReg
    } else if k == HWSIM_ATTR_SUPPORT_P2P_DEVICE {
        AttrModel::MSupportP2PDevice
    } else if k == HWSIM_ATTR_USE_CHANCTX {
        AttrModel::MUseChanctx
    } else if k == HWSIM_ATTR_DESTROY_RADIO_ON_CLOSE {
        AttrModel::MDestroyRadioOnClose
    } else {
        AttrModel::MNoVif
    }
}

/// The parser: walks the buffer record by record. The empty buffer parses to
/// the empty run. A record needs four header bytes; its declared length must
/// cover the header and stay inside the buffer. Records of unknown type
/// codes are skipped; a recognized record with a misshapen value poisons the
/// whole parse. The cursor then advances past the record's padding (or to
/// the buffer's end, for an unpadded final record).
pub open spec fn parse_attrs(b: Seq<u8>) -> Option<Seq<AttrModel>>
    decreases b.len(),
{
    if b.len() == 0 {
        Some(Seq::empty())
    } else if b.len() < 4 {
        None
    } else {
        let total = spec_u16_from_le_bytes(b.subrange(0, 2)) as int;
        let kind = spec_u16_from_le_bytes(b.subrange(2, 4));
        if total < 4 || total > b.len() {
            None
        } else {
            let value = b.subrange(4, total);
            let skip = if align4(total) <= b.len() {
                align4(total)
            } else {
                b.len() as int
            };
            let rest = b.subrange(skip, b.len() as int);
            if !known_kind(kind) {
                parse_attrs(rest)
            } else if !value_ok(kind, value) {
                None
            } else {
                match parse_attrs(rest) {
                    Option::None => Option::None,
                    Option::Some(tail) => Option::Some(seq![value_model(kind, value)] + tail),
                }
            }
        }
    }
}

/// Decodes one recognized value. `Ok(None)` means the type code is unknown
/// and the attribute is to be skipped.
fn decode_value(kind: u16, v: &[u8]) -> (r: Result<Option<HwsimAttrs>, CodecError>)
    requires
        v@.len() + 4 <= 0xFFFF,
    ensures
        match r {
            Result::Ok(opt) => match opt {
                Option::Some(a) => {
                    &&& known_kind(kind)
                    &&& value_ok(kind, v@)
                    &&& attr_kind(a) == kind
                    &&& attr_wf(a)
                    &&& attr_model(a) == value_model(kind, v@)
                },
                Option::None => !known_kind(kind),
            },
            Result::Err(_) => known_kind(kind) && !value_ok(kind, v@),
        },
{
    let n: usize = v.len();
    if kind == HWSIM_ATTR_ADDR_RECEIVER || kind == HWSIM_ATTR_ADDR_TRANSMITTER || kind
        == HWSIM_ATTR_PERM_ADDR {
        if n != 6 {
            return Result::Err(CodecError::MalformedAttribute);
        }
        let m = crate::frame::read_mac(v);
        let a = if kind == HWSIM_ATTR_ADDR_RECEIVER {
            HwsimAttrs::AddrReceiver(m)
        } else if kind == HWSIM_ATTR_ADDR_TRANSMITTER {
            HwsimAttrs::AddrTransmitter(m)
        } else {
            HwsimAttrs::PermAddr(m)
        };
        proof {
            assert(m@ =~= v@);
        }
        Result::Ok(Option::Some(a))
    } else if kind == HWSIM_ATTR_FRAME {
        if n < 32 {
            return Result::Err(CodecError::MalformedAttribute);
        }
        let f = Frame::from_bytes(v);
        Result::Ok(Option::Some(HwsimAttrs::Frame(f)))
    } else if kind == HWSIM_ATTR_FLAGS || kind == HWSIM_ATTR_RX_RATE || kind == HWSIM_ATTR_SIGNAL
        || kind == HWSIM_ATTR_CHANNELS || kind == HWSIM_ATTR_RADIO_ID || kind
        == HWSIM_ATTR_REG_CUSTOM_REG || kind == HWSIM_ATTR_FREQ || kind == HWSIM_ATTR_IFTYPE_SUPPORT
        || kind == HWSIM_ATTR_SM_PAGE_NUM {
        if n != 4 {
            return Result::Err(CodecError::MalformedAttribute);
        }
        let x = crate::wire::read_u32_le(v, 0);
        proof {
            assert(v@.subrange(0, 4) =~= v@);
        }
        let a = if kind == HWSIM_ATTR_FLAGS {
            HwsimAttrs::Flags(x)
        } else if kind == HWSIM_ATTR_RX_RATE {
            HwsimAttrs::RXRate(x)
        } else if kind == HWSIM_ATTR_SIGNAL {
            HwsimAttrs::Signal(x)
        } else if kind == HWSIM_ATTR_CHANNELS {
            HwsimAttrs::Channels(x)
        } else if kind == HWSIM_ATTR_RADIO_ID {
            HwsimAttrs::RadioID(x)
        } else if kind == HWSIM_ATTR_REG_CUSTOM_REG {
            HwsimAttrs::RegCustomReg(x)
        } else if kind == HWSIM_ATTR_FREQ {
            HwsimAttrs::Freq(x)
        } else if kind == HWSIM_ATTR_IFTYPE_SUPPORT {
            HwsimAttrs::IftypeSupport(x)
        } else {
            HwsimAttrs::SharedMemoryPageNum(x)
        };
        Result::Ok(Option::Some(a))
    } else if kind == HWSIM_ATTR_COOKIE || kind == HWSIM_ATTR_SM_POINTER {
        if n != 8 {
            return Result::Err(CodecError::MalformedAttribute);
        }
        let x = crate::wire::read_u64_le(v, 0);
        proof {
            assert(v@.subrange(0, 8) =~= v@);
        }
        let a = if kind == HWSIM_ATTR_COOKIE {
            HwsimAttrs::Cookie(x)
        } else {
            HwsimAttrs::SharedMemoryPointer(x)
        };
        Result::Ok(Option::Some(a))
    } else if kind == HWSIM_ATTR_TX_INFO {
        if n != 8 {
            return Result::Err(CodecError::MalformedAttribute);
        }
        let t = read_tx_infos(v, 0);
        proof {
            assert(v@.subrange(0, 8) =~= v@);
            lemma_tx_infos_inverse(t@);
        }
        Result::Ok(Option::Some(HwsimAttrs::TXInfo(t)))
    } else if kind == HWSIM_ATTR_TX_INFO_FLAGS {
        if n != 12 {
            return Result::Err(CodecError::MalformedAttribute);
        }
        let t = read_tx_info_flags(v, 0);
        proof {
            assert(v@.subrange(0, 12) =~= v@);
            lemma_tx_info_flags_inverse(t@);
        }
        Result::Ok(Option::Some(HwsimAttrs::TXInfoFlags(t)))
    } else if kind == HWSIM_ATTR_CIPHER_SUPPORT {
        if n % 4 != 0 {
            return Result::Err(CodecError::MalformedAttribute);
        }
        let words = read_u32s(v);
        proof {
            lemma_u32s_inverse(words@);
        }
        Result::Ok(Option::Some(HwsimAttrs::CipherSupport(words)))
    } else if kind == HWSIM_ATTR_REG_HINT_ALPHA2 || kind == HWSIM_ATTR_RADIO_NAME {
        let mut bytes: Vec<u8> = Vec::new();
        bytes.extend_from_slice(v);
        proof {
            assert(bytes@ =~= v@);
        }
        let a = if kind == HWSIM_ATTR_REG_HINT_ALPHA2 {
            HwsimAttrs::RegHintAlpha2(bytes)
        } else {
            HwsimAttrs::RadioName(bytes)
        };
        Result::Ok(Option::Some(a))
    } else if kind == HWSIM_ATTR_REG_STRICT_REG {
        Result::Ok(Option::Some(HwsimAttrs::RegStrictReg(true)))
    } else if kind == HWSIM_ATTR_SUPPORT_P2P_DEVICE {
        Result::Ok(Option::Some(HwsimAttrs::SupportP2PDevice(true)))
    } else if kind == HWSIM_ATTR_USE_CHANCTX {
        Result::Ok(Option::Some(HwsimAttrs::UseChanctx(true)))
    } else if kind == HWSIM_ATTR_DESTROY_RADIO_ON_CLOSE {
        Result::Ok(Option::Some(HwsimAttrs::DestroyRadioOnClose(true)))
    } else if kind == HWSIM_ATTR_NO_VIF {
        Result::Ok(Option::Some(HwsimAttrs::NoVif(true)))
    } else {
        Result::Ok(Option::None)
    }
}

/// Reads back a run of little-endian 32-bit words.
fn read_u32s(v: &[u8]) -> (r: Vec<u32>)
    requires
        v@.len() % 4 == 0,
    ensures
        u32s_bytes(r@) == v@,
        r@ == u32s_of_bytes(v@),
{
    let n: usize = v.len();
    let mut out: Vec<u32> = Vec::new();
    let mut i: usize = 0;
    while i * 4 < n
        invariant
            v@.len() == n,
            n % 4 == 0,
            i * 4 <= n,
            out@.len() == i,
            u32s_bytes(out@) == v@.subrange(0, i * 4),
        decreases n - i * 4,
    {
        let x = crate::wire::read_u32_le(v, i * 4);
        let ghost prior = out@;
        out.push(x);
        proof {
            vstd::bytes::lemma_auto_spec_u32_to_from_le_bytes();
            assert(out@.drop_last() =~= prior);
            lemma_u32s_bytes_snoc(out@);
            assert(spec_u32_to_le_bytes(x) == v@.subrange(i * 4, i * 4 + 4));
            assert(u32s_bytes(out@) =~= v@.subrange(0, (i + 1) * 4));
        }
        i = i + 1;
    }
    proof {
        assert(v@.subrange(0, n as int) =~= v@);
        lemma_u32s_inverse(out@);
    }
    out
}

/// Reading the emitted bytes of four rate attempts gives the attempts back.
pub proof fn lemma_tx_infos_inverse(s: Seq<TXInfo>)
    requires
        s.len() == 4,
    ensures
        tx_infos_of_bytes(tx_infos_bytes(s)) == s,
{
    let b = tx_infos_bytes(s);
    assert forall|i: int| 0 <= i < 4 implies tx_infos_of_bytes(b)[i] == s[i] by {
        assert(b[2 * i] == crate::wire::i8_to_byte(s[i].idx));
        assert(b[2 * i + 1] == s[i].count);
    }
    assert(tx_infos_of_bytes(b) =~= s);
}

/// Reading the emitted bytes of four flagged attempts gives them back.
pub proof fn lemma_tx_info_flags_inverse(s: Seq<TXInfoFlag>)
    requires
        s.len() == 4,
    ensures
        tx_info_flags_of_bytes(tx_info_flags_bytes(s)) == s,
{
    vstd::bytes::lemma_auto_spec_u16_to_from_le_bytes();
    let b = tx_info_flags_bytes(s);
    assert forall|i: int| 0 <= i < 4 implies tx_info_flags_of_bytes(b)[i] == s[i] by {
        assert(b[3 * i] == crate::wire::i8_to_byte(s[i].idx));
        assert(b.subrange(3 * i + 1, 3 * i + 3) =~= spec_u16_to_le_bytes(s[i].flags));
    }
    assert(tx_info_flags_of_bytes(b) =~= s);
}

/// Reading the emitted bytes of a word run gives the words back.
pub proof fn lemma_u32s_inverse(s: Seq<u32>)
    ensures
        u32s_of_bytes(u32s_bytes(s)) == s,
    decreases s.len(),
{
    vstd::bytes::lemma_auto_spec_u32_to_from_le_bytes();
    lemma_u32s_bytes_len(s);
    let b = u32s_bytes(s);
    if s.len() == 0 {
        assert(u32s_of_bytes(b) =~= s);
    } else {
        lemma_u32s_inverse(s.drop_first());
        lemma_u32s_bytes_len(s.drop_first());
        assert forall|i: int| 0 <= i < s.len() implies u32s_of_bytes(b)[i] == s[i] by {
            if i == 0 {
                assert(b.subrange(0, 4) =~= spec_u32_to_le_bytes(s[0]));
            } else {
                let tail = u32s_bytes(s.drop_first());
                assert(b.subrange(4 * i, 4 * i + 4) =~= tail.subrange(4 * (i - 1), 4 * (i - 1)
                    + 4));
                assert(u32s_of_bytes(tail)[i - 1] == s.drop_first()[i - 1]);
            }
        }
        assert(u32s_of_bytes(b) =~= s);
    }
}


/// Decodes a buffer into its recognized attributes, record by record.
/// Attributes of unknown type codes are skipped; the rest come back in
/// order, every one well formed. The one error rejects buffers whose
/// records overrun the buffer or carry misshapen known values.
pub fn decode_attrs(buf: &[u8]) -> (r: Result<Vec<HwsimAttrs>, CodecError>)
    ensures
        match r {
            Result::Ok(v) => {
                &&& parse_attrs(buf@) == Option::Some(attrs_model(v@))
                &&& forall|i: int| 0 <= i < v@.len() ==> attr_wf(#[trigger] v@[i])
            },
            Result::Err(_) => parse_attrs(buf@) is None,
        },
{
    let n: usize = buf.len();
    let mut acc: Vec<HwsimAttrs> = Vec::new();
    let mut off: usize = 0;
    proof {
        assert(buf@.subrange(0, n as int) =~= buf@);
        if parse_attrs(buf@) is Some {
            let t = parse_attrs(buf@)->Some_0;
            assert(attrs_model(acc@) + t =~= t);
        }
    }
    while off < n
        invariant
            off <= n,
            n == buf@.len(),
            forall|i: int| 0 <= i < acc@.len() ==> attr_wf(#[trigger] acc@[i]),
            parse_attrs(buf@) == (match parse_attrs(buf@.subrange(off as int, n as int)) {
                Option::None => Option::None::<Seq<AttrModel>>,
                Option::Some(t) => Option::Some(attrs_model(acc@) + t),
            }),
        decreases n - off,
    {
        let ghost rest = buf@.subrange(off as int, n as int);
        if n - off < 4 {
            return Result::Err(CodecError::MalformedAttribute);
        }
        let total = crate::wire::read_u16_le(buf, off) as usize;
        let kind = crate::wire::read_u16_le(buf, off + 2);
        proof {
            assert(rest.subrange(0, 2) =~= buf@.subrange(off as int, off + 2));
            assert(rest.subrange(2, 4) =~= buf@.subrange(off + 2, off + 4));
        }
        if total < 4 || total > n - off {
            return Result::Err(CodecError::MalformedAttribute);
        }
        let value = &buf[off + 4..off + total];
        proof {
            assert(value@ =~= rest.subrange(4, total as int));
        }
        let aligned: usize = if total % 4 == 0 {
            total
        } else {
            total + (4 - total % 4)
        };
        let next: usize = if aligned <= n - off {
            off + aligned
        } else {
            n
        };
        let ghost rest2 = buf@.subrange(next as int, n as int);
        proof {
            assert(aligned == align4(total as int));
            assert(rest2 =~= rest.subrange(
                if align4(total as int) <= rest.len() {
                    align4(total as int)
                } else {
                    rest.len() as int
                },
                rest.len() as int,
            ));
        }
        match decode_value(kind, value) {
            Result::Err(e) => {
                proof {
                    assert(parse_attrs(rest) is None);
                }
                return Result::Err(e);
            },
            Result::Ok(opt) => {
                match opt {
                    Option::Some(a) => {
                        let ghost prior = acc@;
                        let ghost vm = value_model(kind, value@);
                        acc.push(a);
                        proof {
                            assert(acc@.map_values(|x: HwsimAttrs| attr_model(x)) =~= prior
                                .map_values(|x: HwsimAttrs| attr_model(x)).push(attr_model(a)));
                            assert(parse_attrs(rest) == (match parse_attrs(rest2) {
                                Option::None => Option::None::<Seq<AttrModel>>,
                                Option::Some(t) => Option::Some(seq![vm] + t),
                            }));
                            if parse_attrs(rest2) is Some {
                                let t = parse_attrs(rest2)->Some_0;
                                assert(attrs_model(prior) + (seq![vm] + t) =~= attrs_model(acc@)
                                    + t);
                            }
                        }
                    },
                    Option::None => {
                        proof {
                            assert(parse_attrs(rest) == parse_attrs(rest2));
                        }
                    },
                }
            },
        }
        off = next;
    }
    proof {
        assert(buf@.subrange(n as int, n as int) =~= Seq::<u8>::empty());
        assert(attrs_model(acc@) + Seq::<AttrModel>::empty() =~= attrs_model(acc@));
    }
    Result::Ok(acc)
}


/// A well-formed attribute's value bytes parse back to the attribute's own
/// model under its own type code.
pub proof fn lemma_value_model_of_attr(a: HwsimAttrs)
    requires
        attr_wf(a),
    ensures
        known_kind(attr_kind(a)),
        value_ok(attr_kind(a), attr_value_bytes(a)),
        value_model(attr_kind(a), attr_value_bytes(a)) == attr_model(a),
{
    vstd::bytes::lemma_auto_spec_u16_to_from_le_bytes();
    vstd::bytes::lemma_auto_spec_u32_to_from_le_bytes();
    vstd::bytes::lemma_auto_spec_u64_to_from_le_bytes();
    let k = attr_kind(a);
    let v = attr_value_bytes(a);
    match a {
        HwsimAttrs::Frame(f) => {
            crate::frame::lemma_header_bytes_len(f.header);
        },
        HwsimAttrs::Flags(x) => {
            assert(v.subrange(0, 4) =~= v);
        },
        HwsimAttrs::RXRate(x) => {
            assert(v.subrange(0, 4) =~= v);
        },
        HwsimAttrs::Signal(x) => {
            assert(v.subrange(0, 4) =~= v);
        },
        HwsimAttrs::Channels(x) => {
            assert(v.subrange(0, 4) =~= v);
        },
        HwsimAttrs::RadioID(x) => {
            assert(v.subrange(0, 4) =~= v);
        },
        HwsimAttrs::RegCustomReg(x) => {
            assert(v.subrange(0, 4) =~= v);
        },
        HwsimAttrs::Freq(x) => {
            assert(v.subrange(0, 4) =~= v);
        },
        HwsimAttrs::IftypeSupport(x) => {
            assert(v.subrange(0, 4) =~= v);
        },
        HwsimAttrs::SharedMemoryPageNum(x) => {
            assert(v.subrange(0, 4) =~= v);
        },
        HwsimAttrs::TXInfo(t) => {
            lemma_tx_infos_inverse(t@);
        },
        HwsimAttrs::TXInfoFlags(t) => {
            lemma_tx_info_flags_inverse(t@);
        },
        HwsimAttrs::CipherSupport(w) => {
            lemma_u32s_bytes_len(w@);
            lemma_u32s_inverse(w@);
        },
        _ => {},
    }
}

/// Unrolls the parser over one leading record: a record of an unknown type
/// code is skipped, a recognized record with a misshapen value poisons the
/// parse, and a recognized well-shaped record contributes its model.
pub proof fn lemma_parse_attr_prefix(kind: u16, value: Seq<u8>, rest: Seq<u8>)
    requires
        value.len() + 4 <= 0xFFFF,
    ensures
        parse_attrs(raw_attr_bytes(kind, value) + rest) == (if !known_kind(kind) {
            parse_attrs(rest)
        } else if !value_ok(kind, value) {
            Option::None
        } else {
            match parse_attrs(rest) {
                Option::None => Option::None::<Seq<AttrModel>>,
                Option::Some(t) => Option::Some(seq![value_model(kind, value)] + t),
            }
        }),
{
    vstd::bytes::lemma_auto_spec_u16_to_from_le_bytes();
    let w = raw_attr_bytes(kind, value);
    let b = w + rest;
    let total = value.len() + 4;
    assert(w.len() == align4(total as int));
    assert(b.subrange(0, 2) =~= spec_u16_to_le_bytes(total as u16));
    assert(b.subrange(2, 4) =~= spec_u16_to_le_bytes(kind));
    assert(spec_u16_from_le_bytes(b.subrange(0, 2)) == total);
    assert(spec_u16_from_le_bytes(b.subrange(2, 4)) == kind);
    assert(b.subrange(4, total as int) =~= value);
    assert(align4(total as int) <= b.len());
    assert(b.subrange(align4(total as int), b.len() as int) =~= rest);
}

/// Records of unknown type codes are skipped: parsing continues with the
/// rest of the buffer as if the record were not there.
pub proof fn lemma_unknown_attr_skipped(kind: u16, value: Seq<u8>, rest: Seq<u8>)
    requires
        !known_kind(kind),
        value.len() + 4 <= 0xFFFF,
    ensures
        parse_attrs(raw_attr_bytes(kind, value) + rest) == parse_attrs(rest),
{
    lemma_parse_attr_prefix(kind, value, rest);
}

/// The codec round trip: a run of well-formed attributes, encoded and then
/// parsed, gives back exactly its own models, in order.
pub proof fn lemma_parse_of_encode(s: Seq<HwsimAttrs>)
    requires
        forall|i: int| 0 <= i < s.len() ==> attr_wf(#[trigger] s[i]),
    ensures
        parse_attrs(attrs_bytes(s)) == Option::Some(attrs_model(s)),
    decreases s.len(),
{
    if s.len() == 0 {
        assert(attrs_bytes(s) =~= Seq::<u8>::empty());
        assert(attrs_model(s) =~= Seq::<AttrModel>::empty());
    } else {
        let a = s[0];
        let tail = s.drop_first();
        lemma_parse_of_encode(tail);
        lemma_value_model_of_attr(a);
        lemma_attr_value_len(a);
        lemma_parse_attr_prefix(attr_kind(a), attr_value_bytes(a), attrs_bytes(tail));
        assert(attrs_bytes(s) == attr_bytes(a) + attrs_bytes(tail));
        assert(seq![attr_model(a)] + attrs_model(tail) =~= attrs_model(s));
    }
}

} // verus!
