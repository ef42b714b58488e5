//! Plain configuration records: what the operator declares per radio, and
//! the conversions into the protocol and registry values the rest of the
//! crate uses. Reading the declaration from disk is the surrounding
//! program's job; this module only converts.

use crate::structs::{GenlNewRadio, GenlNewRadioView};
use crate::topology::{HwsimRadio, HwsimRadios};
use crate::MACAddress;
use vstd::prelude::*;

verus! {

broadcast use vstd::array::group_array_axioms;

/// One radio as configured: channel count, capability flags, permanent
/// address.
#[derive(Clone, Copy, Debug, PartialEq, Eq)]
pub struct Radio {
    pub channels: u32,
    pub support_p2p_device: bool,
    pub use_chanctx: bool,
    pub destroy_radio_on_close: bool,
    pub no_vif: bool,
    pub perm_addr: MACAddress,
}

/// The whole declaration: the radios, in the order that assigns their ids.
#[derive(Clone, Debug, PartialEq, Eq)]
pub struct Config {
    pub radios: Vec<Radio>,
}

/// The radio creation request a configured radio stands for: its
/// capabilities carried over, the regulatory fields left at their
/// defaults, an empty name.
pub open spec fn new_radio_of_radio(r: Radio) -> GenlNewRadioView {
    GenlNewRadioView {
        channels: r.channels,
        reg_hint_alpha2: Seq::empty(),
        reg_custom_reg: 0,
        reg_strict_reg: false,
        support_p2p_device: r.support_p2p_device,
        use_chanctx: r.use_chanctx,
        destroy_radio_on_close: r.destroy_radio_on_close,
        radio_name: Seq::empty(),
        no_vif: r.no_vif,
        perm_addr: r.perm_addr@,
        iftype_support: 0,
        cipher_support: Seq::empty(),
    }
}

impl Radio {
    /// The radio creation request for this configured radio.
    pub fn into_new_radio(&self) -> (r: GenlNewRadio)
        ensures
            r@ == new_radio_of_radio(*self),
    {
        let r = GenlNewRadio {
            channels: self.channels,
            reg_hint_alpha2: Vec::new(),
            reg_custom_reg: 0,
            reg_strict_reg: false,
            support_p2p_device: self.support_p2p_device,
            use_chanctx: self.use_chanctx,
            destroy_radio_on_close: self.destroy_radio_on_close,
            radio_name: Vec::new(),
            no_vif: self.no_vif,
            perm_addr: self.perm_addr,
            iftype_support: 0,
            cipher_support: Vec::new(),
        };
        proof {
            assert(r@ =~= new_radio_of_radio(*self));
        }
        r
    }
}

impl Config {
    /// The radio registry this declaration stands for: one entry per
    /// radio, in order, keyed by its permanent address.
    pub fn to_hwsim_radios(&self) -> (r: HwsimRadios)
        ensures
            r.radios@.len() == self.radios@.len(),
            forall|i: int|
                0 <= i < self.radios@.len() ==> (#[trigger] r.radios@[i]).addr
                    == self.radios@[i].perm_addr && r.radios@[i].hw_addr
                    == self.radios@[i].perm_addr,
    {
        let n: usize = self.radios.len();
        let mut radios: Vec<HwsimRadio> = Vec::new();
        let mut i: usize = 0;
        while i < n
            invariant
                i <= n,
                n == self.radios@.len(),
                radios@.len() == i,
                forall|j: int|
                    0 <= j < i ==> (#[trigger] radios@[j]).addr == self.radios@[j].perm_addr
                        && radios@[j].hw_addr == self.radios@[j].perm_addr,
            decreases n - i,
        {
            let a = self.radios[i].perm_addr;
            radios.push(HwsimRadio { addr: a, hw_addr: a });
            i = i + 1;
        }
        HwsimRadios { radios }
    }
}

} // verus!
