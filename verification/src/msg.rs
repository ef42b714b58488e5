//! Control message framing: the command space of the kernel driver's
//! generic family, and the payload of a control message — a command with its
//! run of attributes.
//!
//! A received payload is taken apart by [`parse_genl_payload`]: an unknown
//! command code is a [`ProtocolError::UnknownCommand`] (the message is
//! dropped, never fatal), and damaged attributes surface as a codec error.
//! An outbound payload is laid down by [`GenlMAC::emit`].

use crate::attrs::{
    attr_encodable, attr_wf, attrs_bytes, attrs_model, decode_attrs, encode_attrs, parse_attrs,
    AttrModel, CodecError, HwsimAttrs,
};
use crate::constants::{
    FAMILY_NAME, HWSIM_CMD_ADD_MAC_ADDR, HWSIM_CMD_DEL_MAC_ADDR, HWSIM_CMD_DEL_RADIO,
    HWSIM_CMD_FRAME, HWSIM_CMD_GET_RADIO, HWSIM_CMD_NEW_RADIO, HWSIM_CMD_REGISTER,
    HWSIM_CMD_RX_INFO_NOTIFY, HWSIM_CMD_TX_INFO_FRAME, HWSIM_CMD_TX_INFO_NOTIFY,
};
use vstd::prelude::*;

verus! {

/// A message-level fault: a command code outside the registered numbering, a
/// message kind asked to go in a direction it does not support, or damaged
/// attributes inside the payload.
#[derive(Clone, Copy, Debug, PartialEq, Eq, Structural)]
pub enum ProtocolError {
    UnknownCommand(u8),
    Unsupported,
    Codec(CodecError),
}

/// The commands of the control protocol, in the kernel driver's numbering.
#[derive(Clone, Copy, Debug, PartialEq, Eq, Structural)]
pub enum HwsimCmd {
    Register,
    Frame,
    TXInfoFrame,
    NewRadio,
    DelRadio,
    GetRadio,
    AddMACAddr,
    DelMACAddr,
    TXInfoNotify,
    RXInfoNotify,
}

/// The wire byte of a command.
pub open spec fn cmd_code(c: HwsimCmd) -> u8 {
    match c {
        HwsimCmd::Register => HWSIM_CMD_REGISTER,
        HwsimCmd::Frame => HWSIM_CMD_FRAME,
        HwsimCmd::TXInfoFrame => HWSIM_CMD_TX_INFO_FRAME,
        HwsimCmd::NewRadio => HWSIM_CMD_NEW_RADIO,
        HwsimCmd::DelRadio => HWSIM_CMD_DEL_RADIO,
        HwsimCmd::GetRadio => HWSIM_CMD_GET_RADIO,
        HwsimCmd::AddMACAddr => HWSIM_CMD_ADD_MAC_ADDR,
        HwsimCmd::DelMACAddr => HWSIM_CMD_DEL_MAC_ADDR,
        HwsimCmd::TXInfoNotify => HWSIM_CMD_TX_INFO_NOTIFY,
        HwsimCmd::RXInfoNotify => HWSIM_CMD_RX_INFO_NOTIFY,
    }
}

/// The command a wire byte names, if any.
pub open spec fn cmd_of_code(x: u8) -> Option<HwsimCmd> {
    if x == HWSIM_CMD_REGISTER {
        Option::Some(HwsimCmd::Register)
    } else if x == HWSIM_CMD_FRAME {
        Option::Some(HwsimCmd::Frame)
    } else if x == HWSIM_CMD_TX_INFO_FRAME {
        Option::Some(HwsimCmd::TXInfoFrame)
    } else if x == HWSIM_CMD_NEW_RADIO {
        Option::Some(HwsimCmd::NewRadio)
    } else if x == HWSIM_CMD_DEL_RADIO {
        Option::Some(HwsimCmd::DelRadio)
    } else if x == HWSIM_CMD_GET_RADIO {
        Option::Some(HwsimCmd::GetRadio)
    } else if x == HWSIM_CMD_ADD_MAC_ADDR {
        Option::Some(HwsimCmd::AddMACAddr)
    } else if x == HWSIM_CMD_DEL_MAC_ADDR {
        Option::Some(HwsimCmd::DelMACAddr)
    } else if x == HWSIM_CMD_TX_INFO_NOTIFY {
        Option::Some(HwsimCmd::TXInfoNotify)
    } else if x == HWSIM_CMD_RX_INFO_NOTIFY {
        Option::Some(HwsimCmd::RXInfoNotify)
    } else {
        Option::None
    }
}

/// The two spec functions invert each other: every command's code names the
/// command, and every recognized code round-trips.
pub broadcast proof fn lemma_cmd_code_inverse(c: HwsimCmd)
    ensures
        #[trigger] cmd_of_code(cmd_code(c)) == Option::Some(c),
{
}

impl HwsimCmd {
    /// The command's wire byte.
    pub fn code(&self) -> (r: u8)
        ensures
            r == cmd_code(*self),
    {
        match self {
            HwsimCmd::Register => HWSIM_CMD_REGISTER,
            HwsimCmd::Frame => HWSIM_CMD_FRAME,
            HwsimCmd::TXInfoFrame => HWSIM_CMD_TX_INFO_FRAME,
            HwsimCmd::NewRadio => HWSIM_CMD_NEW_RADIO,
            HwsimCmd::DelRadio => HWSIM_CMD_DEL_RADIO,
            HwsimCmd::GetRadio => HWSIM_CMD_GET_RADIO,
            HwsimCmd::AddMACAddr => HWSIM_CMD_ADD_MAC_ADDR,
            HwsimCmd::DelMACAddr => HWSIM_CMD_DEL_MAC_ADDR,
            HwsimCmd::TXInfoNotify => HWSIM_CMD_TX_INFO_NOTIFY,
            HwsimCmd::RXInfoNotify => HWSIM_CMD_RX_INFO_NOTIFY,
        }
    }

    /// The command a wire byte names; an unrecognized byte is reported in
    /// the error, for the caller to log and drop.
    pub fn from_code(x: u8) -> (r: Result<HwsimCmd, ProtocolError>)
        ensures
            match r {
                Result::Ok(c) => cmd_of_code(x) == Option::Some(c),
                Result::Err(e) => cmd_of_code(x) is None && e == ProtocolError::UnknownCommand(x),
            },
    {
        if x == HWSIM_CMD_REGISTER {
            Result::Ok(HwsimCmd::Register)
        } else if x == HWSIM_CMD_FRAME {
            Result::Ok(HwsimCmd::Frame)
        } else if x == HWSIM_CMD_TX_INFO_FRAME {
            Result::Ok(HwsimCmd::TXInfoFrame)
        } else if x == HWSIM_CMD_NEW_RADIO {
            Result::Ok(HwsimCmd::NewRadio)
        } else if x == HWSIM_CMD_DEL_RADIO {
            Result::Ok(HwsimCmd::DelRadio)
        } else if x == HWSIM_CMD_GET_RADIO {
            Result::Ok(HwsimCmd::GetRadio)
        } else if x == HWSIM_CMD_ADD_MAC_ADDR {
            Result::Ok(HwsimCmd::AddMACAddr)
        } else if x == HWSIM_CMD_DEL_MAC_ADDR {
            Result::Ok(HwsimCmd::DelMACAddr)
        } else if x == HWSIM_CMD_TX_INFO_NOTIFY {
            Result::Ok(HwsimCmd::TXInfoNotify)
        } else if x == HWSIM_CMD_RX_INFO_NOTIFY {
            Result::Ok(HwsimCmd::RXInfoNotify)
        } else {
            Result::Err(ProtocolError::UnknownCommand(x))
        }
    }
}

/// A control message's payload: the command and its attributes. The outer
/// protocol headers (and the family's runtime id) belong to the transport
/// outside this crate.
#[derive(Clone, Debug, PartialEq, Eq)]
pub struct GenlMAC {
    pub cmd: HwsimCmd,
    pub nlas: Vec<HwsimAttrs>,
}

/// Every attribute of the message can be emitted.
pub open spec fn genl_mac_encodable(m: GenlMAC) -> bool {
    forall|i: int| 0 <= i < m.nlas@.len() ==> attr_encodable(#[trigger] m.nlas@[i])
}

impl GenlMAC {
    /// The name the generic family is registered under.
    pub fn family_name() -> (r: &'static str)
        ensures
            r@ == FAMILY_NAME@,
    {
        FAMILY_NAME
    }

    /// The command byte of this message.
    pub fn command(&self) -> (r: u8)
        ensures
            r == cmd_code(self.cmd),
    {
        self.cmd.code()
    }

    /// The protocol version carried in the family header.
    pub fn version(&self) -> (r: u8)
        ensures
            r == 1,
    {
        1
    }

    /// How many bytes the attribute payload takes.
    pub fn buffer_len(&self) -> (r: usize)
        requires
            genl_mac_encodable(*self),
            attrs_bytes(self.nlas@).len() <= usize::MAX,
        ensures
            r == attrs_bytes(self.nlas@).len(),
    {
        self.emit().len()
    }

    /// Lays down the attribute payload of this message.
    pub fn emit(&self) -> (r: Vec<u8>)
        requires
            genl_mac_encodable(*self),
        ensures
            r@ == attrs_bytes(self.nlas@),
    {
        encode_attrs(&self.nlas)
    }
}

/// Rebuilds a control message from its family header's command byte and its
/// attribute payload. An unrecognized command byte and damaged attributes
/// are the two errors; both leave the caller free to drop the message and
/// go on.
pub fn parse_genl_payload(cmd_byte: u8, payload: &[u8]) -> (r: Result<GenlMAC, ProtocolError>)
    ensures
        match r {
            Result::Ok(m) => {
                &&& cmd_of_code(cmd_byte) == Option::Some(m.cmd)
                &&& parse_attrs(payload@) == Option::Some(attrs_model(m.nlas@))
                &&& forall|i: int| 0 <= i < m.nlas@.len() ==> attr_wf(#[trigger] m.nlas@[i])
            },
            Result::Err(e) => match e {
                ProtocolError::UnknownCommand(x) => x == cmd_byte && cmd_of_code(cmd_byte) is None,
                ProtocolError::Codec(_) => cmd_of_code(cmd_byte) is Some && parse_attrs(payload@)
                    is None,
                ProtocolError::Unsupported => false,
            },
        },
{
    let cmd = match HwsimCmd::from_code(cmd_byte) {
        Result::Ok(c) => c,
        Result::Err(e) => {
            return Result::Err(e);
        },
    };
    let nlas = match decode_attrs(payload) {
        Result::Ok(v) => v,
        Result::Err(e) => {
            return Result::Err(ProtocolError::Codec(e));
        },
    };
    Result::Ok(GenlMAC { cmd, nlas })
}

} // verus!
