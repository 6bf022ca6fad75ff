//! CFG-MSG: message rate settings for a packet type.

use vstd::prelude::*;

use crate::ubx_packets::packets::cfg::{CfgMsgAllPortsBuilder, CfgMsgSinglePortBuilder};
use crate::ubx_packets::UbxPacketMeta;

verus! {

impl CfgMsgSinglePortBuilder {
    /// Sets the rate, on the current port, of packets of type `T`.
    pub fn set_rate_for<T: UbxPacketMeta>(rate: u8) -> (r: Self)
        ensures
            r.msg_class == T::CLASS,
            r.msg_id == T::ID,
            r.rate == rate,
    {
        Self { msg_class: T::CLASS, msg_id: T::ID, rate }
    }
}

impl CfgMsgAllPortsBuilder {
    /// Sets the rates, on each of the six ports, of packets of type `T`.
    pub fn set_rate_for<T: UbxPacketMeta>(rates: [u8; 6]) -> (r: Self)
        ensures
            r.msg_class == T::CLASS,
            r.msg_id == T::ID,
            r.rates == rates,
    {
        Self { msg_class: T::CLASS, msg_id: T::ID, rates }
    }
}

} // verus!
