//! The event emitter's wire format: one OSC message with one boolean
//! argument per signal.

use vstd::prelude::*;
use vstd::utf8::encode_utf8;
use crate::config::Config;
use crate::process::Signal;

verus! {

/// The error type of the `rosc` crate.
#[verifier::external_type_specification]
#[verifier::external_body]
pub struct ExOscError(rosc::OscError);

/// An OSC string: the text, closed by one to four zero bytes so that the
/// whole is a multiple of four bytes long.
pub open spec fn osc_string(text: Seq<u8>) -> Seq<u8> {
    text + Seq::new((4 - text.len() % 4) as nat, |i: int| 0u8)
}

/// An OSC message with one boolean argument: the address as an OSC string,
/// then the type tag string `,T` or `,F`. A boolean has no argument data.
pub open spec fn osc_bool_message(address: Seq<u8>, on: bool) -> Seq<u8> {
    osc_string(address) + seq![
        0x2cu8,
        if on {
            0x54u8
        } else {
            0x46u8
        },
        0u8,
        0u8,
    ]
}

/// Calls `rosc::encoder::encode` on a message packet that has the given
/// address and one `OscType::Bool` argument.
///
/// Trusted: that the encoder succeeds on such a packet, and that it writes
/// the address as an OSC string followed by the type tag string and no
/// argument data.
#[verifier::external_body]
fn encode_bool_packet(osc_address: &String, on: bool) -> (encoded: Result<Vec<u8>, rosc::OscError>)
    ensures
        encoded is Ok,
        encoded->Ok_0@ == osc_bool_message(encode_utf8(osc_address@), on),
{
    let message = rosc::OscMessage {
        addr: osc_address.to_string(),
        args: vec![rosc::OscType::Bool(on)],
    };
    rosc::encoder::encode(&rosc::OscPacket::Message(message))
}

/// The datagram that carries `on` to `osc_address`.
pub fn encode_osc_message(osc_address: &String, on: bool) -> (datagram: Vec<u8>)
    ensures
        datagram@ == osc_bool_message(encode_utf8(osc_address@), on),
{
    encode_bool_packet(osc_address, on).unwrap()
}

impl Signal {
    /// The boolean that the signal carries: `true` for "on", `false` for
    /// "off".
    pub open spec fn is_on(self) -> bool {
        self == Signal::LeftOn || self == Signal::RightOn || self == Signal::OverwhelmOn
    }

    /// The OSC address that the signal is sent to.
    pub open spec fn destination(self, config: &Config) -> String {
        match self {
            Signal::LeftOn | Signal::LeftOff => config.address_left,
            Signal::RightOn | Signal::RightOff => config.address_right,
            Signal::OverwhelmOn | Signal::OverwhelmOff => config.address_overwhelmingly_loud,
        }
    }

    /// The boolean that the signal carries.
    pub fn value(&self) -> (on: bool)
        ensures
            on == self.is_on(),
    {
        match self {
            Signal::LeftOn | Signal::RightOn | Signal::OverwhelmOn => true,
            Signal::LeftOff | Signal::RightOff | Signal::OverwhelmOff => false,
        }
    }

    /// The OSC address that the signal is sent to.
    pub fn address<'a>(&self, config: &'a Config) -> (osc_address: &'a String)
        ensures
            *osc_address == self.destination(config),
    {
        match self {
            Signal::LeftOn | Signal::LeftOff => &config.address_left,
            Signal::RightOn | Signal::RightOff => &config.address_right,
            Signal::OverwhelmOn | Signal::OverwhelmOff => &config.address_overwhelmingly_loud,
        }
    }

    /// The datagram that announces the signal.
    pub fn datagram(&self, config: &Config) -> (datagram: Vec<u8>)
        ensures
            datagram@ == osc_bool_message(encode_utf8(self.destination(config)@), self.is_on()),
    {
        encode_osc_message(self.address(config), self.value())
    }
}

} // verus!
