//! Verdicts, output channels, and outbound messages.
//!
//! A handler answers every request with a [`Verdict`]; the verdict is held
//! by the driver and transmitted on the next poll. Handlers communicate
//! results exclusively by emitting [`OutboundMessage`]s on one of two named
//! sinks: durable notices and diagnostic reports.

use vstd::prelude::*;
use vstd::string::StringExecFns;

use crate::codec::encode;
use crate::codec::spec_encode;

verus! {

/// Outcome of processing one request; transmitted to the coordinator on the
/// next poll call.
#[derive(Clone, Copy, Debug, PartialEq, Eq, Structural)]
pub enum Verdict {
    Accept,
    Reject,
}

impl Verdict {
    /// The wire form of the verdict, as the coordinator's finish endpoint
    /// expects it.
    pub fn as_text(&self) -> (r: &'static str)
        ensures
            self is Accept ==> r@ == "accept"@,
            self is Reject ==> r@ == "reject"@,
    {
        match self {
            Verdict::Accept => "accept",
            Verdict::Reject => "reject",
        }
    }
}

/// The two output sinks: durable, consensus-visible notices and
/// diagnostic, inspect-only reports.
#[derive(Clone, Copy, Debug, PartialEq, Eq, Structural)]
pub enum Channel {
    Notice,
    Report,
}

impl Channel {
    /// The sink's name, as the coordinator's endpoints are named.
    pub fn endpoint(&self) -> (r: &'static str)
        ensures
            self is Notice ==> r@ == "notice"@,
            self is Report ==> r@ == "report"@,
    {
        match self {
            Channel::Notice => "notice",
            Channel::Report => "report",
        }
    }
}

/// Mathematical model of an outbound message: its sink and the payload text
/// before hex wrapping.
pub ghost struct MessageModel {
    pub channel: Channel,
    pub payload: Seq<char>,
}

/// One payload bound for one of the two output sinks. The payload is plain
/// text; the transport layer wraps it with [`crate::codec::encode`] before
/// sending.
pub struct OutboundMessage {
    pub channel: Channel,
    pub payload: String,
}

impl View for OutboundMessage {
    type V = MessageModel;

    open spec fn view(&self) -> MessageModel {
        MessageModel { channel: self.channel, payload: self.payload@ }
    }
}

impl OutboundMessage {
    /// The hex-wrapped wire form of the payload, as the output endpoints
    /// expect it in their request bodies.
    pub fn encoded_payload(&self) -> (r: String)
        ensures
            r@ == spec_encode(self@.payload),
    {
        encode(self.payload.as_str())
    }
}

/// The models of a batch of outbound messages, in emission order.
pub open spec fn msgs_model(v: Seq<OutboundMessage>) -> Seq<MessageModel> {
    v.map_values(|m: OutboundMessage| m@)
}

/// A diagnostic report carrying `t`.
pub open spec fn report_model(t: Seq<char>) -> MessageModel {
    MessageModel { channel: Channel::Report, payload: t }
}

/// A durable notice carrying `t`.
pub open spec fn notice_model(t: Seq<char>) -> MessageModel {
    MessageModel { channel: Channel::Notice, payload: t }
}

/// Builds a diagnostic report.
pub(crate) fn report_to(text: &str) -> (m: OutboundMessage)
    ensures
        m@ == report_model(text@),
{
    OutboundMessage { channel: Channel::Report, payload: String::from_str(text) }
}

/// Builds a durable notice.
pub(crate) fn notice_to(text: &str) -> (m: OutboundMessage)
    ensures
        m@ == notice_model(text@),
{
    OutboundMessage { channel: Channel::Notice, payload: String::from_str(text) }
}

/// Wraps one message as a batch.
pub(crate) fn one_msg(m: OutboundMessage) -> (r: Vec<OutboundMessage>)
    ensures
        msgs_model(r@) =~= seq![m@],
{
    let mut v: Vec<OutboundMessage> = Vec::new();
    let ghost gm = m@;
    v.push(m);
    proof {
        assert(msgs_model(v@) =~= seq![gm]);
    }
    v
}

} // verus!
