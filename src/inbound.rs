//! Broker events as the listener sees them, and the tagged messages that it
//! queues for the main loop.
use vstd::prelude::*;
use vstd::string::StringExecFns;
use vstd::utf8::{decode_utf8, valid_utf8};
use crate::queue::FifoQueue;
use crate::text::utf8_to_string;

verus! {

/// A message for the main loop, consumed once and in order of arrival.
#[derive(Debug, PartialEq, Eq)]
pub enum InboundMessage {
    ModuleUpdateAvailable,
    BrokerConnected,
    BrokerDisconnected,
    CommandReceived(String),
    VirtualButtonReceived(String),
}

/// What the broker client reported.
pub enum BrokerEvent {
    /// A message arrived on `topic`.
    Publish { topic: String, payload: Vec<u8> },
    /// The broker answered a connect; `accepted` where it succeeded.
    ConnAck { accepted: bool },
    /// The connection failed; the client reconnects by itself.
    ConnectionError,
    /// Anything else the client reports.
    Other,
}

/// The topics of one device under the configured base path.
pub struct Topics {
    /// Bundle updates arrive here.
    pub update: String,
    /// Text commands arrive here.
    pub command: String,
    /// Virtual button presses arrive here.
    pub virtual_button: String,
    /// Every topic addressed to the agent.
    pub to_agent: String,
    /// The hello announcement goes out here.
    pub hello: String,
}

/// `base/device` followed by `suffix`.
pub open spec fn device_topic(base: Seq<char>, device: Seq<char>, suffix: Seq<char>) -> Seq<char> {
    base + "/"@ + device + suffix
}

/// The device's topics are the five suffixes under `base/device`.
pub open spec fn topics_of(t: Topics, base: Seq<char>, device: Seq<char>) -> bool {
    &&& t.update@ == device_topic(base, device, "/toAgent/flows"@)
    &&& t.command@ == device_topic(base, device, "/command"@)
    &&& t.virtual_button@ == device_topic(base, device, "/toAgent/virtualButton"@)
    &&& t.to_agent@ == device_topic(base, device, "/toAgent/#"@)
    &&& t.hello@ == device_topic(base, device, "/fromAgent/hello"@)
}

fn device_topic_string(base: &str, device: &str, suffix: &str) -> (r: String)
    ensures
        r@ == device_topic(base@, device@, suffix@),
{
    let mut s = String::from_str(base);
    s.append("/");
    s.append(device);
    s.append(suffix);
    s
}

impl Topics {
    pub fn new(base: &str, device: &str) -> (r: Topics)
        ensures
            topics_of(r, base@, device@),
    {
        Topics {
            update: device_topic_string(base, device, "/toAgent/flows"),
            command: device_topic_string(base, device, "/command"),
            virtual_button: device_topic_string(base, device, "/toAgent/virtualButton"),
            to_agent: device_topic_string(base, device, "/toAgent/#"),
            hello: device_topic_string(base, device, "/fromAgent/hello"),
        }
    }
}

/// `r` is what the broker event `event` stands for: a publish on the update,
/// command or virtual-button topic, or a change of connectivity. A command or
/// button payload that is not UTF-8 stands for nothing, nor does a publish on
/// another topic.
pub open spec fn classified_as(topics: Topics, event: BrokerEvent, r: Option<InboundMessage>) -> bool {
    match event {
        BrokerEvent::Publish { topic, payload } => if topic@ == topics.update@ {
            r == Some(InboundMessage::ModuleUpdateAvailable)
        } else if topic@ == topics.command@ || topic@ == topics.virtual_button@ {
            if !valid_utf8(payload@) {
                r is None
            } else {
                match r {
                    Some(InboundMessage::CommandReceived(p)) => topic@ == topics.command@
                        && p@ == decode_utf8(payload@),
                    Some(InboundMessage::VirtualButtonReceived(p)) => topic@ != topics.command@
                        && p@ == decode_utf8(payload@),
                    _ => false,
                }
            }
        } else {
            r is None
        },
        BrokerEvent::ConnAck { accepted } => if accepted {
            r == Some(InboundMessage::BrokerConnected)
        } else {
            r == Some(InboundMessage::BrokerDisconnected)
        },
        BrokerEvent::ConnectionError => r == Some(InboundMessage::BrokerDisconnected),
        BrokerEvent::Other => r is None,
    }
}

/// Turns a broker event into the message it stands for, if any.
pub fn classify_event(topics: &Topics, event: BrokerEvent) -> (r: Option<InboundMessage>)
    ensures
        classified_as(*topics, event, r),
{
    match event {
        BrokerEvent::Publish { topic, payload } => {
            if topic == topics.update {
                Some(InboundMessage::ModuleUpdateAvailable)
            } else if topic == topics.command {
                match utf8_to_string(payload.as_slice()) {
                    Some(p) => Some(InboundMessage::CommandReceived(p)),
                    None => None,
                }
            } else if topic == topics.virtual_button {
                match utf8_to_string(payload.as_slice()) {
                    Some(p) => Some(InboundMessage::VirtualButtonReceived(p)),
                    None => None,
                }
            } else {
                None
            }
        },
        BrokerEvent::ConnAck { accepted } => {
            if accepted {
                Some(InboundMessage::BrokerConnected)
            } else {
                Some(InboundMessage::BrokerDisconnected)
            }
        },
        BrokerEvent::ConnectionError => Some(InboundMessage::BrokerDisconnected),
        BrokerEvent::Other => None,
    }
}

/// The messages that a run of classifications yields, in order.
pub open spec fn yielded(outs: Seq<Option<InboundMessage>>) -> Seq<InboundMessage>
    decreases outs.len(),
{
    if outs.len() == 0 {
        Seq::empty()
    } else {
        yielded(outs.drop_last()) + match outs.last() {
            Some(m) => seq![m],
            None => Seq::empty(),
        }
    }
}

/// Queues what the events stand for, in the order of the events; what was
/// queued before stays as it was, ahead of them.
pub fn enqueue_events(topics: &Topics, queue: &mut FifoQueue<InboundMessage>, events: Vec<BrokerEvent>)
    ensures
        exists|outs: Seq<Option<InboundMessage>>|
            {
                &&& outs.len() == events@.len()
                &&& forall|i: int| 0 <= i < events@.len() ==> classified_as(*topics, events@[i], #[trigger] outs[i])
                &&& final(queue)@ == old(queue)@ + yielded(outs)
            },
{
    let ghost all = events@;
    let ghost mut outs: Seq<Option<InboundMessage>> = Seq::empty();
    let mut rest = events;
    let ghost mut i: int = 0;
    while rest.len() > 0
        invariant
            0 <= i <= all.len(),
            rest@ == all.skip(i),
            outs.len() == i,
            forall|k: int| 0 <= k < i ==> classified_as(*topics, all[k], #[trigger] outs[k]),
            queue@ == old(queue)@ + yielded(outs),
        decreases rest@.len(),
    {
        let event = rest.remove(0);
        assert(event == all[i]);
        let r = classify_event(topics, event);
        let ghost prev = outs;
        proof {
            outs = outs.push(r);
            assert(outs.drop_last() =~= prev);
        }
        match r {
            Some(m) => queue.push(m),
            None => {},
        }
        assert(queue@ =~= old(queue)@ + yielded(outs));
        assert(rest@ =~= all.skip(i + 1));
        proof {
            i = i + 1;
        }
    }
    assert(i == all.len());
    assert(outs.len() == events@.len());
}

} // verus!
