//! The telemetry session: where samples are published, and which of its
//! failures are worth a word.
use vstd::prelude::*;
use vstd::string::*;
use crate::net::strings::{empty_text, push_text, text_bytes, text_str, TEXT_CAPACITY};
use crate::net::MQTT_MESSAGE_SIZE_MAX;

verus! {

/// The quality of service of an MQTT message.
#[derive(Copy, Clone, Debug, PartialEq, Eq, Structural)]
pub enum QoS {
    /// Sent once, without acknowledgment or retry.
    AtMostOnce,
    AtLeastOnce,
    ExactlyOnce,
}

/// Whether the broker keeps a message for later subscribers.
#[derive(Copy, Clone, Debug, PartialEq, Eq, Structural)]
pub enum Retain {
    NotRetained,
    Retained,
}

/// A failure of the network stack under a session.
#[derive(Copy, Clone, Debug, PartialEq, Eq, Structural)]
pub enum NetworkError {
    NoSocket,
    ConnectionFailure,
    ReadFailure,
    WriteFailure,
    Unsupported,
    /// The node has no address yet. This passes by itself.
    NoIpAddress,
}

/// A failure of an MQTT session.
#[derive(Copy, Clone, Debug, PartialEq, Eq, Structural)]
pub enum SessionError {
    Network(NetworkError),
    WriteFail,
    NotReady,
    Unsupported,
    ProvidedClientIdTooLong,
    Failed(u8),
    Protocol,
    SessionReset,
    Clock,
}

/// One message for the broker.
#[derive(Copy, Clone, Debug)]
pub struct Publication<'a> {
    pub topic: &'a str,
    pub payload: &'a [u8],
    pub qos: QoS,
    pub retain: Retain,
}

/// The failure to report after a session was driven, if any: every failure
/// but the lack of an address, which is expected while the node starts.
pub open spec fn session_fault<T>(polled: Result<T, SessionError>) -> Option<SessionError> {
    match polled {
        Ok(_) => None,
        Err(SessionError::Network(NetworkError::NoIpAddress)) => None,
        Err(error) => Some(error),
    }
}

/// Whether a serialised sample can go out: serialising succeeded, and the
/// bytes are no more than a message holds.
pub open spec fn fits_message<E>(serialised: Result<&[u8], E>) -> bool {
    serialised matches Ok(payload) && payload@.len() <= MQTT_MESSAGE_SIZE_MAX
}

/// The bytes of the telemetry topic under a prefix.
pub open spec fn telemetry_topic_bytes(prefix: &str) -> Seq<u8> {
    prefix.spec_bytes() + "/telemetry".spec_bytes()
}

/// The publishing side of the telemetry session.
pub struct TelemetryClient {
    telemetry_topic: heapless::String<128>,
}

impl TelemetryClient {
    /// The bytes of the topic that samples are published to.
    pub closed spec fn topic(&self) -> Seq<u8> {
        text_bytes(self.telemetry_topic)
    }

    /// A client that publishes to `<prefix>/telemetry`.
    pub fn new(prefix: &str) -> (client: Self)
        requires
            prefix.spec_bytes().len() + 10 <= TEXT_CAPACITY,
        ensures
            client.topic() == telemetry_topic_bytes(prefix),
    {
        proof {
            crate::net::lemma_literal_lengths();
        }
        let mut telemetry_topic = empty_text();
        let _ = push_text(&mut telemetry_topic, prefix);
        let _ = push_text(&mut telemetry_topic, "/telemetry");
        proof {
            assert(text_bytes(telemetry_topic) =~= telemetry_topic_bytes(prefix));
        }
        Self { telemetry_topic }
    }

    /// The message that carries one sample, given what serialising the
    /// sample came to: to the telemetry topic, at most once, not retained.
    /// There is nothing to send, and this period is skipped, when the sample
    /// could not be serialised or does not fit a message.
    pub fn publish<'a, E>(&'a self, serialised: Result<&'a [u8], E>) -> (publication: Option<
        Publication<'a>,
    >)
        ensures
            publication is Some <==> fits_message(serialised),
            publication matches Some(message) ==> {
                &&& message.topic.spec_bytes() == self.topic()
                &&& message.payload@ == serialised->Ok_0@
                &&& message.qos == QoS::AtMostOnce
                &&& message.retain == Retain::NotRetained
            },
    {
        match serialised {
            Ok(payload) => {
                if payload.len() <= MQTT_MESSAGE_SIZE_MAX {
                    Some(
                        Publication {
                            topic: text_str(&self.telemetry_topic),
                            payload,
                            qos: QoS::AtMostOnce,
                            retain: Retain::NotRetained,
                        },
                    )
                } else {
                    None
                }
            },
            Err(_) => None,
        }
    }

    /// Judges the result of driving the session and returns the failure to
    /// report, if any. Messages that arrived were dropped by whoever drove
    /// the session: the node takes no commands on this session.
    pub fn update(&mut self, polled: Result<(), SessionError>) -> (fault: Option<SessionError>)
        ensures
            fault == session_fault(polled),
            final(self).topic() == old(self).topic(),
    {
        match polled {
            Ok(()) => None,
            Err(SessionError::Network(NetworkError::NoIpAddress)) => None,
            Err(error) => Some(error),
        }
    }
}

} // verus!
