//! The subscription's configuration, and what becomes of it.
//!
//! A configuration is built once and used up once: either it is turned into
//! the session whose handles a driver works with, or it is run against a
//! recorded acknowledgment and feed.

use crate::decode::{decoded_items, payloads2strings, texts_of};
use crate::event::{feed_of, Event};
use crate::session::{event_loop_options, new_client, request_capacity, EventSource};
use crate::stream::{emitted, StreamAdapter};
use rumqttc::MqttOptions;
use std::collections::VecDeque;
use vstd::prelude::*;

verus! {

/// The delivery guarantee that a subscription asks of the broker.
#[derive(Debug, Clone, Copy, PartialEq, Eq, Structural)]
pub enum QoS {
    AtMostOnce,
    AtLeastOnce,
    ExactlyOnce,
}

/// Retry budget of a configuration made with the defaults.
pub const RETRIES_DEFAULT: usize = 10;

/// Delivery guarantee of a configuration made with the defaults.
pub const QOS_DEFAULT: QoS = QoS::AtMostOnce;

/// Buffer capacity of a configuration made with the defaults.
pub const CAP_DEFAULT: usize = 10;

/// What a subscription is made from: the connection options, the topic, the
/// retry budget of the poll-retry loop, the delivery guarantee, and the
/// capacity of the buffer between the two handles of the session.
pub struct EvtSourceCfg {
    pub opts: MqttOptions,
    pub topic: String,
    pub retries: usize,
    pub qos: QoS,
    pub cap: usize,
}

impl EvtSourceCfg {
    /// A configuration is well formed when its retry budget and its buffer
    /// capacity are above zero.
    pub open spec fn wf(&self) -> bool {
        self.retries > 0 && self.cap > 0
    }

    /// A configuration of the given parts. It is well formed exactly when
    /// `retries` and `cap` are above zero.
    pub fn new(opts: MqttOptions, topic: String, retries: usize, qos: QoS, cap: usize) -> (cfg:
        Self)
        ensures
            cfg == (EvtSourceCfg { opts, topic, retries, qos, cap }),
            cfg.wf() <==> retries > 0 && cap > 0,
    {
        EvtSourceCfg { opts, topic, retries, qos, cap }
    }

    /// A configuration with the default retry budget, delivery guarantee and
    /// buffer capacity. It is well formed.
    pub fn new_with_default(opts: MqttOptions, topic: String) -> (cfg: Self)
        ensures
            cfg == (EvtSourceCfg {
                opts,
                topic,
                retries: RETRIES_DEFAULT,
                qos: QOS_DEFAULT,
                cap: CAP_DEFAULT,
            }),
            cfg.wf(),
    {
        Self::new(opts, topic, RETRIES_DEFAULT, QOS_DEFAULT, CAP_DEFAULT)
    }

    /// Uses the configuration up to make the session: the two handles of one
    /// connection, whose poll handle holds the configured options and is fed
    /// through a request buffer of the configured capacity.
    pub fn into_source(self) -> (source: EventSource)
        ensures
            event_loop_options(source.el) == self.opts,
            request_capacity(source.el) == self.cap,
    {
        let (cl, el) = new_client(self.opts, self.cap);
        EventSource { cl, el }
    }

    /// Runs the subscription against a recorded acknowledgment of the
    /// subscribe request and a recorded feed, and returns the decoded items
    /// of its stream.
    ///
    /// The stream is entered only once the subscribe request has been
    /// acknowledged: a failed acknowledgment is returned as it is and nothing
    /// is streamed. Otherwise the items are those that the stream emits over
    /// the feed with the configured retry budget, each payload decoded as
    /// text.
    pub fn into_strings<E>(self, ack: Result<(), E>, feed: VecDeque<Result<Event, E>>) -> (strings:
        Result<Vec<Result<String, E>>, E>)
        ensures
            match ack {
                Err(e) => strings == Err::<Vec<Result<String, E>>, E>(e),
                Ok(_) => strings matches Ok(items) && texts_of(items@) == if self.retries == 0 {
                    Seq::<Result<Seq<char>, E>>::empty()
                } else {
                    decoded_items(emitted(feed_of(feed@)))
                },
            },
    {
        match ack {
            Err(e) => Err(e),
            Ok(_) => {
                let mut feed = feed;
                let mut stream = StreamAdapter::new(self.retries);
                let payloads = stream.drain(&mut feed);
                let items = payloads2strings(payloads);
                Ok(items)
            },
        }
    }
}

} // verus!
