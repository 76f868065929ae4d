//! Verified core of an MQTT topic subscriber that turns the broker's event
//! feed into a sequence of text lines.
//!
//! The flow is one way: a configuration makes a session, the session is
//! subscribed and turned into a stream, the stream's payloads are decoded,
//! and the decoded items are drained into a sink. Everything that waits on
//! the network is left to a driver; what the driver has to decide is decided
//! here, and each decision can also be run over a recorded feed.

pub mod config;
pub mod decode;
pub mod event;
pub mod options;
pub mod retry;
pub mod session;
pub mod sink;
pub mod stream;

pub use rumqttc;

pub use config::{EvtSourceCfg, QoS, CAP_DEFAULT, QOS_DEFAULT, RETRIES_DEFAULT};
pub use decode::{payload2string, payloads2strings};
pub use event::{Event, PollError, TIMED_OUT_MESSAGE};
pub use options::{OptCfg, CLIENT_ID_DEFAULT, HOST_IP_DEFAULT, HOST_PORT_DEFAULT};
pub use retry::{Action, RetryLoop};
pub use session::EventSource;
pub use sink::print_strings;
pub use stream::StreamAdapter;
