//! The two handles of one broker connection.

use rumqttc::{AsyncClient, EventLoop, MqttOptions};
use vstd::prelude::*;

verus! {

/// The command handle of the MQTT client, carried through as an opaque value.
#[verifier::external_type_specification]
#[verifier::external_body]
pub struct ExAsyncClient(rumqttc::AsyncClient);

/// The poll handle of the MQTT client, carried through as an opaque value.
#[verifier::external_type_specification]
#[verifier::external_body]
pub struct ExEventLoop(rumqttc::EventLoop);

/// The connection options that an event loop holds: its public field
/// `mqtt_options`.
pub uninterp spec fn event_loop_options(el: EventLoop) -> MqttOptions;

/// The capacity that the request channel of an event loop was made with.
pub uninterp spec fn request_capacity(el: EventLoop) -> usize;

/// Calls `rumqttc::AsyncClient::new`, which builds the event loop for the
/// options around a request channel of capacity `cap` and hands out the
/// channel's sending side as the client. It connects to nothing yet. The
/// event loop keeps the options it is given and its channel keeps the bound
/// it is made with; nothing else is claimed of the two handles.
#[verifier::external_body]
pub(crate) fn new_client(opts: MqttOptions, cap: usize) -> (handles: (AsyncClient, EventLoop))
    ensures
        event_loop_options(handles.1) == opts,
        request_capacity(handles.1) == cap,
{
    AsyncClient::new(opts, cap)
}

/// A session: the command handle that issues subscribe requests and the poll
/// handle that retrieves events, the two halves of one connection.
///
/// A session is owned exclusively and is used up when it is turned into a
/// stream, so no second stream can be started from it.
pub struct EventSource {
    /// The command handle.
    pub cl: AsyncClient,
    /// The poll handle.
    pub el: EventLoop,
}

} // verus!
