//! Connection parameters and their conversion into the client's options.

use rumqttc::MqttOptions;
use vstd::prelude::*;

verus! {

/// The options type of the MQTT client, carried through as an opaque value.
#[verifier::external_type_specification]
#[verifier::external_body]
pub struct ExMqttOptions(rumqttc::MqttOptions);

/// The options that `rumqttc::MqttOptions::new` builds for a client
/// identifier, a broker host and a broker port.
pub uninterp spec fn mqtt_options_new(client_id: Seq<char>, host: Seq<char>, port: u16) -> MqttOptions;

/// Calls `rumqttc::MqttOptions::new`, which fills in the three given settings
/// and takes a fixed default for every other one; the result is therefore a
/// function of the three arguments alone.
#[verifier::external_body]
fn new_mqtt_options(client_id: String, host: String, port: u16) -> (opts: MqttOptions)
    ensures
        opts == mqtt_options_new(client_id@, host@, port),
{
    MqttOptions::new(client_id, host, port)
}

/// Client identifier used when none is supplied: the all-zero identifier.
pub const CLIENT_ID_DEFAULT: &'static str = "00000000-0000-0000-0000-000000000000";

/// Broker host used when none is supplied.
pub const HOST_IP_DEFAULT: &'static str = "127.0.0.1";

/// Broker port used when none is supplied.
pub const HOST_PORT_DEFAULT: u16 = 1883;

/// The connection parameters of a broker session.
pub struct OptCfg {
    pub client_id: String,
    pub host_ip: String,
    pub host_port: u16,
}

impl OptCfg {
    /// Converts the parameters into the client's options.
    pub fn into_opts(self) -> (opts: MqttOptions)
        ensures
            opts == mqtt_options_new(self.client_id@, self.host_ip@, self.host_port),
    {
        new_mqtt_options(self.client_id, self.host_ip, self.host_port)
    }

    /// Replaces the client identifier.
    pub fn with_client_id(self, id: String) -> (cfg: Self)
        ensures
            cfg == (OptCfg { client_id: id, ..self }),
    {
        let mut cfg = self;
        cfg.client_id = id;
        cfg
    }

    /// Replaces the broker host.
    pub fn with_host_ip(self, ip: String) -> (cfg: Self)
        ensures
            cfg == (OptCfg { host_ip: ip, ..self }),
    {
        let mut cfg = self;
        cfg.host_ip = ip;
        cfg
    }

    /// Replaces the broker port.
    pub fn with_host_port(self, port: u16) -> (cfg: Self)
        ensures
            cfg == (OptCfg { host_port: port, ..self }),
    {
        let mut cfg = self;
        cfg.host_port = port;
        cfg
    }
}

impl Default for OptCfg {
    /// The default parameters: the all-zero client identifier on the local
    /// broker's standard port.
    fn default() -> (cfg: Self)
        ensures
            cfg.client_id@ == CLIENT_ID_DEFAULT@,
            cfg.host_ip@ == HOST_IP_DEFAULT@,
            cfg.host_port == HOST_PORT_DEFAULT,
    {
        OptCfg {
            client_id: CLIENT_ID_DEFAULT.to_owned(),
            host_ip: HOST_IP_DEFAULT.to_owned(),
            host_port: HOST_PORT_DEFAULT,
        }
    }
}

} // verus!
