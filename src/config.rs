use vstd::prelude::*;
use vstd::string::*;

verus! {

/// Port used for the broker when the configuration names none.
pub const DEFAULT_BROKER_PORT: u16 = 1883;

/// Settings read from the configuration file.
#[derive(Clone, Debug)]
pub struct AppConfig {
    pub mqtt_server_addr: String,
    pub mqtt_server_port: Option<u16>,
    pub mqtt_client_id: Option<String>,
    pub mqtt_username: Option<String>,
    pub mqtt_password: Option<String>,
    pub devices: Option<Vec<PZEMDevice>>,
}

/// A metering device reachable through a serial gateway.
#[derive(Clone, Debug)]
pub struct PZEMDevice {
    pub addr: u8,
    pub port: String,
    pub breaker: String,
}

/// Client identifier used when the configuration names none.
pub open spec fn default_client_id() -> Seq<char> {
    "pzem016mqtt"@
}

impl AppConfig {
    /// The client identifier: the configured one, else the default.
    pub fn client_id(&self) -> (r: String)
        ensures
            r@ == match self.mqtt_client_id {
                Some(c) => c@,
                None => default_client_id(),
            },
    {
        match &self.mqtt_client_id {
            Some(c) => c.clone(),
            None => String::from_str("pzem016mqtt"),
        }
    }

    /// The broker port: the configured one, else the default.
    pub fn broker_port(&self) -> (r: u16)
        ensures
            r == match self.mqtt_server_port {
                Some(p) => p,
                None => DEFAULT_BROKER_PORT,
            },
    {
        match self.mqtt_server_port {
            Some(p) => p,
            None => DEFAULT_BROKER_PORT,
        }
    }
}

} // verus!
