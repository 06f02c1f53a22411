use vstd::prelude::*;
use vstd::string::*;

verus! {

/// The device block of a discovery document.
#[derive(Clone, Debug)]
pub struct DeviceInfo {
    pub identifiers: Vec<String>,
    pub manufacturer: String,
    pub name: String,
    pub model: String,
    pub sw_version: String,
}

/// The value carried by a state document. A floating-point value is held as
/// the bit pattern of its IEEE-754 single-precision form.
#[derive(Clone, Debug)]
pub enum PayloadValueType {
    Float(u32),
    Int(i64),
    String(String),
    Boolean(bool),
    Empty,
}

/// A point in time, as seconds and nanoseconds since the Unix epoch.
#[derive(Clone, Copy, Debug, PartialEq, Eq)]
pub struct Timestamp {
    pub secs: u64,
    pub nanos: u32,
}

/// Category of a discovered entity.
#[derive(Clone, Debug)]
pub enum EntityCategory {
    Config,
    Diagnostic,
}

/// A discovery (registration) document. Every optional field that is `None`
/// is left out of the wire form.
#[derive(Clone, Debug)]
pub struct HAConfigPayload {
    pub name: String,
    pub device: DeviceInfo,
    pub unique_id: String,
    pub entity_id: String,
    pub state_topic: String,
    pub expires_after: u64,
    pub entity_category: Option<EntityCategory>,
    pub command_topic: Option<String>,
    pub payload_on: Option<String>,
    pub payload_off: Option<String>,
    pub state_class: Option<String>,
    pub device_class: Option<String>,
    pub native_uom: Option<String>,
    pub options: Option<Vec<String>>,
    pub value_template: Option<String>,
    pub suggested_display_precision: Option<u8>,
    pub assumed_state: Option<bool>,
    pub attribution: Option<String>,
    pub available: Option<bool>,
    pub entity_picture: Option<String>,
    pub extra_state_attributes: Option<Vec<(String, String)>>,
    pub has_entity_name: Option<bool>,
    pub should_poll: Option<bool>,
    pub translation_key: Option<String>,
    pub payload_press: Option<String>,
    pub min: Option<i32>,
    pub max: Option<i32>,
    pub mode: Option<String>,
    pub step: Option<i32>,
    pub icon: Option<String>,
}

/// A state document: a value and the time it was read.
#[derive(Clone, Debug)]
pub struct StatePayload {
    pub value: PayloadValueType,
    pub label: Option<String>,
    pub description: Option<String>,
    pub notes: Option<String>,
    pub last_seen: Timestamp,
}

/// A document to publish: discovery or state.
#[derive(Clone, Debug)]
pub enum Payload {
    Config(HAConfigPayload),
    CurrentState(StatePayload),
    Empty,
}

/// A discovery document and a state document for one metric, with their topics.
#[derive(Clone, Debug)]
pub struct CompoundPayload {
    pub config: HAConfigPayload,
    pub config_topic: String,
    pub state: StatePayload,
    pub state_topic: String,
}

/// A message for the broker: a topic and a document.
#[derive(Clone, Debug)]
pub struct PublishMessage {
    pub topic: String,
    pub payload: Payload,
}

/// One reading of a meter; each value is the bit pattern of an IEEE-754
/// single-precision number.
#[derive(Clone, Copy, Debug, PartialEq, Eq)]
pub struct MeterReading {
    pub volts: u32,
    pub amps: u32,
    pub watts: u32,
    pub watt_hours: u32,
    pub frequency: u32,
    pub power_factor: u32,
}

/// The quantities a meter reports, in the order they are published.
#[derive(Clone, Copy, Debug, PartialEq, Eq)]
pub enum Metric {
    Volts,
    Current,
    Power,
    Energy,
    Frequency,
    PowerFactor,
}

/// Number of quantities published for each meter.
pub const METRIC_COUNT: usize = 6;

/// Bus address of the first meter that is read.
pub const FIRST_UNIT_ID: u8 = 101;

/// Bus address of the last meter that is read.
pub const LAST_UNIT_ID: u8 = 140;

/// Expiry, in seconds, announced in every discovery document.
pub const EXPIRES_AFTER_SECS: u64 = 300;

pub open spec fn metric_at(i: int) -> Metric {
    if i == 0 {
        Metric::Volts
    } else if i == 1 {
        Metric::Current
    } else if i == 2 {
        Metric::Power
    } else if i == 3 {
        Metric::Energy
    } else if i == 4 {
        Metric::Frequency
    } else {
        Metric::PowerFactor
    }
}

/// The text of an optional string.
pub open spec fn opt_view(o: Option<String>) -> Option<Seq<char>> {
    match o {
        Some(s) => Some(s@),
        None => None,
    }
}

/// The decimal digit `d` as a character.
pub open spec fn digit_char(d: nat) -> char {
    "0123456789"@[d as int]
}

/// The decimal form of `n`, without leading zeros.
pub open spec fn decimal(n: nat) -> Seq<char>
    decreases n,
{
    if n < 10 {
        seq![digit_char(n)]
    } else {
        decimal(n / 10) + seq![digit_char(n % 10)]
    }
}

impl Metric {
    /// The metric's segment in topics.
    pub open spec fn spec_topic_segment(self) -> Seq<char> {
        match self {
            Metric::Volts => "volts"@,
            Metric::Current => "current"@,
            Metric::Power => "power"@,
            Metric::Energy => "energy"@,
            Metric::Frequency => "frequency"@,
            Metric::PowerFactor => "power_factor"@,
        }
    }

    /// The metric's device class, which also ends the entity's name.
    pub open spec fn spec_device_class(self) -> Seq<char> {
        match self {
            Metric::Volts => "voltage"@,
            Metric::Current => "current"@,
            Metric::Power => "power"@,
            Metric::Energy => "energy"@,
            Metric::Frequency => "frequency"@,
            Metric::PowerFactor => "power_factor"@,
        }
    }

    pub open spec fn spec_state_class(self) -> Seq<char> {
        match self {
            Metric::Energy => "total_increasing"@,
            _ => "measurement"@,
        }
    }

    pub open spec fn spec_unit(self) -> Option<Seq<char>> {
        match self {
            Metric::Volts => Some("V"@),
            Metric::Current => Some("A"@),
            Metric::Power => Some("W"@),
            Metric::Energy => Some("Wh"@),
            Metric::Frequency => Some("Hz"@),
            Metric::PowerFactor => None,
        }
    }

    pub open spec fn spec_precision(self) -> u8 {
        match self {
            Metric::PowerFactor => 0,
            _ => 1,
        }
    }

    pub open spec fn spec_value(self, r: MeterReading) -> u32 {
        match self {
            Metric::Volts => r.volts,
            Metric::Current => r.amps,
            Metric::Power => r.watts,
            Metric::Energy => r.watt_hours,
            Metric::Frequency => r.frequency,
            Metric::PowerFactor => r.power_factor,
        }
    }

    pub fn topic_segment(self) -> (r: &'static str)
        ensures
            r@ == self.spec_topic_segment(),
    {
        match self {
            Metric::Volts => "volts",
            Metric::Current => "current",
            Metric::Power => "power",
            Metric::Energy => "energy",
            Metric::Frequency => "frequency",
            Metric::PowerFactor => "power_factor",
        }
    }

    pub fn device_class(self) -> (r: &'static str)
        ensures
            r@ == self.spec_device_class(),
    {
        match self {
            Metric::Volts => "voltage",
            Metric::Current => "current",
            Metric::Power => "power",
            Metric::Energy => "energy",
            Metric::Frequency => "frequency",
            Metric::PowerFactor => "power_factor",
        }
    }

    pub fn state_class(self) -> (r: &'static str)
        ensures
            r@ == self.spec_state_class(),
    {
        match self {
            Metric::Energy => "total_increasing",
            _ => "measurement",
        }
    }

    pub fn unit(self) -> (r: Option<&'static str>)
        ensures
            match r {
                Some(u) => self.spec_unit() == Some(u@),
                None => self.spec_unit() is None,
            },
    {
        match self {
            Metric::Volts => Some("V"),
            Metric::Current => Some("A"),
            Metric::Power => Some("W"),
            Metric::Energy => Some("Wh"),
            Metric::Frequency => Some("Hz"),
            Metric::PowerFactor => None,
        }
    }

    pub fn precision(self) -> (r: u8)
        ensures
            r == self.spec_precision(),
    {
        match self {
            Metric::PowerFactor => 0,
            _ => 1,
        }
    }

    /// This metric's value in `reading`.
    pub fn value_in(self, reading: &MeterReading) -> (r: u32)
        ensures
            r == self.spec_value(*reading),
    {
        match self {
            Metric::Volts => reading.volts,
            Metric::Current => reading.amps,
            Metric::Power => reading.watts,
            Metric::Energy => reading.watt_hours,
            Metric::Frequency => reading.frequency,
            Metric::PowerFactor => reading.power_factor,
        }
    }

    /// The metric published in position `i`.
    pub fn at(i: usize) -> (r: Metric)
        requires
            i < METRIC_COUNT,
        ensures
            r == metric_at(i as int),
    {
        if i == 0 {
            Metric::Volts
        } else if i == 1 {
            Metric::Current
        } else if i == 2 {
            Metric::Power
        } else if i == 3 {
            Metric::Energy
        } else if i == 4 {
            Metric::Frequency
        } else {
            Metric::PowerFactor
        }
    }
}

/// A decimal digit as a one-character string.
fn digit_string(d: u8) -> (r: String)
    requires
        d < 10,
    ensures
        r@ == seq![digit_char(d as nat)],
{
    let digits = "0123456789";
    proof {
        reveal_strlit("0123456789");
    }
    let s = digits.substring_char(d as usize, d as usize + 1);
    let r = String::from_str(s);
    proof {
        assert(r@ =~= seq![digit_char(d as nat)]);
    }
    r
}

/// The decimal form of `n`.
pub fn decimal_string(n: u8) -> (r: String)
    ensures
        r@ == decimal(n as nat),
    decreases n,
{
    if n < 10 {
        digit_string(n)
    } else {
        let mut head = decimal_string(n / 10);
        let last = digit_string(n % 10);
        head.append(last.as_str());
        head
    }
}

/// The manufacturer's meter model, as it appears in names and topics.
pub open spec fn model_name() -> Seq<char> {
    "pzem016"@
}

/// The name of a meter: its model and serial.
pub open spec fn unit_name(serial: Seq<char>) -> Seq<char> {
    model_name() + "-"@ + serial
}

/// Topic of the discovery document of `m` on the meter with `serial`.
pub open spec fn config_topic(serial: Seq<char>, m: Metric) -> Seq<char> {
    "homeassistant/sensor/"@ + unit_name(serial) + "/"@ + m.spec_topic_segment() + "/config"@
}

/// Topic of the state document of `m` on the meter with `serial`.
pub open spec fn state_topic(serial: Seq<char>, m: Metric) -> Seq<char> {
    "pzem016mqtt/"@ + unit_name(serial) + "/"@ + m.spec_topic_segment() + "/value"@
}

/// Name (and unique id) of the entity of `m` on the meter with `serial`.
pub open spec fn entity_name(serial: Seq<char>, m: Metric) -> Seq<char> {
    unit_name(serial) + "-"@ + m.spec_device_class()
}

/// `d` describes the meter with `serial`.
pub open spec fn is_device_block(d: DeviceInfo, serial: Seq<char>) -> bool {
    &&& d.identifiers@.len() == 1
    &&& d.identifiers@[0]@ == serial
    &&& d.manufacturer@ == "Peacefair"@
    &&& d.name@ == "PZEM-016"@
    &&& d.model@ == model_name()
    &&& d.sw_version@.len() == 0
}

/// `c` is the discovery document of `m` on the meter with `serial`.
pub open spec fn is_metric_config(c: HAConfigPayload, serial: Seq<char>, m: Metric) -> bool {
    &&& c.name@ == entity_name(serial, m)
    &&& c.unique_id@ == entity_name(serial, m)
    &&& c.entity_id@.len() == 0
    &&& c.state_topic@ == state_topic(serial, m)
    &&& c.expires_after == EXPIRES_AFTER_SECS
    &&& is_device_block(c.device, serial)
    &&& opt_view(c.device_class) == Some(m.spec_device_class())
    &&& opt_view(c.state_class) == Some(m.spec_state_class())
    &&& opt_view(c.native_uom) == m.spec_unit()
    &&& opt_view(c.value_template) == Some("{{ value_json.value }}"@)
    &&& c.suggested_display_precision == Some(m.spec_precision())
    &&& c.entity_category is None
    &&& c.command_topic is None
    &&& c.payload_on is None
    &&& c.payload_off is None
    &&& c.options is None
    &&& c.assumed_state is None
    &&& c.attribution is None
    &&& c.available is None
    &&& c.entity_picture is None
    &&& c.extra_state_attributes is None
    &&& c.has_entity_name is None
    &&& c.should_poll is None
    &&& c.translation_key is None
    &&& c.payload_press is None
    &&& c.min is None
    &&& c.max is None
    &&& c.mode is None
    &&& c.step is None
    &&& c.icon is None
}

/// `s` is a state document holding the float with bits `bits`, read at `at`.
pub open spec fn is_metric_state(s: StatePayload, bits: u32, at: Timestamp) -> bool {
    &&& s.value == PayloadValueType::Float(bits)
    &&& s.last_seen == at
    &&& s.label is None
    &&& s.description is None
    &&& s.notes is None
}

/// `msg` carries the discovery document of `m` on the meter with `serial`.
pub open spec fn is_config_message(msg: PublishMessage, serial: Seq<char>, m: Metric) -> bool {
    &&& msg.topic@ == config_topic(serial, m)
    &&& match msg.payload {
        Payload::Config(c) => is_metric_config(c, serial, m),
        _ => false,
    }
}

/// `msg` carries the state document of `m` on the meter with `serial`.
pub open spec fn is_state_message(
    msg: PublishMessage,
    serial: Seq<char>,
    m: Metric,
    reading: MeterReading,
    at: Timestamp,
) -> bool {
    &&& msg.topic@ == state_topic(serial, m)
    &&& match msg.payload {
        Payload::CurrentState(s) => is_metric_state(s, m.spec_value(reading), at),
        _ => false,
    }
}

fn str_string(s: &str) -> (r: String)
    ensures
        r@ == s@,
{
    String::from_str(s)
}

fn concat3(a: &str, b: &str, c: &str) -> (r: String)
    ensures
        r@ == a@ + b@ + c@,
{
    let mut r = String::from_str(a);
    r.append(b);
    r.append(c);
    r
}

/// The name of the meter with `serial`.
pub fn make_unit_name(serial: &String) -> (r: String)
    ensures
        r@ == unit_name(serial@),
{
    concat3("pzem016", "-", serial.as_str())
}

/// The topic of the discovery document of `m` on the meter with `serial`.
pub fn make_config_topic(serial: &String, m: Metric) -> (r: String)
    ensures
        r@ == config_topic(serial@, m),
{
    let unit = make_unit_name(serial);
    let mut r = concat3("homeassistant/sensor/", unit.as_str(), "/");
    r.append(m.topic_segment());
    r.append("/config");
    r
}

/// The topic of the state document of `m` on the meter with `serial`.
pub fn make_state_topic(serial: &String, m: Metric) -> (r: String)
    ensures
        r@ == state_topic(serial@, m),
{
    let unit = make_unit_name(serial);
    let mut r = concat3("pzem016mqtt/", unit.as_str(), "/");
    r.append(m.topic_segment());
    r.append("/value");
    r
}

/// The device block of the meter with `serial`.
pub fn make_device_info(serial: &String) -> (r: DeviceInfo)
    ensures
        is_device_block(r, serial@),
{
    let mut identifiers: Vec<String> = Vec::new();
    identifiers.push(serial.clone());
    proof {
        reveal_strlit("");
    }
    DeviceInfo {
        identifiers,
        manufacturer: str_string("Peacefair"),
        name: str_string("PZEM-016"),
        model: str_string("pzem016"),
        sw_version: str_string(""),
    }
}

/// The discovery document of `m` on the meter with `serial`.
pub fn metric_config(serial: &String, m: Metric) -> (r: HAConfigPayload)
    ensures
        is_metric_config(r, serial@, m),
{
    let unit = make_unit_name(serial);
    let name = concat3(unit.as_str(), "-", m.device_class());
    let unique_id = name.clone();
    let native_uom = match m.unit() {
        Some(u) => Some(str_string(u)),
        None => None,
    };
    proof {
        reveal_strlit("");
    }
    HAConfigPayload {
        name,
        device: make_device_info(serial),
        unique_id,
        entity_id: str_string(""),
        state_topic: make_state_topic(serial, m),
        expires_after: EXPIRES_AFTER_SECS,
        entity_category: None,
        command_topic: None,
        payload_on: None,
        payload_off: None,
        state_class: Some(str_string(m.state_class())),
        device_class: Some(str_string(m.device_class())),
        native_uom,
        options: None,
        value_template: Some(str_string("{{ value_json.value }}")),
        suggested_display_precision: Some(m.precision()),
        assumed_state: None,
        attribution: None,
        available: None,
        entity_picture: None,
        extra_state_attributes: None,
        has_entity_name: None,
        should_poll: None,
        translation_key: None,
        payload_press: None,
        min: None,
        max: None,
        mode: None,
        step: None,
        icon: None,
    }
}

impl StatePayload {
    /// A state document with no value, read at `last_seen`.
    pub fn empty_at(last_seen: Timestamp) -> (r: StatePayload)
        ensures
            r.value is Empty,
            r.last_seen == last_seen,
            r.label is None,
            r.description is None,
            r.notes is None,
    {
        StatePayload { value: PayloadValueType::Empty, label: None, description: None, notes: None, last_seen }
    }
}

/// The state document holding the float with bits `bits`, read at `at`.
pub fn metric_state(bits: u32, at: Timestamp) -> (r: StatePayload)
    ensures
        is_metric_state(r, bits, at),
{
    StatePayload { value: PayloadValueType::Float(bits), label: None, description: None, notes: None, last_seen: at }
}

/// The documents of metric `m` of a meter, with their topics.
pub fn metric_payloads(serial: &String, m: Metric, reading: &MeterReading, at: Timestamp) -> (r: CompoundPayload)
    ensures
        r.config_topic@ == config_topic(serial@, m),
        is_metric_config(r.config, serial@, m),
        r.state_topic@ == state_topic(serial@, m),
        is_metric_state(r.state, m.spec_value(*reading), at),
{
    CompoundPayload {
        config: metric_config(serial, m),
        config_topic: make_config_topic(serial, m),
        state: metric_state(m.value_in(reading), at),
        state_topic: make_state_topic(serial, m),
    }
}

/// Positions `2 * k` and `2 * k + 1` of `msgs` hold the discovery and the
/// state document of metric `k` of the meter with `serial`.
pub open spec fn holds_metric_pair(
    msgs: Seq<PublishMessage>,
    k: int,
    serial: Seq<char>,
    reading: MeterReading,
    at: Timestamp,
) -> bool {
    &&& is_config_message(msgs[2 * k], serial, metric_at(k))
    &&& is_state_message(msgs[2 * k + 1], serial, metric_at(k), reading, at)
}

/// The messages that publish one reading of the meter with bus address
/// `unit_id`: for each metric in turn, its discovery document and then its
/// state document.
pub fn unit_messages(unit_id: u8, reading: &MeterReading, at: Timestamp) -> (r: Vec<PublishMessage>)
    ensures
        r@.len() == 2 * METRIC_COUNT,
        forall|k: int|
            0 <= k < METRIC_COUNT ==> #[trigger] holds_metric_pair(r@, k, decimal(unit_id as nat), *reading, at),
{
    let serial = decimal_string(unit_id);
    let mut out: Vec<PublishMessage> = Vec::new();
    let mut i: usize = 0;
    while i < METRIC_COUNT
        invariant
            i <= METRIC_COUNT,
            serial@ == decimal(unit_id as nat),
            out@.len() == 2 * i,
            forall|k: int| 0 <= k < i ==> #[trigger] holds_metric_pair(out@, k, serial@, *reading, at),
        decreases METRIC_COUNT - i,
    {
        let m = Metric::at(i);
        let p = metric_payloads(&serial, m, reading, at);
        let ghost before = out@;
        out.push(PublishMessage { topic: p.config_topic, payload: Payload::Config(p.config) });
        out.push(PublishMessage { topic: p.state_topic, payload: Payload::CurrentState(p.state) });
        proof {
            assert forall|k: int| 0 <= k < i + 1 implies #[trigger] holds_metric_pair(out@, k, serial@, *reading, at) by {
                if k < i {
                    assert(holds_metric_pair(before, k, serial@, *reading, at));
                    assert(out@[2 * k] == before[2 * k]);
                    assert(out@[2 * k + 1] == before[2 * k + 1]);
                }
            }
        }
        i = i + 1;
    }
    out
}

} // verus!
