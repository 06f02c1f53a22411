use vstd::prelude::*;

use vstd::string::*;

use crate::payload::{HAConfigPayload, StatePayload};

verus! {

/// A key of the wire form of a discovery document.
#[derive(Clone, Copy, Debug, PartialEq, Eq)]
pub enum ConfigKey {
    Name,
    Device,
    UniqueId,
    EntityId,
    StateTopic,
    ExpiresAfter,
    EntityCategory,
    CommandTopic,
    PayloadOn,
    PayloadOff,
    StateClass,
    DeviceClass,
    UnitOfMeasurement,
    Options,
    ValueTemplate,
    SuggestedDisplayPrecision,
    AssumedState,
    Attribution,
    Available,
    EntityPicture,
    ExtraStateAttributes,
    HasEntityName,
    ShouldPoll,
    TranslationKey,
    PayloadPress,
    Min,
    Max,
    Mode,
    Step,
    Icon,
}

impl ConfigKey {
    /// The key as it is written on the wire.
    pub open spec fn spec_wire_name(self) -> Seq<char> {
        match self {
            ConfigKey::Name => "name"@,
            ConfigKey::Device => "device"@,
            ConfigKey::UniqueId => "unique_id"@,
            ConfigKey::EntityId => "entity_id"@,
            ConfigKey::StateTopic => "state_topic"@,
            ConfigKey::ExpiresAfter => "expires_after"@,
            ConfigKey::EntityCategory => "entity_category"@,
            ConfigKey::CommandTopic => "command_topic"@,
            ConfigKey::PayloadOn => "payload_on"@,
            ConfigKey::PayloadOff => "payload_off"@,
            ConfigKey::StateClass => "state_class"@,
            ConfigKey::DeviceClass => "device_class"@,
            ConfigKey::UnitOfMeasurement => "unit_of_measurement"@,
            ConfigKey::Options => "options"@,
            ConfigKey::ValueTemplate => "value_template"@,
            ConfigKey::SuggestedDisplayPrecision => "suggested_display_precision"@,
            ConfigKey::AssumedState => "assumed_state"@,
            ConfigKey::Attribution => "attribution"@,
            ConfigKey::Available => "available"@,
            ConfigKey::EntityPicture => "entity_picture"@,
            ConfigKey::ExtraStateAttributes => "extra_state_attributes"@,
            ConfigKey::HasEntityName => "has_entity_name"@,
            ConfigKey::ShouldPoll => "should_poll"@,
            ConfigKey::TranslationKey => "translation_key"@,
            ConfigKey::PayloadPress => "payload_press"@,
            ConfigKey::Min => "min"@,
            ConfigKey::Max => "max"@,
            ConfigKey::Mode => "mode"@,
            ConfigKey::Step => "step"@,
            ConfigKey::Icon => "icon"@,
        }
    }

    /// The key as it is written on the wire.
    pub fn wire_name(self) -> (r: &'static str)
        ensures
            r@ == self.spec_wire_name(),
    {
        match self {
            ConfigKey::Name => "name",
            ConfigKey::Device => "device",
            ConfigKey::UniqueId => "unique_id",
            ConfigKey::EntityId => "entity_id",
            ConfigKey::StateTopic => "state_topic",
            ConfigKey::ExpiresAfter => "expires_after",
            ConfigKey::EntityCategory => "entity_category",
            ConfigKey::CommandTopic => "command_topic",
            ConfigKey::PayloadOn => "payload_on",
            ConfigKey::PayloadOff => "payload_off",
            ConfigKey::StateClass => "state_class",
            ConfigKey::DeviceClass => "device_class",
            ConfigKey::UnitOfMeasurement => "unit_of_measurement",
            ConfigKey::Options => "options",
            ConfigKey::ValueTemplate => "value_template",
            ConfigKey::SuggestedDisplayPrecision => "suggested_display_precision",
            ConfigKey::AssumedState => "assumed_state",
            ConfigKey::Attribution => "attribution",
            ConfigKey::Available => "available",
            ConfigKey::EntityPicture => "entity_picture",
            ConfigKey::ExtraStateAttributes => "extra_state_attributes",
            ConfigKey::HasEntityName => "has_entity_name",
            ConfigKey::ShouldPoll => "should_poll",
            ConfigKey::TranslationKey => "translation_key",
            ConfigKey::PayloadPress => "payload_press",
            ConfigKey::Min => "min",
            ConfigKey::Max => "max",
            ConfigKey::Mode => "mode",
            ConfigKey::Step => "step",
            ConfigKey::Icon => "icon",
        }
    }

    /// Whether the key is written whatever the document holds.
    pub open spec fn is_required(self) -> bool {
        match self {
            ConfigKey::Name => true,
            ConfigKey::Device => true,
            ConfigKey::UniqueId => true,
            ConfigKey::EntityId => true,
            ConfigKey::StateTopic => true,
            ConfigKey::ExpiresAfter => true,
            _ => false,
        }
    }
}

/// Whether the wire form of `c` holds key `k`: the required keys always, an
/// optional key exactly when its field is set.
pub open spec fn key_present(c: HAConfigPayload, k: ConfigKey) -> bool {
    match k {
        ConfigKey::Name => true,
        ConfigKey::Device => true,
        ConfigKey::UniqueId => true,
        ConfigKey::EntityId => true,
        ConfigKey::StateTopic => true,
        ConfigKey::ExpiresAfter => true,
        ConfigKey::EntityCategory => c.entity_category is Some,
        ConfigKey::CommandTopic => c.command_topic is Some,
        ConfigKey::PayloadOn => c.payload_on is Some,
        ConfigKey::PayloadOff => c.payload_off is Some,
        ConfigKey::StateClass => c.state_class is Some,
        ConfigKey::DeviceClass => c.device_class is Some,
        ConfigKey::UnitOfMeasurement => c.native_uom is Some,
        ConfigKey::Options => c.options is Some,
        ConfigKey::ValueTemplate => c.value_template is Some,
        ConfigKey::SuggestedDisplayPrecision => c.suggested_display_precision is Some,
        ConfigKey::AssumedState => c.assumed_state is Some,
        ConfigKey::Attribution => c.attribution is Some,
        ConfigKey::Available => c.available is Some,
        ConfigKey::EntityPicture => c.entity_picture is Some,
        ConfigKey::ExtraStateAttributes => c.extra_state_attributes is Some,
        ConfigKey::HasEntityName => c.has_entity_name is Some,
        ConfigKey::ShouldPoll => c.should_poll is Some,
        ConfigKey::TranslationKey => c.translation_key is Some,
        ConfigKey::PayloadPress => c.payload_press is Some,
        ConfigKey::Min => c.min is Some,
        ConfigKey::Max => c.max is Some,
        ConfigKey::Mode => c.mode is Some,
        ConfigKey::Step => c.step is Some,
        ConfigKey::Icon => c.icon is Some,
    }
}

/// Number of keys a discovery document can have.
pub const CONFIG_KEY_COUNT: usize = 30;

impl ConfigKey {
    /// Position of the key in the wire form.
    pub open spec fn index(self) -> nat {
        match self {
            ConfigKey::Name => 0,
            ConfigKey::Device => 1,
            ConfigKey::UniqueId => 2,
            ConfigKey::EntityId => 3,
            ConfigKey::StateTopic => 4,
            ConfigKey::ExpiresAfter => 5,
            ConfigKey::EntityCategory => 6,
            ConfigKey::CommandTopic => 7,
            ConfigKey::PayloadOn => 8,
            ConfigKey::PayloadOff => 9,
            ConfigKey::StateClass => 10,
            ConfigKey::DeviceClass => 11,
            ConfigKey::UnitOfMeasurement => 12,
            ConfigKey::Options => 13,
            ConfigKey::ValueTemplate => 14,
            ConfigKey::SuggestedDisplayPrecision => 15,
            ConfigKey::AssumedState => 16,
            ConfigKey::Attribution => 17,
            ConfigKey::Available => 18,
            ConfigKey::EntityPicture => 19,
            ConfigKey::ExtraStateAttributes => 20,
            ConfigKey::HasEntityName => 21,
            ConfigKey::ShouldPoll => 22,
            ConfigKey::TranslationKey => 23,
            ConfigKey::PayloadPress => 24,
            ConfigKey::Min => 25,
            ConfigKey::Max => 26,
            ConfigKey::Mode => 27,
            ConfigKey::Step => 28,
            ConfigKey::Icon => 29,
        }
    }

    /// The key in position `i` of the wire form.
    pub fn at(i: usize) -> (r: ConfigKey)
        requires
            i < CONFIG_KEY_COUNT,
        ensures
            r.index() == i,
    {
        if i == 0 {
            ConfigKey::Name
        } else if i == 1 {
            ConfigKey::Device
        } else if i == 2 {
            ConfigKey::UniqueId
        } else if i == 3 {
            ConfigKey::EntityId
        } else if i == 4 {
            ConfigKey::StateTopic
        } else if i == 5 {
            ConfigKey::ExpiresAfter
        } else if i == 6 {
            ConfigKey::EntityCategory
        } else if i == 7 {
            ConfigKey::CommandTopic
        } else if i == 8 {
            ConfigKey::PayloadOn
        } else if i == 9 {
            ConfigKey::PayloadOff
        } else if i == 10 {
            ConfigKey::StateClass
        } else if i == 11 {
            ConfigKey::DeviceClass
        } else if i == 12 {
            ConfigKey::UnitOfMeasurement
        } else if i == 13 {
            ConfigKey::Options
        } else if i == 14 {
            ConfigKey::ValueTemplate
        } else if i == 15 {
            ConfigKey::SuggestedDisplayPrecision
        } else if i == 16 {
            ConfigKey::AssumedState
        } else if i == 17 {
            ConfigKey::Attribution
        } else if i == 18 {
            ConfigKey::Available
        } else if i == 19 {
            ConfigKey::EntityPicture
        } else if i == 20 {
            ConfigKey::ExtraStateAttributes
        } else if i == 21 {
            ConfigKey::HasEntityName
        } else if i == 22 {
            ConfigKey::ShouldPoll
        } else if i == 23 {
            ConfigKey::TranslationKey
        } else if i == 24 {
            ConfigKey::PayloadPress
        } else if i == 25 {
            ConfigKey::Min
        } else if i == 26 {
            ConfigKey::Max
        } else if i == 27 {
            ConfigKey::Mode
        } else if i == 28 {
            ConfigKey::Step
        } else {
            ConfigKey::Icon
        }
    }
}

/// Every key has its own position.
proof fn lemma_index_injective(a: ConfigKey, b: ConfigKey)
    ensures
        a.index() == b.index() ==> a == b,
        a.index() < CONFIG_KEY_COUNT,
{
}

impl HAConfigPayload {
    /// Whether the wire form of the document holds key `k`.
    pub fn has_key(&self, k: ConfigKey) -> (r: bool)
        ensures
            r == key_present(*self, k),
    {
        match k {
            ConfigKey::Name => true,
            ConfigKey::Device => true,
            ConfigKey::UniqueId => true,
            ConfigKey::EntityId => true,
            ConfigKey::StateTopic => true,
            ConfigKey::ExpiresAfter => true,
            ConfigKey::EntityCategory => self.entity_category.is_some(),
            ConfigKey::CommandTopic => self.command_topic.is_some(),
            ConfigKey::PayloadOn => self.payload_on.is_some(),
            ConfigKey::PayloadOff => self.payload_off.is_some(),
            ConfigKey::StateClass => self.state_class.is_some(),
            ConfigKey::DeviceClass => self.device_class.is_some(),
            ConfigKey::UnitOfMeasurement => self.native_uom.is_some(),
            ConfigKey::Options => self.options.is_some(),
            ConfigKey::ValueTemplate => self.value_template.is_some(),
            ConfigKey::SuggestedDisplayPrecision => self.suggested_display_precision.is_some(),
            ConfigKey::AssumedState => self.assumed_state.is_some(),
            ConfigKey::Attribution => self.attribution.is_some(),
            ConfigKey::Available => self.available.is_some(),
            ConfigKey::EntityPicture => self.entity_picture.is_some(),
            ConfigKey::ExtraStateAttributes => self.extra_state_attributes.is_some(),
            ConfigKey::HasEntityName => self.has_entity_name.is_some(),
            ConfigKey::ShouldPoll => self.should_poll.is_some(),
            ConfigKey::TranslationKey => self.translation_key.is_some(),
            ConfigKey::PayloadPress => self.payload_press.is_some(),
            ConfigKey::Min => self.min.is_some(),
            ConfigKey::Max => self.max.is_some(),
            ConfigKey::Mode => self.mode.is_some(),
            ConfigKey::Step => self.step.is_some(),
            ConfigKey::Icon => self.icon.is_some(),
        }
    }

    /// The keys of the document's wire form, in order: every required key,
    /// and each optional key whose field is set; a field that is `None` is
    /// left out.
    pub fn wire_keys(&self) -> (r: Vec<ConfigKey>)
        ensures
            forall|k: ConfigKey| #[trigger] r@.contains(k) <==> key_present(*self, k),
    {
        let mut keys: Vec<ConfigKey> = Vec::new();
        let mut i: usize = 0;
        while i < CONFIG_KEY_COUNT
            invariant
                i <= CONFIG_KEY_COUNT,
                forall|k: ConfigKey|
                    #[trigger] keys@.contains(k) <==> (k.index() < i && key_present(*self, k)),
            decreases CONFIG_KEY_COUNT - i,
        {
            let k = ConfigKey::at(i);
            let ghost before = keys@;
            if self.has_key(k) {
                keys.push(k);
            }
            proof {
                assert forall|x: ConfigKey|
                    #[trigger] keys@.contains(x) <==> (x.index() < i + 1 && key_present(*self, x)) by {
                    lemma_index_injective(x, k);
                    if keys@.len() > before.len() {
                        if keys@.contains(x) && x != k {
                            let j = choose|j: int| 0 <= j < keys@.len() && keys@[j] == x;
                            assert(before[j] == x);
                            assert(before.contains(x));
                        }
                        if before.contains(x) {
                            let j = choose|j: int| 0 <= j < before.len() && before[j] == x;
                            assert(keys@[j] == x);
                        }
                        if x == k {
                            assert(keys@[before.len() as int] == x);
                        }
                    }
                }
            }
            i = i + 1;
        }
        proof {
            assert forall|k: ConfigKey| #[trigger] keys@.contains(k) <==> key_present(*self, k) by {
                lemma_index_injective(k, k);
            }
        }
        keys
    }
}

/// The texts of a sequence of strings.
pub open spec fn texts(v: Seq<String>) -> Seq<Seq<char>> {
    Seq::new(v.len(), |i: int| v[i]@)
}

/// The shape of a document, told from its keys alone.
#[derive(Clone, Copy, Debug, PartialEq, Eq)]
pub enum PayloadShape {
    Config,
    CurrentState,
    Unknown,
}

/// The keys that every discovery document has.
pub open spec fn config_required_names() -> Seq<Seq<char>> {
    seq!["name"@, "device"@, "unique_id"@, "entity_id"@, "state_topic"@, "expires_after"@]
}

/// The shapes are tried in a fixed order, and the first that matches wins: a
/// discovery document has all of its required keys; a state document has a
/// value and a time.
pub open spec fn spec_shape(names: Seq<Seq<char>>) -> PayloadShape {
    if forall|j: int| 0 <= j < 6 ==> names.contains(#[trigger] config_required_names()[j]) {
        PayloadShape::Config
    } else if names.contains("value"@) && names.contains("last_seen"@) {
        PayloadShape::CurrentState
    } else {
        PayloadShape::Unknown
    }
}

/// Whether `names` holds `n`.
pub fn contains_name(names: &Vec<String>, n: &str) -> (r: bool)
    ensures
        r == texts(names@).contains(n@),
{
    let target = String::from_str(n);
    let mut i: usize = 0;
    while i < names.len()
        invariant
            i <= names@.len(),
            target@ == n@,
            forall|j: int| 0 <= j < i ==> names@[j]@ != n@,
        decreases names@.len() - i,
    {
        if names[i] == target {
            proof {
                assert(texts(names@)[i as int] == n@);
            }
            return true;
        }
        i = i + 1;
    }
    proof {
        if texts(names@).contains(n@) {
            let k = choose|k: int| 0 <= k < texts(names@).len() && texts(names@)[k] == n@;
            assert(names@[k]@ != n@);
        }
    }
    false
}

/// Tells the shape of a document from the keys of its wire form.
pub fn shape_of(names: &Vec<String>) -> (r: PayloadShape)
    ensures
        r == spec_shape(texts(names@)),
{
    let required = ["name", "device", "unique_id", "entity_id", "state_topic", "expires_after"];
    let mut all = true;
    let mut j: usize = 0;
    while j < 6
        invariant
            j <= 6,
            forall|k: int| 0 <= k < 6 ==> (#[trigger] required@[k])@ == config_required_names()[k],
            all == (forall|k: int| 0 <= k < j ==> texts(names@).contains(#[trigger] config_required_names()[k])),
        decreases 6 - j,
    {
        let present = contains_name(names, required[j]);
        all = all && present;
        j = j + 1;
    }
    if all {
        PayloadShape::Config
    } else if contains_name(names, "value") && contains_name(names, "last_seen") {
        PayloadShape::CurrentState
    } else {
        PayloadShape::Unknown
    }
}

/// `n` is the wire name of a key present in the wire form of `c`.
pub open spec fn names_present_key(c: HAConfigPayload, n: Seq<char>) -> bool {
    exists|k: ConfigKey| key_present(c, k) && n == k.spec_wire_name()
}

impl HAConfigPayload {
    /// The keys of the document's wire form, as written on the wire.
    pub fn wire_names(&self) -> (r: Vec<String>)
        ensures
            forall|k: ConfigKey| #[trigger] key_present(*self, k) ==> texts(r@).contains(k.spec_wire_name()),
            forall|i: int| 0 <= i < r@.len() ==> names_present_key(*self, #[trigger] r@[i]@),
    {
        let keys = self.wire_keys();
        let mut names: Vec<String> = Vec::new();
        let mut i: usize = 0;
        while i < keys.len()
            invariant
                i <= keys@.len(),
                names@.len() == i,
                forall|j: int| 0 <= j < i ==> (#[trigger] names@[j])@ == keys@[j].spec_wire_name(),
            decreases keys@.len() - i,
        {
            names.push(String::from_str(keys[i].wire_name()));
            i = i + 1;
        }
        proof {
            assert forall|k: ConfigKey| #[trigger] key_present(*self, k) implies texts(names@).contains(k.spec_wire_name()) by {
                assert(keys@.contains(k));
                let j = choose|j: int| 0 <= j < keys@.len() && keys@[j] == k;
                assert(texts(names@)[j] == k.spec_wire_name());
            }
            assert forall|i: int| 0 <= i < names@.len() implies names_present_key(*self, #[trigger] names@[i]@) by {
                assert(keys@.contains(keys@[i]));
                let k = keys@[i];
                assert(key_present(*self, k) && names@[i]@ == k.spec_wire_name());
            }
        }
        names
    }
}

/// The keys of the wire form of a state document: its value and time
/// always, and each optional field that is set.
pub open spec fn state_names(s: StatePayload) -> Seq<Seq<char>> {
    seq!["value"@]
        + (if s.label is Some { seq!["label"@] } else { Seq::empty() })
        + (if s.description is Some { seq!["description"@] } else { Seq::empty() })
        + (if s.notes is Some { seq!["notes"@] } else { Seq::empty() })
        + seq!["last_seen"@]
}

impl StatePayload {
    /// The keys of the document's wire form, as written on the wire.
    pub fn wire_names(&self) -> (r: Vec<String>)
        ensures
            texts(r@) == state_names(*self),
    {
        let mut names: Vec<String> = Vec::new();
        names.push(String::from_str("value"));
        let ghost mut expect: Seq<Seq<char>> = seq!["value"@];
        proof {
            assert(texts(names@) =~= expect);
        }
        if self.label.is_some() {
            names.push(String::from_str("label"));
        }
        proof {
            expect = expect + (if self.label is Some { seq!["label"@] } else { Seq::empty() });
            assert(texts(names@) =~= expect);
        }
        if self.description.is_some() {
            names.push(String::from_str("description"));
        }
        proof {
            expect = expect + (if self.description is Some { seq!["description"@] } else { Seq::empty() });
            assert(texts(names@) =~= expect);
        }
        if self.notes.is_some() {
            names.push(String::from_str("notes"));
        }
        proof {
            expect = expect + (if self.notes is Some { seq!["notes"@] } else { Seq::empty() });
            assert(texts(names@) =~= expect);
        }
        names.push(String::from_str("last_seen"));
        proof {
            expect = expect + seq!["last_seen"@];
            assert(texts(names@) =~= expect);
        }
        names
    }
}

/// Keys that include every key of the wire form of a discovery document
/// are told back as a discovery document.
pub proof fn lemma_config_wire_form(c: HAConfigPayload, names: Seq<Seq<char>>)
    requires
        forall|k: ConfigKey| #[trigger] key_present(c, k) ==> names.contains(k.spec_wire_name()),
    ensures
        spec_shape(names) == PayloadShape::Config,
{
    assert(key_present(c, ConfigKey::Name));
    assert(key_present(c, ConfigKey::Device));
    assert(key_present(c, ConfigKey::UniqueId));
    assert(key_present(c, ConfigKey::EntityId));
    assert(key_present(c, ConfigKey::StateTopic));
    assert(key_present(c, ConfigKey::ExpiresAfter));
    assert forall|j: int| 0 <= j < 6 implies names.contains(#[trigger] config_required_names()[j]) by {
        if j == 0 {
            assert(config_required_names()[j] == ConfigKey::Name.spec_wire_name());
        } else if j == 1 {
            assert(config_required_names()[j] == ConfigKey::Device.spec_wire_name());
        } else if j == 2 {
            assert(config_required_names()[j] == ConfigKey::UniqueId.spec_wire_name());
        } else if j == 3 {
            assert(config_required_names()[j] == ConfigKey::EntityId.spec_wire_name());
        } else if j == 4 {
            assert(config_required_names()[j] == ConfigKey::StateTopic.spec_wire_name());
        } else {
            assert(config_required_names()[j] == ConfigKey::ExpiresAfter.spec_wire_name());
        }
    }
}

/// The shape of a state document is told back from its wire form as a state
/// document, never as a discovery document.
pub proof fn lemma_state_wire_form(s: StatePayload)
    ensures
        spec_shape(state_names(s)) == PayloadShape::CurrentState,
{
    reveal_strlit("name");
    reveal_strlit("value");
    reveal_strlit("label");
    reveal_strlit("description");
    reveal_strlit("notes");
    reveal_strlit("last_seen");
    let n = state_names(s);
    assert(!n.contains("name"@)) by {
        if n.contains("name"@) {
            let k = choose|k: int| 0 <= k < n.len() && n[k] == "name"@;
            assert(n[k].len() == 4);
        }
    }
    assert(config_required_names()[0] == "name"@);
    assert(n[0] == "value"@);
    assert(n[n.len() - 1] == "last_seen"@);
}

} // verus!
