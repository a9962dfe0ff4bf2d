//! Points, devices, samples and statuses, and what a protocol adapter says of itself.

use vstd::prelude::*;

use crate::table::{duplicate_opt, Duplicate, Table, TableKey};
use crate::text;
use crate::text::same;

verus! {

/// One JSON value in a connection or in a point's addressing.
#[derive(Debug)]
pub enum Value {
    /// `null`.
    Null,
    /// `true` or `false`.
    Bool(bool),
    /// A number, by its JSON text.
    Number(String),
    /// A string.
    Text(String),
    /// An array or an object, by its JSON text.
    Nested(String),
}

/// What a [`Value`] stands for.
pub enum ValueModel {
    Null,
    Bool(bool),
    Number(Seq<char>),
    Text(Seq<char>),
    Nested(Seq<char>),
}

impl View for Value {
    type V = ValueModel;

    open spec fn view(&self) -> ValueModel {
        match self {
            Value::Null => ValueModel::Null,
            Value::Bool(b) => ValueModel::Bool(*b),
            Value::Number(s) => ValueModel::Number(s@),
            Value::Text(s) => ValueModel::Text(s@),
            Value::Nested(s) => ValueModel::Nested(s@),
        }
    }
}

impl Duplicate for Value {
    fn duplicate(&self) -> (r: Self) {
        match self {
            Value::Null => Value::Null,
            Value::Bool(b) => Value::Bool(*b),
            Value::Number(s) => Value::Number(s.clone()),
            Value::Text(s) => Value::Text(s.clone()),
            Value::Nested(s) => Value::Nested(s.clone()),
        }
    }
}

/// Named JSON values: a connection's settings, or where a point is found on its device.
pub type Addressing = Table<String, Value>;

/// What an [`Addressing`] stands for.
pub type AddressingModel = Map<Seq<char>, ValueModel>;

/// One configured point.
#[derive(Debug)]
pub struct PointConfig {
    pub enabled: bool,
    pub device_key: String,
    pub addressing: Addressing,
    pub tag_path: String,
    pub poll_interval_secs: u64,
}

/// What a [`PointConfig`] stands for.
pub struct PointModel {
    pub enabled: bool,
    pub device_key: Seq<char>,
    pub addressing: AddressingModel,
    pub tag_path: Seq<char>,
    pub poll_interval_secs: u64,
}

impl View for PointConfig {
    type V = PointModel;

    open spec fn view(&self) -> PointModel {
        PointModel {
            enabled: self.enabled,
            device_key: self.device_key@,
            addressing: self.addressing@,
            tag_path: self.tag_path@,
            poll_interval_secs: self.poll_interval_secs,
        }
    }
}

impl Duplicate for PointConfig {
    fn duplicate(&self) -> (r: Self) {
        PointConfig {
            enabled: self.enabled,
            device_key: self.device_key.clone(),
            addressing: self.addressing.duplicate(),
            tag_path: self.tag_path.clone(),
            poll_interval_secs: self.poll_interval_secs,
        }
    }
}

/// The views of name and text pairs.
pub open spec fn pair_views(s: Seq<(String, String)>) -> Seq<(Seq<char>, Seq<char>)> {
    Seq::new(s.len(), |i: int| (s[i].0@, s[i].1@))
}

/// A copy of name and text pairs.
pub fn duplicate_pairs(v: &Vec<(String, String)>) -> (r: Vec<(String, String)>)
    ensures
        pair_views(r@) == pair_views(v@),
{
    let mut r: Vec<(String, String)> = Vec::new();
    let mut i: usize = 0;
    while i < v.len()
        invariant
            i <= v.len(),
            pair_views(r@) == pair_views(v@.take(i as int)),
        decreases v.len() - i,
    {
        let ghost before = r@;
        r.push((v[i].0.clone(), v[i].1.clone()));
        proof {
            assert(pair_views(r@) =~= pair_views(before).push((v@[i as int].0@, v@[i as int].1@)));
            assert(pair_views(v@.take(i + 1)) =~= pair_views(v@.take(i as int)).push(
                (v@[i as int].0@, v@[i as int].1@),
            ));
        }
        i = i + 1;
    }
    assert(v@.take(i as int) =~= v@);
    r
}

/// What tells one point from another: its device, and its addressing with each value as text.
#[derive(Debug)]
pub struct PointIdentity {
    pub device_key: String,
    pub addressing: Vec<(String, String)>,
}

/// What a [`PointIdentity`] stands for.
pub struct IdentityModel {
    pub device_key: Seq<char>,
    pub addressing: Seq<(Seq<char>, Seq<char>)>,
}

impl View for PointIdentity {
    type V = IdentityModel;

    open spec fn view(&self) -> IdentityModel {
        IdentityModel { device_key: self.device_key@, addressing: pair_views(self.addressing@) }
    }
}

impl TableKey for PointIdentity {
    type Model = IdentityModel;

    open spec fn key(&self) -> IdentityModel {
        self@
    }

    fn same(&self, other: &Self) -> (r: bool) {
        if !same(&self.device_key, &other.device_key) {
            return false;
        }
        if self.addressing.len() != other.addressing.len() {
            assert(self@.addressing.len() != other@.addressing.len());
            return false;
        }
        let mut i: usize = 0;
        while i < self.addressing.len()
            invariant
                i <= self.addressing.len(),
                self.addressing.len() == other.addressing.len(),
                forall|j: int|
                    0 <= j < i ==> self@.addressing[j] == other@.addressing[j],
            decreases self.addressing.len() - i,
        {
            if !same(&self.addressing[i].0, &other.addressing[i].0) || !same(
                &self.addressing[i].1,
                &other.addressing[i].1,
            ) {
                assert(self@.addressing[i as int] != other@.addressing[i as int]);
                return false;
            }
            i = i + 1;
        }
        assert(self@.addressing =~= other@.addressing);
        true
    }

    fn copy_key(&self) -> (r: Self) {
        PointIdentity {
            device_key: self.device_key.clone(),
            addressing: duplicate_pairs(&self.addressing),
        }
    }
}

/// A value read from a point: as JSON, and as it is shown.
#[derive(Debug)]
pub struct PointValue {
    pub json: Value,
    pub display: String,
}

/// What a [`PointValue`] stands for.
pub struct PointValueModel {
    pub json: ValueModel,
    pub display: Seq<char>,
}

impl View for PointValue {
    type V = PointValueModel;

    open spec fn view(&self) -> PointValueModel {
        PointValueModel { json: self.json@, display: self.display@ }
    }
}

impl Duplicate for PointValue {
    fn duplicate(&self) -> (r: Self) {
        PointValue { json: self.json.duplicate(), display: self.display.clone() }
    }
}

/// What is known of a point's last reads and publications.
#[derive(Debug)]
pub struct PointStatus {
    pub last_value: Option<PointValue>,
    pub last_sample_ms: Option<i64>,
    pub stale: bool,
    pub consecutive_failures: u32,
    pub last_error: Option<String>,
    pub last_publish_error: Option<String>,
}

/// What a [`PointStatus`] stands for.
pub struct StatusModel {
    pub last_value: Option<PointValueModel>,
    pub last_sample_ms: Option<i64>,
    pub stale: bool,
    pub consecutive_failures: u32,
    pub last_error: Option<Seq<char>>,
    pub last_publish_error: Option<Seq<char>>,
}

impl View for PointStatus {
    type V = StatusModel;

    open spec fn view(&self) -> StatusModel {
        StatusModel {
            last_value: text::opt(self.last_value),
            last_sample_ms: self.last_sample_ms,
            stale: self.stale,
            consecutive_failures: self.consecutive_failures,
            last_error: text::opt(self.last_error),
            last_publish_error: text::opt(self.last_publish_error),
        }
    }
}

impl Duplicate for PointStatus {
    fn duplicate(&self) -> (r: Self) {
        PointStatus {
            last_value: duplicate_opt(&self.last_value),
            last_sample_ms: self.last_sample_ms,
            stale: self.stale,
            consecutive_failures: self.consecutive_failures,
            last_error: duplicate_opt(&self.last_error),
            last_publish_error: duplicate_opt(&self.last_publish_error),
        }
    }
}

/// What the protocol core derives from a point and the broker settings: its identity, its
/// addressing with each value as text, the name it is shown under, and its telemetry topic.
#[derive(Debug)]
pub struct PointFacts {
    pub identity: PointIdentity,
    pub rendered: Vec<(String, String)>,
    pub display_name: String,
    pub topic: String,
}

/// What [`PointFacts`] stand for.
pub struct FactsModel {
    pub identity: IdentityModel,
    pub rendered: Seq<(Seq<char>, Seq<char>)>,
    pub display_name: Seq<char>,
    pub topic: Seq<char>,
}

impl View for PointFacts {
    type V = FactsModel;

    open spec fn view(&self) -> FactsModel {
        FactsModel {
            identity: self.identity@,
            rendered: pair_views(self.rendered@),
            display_name: self.display_name@,
            topic: self.topic@,
        }
    }
}

/// One value read from a point, and where it is published.
#[derive(Debug)]
pub struct PointSample {
    pub identity: PointIdentity,
    pub device_key: String,
    pub tag_path: String,
    pub display_name: String,
    pub topic: String,
    pub value: PointValue,
    pub timestamp_ms: i64,
}

/// What a [`PointSample`] stands for.
pub struct SampleModel {
    pub identity: IdentityModel,
    pub device_key: Seq<char>,
    pub tag_path: Seq<char>,
    pub display_name: Seq<char>,
    pub topic: Seq<char>,
    pub value: PointValueModel,
    pub timestamp_ms: i64,
}

impl View for PointSample {
    type V = SampleModel;

    open spec fn view(&self) -> SampleModel {
        SampleModel {
            identity: self.identity@,
            device_key: self.device_key@,
            tag_path: self.tag_path@,
            display_name: self.display_name@,
            topic: self.topic@,
            value: self.value@,
            timestamp_ms: self.timestamp_ms,
        }
    }
}

/// A device that discovery found.
#[derive(Debug)]
pub struct DiscoveredDevice {
    pub key: String,
    pub instance: Option<u32>,
    pub address: String,
    pub detail: String,
}

/// What a [`DiscoveredDevice`] stands for.
pub struct DeviceModel {
    pub key: Seq<char>,
    pub instance: Option<u32>,
    pub address: Seq<char>,
    pub detail: Seq<char>,
}

impl View for DiscoveredDevice {
    type V = DeviceModel;

    open spec fn view(&self) -> DeviceModel {
        DeviceModel {
            key: self.key@,
            instance: self.instance,
            address: self.address@,
            detail: self.detail@,
        }
    }
}

impl Duplicate for DiscoveredDevice {
    fn duplicate(&self) -> (r: Self) {
        DiscoveredDevice {
            key: self.key.clone(),
            instance: self.instance,
            address: self.address.clone(),
            detail: self.detail.clone(),
        }
    }
}

/// A point that browsing a device found. `rendered` is its addressing with each value as text.
#[derive(Debug)]
pub struct DiscoveredPoint {
    pub device_key: String,
    pub name: Option<String>,
    pub description: Option<String>,
    pub units: Option<String>,
    pub value: Option<PointValue>,
    pub addressing: Addressing,
    pub rendered: Vec<(String, String)>,
    pub suggested_tag_path: String,
}

/// What a [`DiscoveredPoint`] stands for.
pub struct BrowsedModel {
    pub device_key: Seq<char>,
    pub name: Option<Seq<char>>,
    pub description: Option<Seq<char>>,
    pub units: Option<Seq<char>>,
    pub value: Option<PointValueModel>,
    pub addressing: AddressingModel,
    pub rendered: Seq<(Seq<char>, Seq<char>)>,
    pub suggested_tag_path: Seq<char>,
}

impl View for DiscoveredPoint {
    type V = BrowsedModel;

    open spec fn view(&self) -> BrowsedModel {
        BrowsedModel {
            device_key: self.device_key@,
            name: text::opt(self.name),
            description: text::opt(self.description),
            units: text::opt(self.units),
            value: text::opt(self.value),
            addressing: self.addressing@,
            rendered: pair_views(self.rendered@),
            suggested_tag_path: self.suggested_tag_path@,
        }
    }
}

/// How an adapter finds devices.
#[derive(Debug, Clone, Copy, PartialEq, Eq, Structural)]
pub enum DiscoveryKind {
    Broadcast,
    EndpointQuery,
    SubnetScan,
    ManualOnly,
}

/// How an adapter lists the points of a device.
#[derive(Debug, Clone, Copy, PartialEq, Eq, Structural)]
pub enum BrowseKind {
    ObjectList,
    AddressSpace,
    RegisterScan,
    NotOffered,
}

/// What a field holds.
#[derive(Debug)]
pub enum FieldKind {
    Text,
    U32,
    Bool,
    Enum(Vec<String>),
    Secret,
}

/// What a [`FieldKind`] stands for.
pub enum FieldKindModel {
    Text,
    U32,
    Bool,
    Enum(Seq<Seq<char>>),
    Secret,
}

impl View for FieldKind {
    type V = FieldKindModel;

    open spec fn view(&self) -> FieldKindModel {
        match self {
            FieldKind::Text => FieldKindModel::Text,
            FieldKind::U32 => FieldKindModel::U32,
            FieldKind::Bool => FieldKindModel::Bool,
            FieldKind::Enum(options) => FieldKindModel::Enum(text::views(options@)),
            FieldKind::Secret => FieldKindModel::Secret,
        }
    }
}

/// One field of a connection or of a point's addressing.
#[derive(Debug)]
pub struct FieldSpec {
    pub key: String,
    pub label: String,
    pub kind: FieldKind,
    pub default: Option<Value>,
    pub help: Option<String>,
}

/// What a [`FieldSpec`] stands for.
pub struct FieldModel {
    pub key: Seq<char>,
    pub label: Seq<char>,
    pub kind: FieldKindModel,
    pub default: Option<ValueModel>,
    pub help: Option<Seq<char>>,
}

impl View for FieldSpec {
    type V = FieldModel;

    open spec fn view(&self) -> FieldModel {
        FieldModel {
            key: self.key@,
            label: self.label@,
            kind: self.kind@,
            default: text::opt(self.default),
            help: text::opt(self.help),
        }
    }
}

/// What a protocol adapter can do, and the fields it asks for.
#[derive(Debug)]
pub struct Capabilities {
    pub id: String,
    pub display_name: String,
    pub discovery: DiscoveryKind,
    pub browse: BrowseKind,
    pub connection_fields: Vec<FieldSpec>,
    pub addressing_fields: Vec<FieldSpec>,
    pub default_port: u16,
}

/// What [`Capabilities`] stand for.
pub struct CapsModel {
    pub id: Seq<char>,
    pub display_name: Seq<char>,
    pub discovery: DiscoveryKind,
    pub browse: BrowseKind,
    pub connection_fields: Seq<FieldModel>,
    pub addressing_fields: Seq<FieldModel>,
    pub default_port: u16,
}

impl View for Capabilities {
    type V = CapsModel;

    open spec fn view(&self) -> CapsModel {
        CapsModel {
            id: self.id@,
            display_name: self.display_name@,
            discovery: self.discovery,
            browse: self.browse,
            connection_fields: text::views(self.connection_fields@),
            addressing_fields: text::views(self.addressing_fields@),
            default_port: self.default_port,
        }
    }
}

/// Where the republisher stands between starting and stopping.
#[derive(Debug)]
pub enum RepublisherLifecycle {
    Starting,
    Running,
    Stopping,
    Stopped,
    Failed(String),
}

/// What a [`RepublisherLifecycle`] stands for.
pub enum LifecycleModel {
    Starting,
    Running,
    Stopping,
    Stopped,
    Failed(Seq<char>),
}

impl View for RepublisherLifecycle {
    type V = LifecycleModel;

    open spec fn view(&self) -> LifecycleModel {
        match self {
            RepublisherLifecycle::Starting => LifecycleModel::Starting,
            RepublisherLifecycle::Running => LifecycleModel::Running,
            RepublisherLifecycle::Stopping => LifecycleModel::Stopping,
            RepublisherLifecycle::Stopped => LifecycleModel::Stopped,
            RepublisherLifecycle::Failed(error) => LifecycleModel::Failed(error@),
        }
    }
}

/// How grave a log line is.
#[derive(Debug, Clone, Copy, PartialEq, Eq, Structural)]
pub enum LogLevel {
    Info,
    Warning,
    Error,
}

} // verus!
