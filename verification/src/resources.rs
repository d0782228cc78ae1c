//! The declared resources: an application instance, its status, and the
//! config map that can carry the same payload.

use vstd::prelude::*;
use crate::text::{index_of, lemma_index_of_absent, lemma_index_of_found, str_eq};

verus! {

/// A point in time: whole seconds since the Unix epoch and the nanoseconds
/// within that second. Points compare by seconds first.
#[derive(Clone, Copy, Debug, PartialEq, Eq, PartialOrd, Ord, Structural)]
pub struct Time {
    pub seconds: i64,
    pub nanos: u32,
}

impl Time {
    /// True when `self` is strictly earlier than `other`.
    pub open spec fn is_before(self, other: Time) -> bool {
        self.seconds < other.seconds || (self.seconds == other.seconds && self.nanos
            < other.nanos)
    }

    /// The reading of the system clock.
    ///
    /// Trusted: calls `chrono::Utc::now` and copies its seconds and
    /// nanoseconds. Nothing is promised of a clock's reading.
    #[verifier::external_body]
    pub(crate) fn now() -> Time {
        let t = k8s_openapi::chrono::Utc::now();
        Time { seconds: t.timestamp(), nanos: t.timestamp_subsec_nanos() }
    }
}

/// The part of an object's metadata that the operator reads.
#[derive(Clone, Debug, Default)]
pub struct ObjectMeta {
    pub name: Option<String>,
    pub generate_name: Option<String>,
    pub namespace: Option<String>,
    pub uid: Option<String>,
}

impl ObjectMeta {
    /// The name, else the name prefix, else nothing.
    pub open spec fn name_any_spec(&self) -> Seq<char> {
        match self.name {
            Some(n) => n@,
            None => match self.generate_name {
                Some(g) => g@,
                None => Seq::empty(),
            },
        }
    }

    /// The namespace, or the empty string where none is set.
    pub open spec fn namespace_any_spec(&self) -> Seq<char> {
        match self.namespace {
            Some(n) => n@,
            None => Seq::empty(),
        }
    }

    pub fn name_any(&self) -> (r: String)
        ensures
            r@ == self.name_any_spec(),
    {
        match &self.name {
            Some(n) => n.clone(),
            None => match &self.generate_name {
                Some(g) => g.clone(),
                None => String::new(),
            },
        }
    }

    pub fn namespace(&self) -> (r: Option<String>)
        ensures
            r.deep_view() == self.namespace.deep_view(),
    {
        match &self.namespace {
            Some(n) => Some(n.clone()),
            None => None,
        }
    }

    pub fn namespace_any(&self) -> (r: String)
        ensures
            r@ == self.namespace_any_spec(),
    {
        match &self.namespace {
            Some(n) => n.clone(),
            None => String::new(),
        }
    }

    pub fn uid(&self) -> (r: Option<String>)
        ensures
            r.deep_view() == self.uid.deep_view(),
    {
        match &self.uid {
            Some(n) => Some(n.clone()),
            None => None,
        }
    }
}

/// A reference to an object in the same namespace, by name.
#[derive(Clone, Debug, Default)]
pub struct LocalObjectReference {
    pub name: Option<String>,
}

/// The overlay that is handed to the package: a JSON object, kept as the text
/// it was written in and never looked into.
#[derive(Clone, Debug, Default)]
pub struct PackageSpec {
    pub arbitrary: String,
}

/// The package to install.
#[derive(Clone, Debug, Default)]
pub struct Package {
    pub image: String,
    pub api_version: String,
    pub spec: PackageSpec,
}

/// What the user declares of an application instance.
#[derive(Clone, Debug, Default)]
pub struct AppInstanceSpec {
    pub package: Package,
    pub image_pull_secrets: Option<Vec<LocalObjectReference>>,
    /// If true, the controller will not reconcile this application.
    pub pause: bool,
}

/// One observation of the instance's state, kept per `type_`.
#[derive(Clone, Debug)]
pub struct AppInstanceCondition {
    pub last_transition_time: Time,
    pub message: String,
    pub observed_generation: Option<i64>,
    pub reason: String,
    pub status: String,
    pub type_: String,
}

/// A condition as a mathematical value.
pub struct ConditionView {
    pub last_transition_time: Time,
    pub message: Seq<char>,
    pub observed_generation: Option<i64>,
    pub reason: Seq<char>,
    pub status: Seq<char>,
    pub type_: Seq<char>,
}

impl View for AppInstanceCondition {
    type V = ConditionView;

    open spec fn view(&self) -> ConditionView {
        ConditionView {
            last_transition_time: self.last_transition_time,
            message: self.message@,
            observed_generation: self.observed_generation,
            reason: self.reason@,
            status: self.status@,
            type_: self.type_@,
        }
    }
}

impl DeepView for AppInstanceCondition {
    type V = ConditionView;

    open spec fn deep_view(&self) -> ConditionView {
        self@
    }
}

/// What the operator reports of an instance: the logs of the last job, by
/// container name, and the conditions, one per type.
#[derive(Clone, Debug, Default)]
pub struct AppInstanceStatus {
    pub last_logs: Option<Vec<(String, String)>>,
    pub conditions: Vec<AppInstanceCondition>,
}

/// A status as a mathematical value.
pub struct StatusView {
    pub last_logs: Option<Seq<(Seq<char>, Seq<char>)>>,
    pub conditions: Seq<ConditionView>,
}

impl View for AppInstanceStatus {
    type V = StatusView;

    open spec fn view(&self) -> StatusView {
        StatusView {
            last_logs: self.last_logs.deep_view(),
            conditions: self.conditions.deep_view(),
        }
    }
}

/// An application instance as the cluster holds it.
#[derive(Clone, Debug, Default)]
pub struct AppInstance {
    pub metadata: ObjectMeta,
    pub spec: AppInstanceSpec,
    pub status: Option<AppInstanceStatus>,
}

impl AppInstance {
    pub fn name_any(&self) -> (r: String)
        ensures
            r@ == self.metadata.name_any_spec(),
    {
        self.metadata.name_any()
    }

    pub fn namespace(&self) -> (r: Option<String>)
        ensures
            r.deep_view() == self.metadata.namespace.deep_view(),
    {
        self.metadata.namespace()
    }

    /// The namespace, or the empty string where none is set.
    pub fn namespace_any(&self) -> (r: String)
        ensures
            r@ == self.metadata.namespace_any_spec(),
    {
        self.metadata.namespace_any()
    }
}

/// A config map, as far as the operator reads it: its metadata and its data,
/// one entry per key.
#[derive(Clone, Debug, Default)]
pub struct ConfigMap {
    pub metadata: ObjectMeta,
    pub data: Option<Vec<(String, String)>>,
}

/// The keys of `entries`, in order.
pub open spec fn entry_keys(entries: Seq<(Seq<char>, Seq<char>)>) -> Seq<Seq<char>> {
    entries.map_values(|e: (Seq<char>, Seq<char>)| e.0)
}

/// The text that `entries` hold under `key`: that of the first entry with the
/// key, if there is one.
pub open spec fn entry_value(entries: Seq<(Seq<char>, Seq<char>)>, key: Seq<char>) -> Option<
    Seq<char>,
> {
    match index_of(entry_keys(entries), key) {
        Some(i) => Some(entries[i].1),
        None => None,
    }
}

/// The text that `entries` hold under `key`, if any.
pub fn find_entry(entries: &Vec<(String, String)>, key: &str) -> (r: Option<String>)
    ensures
        r.deep_view() == entry_value(entries.deep_view(), key@),
{
    let ghost keys = entry_keys(entries.deep_view());
    let mut i: usize = 0;
    while i < entries.len()
        invariant
            i <= entries.len(),
            keys == entry_keys(entries.deep_view()),
            forall|j: int| 0 <= j < i ==> keys[j] != key@,
        decreases entries.len() - i,
    {
        assert(keys[i as int] == entries@[i as int].0@);
        if str_eq(entries[i].0.as_str(), key) {
            proof {
                lemma_index_of_found(keys, key@, i as int);
                assert(entries.deep_view()[i as int].1 == entries@[i as int].1@);
            }
            return Some(entries[i].1.clone());
        }
        i += 1;
    }
    proof {
        lemma_index_of_absent(keys, key@);
    }
    None
}

impl ConfigMap {
    /// The text held under `key`, where the config map has data and the key
    /// is among them.
    pub open spec fn value_spec(&self, key: Seq<char>) -> Option<Seq<char>> {
        match self.data {
            Some(entries) => entry_value(entries.deep_view(), key),
            None => None,
        }
    }

    /// The text held under `key`, if any.
    pub fn value_of(&self, key: &str) -> (r: Option<String>)
        ensures
            r.deep_view() == self.value_spec(key@),
    {
        match &self.data {
            Some(entries) => find_entry(entries, key),
            None => None,
        }
    }

    pub fn name_any(&self) -> (r: String)
        ensures
            r@ == self.metadata.name_any_spec(),
    {
        self.metadata.name_any()
    }

    pub fn namespace(&self) -> (r: Option<String>)
        ensures
            r.deep_view() == self.metadata.namespace.deep_view(),
    {
        self.metadata.namespace()
    }
}

/// The object that carries an instance's payload: the custom resource itself,
/// or a config map that holds it as text.
#[derive(Clone, Debug)]
pub enum AppInstanceLikeResources {
    AppInstance(AppInstance),
    ConfigMap(ConfigMap),
}

} // verus!
