use crate::github_client::ComponentKind;
use crate::types::UpdateInfo;
use crate::version_choose::{is_newer, newer_than};
use vstd::prelude::*;

verus! {

/// What was found where the record of a component is kept.
#[derive(Debug, Clone, PartialEq, Eq)]
pub enum CacheRead {
    /// Nothing is kept there.
    Missing,
    /// What is kept there cannot be read as a record.
    Corrupt,
    /// The record that is kept there.
    Record(UpdateInfo),
}

/// The records of the artifacts that count as installed, one per component at
/// most. A record is only ever written when an install has succeeded, and it
/// then replaces the one before it; none is ever removed.
#[derive(Debug, Clone, PartialEq, Eq)]
pub struct UpdateCache {
    pub scheme: Option<UpdateInfo>,
    pub dictionary: Option<UpdateInfo>,
    pub model: Option<UpdateInfo>,
    pub program: Option<UpdateInfo>,
}

/// The record that a read gives: a record that cannot be read counts as
/// absent, so that the component is installed anew.
pub open spec fn record_read(read: CacheRead) -> Option<UpdateInfo> {
    match read {
        CacheRead::Record(record) => Some(record),
        _ => None,
    }
}

/// Whether a component has to be updated to a remote release: there is no
/// record of it, or the artifact that the record names is missing from
/// storage, or the tag of the release stands for a strictly greater version
/// than the tag of the record. Nothing else counts: a different date alone
/// never does.
pub open spec fn stale(local: Option<UpdateInfo>, artifact_present: bool, remote_tag: Seq<char>)
    -> bool {
    match local {
        None => true,
        Some(record) => !artifact_present || newer_than(remote_tag, record.tag@),
    }
}

/// The name of the file in which the record of a component is kept.
pub open spec fn record_file_name(kind: ComponentKind) -> Seq<char> {
    match kind {
        ComponentKind::Scheme => "schema_info.json"@,
        ComponentKind::Dictionary => "dict_info.json"@,
        ComponentKind::Model => "model_info.json"@,
        ComponentKind::SelfProgram => "self_info.json"@,
    }
}

impl UpdateCache {
    /// The record of a component, if there is one.
    pub open spec fn record(self, kind: ComponentKind) -> Option<UpdateInfo> {
        match kind {
            ComponentKind::Scheme => self.scheme,
            ComponentKind::Dictionary => self.dictionary,
            ComponentKind::Model => self.model,
            ComponentKind::SelfProgram => self.program,
        }
    }

    /// The cache with the record of one component replaced.
    pub open spec fn with_record(self, kind: ComponentKind, record: Option<UpdateInfo>)
        -> UpdateCache {
        match kind {
            ComponentKind::Scheme => UpdateCache { scheme: record, ..self },
            ComponentKind::Dictionary => UpdateCache { dictionary: record, ..self },
            ComponentKind::Model => UpdateCache { model: record, ..self },
            ComponentKind::SelfProgram => UpdateCache { program: record, ..self },
        }
    }

    /// A cache without any record.
    pub fn new() -> (cache: UpdateCache)
        ensures
            forall|kind: ComponentKind| cache.record(kind) is None,
    {
        UpdateCache { scheme: None, dictionary: None, model: None, program: None }
    }

    fn slot(&self, kind: ComponentKind) -> (slot: &Option<UpdateInfo>)
        ensures
            *slot == self.record(kind),
    {
        match kind {
            ComponentKind::Scheme => &self.scheme,
            ComponentKind::Dictionary => &self.dictionary,
            ComponentKind::Model => &self.model,
            ComponentKind::SelfProgram => &self.program,
        }
    }

    fn put(&mut self, kind: ComponentKind, record: Option<UpdateInfo>)
        ensures
            *final(self) == old(self).with_record(kind, record),
    {
        match kind {
            ComponentKind::Scheme => {
                self.scheme = record;
            },
            ComponentKind::Dictionary => {
                self.dictionary = record;
            },
            ComponentKind::Model => {
                self.model = record;
            },
            ComponentKind::SelfProgram => {
                self.program = record;
            },
        }
    }

    /// The record of a component, if there is one.
    pub fn load(&self, kind: ComponentKind) -> (record: Option<UpdateInfo>)
        ensures
            record == self.record(kind),
    {
        match self.slot(kind) {
            Some(record) => Some(record.duplicate()),
            None => None,
        }
    }

    /// Takes over what was read from where the record of a component is kept.
    pub fn restore(&mut self, kind: ComponentKind, read: CacheRead)
        ensures
            *final(self) == old(self).with_record(kind, record_read(read)),
    {
        let record: Option<UpdateInfo> = match read {
            CacheRead::Record(record) => Some(record),
            _ => None,
        };
        self.put(kind, record);
    }

    /// Makes `record` the record of the component, in place of the one before.
    pub fn commit(&mut self, record: UpdateInfo, kind: ComponentKind)
        ensures
            *final(self) == old(self).with_record(kind, Some(record)),
    {
        self.put(kind, Some(record));
    }

    /// The name of the artifact that the record of a component names: the
    /// file whose presence in storage has to be looked up before the
    /// component is judged. `None` where there is no record.
    pub fn cached_artifact(&self, kind: ComponentKind) -> (name: Option<String>)
        ensures
            name == match self.record(kind) {
                Some(record) => Some(record.file_name),
                None => None,
            },
    {
        match self.slot(kind) {
            Some(record) => Some(record.file_name.clone()),
            None => None,
        }
    }

    /// Whether the component has to be updated to the remote release that
    /// `remote` describes. `artifact_present` says whether the artifact that
    /// the record names is in storage.
    pub fn should_update(&self, remote: &UpdateInfo, kind: ComponentKind, artifact_present: bool)
        -> (update: bool)
        ensures
            update == stale(self.record(kind), artifact_present, remote.tag@),
            self.record(kind) is None ==> update,
            self.record(kind) is Some && !artifact_present ==> update,
            self.record(kind) is Some && artifact_present && !newer_than(
                remote.tag@,
                self.record(kind)->0.tag@,
            ) ==> !update,
    {
        match self.slot(kind) {
            None => true,
            Some(record) => !artifact_present || is_newer(remote.tag.as_str(), record.tag.as_str()),
        }
    }

    /// The name of the file in which the record of a component is kept.
    pub fn file_name(kind: ComponentKind) -> (name: String)
        ensures
            name@ == record_file_name(kind),
    {
        match kind {
            ComponentKind::Scheme => String::from_str("schema_info.json"),
            ComponentKind::Dictionary => String::from_str("dict_info.json"),
            ComponentKind::Model => String::from_str("model_info.json"),
            ComponentKind::SelfProgram => String::from_str("self_info.json"),
        }
    }
}

/// Writing a record and then reading the record of that component gives the
/// record that was written, whatever the cache held, and leaves the records
/// of the other components as they were.
pub proof fn written_record_is_read(
    cache: UpdateCache,
    record: UpdateInfo,
    kind: ComponentKind,
    other: ComponentKind,
)
    ensures
        cache.with_record(kind, Some(record)).record(kind) == Some(record),
        other != kind ==> cache.with_record(kind, Some(record)).record(other) == cache.record(
            other,
        ),
{
}

/// A remote release whose tag stands for a version equal to or lower than
/// that of the record gives no update while the recorded artifact is in
/// storage, whatever the dates and the other fields of the two say.
pub proof fn same_or_older_tag_is_no_update(
    local: UpdateInfo,
    remote: UpdateInfo,
)
    requires
        !newer_than(remote.tag@, local.tag@),
    ensures
        !stale(Some(local), true, remote.tag@),
{
}

/// A record whose artifact is missing from storage always gives an update.
pub proof fn missing_artifact_is_an_update(local: Option<UpdateInfo>, remote_tag: Seq<char>)
    ensures
        stale(local, false, remote_tag),
{
}

} // verus!
