//! The persisted record of tool paths and its merge.

use vstd::prelude::*;

verus! {

/// The persisted record of external tool paths. Every field is optional.
#[derive(Clone, Debug, PartialEq, Eq)]
pub struct ToolConfig {
    pub compiler_path: Option<String>,
    pub vm_path: Option<String>,
    pub sanusb_path: Option<String>,
    pub infra_path: Option<String>,
}

/// What a [`ToolConfig`] holds, as plain text.
pub struct ToolConfigView {
    pub compiler_path: Option<Seq<char>>,
    pub vm_path: Option<Seq<char>>,
    pub sanusb_path: Option<Seq<char>>,
    pub infra_path: Option<Seq<char>>,
}

/// The text of an optional string.
pub open spec fn text_of(field: Option<String>) -> Option<Seq<char>> {
    match field {
        Some(s) => Some(s@),
        None => None,
    }
}

impl View for ToolConfig {
    type V = ToolConfigView;

    open spec fn view(&self) -> ToolConfigView {
        ToolConfigView {
            compiler_path: text_of(self.compiler_path),
            vm_path: text_of(self.vm_path),
            sanusb_path: text_of(self.sanusb_path),
            infra_path: text_of(self.infra_path),
        }
    }
}

/// The record with every field absent.
pub open spec fn empty_config() -> ToolConfigView {
    ToolConfigView { compiler_path: None, vm_path: None, sanusb_path: None, infra_path: None }
}

/// One field after a merge: the update's value where it has one, else the
/// existing value.
pub open spec fn overridden(existing: Option<Seq<char>>, update: Option<Seq<char>>) -> Option<
    Seq<char>,
> {
    if update.is_some() {
        update
    } else {
        existing
    }
}

/// The field-wise merge of `updates` into `existing`.
pub open spec fn merged(existing: ToolConfigView, updates: ToolConfigView) -> ToolConfigView {
    ToolConfigView {
        compiler_path: overridden(existing.compiler_path, updates.compiler_path),
        vm_path: overridden(existing.vm_path, updates.vm_path),
        sanusb_path: overridden(existing.sanusb_path, updates.sanusb_path),
        infra_path: overridden(existing.infra_path, updates.infra_path),
    }
}

fn copy_field(field: &Option<String>) -> (copy: Option<String>)
    ensures
        copy == *field,
{
    match field {
        Some(s) => Some(s.clone()),
        None => None,
    }
}

fn override_field(existing: &Option<String>, update: &Option<String>) -> (field: Option<String>)
    ensures
        text_of(field) == overridden(text_of(*existing), text_of(*update)),
{
    match update {
        Some(s) => Some(s.clone()),
        None => copy_field(existing),
    }
}

impl ToolConfig {
    /// The record with every field absent.
    pub fn empty() -> (config: ToolConfig)
        ensures
            config@ == empty_config(),
    {
        ToolConfig { compiler_path: None, vm_path: None, sanusb_path: None, infra_path: None }
    }

    /// Merges `updates` into `existing`: each field takes the update's value
    /// if the update supplies one and keeps the existing value otherwise.
    pub fn merge(existing: &ToolConfig, updates: &ToolConfig) -> (config: ToolConfig)
        ensures
            config@ == merged(existing@, updates@),
    {
        ToolConfig {
            compiler_path: override_field(&existing.compiler_path, &updates.compiler_path),
            vm_path: override_field(&existing.vm_path, &updates.vm_path),
            sanusb_path: override_field(&existing.sanusb_path, &updates.sanusb_path),
            infra_path: override_field(&existing.infra_path, &updates.infra_path),
        }
    }
}

/// Merging an update with every field absent changes nothing.
pub proof fn lemma_merge_nothing(existing: ToolConfigView)
    ensures
        merged(existing, empty_config()) == existing,
{
}

/// Merging is field-independent: each field of the result is decided by that
/// field of the two records alone. A field that the update leaves absent keeps
/// its existing value whatever the update's other fields hold, and a field
/// that the update supplies takes the supplied value.
pub proof fn lemma_merge_field_independent(existing: ToolConfigView, updates: ToolConfigView)
    ensures
        updates.compiler_path.is_none() ==> merged(existing, updates).compiler_path
            == existing.compiler_path,
        updates.vm_path.is_none() ==> merged(existing, updates).vm_path == existing.vm_path,
        updates.sanusb_path.is_none() ==> merged(existing, updates).sanusb_path
            == existing.sanusb_path,
        updates.infra_path.is_none() ==> merged(existing, updates).infra_path
            == existing.infra_path,
        updates.compiler_path.is_some() ==> merged(existing, updates).compiler_path
            == updates.compiler_path,
        updates.vm_path.is_some() ==> merged(existing, updates).vm_path == updates.vm_path,
        updates.sanusb_path.is_some() ==> merged(existing, updates).sanusb_path
            == updates.sanusb_path,
        updates.infra_path.is_some() ==> merged(existing, updates).infra_path
            == updates.infra_path,
{
}

/// Two updates that agree on a field give merges that agree on it, however
/// the updates differ elsewhere.
pub proof fn lemma_merge_ignores_other_fields(
    existing: ToolConfigView,
    first: ToolConfigView,
    second: ToolConfigView,
)
    ensures
        first.compiler_path == second.compiler_path ==> merged(existing, first).compiler_path
            == merged(existing, second).compiler_path,
        first.vm_path == second.vm_path ==> merged(existing, first).vm_path == merged(
            existing,
            second,
        ).vm_path,
        first.sanusb_path == second.sanusb_path ==> merged(existing, first).sanusb_path == merged(
            existing,
            second,
        ).sanusb_path,
        first.infra_path == second.infra_path ==> merged(existing, first).infra_path == merged(
            existing,
            second,
        ).infra_path,
{
}

} // verus!
