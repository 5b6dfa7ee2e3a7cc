//! What holds of the operations on a registry file, whatever they are given.

use crate::device::{lemma_key_is_injective, DeviceView};
use crate::error::Error;
use crate::libra::LibraView;
use crate::registry::{
    added, created, devices, distinct, edited, holds, keys, mapping, position, read_all, removed,
    valid, FileView,
};
use crate::sequence::{
    first_index_of, lemma_filter_drops_one, lemma_first_index_is, lemma_first_index_none,
    lemma_first_index_of,
};
use vstd::prelude::*;

verus! {

/// Adding an entry under an identity that a valid registry does not hold
/// leaves the identities distinct.
pub proof fn lemma_added_is_valid(entries: Seq<LibraView>, entry: LibraView)
    requires
        distinct(entries),
        !holds(entries, entry.device),
    ensures
        distinct(entries.push(entry)),
{
    let before = devices(entries);
    let after = devices(entries.push(entry));
    assert forall|i: int, j: int|
        0 <= i < after.len() && 0 <= j < after.len() && i != j implies after[i] != after[j] by {
        if i < before.len() {
            assert(before.contains(before[i]));
        }
        if j < before.len() {
            assert(before.contains(before[j]));
        }
    }
}

/// Replacing an entry by one of the same identity leaves the identities as
/// they were.
pub proof fn lemma_edited_is_valid(entries: Seq<LibraView>, entry: LibraView)
    requires
        distinct(entries),
        holds(entries, entry.device),
    ensures
        devices(entries.update(position(entries, entry.device), entry)) == devices(entries),
        distinct(entries.update(position(entries, entry.device), entry)),
{
    lemma_first_index_of(devices(entries), entry.device);
    let at = position(entries, entry.device);
    assert(devices(entries.update(at, entry)) =~= devices(entries));
}

/// Removing an entry from a valid registry leaves the identities distinct.
pub proof fn lemma_removed_is_valid(entries: Seq<LibraView>, device: DeviceView)
    requires
        distinct(entries),
        holds(entries, device),
    ensures
        distinct(entries.remove(position(entries, device))),
{
    lemma_first_index_of(devices(entries), device);
    let at = position(entries, device);
    let before = devices(entries);
    let after = devices(entries.remove(at));
    assert forall|i: int, j: int|
        0 <= i < after.len() && 0 <= j < after.len() && i != j implies after[i] != after[j] by {
        let a = if i < at { i } else { i + 1 };
        let b = if j < at { j } else { j + 1 };
        assert(after[i] == before[a]);
        assert(after[j] == before[b]);
    }
}

/// Entries with distinct identities have distinct keys, so the registry is a
/// mapping from keys to entries.
pub proof fn lemma_keys_are_distinct(entries: Seq<LibraView>)
    requires
        distinct(entries),
    ensures
        keys(entries).no_duplicates(),
{
    let ids = devices(entries);
    let names = keys(entries);
    assert forall|i: int, j: int|
        0 <= i < names.len() && 0 <= j < names.len() && i != j implies names[i] != names[j] by {
        if names[i] == names[j] {
            lemma_key_is_injective(ids[i], ids[j]);
        }
    }
}

/// Round trip: a registry created from entries with distinct identities, at
/// a path where there was no file, reads back as exactly those entries.
pub proof fn lemma_read_after_create(entries: Seq<LibraView>)
    requires
        distinct(entries),
    ensures
        created(None, entries).0 is Ok,
        read_all(created(None, entries).1) == Ok::<Seq<LibraView>, Error>(entries),
        read_all(created(None, entries).1).unwrap().to_set() == entries.to_set(),
{
}

/// Uniqueness: adding under an identity that is present fails and changes
/// nothing, and whatever is added, a valid file stays valid: no identity
/// ever occurs twice.
pub proof fn lemma_add_keeps_identities_unique(file: FileView, entry: LibraView)
    requires
        valid(file),
    ensures
        valid(added(file, entry).1),
        file matches Some(entries) && holds(entries, entry.device) ==> added(file, entry) == (
            Err::<(), Error>(Error::LibraAlreadyExists),
            file,
        ),
        added(file, entry).0 is Ok ==> holds(added(file, entry).1.unwrap(), entry.device),
{
    if let Some(entries) = file {
        if !holds(entries, entry.device) {
            lemma_added_is_valid(entries, entry);
            let after = entries.push(entry);
            assert(devices(after)[entries.len() as int] == entry.device);
        }
    }
}

/// Editing changes the record of exactly one entry: the one with the
/// identity given. The number of entries, their order, their identities and
/// every other entry stay as they were.
pub proof fn lemma_edit_changes_one_record(entries: Seq<LibraView>, entry: LibraView)
    requires
        distinct(entries),
        holds(entries, entry.device),
    ensures
        edited(Some(entries), entry).0 is Ok,
        ({
            let after = edited(Some(entries), entry).1.unwrap();
            &&& after.len() == entries.len()
            &&& devices(after) == devices(entries)
            &&& forall|i: int|
                0 <= i < entries.len() && entries[i].device != entry.device ==> after[i]
                    == entries[i]
            &&& forall|i: int|
                0 <= i < entries.len() && entries[i].device == entry.device ==> after[i] == entry
        }),
{
    let ids = devices(entries);
    lemma_first_index_of(ids, entry.device);
    let at = position(entries, entry.device);
    assert forall|i: int| 0 <= i < entries.len() && entries[i].device == entry.device implies i
        == at by {
        assert(ids[i] == ids[at]);
    }
}

/// Removing deletes exactly the entry with the identity given: no entry has
/// that identity afterwards, and every other entry is still there, in the
/// same order.
pub proof fn lemma_remove_deletes_one(entries: Seq<LibraView>, device: DeviceView)
    requires
        distinct(entries),
        holds(entries, device),
    ensures
        removed(Some(entries), device).0 is Ok,
        ({
            let after = removed(Some(entries), device).1.unwrap();
            &&& after.len() == entries.len() - 1
            &&& !holds(after, device)
            &&& after == entries.filter(|entry: LibraView| entry.device != device)
            &&& forall|entry: LibraView|
                after.contains(entry) <==> entries.contains(entry) && entry.device != device
        }),
{
    let ids = devices(entries);
    lemma_first_index_of(ids, device);
    let at = position(entries, device);
    let after = entries.remove(at);
    let others = |entry: LibraView| entry.device != device;
    assert forall|i: int| 0 <= i < entries.len() && i != at implies entries[i].device
        != device by {
        assert(ids[i] != ids[at]);
    }
    assert forall|entry: LibraView|
        after.contains(entry) <==> entries.contains(entry) && entry.device
            != device by {
        if entries.contains(entry) && entry.device != device {
            let k = choose|k: int| 0 <= k < entries.len() && entries[k] == entry;
            let i = if k < at { k } else { k - 1 };
            assert(after[i] == entries[k]);
        }
    }
    lemma_filter_drops_one(entries, at, others);
}

/// Removing an identity that is absent fails with `LibraNotFound` and leaves
/// the file unchanged, and so does editing one.
pub proof fn lemma_absent_identity_changes_nothing(
    entries: Seq<LibraView>,
    entry: LibraView,
    device: DeviceView,
)
    ensures
        !holds(entries, device) ==> removed(Some(entries), device) == (
            Err::<(), Error>(Error::LibraNotFound),
            Some(entries),
        ),
        !holds(entries, entry.device) ==> edited(Some(entries), entry) == (
            Err::<(), Error>(Error::LibraNotFound),
            Some(entries),
        ),
{
}

/// Existence: where there is no file, reading, adding, editing and removing
/// fail with `FileNotFound`; where there is one, creating fails with
/// `FileExists`. The path stays as it was.
pub proof fn lemma_existence_preconditions(
    present: Seq<LibraView>,
    entries: Seq<LibraView>,
    entry: LibraView,
    device: DeviceView,
)
    ensures
        read_all(None) == Err::<Seq<LibraView>, Error>(Error::FileNotFound),
        added(None, entry) == (Err::<(), Error>(Error::FileNotFound), None::<Seq<LibraView>>),
        edited(None, entry) == (Err::<(), Error>(Error::FileNotFound), None::<Seq<LibraView>>),
        removed(None, device) == (Err::<(), Error>(Error::FileNotFound), None::<Seq<LibraView>>),
        created(Some(present), entries) == (Err::<(), Error>(Error::FileExists), Some(present)),
{
}

/// Whatever an operation is given, a valid file is valid afterwards, and a
/// failed operation leaves the file as it was.
pub proof fn lemma_operations_keep_validity(
    file: FileView,
    entries: Seq<LibraView>,
    entry: LibraView,
    device: DeviceView,
)
    requires
        valid(file),
    ensures
        valid(created(file, entries).1),
        valid(added(file, entry).1),
        valid(edited(file, entry).1),
        valid(removed(file, device).1),
        created(file, entries).0 is Err ==> created(file, entries).1 == file,
        added(file, entry).0 is Err ==> added(file, entry).1 == file,
        edited(file, entry).0 is Err ==> edited(file, entry).1 == file,
        removed(file, device).0 is Err ==> removed(file, device).1 == file,
{
    lemma_add_keeps_identities_unique(file, entry);
    if let Some(present) = file {
        if holds(present, entry.device) {
            lemma_edited_is_valid(present, entry);
        }
        if holds(present, device) {
            lemma_removed_is_valid(present, device);
        }
    }
}

/// Editing twice with the same entry is editing once.
pub proof fn lemma_edit_is_idempotent(file: FileView, entry: LibraView)
    ensures
        edited(edited(file, entry).1, entry) == edited(file, entry),
{
    if let Some(entries) = file {
        if holds(entries, entry.device) {
            let ids = devices(entries);
            lemma_first_index_of(ids, entry.device);
            let at = position(entries, entry.device);
            let after = entries.update(at, entry);
            assert(devices(after) =~= ids);
        }
    }
}

/// Removing an entry that was just added gives back the registry as it was.
pub proof fn lemma_remove_after_add(entries: Seq<LibraView>, entry: LibraView)
    requires
        !holds(entries, entry.device),
    ensures
        added(Some(entries), entry).0 is Ok,
        removed(added(Some(entries), entry).1, entry.device) == (
            Ok::<(), Error>(()),
            Some(entries),
        ),
{
    let after = entries.push(entry);
    let ids = devices(after);
    assert(ids =~= devices(entries).push(entry.device));
    lemma_first_index_is(ids, entry.device, entries.len() as int);
}

/// The place of an identity among the entries is the place of its key among
/// the keys.
pub proof fn lemma_position_of_key(entries: Seq<LibraView>, device: DeviceView)
    ensures
        first_index_of(keys(entries), device.key()) == position(entries, device),
        keys(entries).contains(device.key()) == holds(entries, device),
{
    let ids = devices(entries);
    let names = keys(entries);
    let at = position(entries, device);
    lemma_first_index_of(ids, device);
    assert forall|j: int| 0 <= j < at implies names[j] != device.key() by {
        if names[j] == device.key() {
            lemma_key_is_injective(ids[j], device);
        }
    }
    if at < entries.len() {
        lemma_first_index_is(names, device.key(), at);
    } else {
        lemma_first_index_none(names, device.key());
    }
}

/// As a mapping, adding an entry puts it under its key and leaves every
/// other key as it was.
pub proof fn lemma_mapping_after_add(entries: Seq<LibraView>, entry: LibraView)
    requires
        !holds(entries, entry.device),
    ensures
        mapping(entries.push(entry)) == mapping(entries).insert(entry.device.key(), entry),
{
    let key = entry.device.key();
    let after = entries.push(entry);
    let names = keys(entries);
    let names_after = keys(after);
    lemma_position_of_key(entries, entry.device);
    assert(names_after =~= names.push(key));
    assert forall|name: Seq<char>| #[trigger]
        names_after.contains(name) == (names.contains(name) || name == key) by {
        if names.contains(name) {
            let i = choose|i: int| 0 <= i < names.len() && names[i] == name;
            assert(names_after[i] == name);
        }
        if name == key {
            assert(names_after[names.len() as int] == name);
        }
    }
    assert forall|name: Seq<char>| names_after.contains(name) implies #[trigger] mapping(
        after,
    )[name] == mapping(entries).insert(key, entry)[name] by {
        lemma_first_index_of(names, name);
        if name == key {
            lemma_first_index_is(names_after, name, names.len() as int);
        } else {
            let at = first_index_of(names, name);
            lemma_first_index_is(names_after, name, at);
        }
    }
}

/// As a mapping, editing puts the entry under its key and leaves every
/// other key as it was.
pub proof fn lemma_mapping_after_edit(entries: Seq<LibraView>, entry: LibraView)
    requires
        distinct(entries),
        holds(entries, entry.device),
    ensures
        mapping(entries.update(position(entries, entry.device), entry)) == mapping(
            entries,
        ).insert(entry.device.key(), entry),
{
    let key = entry.device.key();
    let at = position(entries, entry.device);
    let after = entries.update(at, entry);
    let names = keys(entries);
    lemma_first_index_of(devices(entries), entry.device);
    lemma_position_of_key(entries, entry.device);
    assert(keys(after) =~= names);
    assert forall|name: Seq<char>| names.contains(name) implies #[trigger] mapping(after)[name]
        == mapping(entries).insert(key, entry)[name] by {
        lemma_first_index_of(names, name);
    }
}

/// As a mapping, removing takes the key of the identity away and leaves
/// every other key as it was.
pub proof fn lemma_mapping_after_remove(entries: Seq<LibraView>, device: DeviceView)
    requires
        distinct(entries),
        holds(entries, device),
    ensures
        mapping(entries.remove(position(entries, device))) == mapping(entries).remove(
            device.key(),
        ),
{
    let key = device.key();
    let at = position(entries, device);
    let after = entries.remove(at);
    let names = keys(entries);
    let names_after = keys(after);
    lemma_first_index_of(devices(entries), device);
    lemma_keys_are_distinct(entries);
    assert(names[at] == key);
    assert forall|name: Seq<char>| #[trigger]
        names_after.contains(name) == (names.contains(name) && name != key) by {
        if names_after.contains(name) {
            let j = choose|j: int| 0 <= j < names_after.len() && names_after[j] == name;
            let i = if j < at { j } else { j + 1 };
            assert(names[i] == name);
        }
        if names.contains(name) && name != key {
            let i = choose|i: int| 0 <= i < names.len() && names[i] == name;
            let j = if i < at { i } else { i - 1 };
            assert(names_after[j] == name);
        }
    }
    assert forall|name: Seq<char>| names_after.contains(name) implies #[trigger] mapping(
        after,
    )[name] == mapping(entries).remove(key)[name] by {
        lemma_first_index_of(names, name);
        let i = first_index_of(names, name);
        let j = if i < at { i } else { i - 1 };
        assert forall|k: int| 0 <= k < j implies names_after[k] != name by {
            let before = if k < at { k } else { k + 1 };
            assert(names_after[k] == names[before]);
        }
        lemma_first_index_is(names_after, name, j);
    }
}

/// A registry with distinct identities is a mapping that holds every entry
/// under its own key: there are as many keys as entries, and none is lost.
pub proof fn lemma_mapping_holds_every_entry(entries: Seq<LibraView>)
    requires
        distinct(entries),
    ensures
        mapping(entries).dom() == keys(entries).to_set(),
        mapping(entries).dom().finite(),
        mapping(entries).dom().len() == entries.len(),
        forall|i: int|
            0 <= i < entries.len() ==> mapping(entries)[#[trigger] entries[i].device.key()]
                == entries[i],
{
    let names = keys(entries);
    lemma_keys_are_distinct(entries);
    names.unique_seq_to_set();
    vstd::seq_lib::seq_to_set_is_finite(names);
    assert forall|i: int| 0 <= i < entries.len() implies mapping(
        entries,
    )[#[trigger] entries[i].device.key()] == entries[i] by {
        lemma_first_index_of(names, names[i]);
    }
}

/// The order of the document does not matter: two registries with distinct
/// identities that hold the same entries are the same mapping.
pub proof fn lemma_mapping_ignores_order(first: Seq<LibraView>, second: Seq<LibraView>)
    requires
        distinct(first),
        distinct(second),
        first.to_set() == second.to_set(),
    ensures
        mapping(first) == mapping(second),
{
    assert forall|name: Seq<char>| #[trigger]
        keys(first).contains(name) == keys(second).contains(name) by {
        if keys(first).contains(name) {
            lemma_same_entry_under_key(first, second, name);
        }
        if keys(second).contains(name) {
            lemma_same_entry_under_key(second, first, name);
        }
    }
    assert forall|name: Seq<char>| keys(first).contains(name) implies #[trigger] mapping(
        first,
    )[name] == mapping(second)[name] by {
        lemma_same_entry_under_key(first, second, name);
    }
}

/// An entry that one registry holds under a key is held under that key by
/// every registry with the same entries.
proof fn lemma_same_entry_under_key(
    first: Seq<LibraView>,
    second: Seq<LibraView>,
    name: Seq<char>,
)
    requires
        distinct(second),
        first.to_set() == second.to_set(),
        keys(first).contains(name),
    ensures
        keys(second).contains(name),
        mapping(second)[name] == mapping(first)[name],
{
    lemma_first_index_of(keys(first), name);
    let i = first_index_of(keys(first), name);
    let entry = first[i];
    assert(first.to_set().contains(entry));
    let j = choose|j: int| 0 <= j < second.len() && second[j] == entry;
    assert(keys(second)[j] == name);
    lemma_mapping_holds_every_entry(second);
}

} // verus!
