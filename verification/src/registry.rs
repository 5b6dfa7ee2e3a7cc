//! The registry file: a collection of entries keyed by device identity, and
//! the operations that create, read and change it.
//!
//! A `ConfigFile` stands for what is at the path of a registry: nothing, or
//! the entries of the registry in the order of the document. Every operation
//! either succeeds and replaces the whole content, or fails and leaves the
//! file as it was.

use crate::device::{Device, DeviceView};
use crate::error::Error;
use crate::libra::{Libra, LibraView};
use crate::laws::{
    lemma_added_is_valid, lemma_edited_is_valid, lemma_keys_are_distinct, lemma_removed_is_valid,
};
use crate::sequence::{first_index_of, lemma_first_index_is, lemma_first_index_none};
use vstd::prelude::*;

verus! {

/// What is at the path of a registry, as a mathematical value: `None` where
/// there is no file, else the entries in document order.
pub type FileView = Option<Seq<LibraView>>;

/// The entries as mathematical values.
pub open spec fn views(entries: Seq<Libra>) -> Seq<LibraView> {
    entries.map_values(|libra: Libra| libra@)
}

/// The identities of the entries, in order.
pub open spec fn devices(entries: Seq<LibraView>) -> Seq<DeviceView> {
    entries.map_values(|entry: LibraView| entry.device)
}

/// Whether some entry has the identity `device`.
pub open spec fn holds(entries: Seq<LibraView>, device: DeviceView) -> bool {
    devices(entries).contains(device)
}

/// The place of the first entry with the identity `device`, or the number of
/// entries where none has it.
pub open spec fn position(entries: Seq<LibraView>, device: DeviceView) -> int {
    first_index_of(devices(entries), device)
}

/// Whether no two entries have the same identity.
pub open spec fn distinct(entries: Seq<LibraView>) -> bool {
    devices(entries).no_duplicates()
}

/// A file is valid when it is missing or its entries have distinct identities.
pub open spec fn valid(file: FileView) -> bool {
    file matches Some(entries) ==> distinct(entries)
}

/// Creating a registry with `entries` at a path in the state `file`: the
/// outcome, and the state of the path afterwards.
pub open spec fn created(file: FileView, entries: Seq<LibraView>) -> (Result<(), Error>, FileView) {
    if file is Some {
        (Err(Error::FileExists), file)
    } else if !distinct(entries) {
        (Err(Error::LibraAlreadyExists), file)
    } else {
        (Ok(()), Some(entries))
    }
}

/// Reading all entries of the registry at a path in the state `file`.
pub open spec fn read_all(file: FileView) -> Result<Seq<LibraView>, Error> {
    match file {
        Some(entries) => Ok(entries),
        None => Err(Error::FileNotFound),
    }
}

/// Adding `entry` to the registry at a path in the state `file`.
pub open spec fn added(file: FileView, entry: LibraView) -> (Result<(), Error>, FileView) {
    match file {
        None => (Err(Error::FileNotFound), file),
        Some(entries) => if holds(entries, entry.device) {
            (Err(Error::LibraAlreadyExists), file)
        } else {
            (Ok(()), Some(entries.push(entry)))
        },
    }
}

/// Replacing the record of the entry that has the identity of `entry`.
pub open spec fn edited(file: FileView, entry: LibraView) -> (Result<(), Error>, FileView) {
    match file {
        None => (Err(Error::FileNotFound), file),
        Some(entries) => if holds(entries, entry.device) {
            (Ok(()), Some(entries.update(position(entries, entry.device), entry)))
        } else {
            (Err(Error::LibraNotFound), file)
        },
    }
}

/// Removing the entry that has the identity `device`.
pub open spec fn removed(file: FileView, device: DeviceView) -> (Result<(), Error>, FileView) {
    match file {
        None => (Err(Error::FileNotFound), file),
        Some(entries) => if holds(entries, device) {
            (Ok(()), Some(entries.remove(position(entries, device))))
        } else {
            (Err(Error::LibraNotFound), file)
        },
    }
}

/// The keys of the entries: the canonical text of each identity, in order.
pub open spec fn keys(entries: Seq<LibraView>) -> Seq<Seq<char>> {
    entries.map_values(|entry: LibraView| entry.device.key())
}

/// The registry as a mapping from keys to entries: each key of an entry
/// leads to the first entry that has it.
pub open spec fn mapping(entries: Seq<LibraView>) -> Map<Seq<char>, LibraView> {
    Map::new(
        |key: Seq<char>| keys(entries).contains(key),
        |key: Seq<char>| entries[first_index_of(keys(entries), key)],
    )
}

/// The registry as a table: every entry under its key, in order.
pub open spec fn table_of(entries: Seq<LibraView>) -> Seq<(Seq<char>, LibraView)> {
    entries.map_values(|entry: LibraView| (entry.device.key(), entry))
}

/// The rows of a table as mathematical values.
pub open spec fn rows_view(rows: Seq<(String, Libra)>) -> Seq<(Seq<char>, LibraView)> {
    rows.map_values(|row: (String, Libra)| (row.0@, row.1@))
}

/// What is at the path of a registry. A file that is present holds entries
/// with distinct identities.
#[derive(Debug, PartialEq)]
pub struct ConfigFile {
    entries: Option<Vec<Libra>>,
}

impl View for ConfigFile {
    type V = FileView;

    closed spec fn view(&self) -> FileView {
        match self.entries {
            Some(list) => Some(views(list@)),
            None => None,
        }
    }
}

/// The place of the first entry of `list` with the identity `device`.
fn find(list: &Vec<Libra>, device: &Device) -> (found: Option<usize>)
    ensures
        match found {
            Some(at) => at == position(views(list@), device@) && at < list.len(),
            None => position(views(list@), device@) == list.len(),
        },
        found is Some <==> holds(views(list@), device@),
{
    let ghost ids = devices(views(list@));
    let mut i: usize = 0;
    while i < list.len()
        invariant
            ids == devices(views(list@)),
            0 <= i <= list.len(),
            forall|j: int| 0 <= j < i ==> ids[j] != device@,
        decreases list.len() - i,
    {
        if list[i].device.same(device) {
            proof {
                lemma_first_index_is(ids, device@, i as int);
            }
            return Some(i);
        }
        i += 1;
    }
    proof {
        lemma_first_index_none(ids, device@);
    }
    None
}

/// Whether no two entries of `list` have the same identity.
fn all_distinct(list: &Vec<Libra>) -> (yes: bool)
    ensures
        yes == distinct(views(list@)),
{
    let ghost ids = devices(views(list@));
    let mut i: usize = 0;
    while i < list.len()
        invariant
            ids == devices(views(list@)),
            0 <= i <= list.len(),
            forall|a: int, b: int| 0 <= a < b < i ==> ids[a] != ids[b],
        decreases list.len() - i,
    {
        let mut j: usize = 0;
        while j < i
            invariant
                ids == devices(views(list@)),
                0 <= j <= i < list.len(),
                forall|a: int| 0 <= a < j ==> ids[a] != ids[i as int],
            decreases i - j,
        {
            if list[j].device.same(&list[i].device) {
                assert(ids[j as int] == ids[i as int]);
                return false;
            }
            j += 1;
        }
        i += 1;
    }
    true
}

/// A copy of every entry of `list`, in order.
fn copy_all(list: &Vec<Libra>) -> (copies: Vec<Libra>)
    ensures
        views(copies@) == views(list@),
{
    let mut copies: Vec<Libra> = Vec::new();
    let mut i: usize = 0;
    while i < list.len()
        invariant
            0 <= i <= list.len(),
            copies.len() == i,
            forall|j: int| 0 <= j < i ==> copies@[j]@ == list@[j]@,
        decreases list.len() - i,
    {
        copies.push(list[i].clone());
        i += 1;
    }
    copies
}

impl ConfigFile {
    #[verifier::type_invariant]
    spec fn identities_are_distinct(self) -> bool {
        match self.entries {
            Some(list) => distinct(views(list@)),
            None => true,
        }
    }

    /// The state of a path at which there is no file.
    pub fn missing() -> (file: ConfigFile)
        ensures
            file@ is None,
    {
        ConfigFile { entries: None }
    }

    /// The state of a path at which there is a registry with `entries`. They
    /// are refused, as `LibraAlreadyExists`, where two of them have the same
    /// identity.
    pub fn present(entries: Vec<Libra>) -> (made: Result<ConfigFile, Error>)
        ensures
            match made {
                Ok(file) => distinct(views(entries@)) && file@ == Some(views(entries@)),
                Err(error) => !distinct(views(entries@)) && error == Error::LibraAlreadyExists,
            },
    {
        if all_distinct(&entries) {
            Ok(ConfigFile { entries: Some(entries) })
        } else {
            Err(Error::LibraAlreadyExists)
        }
    }

    /// Whether there is a file.
    pub fn is_present(&self) -> (yes: bool)
        ensures
            yes == (self@ is Some),
            valid(self@),
    {
        proof {
            use_type_invariant(self);
        }
        self.entries.is_some()
    }

    /// The registry as the table that the document holds: every entry under
    /// its key, in document order, and no key twice. `None` where there is no
    /// file.
    pub fn table(&self) -> (table: Option<Vec<(String, Libra)>>)
        ensures
            match table {
                Some(rows) => self@ matches Some(entries) && rows_view(rows@) == table_of(entries)
                    && keys(entries).no_duplicates(),
                None => self@ is None,
            },
    {
        proof {
            use_type_invariant(self);
        }
        match &self.entries {
            None => None,
            Some(list) => {
                let mut rows: Vec<(String, Libra)> = Vec::new();
                let mut i: usize = 0;
                while i < list.len()
                    invariant
                        0 <= i <= list.len(),
                        rows.len() == i,
                        forall|j: int|
                            0 <= j < i ==> rows@[j].0@ == list@[j]@.device.key() && rows@[j].1@
                                == list@[j]@,
                    decreases list.len() - i,
                {
                    rows.push((list[i].device.to_string(), list[i].clone()));
                    i += 1;
                }
                proof {
                    lemma_keys_are_distinct(views(list@));
                }
                Some(rows)
            },
        }
    }
}

impl Clone for ConfigFile {
    fn clone(&self) -> (copy: Self)
        ensures
            copy@ == self@,
    {
        proof {
            use_type_invariant(self);
        }
        match &self.entries {
            Some(list) => ConfigFile { entries: Some(copy_all(list)) },
            None => ConfigFile { entries: None },
        }
    }
}

impl Libra {
    /// Creates the registry file with the entries `libras`. Fails with
    /// `FileExists` where there is a file already, whatever it holds, and
    /// with `LibraAlreadyExists` where two of `libras` have the same
    /// identity: no entry is dropped in silence.
    pub fn new_config_file(libras: Vec<Libra>, file: &mut ConfigFile) -> (done: Result<(), Error>)
        ensures
            (done, final(file)@) == created(old(file)@, views(libras@)),
            valid(final(file)@),
    {
        proof {
            use_type_invariant(&*file);
        }
        if file.entries.is_some() {
            return Err(Error::FileExists);
        }
        if !all_distinct(&libras) {
            return Err(Error::LibraAlreadyExists);
        }
        file.entries = Some(libras);
        Ok(())
    }

    /// Reads all entries of the registry, in the order of the document. Fails
    /// with `FileNotFound` where there is no file.
    pub fn read_as_vec(file: &ConfigFile) -> (read: Result<Vec<Libra>, Error>)
        ensures
            match read {
                Ok(libras) => read_all(file@) == Ok::<Seq<LibraView>, Error>(views(libras@))
                    && distinct(views(libras@)),
                Err(error) => read_all(file@) == Err::<Seq<LibraView>, Error>(error),
            },
    {
        proof {
            use_type_invariant(file);
        }
        match &file.entries {
            Some(list) => Ok(copy_all(list)),
            None => Err(Error::FileNotFound),
        }
    }

    /// Adds this entry at the end of the registry. Fails with `FileNotFound`
    /// where there is no file, and with `LibraAlreadyExists` where an entry
    /// has the identity of this one already.
    pub fn add_to_config_file(self, file: &mut ConfigFile) -> (done: Result<(), Error>)
        ensures
            (done, final(file)@) == added(old(file)@, self@),
            valid(final(file)@),
    {
        proof {
            use_type_invariant(&*file);
        }
        let mut taken: Option<Vec<Libra>> = None;
        std::mem::swap(&mut file.entries, &mut taken);
        match taken {
            None => Err(Error::FileNotFound),
            Some(mut list) => {
                let found = find(&list, &self.device);
                let done = if found.is_some() {
                    Err(Error::LibraAlreadyExists)
                } else {
                    proof {
                        lemma_added_is_valid(views(list@), self@);
                    }
                    let ghost before = views(list@);
                    list.push(self);
                    assert(views(list@) =~= before.push(self@));
                    Ok(())
                };
                file.entries = Some(list);
                done
            },
        }
    }

    /// Replaces the record of the entry that has the identity of this one;
    /// every other entry stays as it is. Fails with `FileNotFound` where
    /// there is no file, and with `LibraNotFound` where no entry has this
    /// identity.
    pub fn edit_config_file(self, file: &mut ConfigFile) -> (done: Result<(), Error>)
        ensures
            (done, final(file)@) == edited(old(file)@, self@),
            valid(final(file)@),
    {
        proof {
            use_type_invariant(&*file);
        }
        let mut taken: Option<Vec<Libra>> = None;
        std::mem::swap(&mut file.entries, &mut taken);
        match taken {
            None => Err(Error::FileNotFound),
            Some(mut list) => {
                let done = match find(&list, &self.device) {
                    None => Err(Error::LibraNotFound),
                    Some(at) => {
                        proof {
                            lemma_edited_is_valid(views(list@), self@);
                        }
                        let ghost before = views(list@);
                        list.set(at, self);
                        assert(views(list@) =~= before.update(at as int, self@));
                        Ok(())
                    },
                };
                file.entries = Some(list);
                done
            },
        }
    }

    /// Removes the entry that has the identity `device`, and no other. Fails
    /// with `FileNotFound` where there is no file, and with `LibraNotFound`
    /// where no entry has this identity.
    pub fn remove_from_config_file(device: Device, file: &mut ConfigFile) -> (done: Result<
        (),
        Error,
    >)
        ensures
            (done, final(file)@) == removed(old(file)@, device@),
            valid(final(file)@),
    {
        proof {
            use_type_invariant(&*file);
        }
        let mut taken: Option<Vec<Libra>> = None;
        std::mem::swap(&mut file.entries, &mut taken);
        match taken {
            None => Err(Error::FileNotFound),
            Some(mut list) => {
                let done = match find(&list, &device) {
                    None => Err(Error::LibraNotFound),
                    Some(at) => {
                        proof {
                            lemma_removed_is_valid(views(list@), device@);
                        }
                        let ghost before = views(list@);
                        list.remove(at);
                        assert(views(list@) =~= before.remove(at as int));
                        Ok(())
                    },
                };
                file.entries = Some(list);
                done
            },
        }
    }
}

} // verus!
