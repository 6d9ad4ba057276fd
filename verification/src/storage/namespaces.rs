//! The repository of namespaces, by name.

use vstd::prelude::*;
use crate::namespace_info::{NamespaceInfo, NamespaceInfoView};

verus! {

/// The state of the repository could not be kept; the payload says why.
#[derive(Debug)]
pub struct NamespaceRepositoryPersistenceError(pub String);

impl NamespaceRepositoryPersistenceError {
    pub open spec fn message(self) -> Seq<char> {
        "Persistence error: "@ + self.0@
    }

    pub fn to_string(&self) -> (text: String)
        ensures
            text@ == self.message(),
    {
        crate::text::join("Persistence error: ", self.0.as_str())
    }
}

/// The kept state of the repository could not be read; the payload says why.
#[derive(Debug)]
pub struct NamespaceRepositoryInitializationError(pub String);

impl NamespaceRepositoryInitializationError {
    pub open spec fn message(self) -> Seq<char> {
        "Initialization error: "@ + self.0@
    }

    pub fn to_string(&self) -> (text: String)
        ensures
            text@ == self.message(),
    {
        crate::text::join("Initialization error: ", self.0.as_str())
    }
}

/// Why a call on a namespace repository failed.
#[derive(Debug)]
pub enum NamespaceRepositoryError {
    /// No namespace of this name is held.
    NamespaceNotFound(String),
    /// A namespace of this name is held already.
    NamespaceAlreadyExists(String),
    PersistenceError(NamespaceRepositoryPersistenceError),
}

impl NamespaceRepositoryError {
    pub open spec fn message(self) -> Seq<char> {
        match self {
            NamespaceRepositoryError::NamespaceNotFound(name) => "Namespace not found: "@ + name@,
            NamespaceRepositoryError::NamespaceAlreadyExists(name) =>
                "Namespace already exists: "@ + name@,
            NamespaceRepositoryError::PersistenceError(e) => e.message(),
        }
    }

    pub fn to_string(&self) -> (text: String)
        ensures
            text@ == self.message(),
    {
        match self {
            NamespaceRepositoryError::NamespaceNotFound(name) => crate::text::join(
                "Namespace not found: ",
                name.as_str(),
            ),
            NamespaceRepositoryError::NamespaceAlreadyExists(name) => crate::text::join(
                "Namespace already exists: ",
                name.as_str(),
            ),
            NamespaceRepositoryError::PersistenceError(e) => e.to_string(),
        }
    }
}

/// The values of a list of namespaces.
pub open spec fn info_views(items: Seq<NamespaceInfo>) -> Seq<NamespaceInfoView> {
    items.map_values(|info: NamespaceInfo| info@)
}

/// No two entries of a list carry the same name.
pub open spec fn distinct_names(items: Seq<NamespaceInfoView>) -> bool {
    forall|i: int, j: int|
        0 <= i < j < items.len() ==> (#[trigger] items[i]).name != (#[trigger] items[j]).name
}

/// The entry that a list holds under a name: the last one listed with it.
pub open spec fn entry_named(items: Seq<NamespaceInfoView>, name: Seq<char>) -> Option<
    NamespaceInfoView,
>
    decreases items.len(),
{
    if items.len() == 0 {
        None
    } else if items.last().name == name {
        Some(items.last())
    } else {
        entry_named(items.drop_last(), name)
    }
}

/// A list of namespaces as a map from names to namespaces.
pub open spec fn namespaces_by_name(items: Seq<NamespaceInfoView>) -> Map<
    Seq<char>,
    NamespaceInfoView,
> {
    Map::new(
        |name: Seq<char>| entry_named(items, name) is Some,
        |name: Seq<char>| entry_named(items, name)->0,
    )
}

/// What a list holds under a name is an entry with that name.
pub proof fn lemma_entry_named_is_entry(items: Seq<NamespaceInfoView>, name: Seq<char>)
    requires
        entry_named(items, name) is Some,
    ensures
        entry_named(items, name)->0.name == name,
        exists|i: int| 0 <= i < items.len() && items[i] == entry_named(items, name)->0,
    decreases items.len(),
{
    if items.last().name == name {
        assert(items[items.len() - 1] == items.last());
    } else {
        lemma_entry_named_is_entry(items.drop_last(), name);
        let i = choose|i: int|
            0 <= i < items.drop_last().len() && items.drop_last()[i] == entry_named(
                items.drop_last(),
                name,
            )->0;
        assert(items[i] == items.drop_last()[i]);
    }
}

/// In a list without repeated names, every entry is what the list holds
/// under its name.
pub proof fn lemma_entry_named_of_entry(items: Seq<NamespaceInfoView>, i: int)
    requires
        distinct_names(items),
        0 <= i < items.len(),
    ensures
        entry_named(items, items[i].name) == Some(items[i]),
    decreases items.len(),
{
    if i < items.len() - 1 {
        assert(items[i].name != items[items.len() - 1].name);
        assert(distinct_names(items.drop_last())) by {
            assert forall|a: int, b: int| 0 <= a < b < items.drop_last().len() implies (
            #[trigger] items.drop_last()[a]).name != (#[trigger] items.drop_last()[b]).name by {
                assert(items[a].name != items[b].name);
            }
        }
        lemma_entry_named_of_entry(items.drop_last(), i);
    }
}

/// A name that no entry carries is not held.
pub proof fn lemma_entry_named_absent(items: Seq<NamespaceInfoView>, name: Seq<char>)
    requires
        forall|i: int| 0 <= i < items.len() ==> (#[trigger] items[i]).name != name,
    ensures
        entry_named(items, name) is None,
    decreases items.len(),
{
    if items.len() > 0 {
        assert(items[items.len() - 1].name != name);
        assert forall|i: int| 0 <= i < items.drop_last().len() implies (
        #[trigger] items.drop_last()[i]).name != name by {
            assert(items[i].name != name);
        }
        lemma_entry_named_absent(items.drop_last(), name);
    }
}

/// Replacing an entry by one of the same name changes what is held under
/// that name and nothing else.
pub proof fn lemma_entry_replaced(
    items: Seq<NamespaceInfoView>,
    i: int,
    info: NamespaceInfoView,
    name: Seq<char>,
)
    requires
        distinct_names(items),
        0 <= i < items.len(),
        items[i].name == info.name,
    ensures
        distinct_names(items.update(i, info)),
        entry_named(items.update(i, info), name) == (if name == info.name {
            Some(info)
        } else {
            entry_named(items, name)
        }),
{
    let replaced = items.update(i, info);
    assert(distinct_names(replaced)) by {
        assert forall|a: int, b: int| 0 <= a < b < replaced.len() implies (
        #[trigger] replaced[a]).name != (#[trigger] replaced[b]).name by {
            assert(items[a].name != items[b].name);
        }
    }
    if name == info.name {
        lemma_entry_named_of_entry(replaced, i);
    } else if entry_named(items, name) is Some {
        lemma_entry_named_is_entry(items, name);
        let j = choose|j: int| 0 <= j < items.len() && items[j] == entry_named(items, name)->0;
        assert(replaced[j] == items[j]);
        lemma_entry_named_of_entry(replaced, j);
    } else {
        if entry_named(replaced, name) is Some {
            lemma_entry_named_is_entry(replaced, name);
            let j = choose|j: int|
                0 <= j < replaced.len() && replaced[j] == entry_named(replaced, name)->0;
            assert(items[j] == replaced[j]);
            lemma_entry_named_of_entry(items, j);
        }
    }
}

/// Taking an entry out removes what is held under its name and nothing
/// else.
pub proof fn lemma_entry_removed(items: Seq<NamespaceInfoView>, i: int, name: Seq<char>)
    requires
        distinct_names(items),
        0 <= i < items.len(),
    ensures
        distinct_names(items.remove(i)),
        entry_named(items.remove(i), name) == (if name == items[i].name {
            None
        } else {
            entry_named(items, name)
        }),
{
    let rest = items.remove(i);
    assert(distinct_names(rest)) by {
        assert forall|a: int, b: int| 0 <= a < b < rest.len() implies (#[trigger] rest[a]).name
            != (#[trigger] rest[b]).name by {
            let a0 = if a < i {
                a
            } else {
                a + 1
            };
            let b0 = if b < i {
                b
            } else {
                b + 1
            };
            assert(rest[a] == items[a0]);
            assert(rest[b] == items[b0]);
            assert(items[a0].name != items[b0].name);
        }
    }
    if name == items[i].name {
        assert forall|j: int| 0 <= j < rest.len() implies (#[trigger] rest[j]).name != name by {
            let j0 = if j < i {
                j
            } else {
                j + 1
            };
            assert(rest[j] == items[j0]);
            if j0 < i {
                assert(items[j0].name != items[i].name);
            } else {
                assert(items[i].name != items[j0].name);
            }
        }
        lemma_entry_named_absent(rest, name);
    } else if entry_named(items, name) is Some {
        lemma_entry_named_is_entry(items, name);
        let j = choose|j: int| 0 <= j < items.len() && items[j] == entry_named(items, name)->0;
        let k = if j < i {
            j
        } else {
            j - 1
        };
        assert(rest[k] == items[j]);
        lemma_entry_named_of_entry(rest, k);
    } else {
        if entry_named(rest, name) is Some {
            lemma_entry_named_is_entry(rest, name);
            let k = choose|k: int| 0 <= k < rest.len() && rest[k] == entry_named(rest, name)->0;
            let j = if k < i {
                k
            } else {
                k + 1
            };
            assert(items[j] == rest[k]);
            lemma_entry_named_of_entry(items, j);
        }
    }
}

/// A durable map from namespace names to namespaces. A failed call leaves
/// the repository as it was.
pub trait NamespaceRepository {
    /// The namespaces that the repository holds, by name. An
    /// implementation says what they are; of one that does not, nothing is
    /// known.
    open spec fn namespaces(&self) -> Map<Seq<char>, NamespaceInfoView> {
        arbitrary()
    }

    /// Whether the repository never fails to read or to keep what it is
    /// given, so that a call fails only where it refuses a name. An
    /// implementation of which that is true says so; of one that does not,
    /// it is not known.
    open spec fn dependable(&self) -> bool {
        false
    }

    fn get_namespace_info(&self, name: &str) -> (r: Result<
        Option<NamespaceInfo>,
        NamespaceRepositoryError,
    >)
        ensures
            r matches Ok(found) ==> match found {
                Some(info) => self.namespaces().contains_key(name@) && self.namespaces()[name@]
                    == info@ && info@.name == name@,
                None => !self.namespaces().contains_key(name@),
            },
            self.dependable() ==> r is Ok,
    ;

    /// Every namespace held, each once, in no particular order.
    fn list_namespaces(&self) -> (r: Result<Vec<NamespaceInfo>, NamespaceRepositoryError>)
        ensures
            r matches Ok(listed) ==> distinct_names(info_views(listed@)) && namespaces_by_name(
                info_views(listed@),
            ) == self.namespaces(),
            self.dependable() ==> r is Ok,
    ;

    /// Adds a namespace. A namespace whose name is held already is refused.
    fn add_namespace(&mut self, info: NamespaceInfo) -> (r: Result<(), NamespaceRepositoryError>)
        ensures
            old(self).namespaces().contains_key(info@.name) ==> (r matches Err(
                NamespaceRepositoryError::NamespaceAlreadyExists(name),
            ) && name@ == info@.name && final(self).namespaces() == old(self).namespaces()),
            !old(self).namespaces().contains_key(info@.name) ==> (match r {
                Ok(()) => final(self).namespaces() == old(self).namespaces().insert(
                    info@.name,
                    info@,
                ),
                Err(e) => e is PersistenceError && !old(self).dependable() && final(self).namespaces() == old(self).namespaces(),
            }),
            final(self).dependable() == old(self).dependable(),
    ;

    /// Replaces the namespace of the same name. A namespace whose name is
    /// not held is refused.
    fn update_namespace(&mut self, info: NamespaceInfo) -> (r: Result<
        (),
        NamespaceRepositoryError,
    >)
        ensures
            !old(self).namespaces().contains_key(info@.name) ==> (r matches Err(
                NamespaceRepositoryError::NamespaceNotFound(name),
            ) && name@ == info@.name && final(self).namespaces() == old(self).namespaces()),
            old(self).namespaces().contains_key(info@.name) ==> (match r {
                Ok(()) => final(self).namespaces() == old(self).namespaces().insert(
                    info@.name,
                    info@,
                ),
                Err(e) => e is PersistenceError && !old(self).dependable() && final(self).namespaces() == old(self).namespaces(),
            }),
            final(self).dependable() == old(self).dependable(),
    ;

    /// Removes the namespace of this name. A name that is not held is
    /// refused.
    fn remove_namespace(&mut self, name: &str) -> (r: Result<(), NamespaceRepositoryError>)
        ensures
            !old(self).namespaces().contains_key(name@) ==> (r matches Err(
                NamespaceRepositoryError::NamespaceNotFound(missing),
            ) && missing@ == name@ && final(self).namespaces() == old(self).namespaces()),
            old(self).namespaces().contains_key(name@) ==> (match r {
                Ok(()) => final(self).namespaces() == old(self).namespaces().remove(name@),
                Err(e) => e is PersistenceError && !old(self).dependable() && final(self).namespaces() == old(self).namespaces(),
            }),
            final(self).dependable() == old(self).dependable(),
    ;
}

/// Namespaces held in memory.
pub struct InMemoryNamespaceRepository {
    items: Vec<NamespaceInfo>,
}

impl View for InMemoryNamespaceRepository {
    type V = Seq<NamespaceInfoView>;

    closed spec fn view(&self) -> Seq<NamespaceInfoView> {
        info_views(self.items@)
    }
}

impl InMemoryNamespaceRepository {
    #[verifier::type_invariant]
    spec fn names_are_distinct(self) -> bool {
        distinct_names(info_views(self.items@))
    }

    pub fn new() -> (repository: InMemoryNamespaceRepository)
        ensures
            repository@.len() == 0,
            repository.namespaces() == Map::<Seq<char>, NamespaceInfoView>::empty(),
    {
        let repository = InMemoryNamespaceRepository { items: Vec::new() };
        assert(repository.namespaces() =~= Map::<Seq<char>, NamespaceInfoView>::empty());
        repository
    }

    /// The position of the namespace of this name, if it is held.
    fn position(&self, name: &str) -> (r: Option<usize>)
        ensures
            match r {
                Some(i) => i < self@.len() && self@[i as int].name == name@ && entry_named(
                    self@,
                    name@,
                ) == Some(self@[i as int]),
                None => entry_named(self@, name@) is None,
            },
    {
        proof {
            use_type_invariant(self);
        }
        let mut i: usize = 0;
        while i < self.items.len()
            invariant
                i <= self.items@.len(),
                distinct_names(self@),
                forall|j: int| 0 <= j < i ==> (#[trigger] self@[j]).name != name@,
            decreases self.items@.len() - i,
        {
            if crate::text::same_text(self.items[i].name.as_str(), name) {
                proof {
                    assert(self@[i as int].name == name@);
                    lemma_entry_named_of_entry(self@, i as int);
                }
                return Some(i);
            }
            i = i + 1;
        }
        proof {
            lemma_entry_named_absent(self@, name@);
        }
        None
    }
}

impl Default for InMemoryNamespaceRepository {
    fn default() -> (repository: InMemoryNamespaceRepository)
        ensures
            repository@.len() == 0,
    {
        InMemoryNamespaceRepository::new()
    }
}

impl Clone for InMemoryNamespaceRepository {
    fn clone(&self) -> (copy: InMemoryNamespaceRepository)
        ensures
            copy@ == self@,
    {
        proof {
            use_type_invariant(self);
        }
        let mut items: Vec<NamespaceInfo> = Vec::new();
        let mut i: usize = 0;
        while i < self.items.len()
            invariant
                i <= self.items@.len(),
                items@.len() == i,
                self@.len() == self.items@.len(),
                info_views(items@) == self@.subrange(0, i as int),
            decreases self.items@.len() - i,
        {
            let ghost before = info_views(items@);
            items.push(self.items[i].clone());
            i = i + 1;
            proof {
                let target = self@.subrange(0, i as int);
                assert(info_views(items@).len() == target.len());
                assert forall|j: int| 0 <= j < target.len() implies info_views(items@)[j]
                    == target[j] by {
                    if j < i - 1 {
                        assert(info_views(items@)[j] == before[j]);
                    }
                }
                assert(info_views(items@) =~= target);
            }
        }
        assert(self@.subrange(0, i as int) =~= self@);
        InMemoryNamespaceRepository { items }
    }
}

impl NamespaceRepository for InMemoryNamespaceRepository {
    open spec fn namespaces(&self) -> Map<Seq<char>, NamespaceInfoView> {
        namespaces_by_name(self@)
    }

    open spec fn dependable(&self) -> bool {
        true
    }

    fn get_namespace_info(&self, name: &str) -> (r: Result<
        Option<NamespaceInfo>,
        NamespaceRepositoryError,
    >)
        ensures
            r is Ok,
    {
        match self.position(name) {
            Some(i) => {
                assert(self@[i as int] == self.items@[i as int]@);
                Ok(Some(self.items[i].clone()))
            },
            None => Ok(None),
        }
    }

    fn list_namespaces(&self) -> (r: Result<Vec<NamespaceInfo>, NamespaceRepositoryError>)
        ensures
            r matches Ok(listed) && info_views(listed@) == self@,
    {
        proof {
            use_type_invariant(self);
        }
        let copy = self.clone();
        Ok(copy.items)
    }

    fn add_namespace(&mut self, info: NamespaceInfo) -> (r: Result<(), NamespaceRepositoryError>)
        ensures
            !old(self).namespaces().contains_key(info@.name) ==> r is Ok,
    {
        proof {
            use_type_invariant(&*self);
        }
        match self.position(info.name.as_str()) {
            Some(_) => Err(NamespaceRepositoryError::NamespaceAlreadyExists(info.name.clone())),
            None => {
                let ghost before = self@;
                let ghost added = info@;
                proof {
                    assert forall|i: int| 0 <= i < before.len() implies (#[trigger] before[i]).name
                        != added.name by {
                        lemma_entry_named_of_entry(before, i);
                    }
                }
                let mut taken = InMemoryNamespaceRepository::new();
                core::mem::swap(self, &mut taken);
                let mut items = taken.items;
                items.push(info);
                proof {
                    let after = info_views(items@);
                    assert(distinct_names(after)) by {
                        assert forall|a: int, b: int| 0 <= a < b < after.len() implies (
                        #[trigger] after[a]).name != (#[trigger] after[b]).name by {
                            if b < before.len() {
                                assert(before[a].name != before[b].name);
                            } else {
                                assert(before[a].name != added.name);
                            }
                        }
                    }
                }
                *self = InMemoryNamespaceRepository { items };
                proof {
                    let after = info_views(self.items@);
                    assert(after =~= before.push(added));
                    assert(after.drop_last() =~= before);
                    assert(namespaces_by_name(after) =~= namespaces_by_name(before).insert(
                        added.name,
                        added,
                    ));
                }
                Ok(())
            },
        }
    }

    fn update_namespace(&mut self, info: NamespaceInfo) -> (r: Result<
        (),
        NamespaceRepositoryError,
    >)
        ensures
            old(self).namespaces().contains_key(info@.name) ==> r is Ok,
    {
        proof {
            use_type_invariant(&*self);
        }
        match self.position(info.name.as_str()) {
            None => Err(NamespaceRepositoryError::NamespaceNotFound(info.name.clone())),
            Some(i) => {
                let ghost before = self@;
                let ghost replacement = info@;
                proof {
                    assert forall|name: Seq<char>|
                        entry_named(before.update(i as int, replacement), name) == (if name
                            == replacement.name {
                            Some(replacement)
                        } else {
                            entry_named(before, name)
                        }) by {
                        lemma_entry_replaced(before, i as int, replacement, name);
                    }
                    lemma_entry_replaced(before, i as int, replacement, replacement.name);
                }
                let mut taken = InMemoryNamespaceRepository::new();
                core::mem::swap(self, &mut taken);
                let mut items = taken.items;
                items[i] = info;
                assert(info_views(items@) =~= before.update(i as int, replacement));
                *self = InMemoryNamespaceRepository { items };
                proof {
                    let after = info_views(self.items@);
                    assert(after =~= before.update(i as int, replacement));
                    assert(namespaces_by_name(after) =~= namespaces_by_name(before).insert(
                        replacement.name,
                        replacement,
                    ));
                }
                Ok(())
            },
        }
    }

    fn remove_namespace(&mut self, name: &str) -> (r: Result<(), NamespaceRepositoryError>)
        ensures
            old(self).namespaces().contains_key(name@) ==> r is Ok,
    {
        proof {
            use_type_invariant(&*self);
        }
        match self.position(name) {
            None => Err(NamespaceRepositoryError::NamespaceNotFound(name.to_owned())),
            Some(i) => {
                let ghost before = self@;
                proof {
                    assert forall|other: Seq<char>|
                        entry_named(before.remove(i as int), other) == (if other == name@ {
                            None
                        } else {
                            entry_named(before, other)
                        }) by {
                        lemma_entry_removed(before, i as int, other);
                    }
                    lemma_entry_removed(before, i as int, name@);
                }
                let mut taken = InMemoryNamespaceRepository::new();
                core::mem::swap(self, &mut taken);
                let mut items = taken.items;
                items.remove(i);
                assert(info_views(items@) =~= before.remove(i as int));
                *self = InMemoryNamespaceRepository { items };
                proof {
                    let after = info_views(self.items@);
                    assert(after =~= before.remove(i as int));
                    assert(namespaces_by_name(after) =~= namespaces_by_name(before).remove(name@));
                }
                Ok(())
            },
        }
    }
}


/// The namespaces that a state file holds, as they are held in memory
/// while the auditor runs. The file itself is read and written by the user
/// of this type: what was read is handed to `with_namespaces`, and after
/// every call that changes the namespaces the document is to be written
/// again.
pub struct FileNamespaceRepository {
    file_path: String,
    namespaces: InMemoryNamespaceRepository,
    unsaved: bool,
}

impl View for FileNamespaceRepository {
    type V = Seq<NamespaceInfoView>;

    closed spec fn view(&self) -> Seq<NamespaceInfoView> {
        self.namespaces@
    }
}

impl FileNamespaceRepository {
    /// Where the document is kept.
    pub closed spec fn path(&self) -> Seq<char> {
        self.file_path@
    }

    /// Whether the namespaces have changed since the document was last
    /// written.
    pub closed spec fn unsaved(&self) -> bool {
        self.unsaved
    }

    /// The repository of a state file that does not exist yet.
    pub fn new(file_path: String) -> (repository: FileNamespaceRepository)
        ensures
            repository.path() == file_path@,
            repository.namespaces() == Map::<Seq<char>, NamespaceInfoView>::empty(),
            !repository.unsaved(),
    {
        FileNamespaceRepository {
            file_path,
            namespaces: InMemoryNamespaceRepository::new(),
            unsaved: false,
        }
    }

    /// The repository of a state file that held `loaded`. Where two of the
    /// loaded namespaces share a name, the later one is held.
    pub fn with_namespaces(file_path: String, loaded: Vec<NamespaceInfo>) -> (repository:
        FileNamespaceRepository)
        ensures
            repository.path() == file_path@,
            repository.namespaces() == namespaces_by_name(info_views(loaded@)),
            !repository.unsaved(),
    {
        let mut namespaces = InMemoryNamespaceRepository::new();
        assert(namespaces.namespaces() =~= namespaces_by_name(
            info_views(loaded@).subrange(0, 0),
        ));
        let mut i: usize = 0;
        while i < loaded.len()
            invariant
                i <= loaded@.len(),
                namespaces.namespaces() == namespaces_by_name(
                    info_views(loaded@).subrange(0, i as int),
                ),
            decreases loaded@.len() - i,
        {
            let ghost before = info_views(loaded@).subrange(0, i as int);
            let info = loaded[i].clone();
            let held = match namespaces.get_namespace_info(info.name.as_str()) {
                Ok(Some(_)) => true,
                _ => false,
            };
            if held {
                let _ = namespaces.update_namespace(info);
            } else {
                let _ = namespaces.add_namespace(info);
            }
            i = i + 1;
            proof {
                let after = info_views(loaded@).subrange(0, i as int);
                assert(after =~= before.push(loaded@[i - 1]@));
                assert(after.drop_last() =~= before);
                assert(namespaces_by_name(after) =~= namespaces_by_name(before).insert(
                    loaded@[i - 1]@.name,
                    loaded@[i - 1]@,
                ));
            }
        }
        assert(info_views(loaded@).subrange(0, i as int) =~= info_views(loaded@));
        FileNamespaceRepository { file_path, namespaces, unsaved: false }
    }

    pub fn file_path(&self) -> (path: &String)
        ensures
            path@ == self.path(),
    {
        &self.file_path
    }

    /// Where the document is written before it takes the place of the state
    /// file, so that the state file is always a whole document.
    pub fn temporary_file_path(&self) -> (path: String)
        ensures
            path@ == self.path() + ".tmp"@,
    {
        crate::text::join(self.file_path.as_str(), ".tmp")
    }

    /// Whether the document has to be written again.
    pub fn has_unsaved_changes(&self) -> (unsaved: bool)
        ensures
            unsaved == self.unsaved(),
    {
        self.unsaved
    }

    /// Notes that the document has been written.
    pub fn mark_saved(&mut self)
        ensures
            final(self).namespaces() == old(self).namespaces(),
            final(self).path() == old(self).path(),
            !final(self).unsaved(),
    {
        self.unsaved = false;
    }
}

impl NamespaceRepository for FileNamespaceRepository {
    closed spec fn namespaces(&self) -> Map<Seq<char>, NamespaceInfoView> {
        self.namespaces.namespaces()
    }

    open spec fn dependable(&self) -> bool {
        true
    }

    fn get_namespace_info(&self, name: &str) -> (r: Result<
        Option<NamespaceInfo>,
        NamespaceRepositoryError,
    >)
        ensures
            r is Ok,
    {
        self.namespaces.get_namespace_info(name)
    }

    fn list_namespaces(&self) -> (r: Result<Vec<NamespaceInfo>, NamespaceRepositoryError>)
        ensures
            r is Ok,
    {
        self.namespaces.list_namespaces()
    }

    fn add_namespace(&mut self, info: NamespaceInfo) -> (r: Result<(), NamespaceRepositoryError>)
        ensures
            !old(self).namespaces().contains_key(info@.name) ==> r is Ok,
            final(self).path() == old(self).path(),
            final(self).unsaved() == (old(self).unsaved() || r is Ok),
    {
        let r = self.namespaces.add_namespace(info);
        if r.is_ok() {
            self.unsaved = true;
        }
        r
    }

    fn update_namespace(&mut self, info: NamespaceInfo) -> (r: Result<
        (),
        NamespaceRepositoryError,
    >)
        ensures
            old(self).namespaces().contains_key(info@.name) ==> r is Ok,
            final(self).path() == old(self).path(),
            final(self).unsaved() == (old(self).unsaved() || r is Ok),
    {
        let r = self.namespaces.update_namespace(info);
        if r.is_ok() {
            self.unsaved = true;
        }
        r
    }

    fn remove_namespace(&mut self, name: &str) -> (r: Result<(), NamespaceRepositoryError>)
        ensures
            old(self).namespaces().contains_key(name@) ==> r is Ok,
            final(self).path() == old(self).path(),
            final(self).unsaved() == (old(self).unsaved() || r is Ok),
    {
        let r = self.namespaces.remove_namespace(name);
        if r.is_ok() {
            self.unsaved = true;
        }
        r
    }
}

/// The namespace repositories that exist.
pub enum NamespaceStorage {
    File(FileNamespaceRepository),
    InMemory(InMemoryNamespaceRepository),
}

impl NamespaceRepository for NamespaceStorage {
    open spec fn namespaces(&self) -> Map<Seq<char>, NamespaceInfoView> {
        match self {
            NamespaceStorage::File(repo) => repo.namespaces(),
            NamespaceStorage::InMemory(repo) => repo.namespaces(),
        }
    }

    open spec fn dependable(&self) -> bool {
        true
    }

    fn get_namespace_info(&self, name: &str) -> (r: Result<
        Option<NamespaceInfo>,
        NamespaceRepositoryError,
    >)
        ensures
            r is Ok,
    {
        match self {
            NamespaceStorage::File(repo) => repo.get_namespace_info(name),
            NamespaceStorage::InMemory(repo) => repo.get_namespace_info(name),
        }
    }

    fn list_namespaces(&self) -> (r: Result<Vec<NamespaceInfo>, NamespaceRepositoryError>)
        ensures
            r is Ok,
    {
        match self {
            NamespaceStorage::File(repo) => repo.list_namespaces(),
            NamespaceStorage::InMemory(repo) => repo.list_namespaces(),
        }
    }

    fn add_namespace(&mut self, info: NamespaceInfo) -> (r: Result<(), NamespaceRepositoryError>)
        ensures
            !old(self).namespaces().contains_key(info@.name) ==> r is Ok,
            (*old(self) is File) == (*final(self) is File),
    {
        match self {
            NamespaceStorage::File(repo) => repo.add_namespace(info),
            NamespaceStorage::InMemory(repo) => repo.add_namespace(info),
        }
    }

    fn update_namespace(&mut self, info: NamespaceInfo) -> (r: Result<
        (),
        NamespaceRepositoryError,
    >)
        ensures
            old(self).namespaces().contains_key(info@.name) ==> r is Ok,
            (*old(self) is File) == (*final(self) is File),
    {
        match self {
            NamespaceStorage::File(repo) => repo.update_namespace(info),
            NamespaceStorage::InMemory(repo) => repo.update_namespace(info),
        }
    }

    fn remove_namespace(&mut self, name: &str) -> (r: Result<(), NamespaceRepositoryError>)
        ensures
            old(self).namespaces().contains_key(name@) ==> r is Ok,
            (*old(self) is File) == (*final(self) is File),
    {
        match self {
            NamespaceStorage::File(repo) => repo.remove_namespace(name),
            NamespaceStorage::InMemory(repo) => repo.remove_namespace(name),
        }
    }
}

} // verus!
