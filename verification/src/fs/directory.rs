//! Directories and the builder that creates them.

use vstd::prelude::*;
use vstd::string::*;
use crate::error::{BackendError, StoreError};
use crate::ids::{FSId, StorageId, UserId};
use crate::path::{join, joined, physical, physical_path};
use crate::schema;
use crate::storage;
use crate::storage::fs::Storage;
use crate::store::{first_where, lemma_first_where, node_is, scope_of, Store, StoreView};
use crate::tags::TagMap;
use crate::text::{clone_opt_text, opt_text};
use crate::time::Timestamp;
use super::consts::DIR_TYPE;
use super::error::BuilderError;
use super::record::{Record, RecordView, Row, RowView};
use super::naming::{
    candidate, generated_name, is_first_free, is_free, lemma_generated_is, lemma_generated_none,
    NameGen, Probe, ProbeView,
};
use super::IdOption;

verus! {

/// A directory: a named entry of another directory, or of the medium's root
/// when it has no parent. `path` is the full path of the parent as it was
/// when the directory was created.
#[derive(Debug)]
pub struct Directory {
    pub id: FSId,
    pub user_id: UserId,
    pub storage: Storage,
    pub parent: Option<FSId>,
    pub basename: String,
    pub path: String,
    pub tags: TagMap,
    pub comment: Option<String>,
    pub created: Timestamp,
    pub updated: Option<Timestamp>,
    pub deleted: Option<Timestamp>,
}

/// A directory over plain values.
pub struct DirectoryView {
    pub id: FSId,
    pub user_id: UserId,
    pub storage: Storage,
    pub parent: Option<FSId>,
    pub basename: Seq<char>,
    pub path: Seq<char>,
    pub tags: Map<Seq<char>, Option<Seq<char>>>,
    pub comment: Option<Seq<char>>,
    pub created: Timestamp,
    pub updated: Option<Timestamp>,
    pub deleted: Option<Timestamp>,
}

impl DirectoryView {
    /// The path of the directory inside its medium.
    pub open spec fn full_path(self) -> Seq<char> {
        joined(self.path, self.basename)
    }

    /// The row and tags that persist this directory.
    pub open spec fn record(self) -> RecordView {
        RecordView {
            row: RowView {
                id: self.id,
                user_id: self.user_id,
                parent: self.parent,
                basename: self.basename,
                fs_type: DIR_TYPE,
                path: self.path,
                size: None,
                mime_type: None,
                mime_subtype: None,
                hash: None,
                storage: self.storage,
                comment: self.comment,
                created: self.created,
                updated: self.updated,
                deleted: self.deleted,
            },
            tags: self.tags,
        }
    }

    /// The directory that a row of the directory kind, with its tags, stands
    /// for.
    pub open spec fn of(row: RowView, tags: Map<Seq<char>, Option<Seq<char>>>) -> DirectoryView {
        DirectoryView {
            id: row.id,
            user_id: row.user_id,
            storage: row.storage,
            parent: row.parent,
            basename: row.basename,
            path: row.path,
            tags,
            comment: row.comment,
            created: row.created,
            updated: row.updated,
            deleted: row.deleted,
        }
    }
}

impl View for Directory {
    type V = DirectoryView;

    open spec fn view(&self) -> DirectoryView {
        DirectoryView {
            id: self.id,
            user_id: self.user_id,
            storage: self.storage,
            parent: self.parent,
            basename: self.basename@,
            path: self.path@,
            tags: self.tags@,
            comment: opt_text(self.comment),
            created: self.created,
            updated: self.updated,
            deleted: self.deleted,
        }
    }
}

impl Directory {
    /// The identifier of the directory.
    pub fn id(&self) -> (id: &FSId)
        ensures
            *id == self.id,
    {
        &self.id
    }

    /// The path of the directory inside its medium: its stored path, then its
    /// basename.
    pub fn full_path(&self) -> (path: String)
        ensures
            path@ == self@.full_path(),
    {
        join(self.path.as_str(), self.basename.as_str())
    }

    /// The row and tags that persist this directory.
    pub fn to_record(&self) -> (record: Record)
        ensures
            record@ == self@.record(),
    {
        Record {
            row: Row {
                id: self.id,
                user_id: self.user_id,
                parent: self.parent,
                basename: self.basename.clone(),
                fs_type: DIR_TYPE,
                path: self.path.clone(),
                size: None,
                mime_type: None,
                mime_subtype: None,
                hash: None,
                storage: self.storage,
                comment: clone_opt_text(&self.comment),
                created: self.created,
                updated: self.updated,
                deleted: self.deleted,
            },
            tags: self.tags.clone(),
        }
    }

    /// The public projection of the directory, without any of its entries.
    pub fn into_model(self) -> (model: schema::fs::Directory)
        ensures
            model@ == self@,
            model.total == 0,
            model.contents@.len() == 0,
    {
        schema::fs::Directory {
            id: self.id,
            user_id: self.user_id,
            storage: self.storage.into_model(),
            parent: self.parent,
            basename: self.basename,
            path: self.path,
            tags: self.tags,
            comment: self.comment,
            total: 0,
            contents: Vec::new(),
            created: self.created,
            updated: self.updated,
            deleted: self.deleted,
        }
    }

    /// The public projection of the directory as a node of any kind.
    pub fn into_model_item(self) -> (model: schema::fs::Item)
        ensures
            model@ == super::ItemView::Directory(self@),
            model.is_bare(),
    {
        schema::fs::Item::Directory(self.into_model())
    }

    /// The public projection of the directory, without any of its entries.
    pub fn into_schema(self) -> (model: schema::fs::Directory)
        ensures
            model@ == self@,
            model.total == 0,
            model.contents@.len() == 0,
    {
        self.into_model()
    }
}

/// How many candidates are tried when a basename is generated.
pub const NAME_GEN_ATTEMPTS: usize = 100;

/// What a builder keeps of the directory that the new one goes under.
pub struct ParentView {
    pub id: FSId,
    pub full_path: Seq<char>,
}

/// A builder over plain values.
pub struct BuilderView {
    pub id: FSId,
    pub user_id: UserId,
    pub medium: StorageId,
    pub root: Seq<char>,
    pub parent: Option<ParentView>,
    pub basename: Option<Seq<char>>,
    pub tags: Map<Seq<char>, Option<Seq<char>>>,
    pub comment: Option<Seq<char>>,
}

/// A directory whose name and place are settled and whose physical object
/// is still to be created.
pub struct PendingView {
    pub directory: DirectoryView,
    pub physical: Seq<char>,
}

impl BuilderView {
    /// The scope in which the new directory's basename has to be unique: its
    /// parent, or the medium when it goes directly under the root.
    pub open spec fn scope(self) -> IdOption {
        match self.parent {
            Some(parent) => IdOption::Parent(parent.id),
            None => IdOption::Storage(self.medium),
        }
    }

    /// The stored path of the new directory: the full path of its parent, or
    /// the empty path directly under the root.
    pub open spec fn path(self) -> Seq<char> {
        match self.parent {
            Some(parent) => parent.full_path,
            None => Seq::empty(),
        }
    }

    /// The parent of the new directory.
    pub open spec fn parent_id(self) -> Option<FSId> {
        match self.parent {
            Some(parent) => Some(parent.id),
            None => None,
        }
    }

    /// The basename of the new directory, or why there is none. A given name
    /// has to be free in the scope; without one, a name is generated at the
    /// instant of creation.
    pub open spec fn resolved_name(self, store: StoreView, created: Timestamp) -> Result<
        Seq<char>,
        BuilderError,
    > {
        match self.basename {
            Some(given) => if is_free(store, self.scope(), given) {
                Ok(given)
            } else {
                Err(BuilderError::BasenameExists)
            },
            None => match generated_name(store, self.scope(), created, NAME_GEN_ATTEMPTS as nat) {
                Some(name) => Ok(name),
                None => Err(BuilderError::BasenameGenFailed),
            },
        }
    }

    /// The directory that this builder makes under the name `basename` at the
    /// instant `created`.
    pub open spec fn directory(self, basename: Seq<char>, created: Timestamp) -> DirectoryView {
        DirectoryView {
            id: self.id,
            user_id: self.user_id,
            storage: Storage::Local(storage::fs::Local { id: self.medium }),
            parent: self.parent_id(),
            basename,
            path: self.path(),
            tags: self.tags,
            comment: self.comment,
            created,
            updated: None,
            deleted: None,
        }
    }

    /// The directory under the name `basename`, with the place where its
    /// physical object goes: under the root of the medium, at the
    /// directory's stored path and basename.
    pub open spec fn pending(self, basename: Seq<char>, created: Timestamp) -> PendingView {
        PendingView {
            directory: self.directory(basename, created),
            physical: physical(self.root, self.path(), basename),
        }
    }

    /// The first half of a build: name and place of the directory, and where
    /// its physical object goes.
    pub open spec fn resolve(self, store: StoreView, created: Timestamp) -> Result<
        PendingView,
        BuilderError,
    > {
        match self.resolved_name(store, created) {
            Ok(basename) => Ok(self.pending(basename, created)),
            Err(error) => Err(error),
        }
    }

    /// How the settling of the basename starts: with the lookup of the given
    /// name, or of the first generated candidate.
    pub open spec fn begin(self, created: Timestamp) -> ResolutionView {
        match self.basename {
            Some(given) => ResolutionView::Ask(
                NamingView { builder: self, created, generation: None, name: given },
            ),
            None => match NameGen::first(created, NAME_GEN_ATTEMPTS) {
                (state, ProbeView::Check(name)) => ResolutionView::Ask(
                    NamingView { builder: self, created, generation: Some(state), name },
                ),
                (_, ProbeView::Done(_)) => ResolutionView::Failed(BuilderError::BasenameGenFailed),
            },
        }
    }

    /// The whole build, given how the creation of the physical object ends:
    /// the directory or the failure, and the store afterwards. The store
    /// changes only when the build succeeds.
    pub open spec fn build(
        self,
        store: StoreView,
        created: Timestamp,
        made: Result<(), BackendError>,
    ) -> (StoreView, Result<DirectoryView, BuilderError>) {
        match self.resolve(store, created) {
            Ok(pending) => match made {
                Ok(_) => pending.commit(store),
                Err(error) => (store, Err(BuilderError::Backend(error))),
            },
            Err(error) => (store, Err(error)),
        }
    }
}

/// A build that is settling its basename: the lookup of `name` in the
/// builder's scope is outstanding.
pub struct NamingView {
    pub builder: BuilderView,
    pub created: Timestamp,
    pub generation: Option<NameGen>,
    pub name: Seq<char>,
}

/// Where the settling of a basename stands after a step.
pub enum ResolutionView {
    /// A lookup is outstanding.
    Ask(NamingView),
    /// Name and place are settled.
    Settled(PendingView),
    /// There is no name for the directory.
    Failed(BuilderError),
}

impl NamingView {
    /// How the settling goes on when the outstanding lookup is answered. A
    /// given name that is taken ends the build; one that is free settles it.
    /// A generated candidate that is free settles it too; after one that is
    /// taken the next is looked up, unless the attempts are used up.
    pub open spec fn answer(self, taken: bool) -> ResolutionView {
        match self.generation {
            None => if taken {
                ResolutionView::Failed(BuilderError::BasenameExists)
            } else {
                ResolutionView::Settled(self.builder.pending(self.name, self.created))
            },
            Some(state) => match state.next(taken) {
                (next, ProbeView::Check(name)) => ResolutionView::Ask(
                    NamingView { generation: Some(next), name, ..self },
                ),
                (_, ProbeView::Done(Some(name))) => ResolutionView::Settled(
                    self.builder.pending(name, self.created),
                ),
                (_, ProbeView::Done(None)) => ResolutionView::Failed(
                    BuilderError::BasenameGenFailed,
                ),
            },
        }
    }
}

impl PendingView {
    /// The second half of a build, after the physical object was created:
    /// the row and the tags are inserted, unless a row with the same
    /// identifier exists.
    pub open spec fn commit(self, store: StoreView) -> (
        StoreView,
        Result<DirectoryView, BuilderError>,
    ) {
        if store.has_node(self.directory.id) {
            (store, Err(BuilderError::Store(StoreError::DuplicateId)))
        } else {
            (store.with_node(self.directory.record()), Ok(self.directory))
        }
    }
}

/// What a builder keeps of the directory that the new one goes under.
#[derive(Debug)]
struct Parent {
    id: FSId,
    full_path: String,
}

/// Collects what a new directory needs and then creates it.
#[derive(Debug)]
pub struct Builder {
    id: FSId,
    user_id: UserId,
    medium: StorageId,
    backend: storage::Type,
    parent: Option<Parent>,
    basename: Option<String>,
    tags: TagMap,
    comment: Option<String>,
}

impl View for Builder {
    type V = BuilderView;

    closed spec fn view(&self) -> BuilderView {
        BuilderView {
            id: self.id,
            user_id: self.user_id,
            medium: self.medium,
            root: self.backend.root(),
            parent: match self.parent {
                Some(parent) => Some(ParentView { id: parent.id, full_path: parent.full_path@ }),
                None => None,
            },
            basename: opt_text(self.basename),
            tags: self.tags@,
            comment: opt_text(self.comment),
        }
    }
}

/// A directory whose name and place are settled and whose physical object
/// is still to be created.
#[derive(Debug)]
pub struct Pending {
    directory: Directory,
    physical: String,
}

impl View for Pending {
    type V = PendingView;

    closed spec fn view(&self) -> PendingView {
        PendingView { directory: self.directory@, physical: self.physical@ }
    }
}

/// A build that is settling its basename: the lookup of one name in the
/// builder's scope is outstanding.
#[derive(Debug)]
pub struct Naming {
    builder: Builder,
    created: Timestamp,
    generation: Option<NameGen>,
    name: String,
}

impl View for Naming {
    type V = NamingView;

    closed spec fn view(&self) -> NamingView {
        NamingView {
            builder: self.builder@,
            created: self.created,
            generation: self.generation,
            name: self.name@,
        }
    }
}

/// Where the settling of a basename stands after a step.
#[derive(Debug)]
pub enum Resolution {
    /// Look up whether an active entry of `scope()` bears `name()`, and
    /// hand the answer to `answer`.
    Ask(Naming),
    /// Name and place are settled: create the physical object.
    Settled(Pending),
    /// There is no name for the directory.
    Failed(BuilderError),
}

impl View for Resolution {
    type V = ResolutionView;

    open spec fn view(&self) -> ResolutionView {
        match self {
            Resolution::Ask(naming) => ResolutionView::Ask(naming@),
            Resolution::Settled(pending) => ResolutionView::Settled(pending@),
            Resolution::Failed(error) => ResolutionView::Failed(*error),
        }
    }
}

impl Naming {
    /// The scope in which the name is to be looked up.
    pub fn scope(&self) -> (scope: IdOption)
        ensures
            scope == self@.builder.scope(),
    {
        self.builder.scope()
    }

    /// The name that is to be looked up.
    pub fn name(&self) -> (name: &str)
        ensures
            name@ == self@.name,
    {
        self.name.as_str()
    }

    /// Goes on with the settling, given what the lookup found.
    pub fn answer(self, found: Option<FSId>) -> (resolution: Resolution)
        ensures
            resolution@ == self@.answer(found is Some),
    {
        match self.generation {
            None => {
                if found.is_some() {
                    return Resolution::Failed(BuilderError::BasenameExists);
                }
                Resolution::Settled(self.builder.settle(self.name, self.created))
            },
            Some(state) => {
                let (next, probe) = state.step(found);
                match probe {
                    Probe::Check(name) => Resolution::Ask(
                        Naming {
                            builder: self.builder,
                            created: self.created,
                            generation: Some(next),
                            name,
                        },
                    ),
                    Probe::Done(Some(name)) => Resolution::Settled(
                        self.builder.settle(name, self.created),
                    ),
                    Probe::Done(None) => Resolution::Failed(BuilderError::BasenameGenFailed),
                }
            },
        }
    }
}

impl Builder {
    /// The identifier that the new directory will bear.
    pub fn id(&self) -> (id: FSId)
        ensures
            id == self@.id,
    {
        self.id
    }

    /// The scope in which the new directory's basename has to be unique.
    pub fn scope(&self) -> (scope: IdOption)
        ensures
            scope == self@.scope(),
    {
        match &self.parent {
            Some(parent) => IdOption::Parent(parent.id),
            None => IdOption::Storage(self.medium),
        }
    }

    /// Puts the new directory under `parent`.
    pub fn with_parent(self, parent: &Directory) -> (builder: Builder)
        ensures
            builder@ == (BuilderView {
                parent: Some(ParentView { id: parent.id, full_path: parent@.full_path() }),
                ..self@
            }),
    {
        Builder {
            id: self.id,
            user_id: self.user_id,
            medium: self.medium,
            backend: self.backend,
            parent: Some(Parent { id: parent.id, full_path: parent.full_path() }),
            basename: self.basename,
            tags: self.tags,
            comment: self.comment,
        }
    }

    /// Asks for the basename `basename`.
    pub fn basename(&mut self, basename: &str)
        ensures
            final(self)@ == (BuilderView { basename: Some(basename@), ..old(self)@ }),
    {
        self.basename = Some(String::from_str(basename));
    }

    /// Sets the tag `tag` of the new directory to `value`.
    pub fn add_tag(&mut self, tag: &str, value: Option<&str>)
        ensures
            final(self)@ == (BuilderView {
                tags: old(self)@.tags.insert(
                    tag@,
                    match value {
                        Some(v) => Some(v@),
                        None => None,
                    },
                ),
                ..old(self)@
            }),
    {
        if let Some(v) = value {
            self.tags.insert(String::from_str(tag), Some(String::from_str(v)));
        } else {
            self.tags.insert(String::from_str(tag), None);
        }
    }

    /// Puts the comment `comment` on the new directory.
    pub fn comment(&mut self, comment: &str)
        ensures
            final(self)@ == (BuilderView { comment: Some(comment@), ..old(self)@ }),
    {
        self.comment = Some(String::from_str(comment));
    }

    /// Starts to settle the basename of the new directory: says which name
    /// is to be looked up first.
    pub fn begin(self, created: Timestamp) -> (resolution: Resolution)
        ensures
            resolution@ == self@.begin(created),
    {
        let given = clone_opt_text(&self.basename);
        match given {
            Some(name) => Resolution::Ask(
                Naming { builder: self, created, generation: None, name },
            ),
            None => {
                let (state, probe) = NameGen::start(created, NAME_GEN_ATTEMPTS);
                match probe {
                    Probe::Check(name) => Resolution::Ask(
                        Naming { builder: self, created, generation: Some(state), name },
                    ),
                    Probe::Done(_) => Resolution::Failed(BuilderError::BasenameGenFailed),
                }
            },
        }
    }

    /// The directory under the name `basename`, with the place where its
    /// physical object goes.
    fn settle(self, basename: String, created: Timestamp) -> (pending: Pending)
        ensures
            pending@ == self@.pending(basename@, created),
    {
        let path: String;
        let parent: Option<FSId>;
        match &self.parent {
            Some(dir) => {
                path = dir.full_path.clone();
                parent = Some(dir.id);
            },
            None => {
                path = String::new();
                parent = None;
            },
        }
        let physical = match &self.backend {
            storage::Type::Local(local) => physical_path(
                local.path.as_str(),
                path.as_str(),
                basename.as_str(),
            ),
        };
        let directory = Directory {
            id: self.id,
            user_id: self.user_id,
            storage: Storage::Local(storage::fs::Local { id: self.medium }),
            parent,
            basename,
            path,
            tags: self.tags,
            comment: self.comment,
            created,
            updated: None,
            deleted: None,
        };
        Pending { directory, physical }
    }

    /// Settles name and place of the new directory against the store as it
    /// is, and says where the physical object goes. The store is only read.
    pub fn resolve(self, store: &Store, created: Timestamp) -> (pending: Result<
        Pending,
        BuilderError,
    >)
        ensures
            match pending {
                Ok(p) => self@.resolve(store@, created) == Ok::<PendingView, BuilderError>(p@),
                Err(error) => self@.resolve(store@, created) == Err::<PendingView, BuilderError>(
                    error,
                ),
            },
    {
        let ghost builder = self@;
        let ghost scope = self@.scope();
        let ghost attempts = NAME_GEN_ATTEMPTS as nat;
        let mut resolution = self.begin(created);
        loop
            invariant
                builder == self@,
                scope == builder.scope(),
                attempts == NAME_GEN_ATTEMPTS,
                match resolution@ {
                    ResolutionView::Ask(naming) => {
                        &&& naming.builder == builder
                        &&& naming.created == created
                        &&& match naming.generation {
                            None => builder.basename == Some(naming.name),
                            Some(state) => {
                                &&& builder.basename is None
                                &&& state.now == created
                                &&& state.attempts == NAME_GEN_ATTEMPTS
                                &&& state.tried < state.attempts
                                &&& naming.name == state.current()
                                &&& forall|j: nat|
                                    1 <= j <= state.tried ==> !is_free(
                                        store@,
                                        scope,
                                        #[trigger] candidate(created, j),
                                    )
                            },
                        }
                    },
                    ResolutionView::Settled(pending) => builder.resolve(store@, created) == Ok::<
                        PendingView,
                        BuilderError,
                    >(pending),
                    ResolutionView::Failed(error) => builder.resolve(store@, created) == Err::<
                        PendingView,
                        BuilderError,
                    >(error),
                },
            decreases
                    match resolution@ {
                        ResolutionView::Ask(naming) => match naming.generation {
                            None => 1int,
                            Some(state) => NAME_GEN_ATTEMPTS - state.tried + 1,
                        },
                        _ => 0int,
                    },
        {
            match resolution {
                Resolution::Ask(naming) => {
                    let found = store.name_check(&naming.scope(), naming.name());
                    proof {
                        if let Some(state) = naming@.generation {
                            let count = (state.tried + 1) as nat;
                            if found is None {
                                assert(is_first_free(store@, scope, created, count));
                                lemma_generated_is(store@, scope, created, attempts, count);
                            } else if state.tried + 1 >= state.attempts {
                                lemma_generated_none(store@, scope, created, attempts);
                            }
                        }
                    }
                    resolution = naming.answer(found);
                },
                Resolution::Settled(pending) => {
                    return Ok(pending);
                },
                Resolution::Failed(error) => {
                    return Err(error);
                },
            }
        }
    }

    /// Creates the directory in `store`: settles its name and place, and
    /// inserts its row and tags. `made` is how the creation of the physical
    /// object ends once the build gets that far; the row is inserted only
    /// after the object was made. A given name that an active sibling bears,
    /// a generation that finds no free name, a failure of the backend and a
    /// refusal of the store each end the build and leave the store as it
    /// was.
    pub fn build(self, store: &mut Store, created: Timestamp, made: Result<(), BackendError>) -> (built:
        Result<Directory, BuilderError>)
        ensures
            final(store)@ == self@.build(old(store)@, created, made).0,
            match built {
                Ok(dir) => self@.build(old(store)@, created, made).1 == Ok::<
                    DirectoryView,
                    BuilderError,
                >(dir@),
                Err(error) => self@.build(old(store)@, created, made).1 == Err::<
                    DirectoryView,
                    BuilderError,
                >(error),
            },
            built is Err ==> final(store)@ == old(store)@,
            old(store)@.wf() ==> final(store)@.wf(),
            old(store)@.paths_agree() && (self@.parent matches Some(parent) ==> (retrieved(
                old(store)@,
                parent.id,
            ) matches Some(dir) && dir.full_path() == parent.full_path))
                ==> final(store)@.paths_agree(),
    {
        proof {
            use_type_invariant(&*store);
            if old(store)@.paths_agree() && (self@.parent matches Some(parent) ==> (retrieved(
                old(store)@,
                parent.id,
            ) matches Some(dir) && dir.full_path() == parent.full_path)) {
                crate::guarantees::lemma_build_keeps_paths(old(store)@, self@, created, made);
            }
        }
        let pending = match self.resolve(store, created) {
            Ok(pending) => pending,
            Err(error) => {
                return Err(error);
            },
        };
        match made {
            Ok(_) => {},
            Err(error) => {
                return Err(BuilderError::Backend(error));
            },
        }
        proof {
            if old(store)@.wf() && !old(store)@.has_node(pending@.directory.id) {
                let ghost name = pending@.directory.basename;
                let ghost node = pending@.directory.record();
                assert(scope_of(node.row) == self@.scope());
                if self@.basename is None {
                    super::lemma_generated_free(
                        old(store)@,
                        self@.scope(),
                        created,
                        NAME_GEN_ATTEMPTS as nat,
                    );
                }
                crate::store::lemma_node_insert_keeps_wf(old(store)@, node);
            }
        }
        pending.commit(store)
    }
}

impl Pending {
    /// The directory, for a caller that persists it by its own means.
    pub fn into_directory(self) -> (directory: Directory)
        ensures
            directory@ == self@.directory,
    {
        self.directory
    }

    /// The directory as it will be once it is committed.
    pub fn directory(&self) -> (directory: &Directory)
        ensures
            directory@ == self@.directory,
    {
        &self.directory
    }

    /// Where the physical object of the directory goes: under the root of
    /// the medium, at the directory's stored path and basename.
    pub fn physical_path(&self) -> (path: &str)
        ensures
            path@ == self@.physical,
    {
        self.physical.as_str()
    }

    /// Inserts the row and the tags of the directory into `store`, after its
    /// physical object was created. A row with the same identifier makes the
    /// store refuse, and the store stays as it was.
    pub fn commit(self, store: &mut Store) -> (built: Result<Directory, BuilderError>)
        ensures
            final(store)@ == self@.commit(old(store)@).0,
            match built {
                Ok(dir) => self@.commit(old(store)@).1 == Ok::<DirectoryView, BuilderError>(dir@),
                Err(error) => self@.commit(old(store)@).1 == Err::<DirectoryView, BuilderError>(
                    error,
                ),
            },
            built is Err ==> final(store)@ == old(store)@,
            old(store)@.wf() && is_free(
                old(store)@,
                scope_of(self@.directory.record().row),
                self@.directory.basename,
            ) ==> final(store)@.wf(),
    {
        let record = self.directory.to_record();
        match store.insert_node(record) {
            Ok(_) => Ok(self.directory),
            Err(error) => Err(BuilderError::Store(error)),
        }
    }
}

/// What a retrieval of the directory `id` finds in `store`: the node with that
/// identifier, provided it is a directory; deleted or not.
pub open spec fn retrieved(store: StoreView, id: FSId) -> Option<DirectoryView> {
    match store.find_node(id) {
        Some(node) => if node.row.fs_type == DIR_TYPE {
            Some(DirectoryView::of(node.row, node.tags))
        } else {
            None
        },
        None => None,
    }
}

/// Whether the row is that of a directory with the identifier `id`.
pub open spec fn is_directory_row(node: RecordView, id: FSId) -> bool {
    node.row.id == id && node.row.fs_type == DIR_TYPE
}

/// Where identifiers are keys, a retrieval finds a directory exactly when a
/// directory row bears the identifier.
pub proof fn lemma_retrieved_iff_row(store: StoreView, id: FSId)
    requires
        store.nodes_keyed(),
    ensures
        retrieved(store, id) is Some <==> exists|i: int|
            0 <= i < store.nodes.len() && is_directory_row(#[trigger] store.nodes[i], id),
{
    lemma_first_where(store.nodes, node_is(id));
    if retrieved(store, id) is Some {
        let first = first_where(store.nodes, node_is(id))->0;
        assert(is_directory_row(store.nodes[first], id));
    }
    if exists|i: int| 0 <= i < store.nodes.len() && is_directory_row(#[trigger] store.nodes[i], id) {
        let i = choose|i: int|
            0 <= i < store.nodes.len() && is_directory_row(#[trigger] store.nodes[i], id);
        assert(node_is(id)(store.nodes[i]));
        let first = first_where(store.nodes, node_is(id))->0;
        if first < i {
            assert(store.nodes[first].row.id != store.nodes[i].row.id);
        } else if i < first {
            assert(store.nodes[i].row.id != store.nodes[first].row.id);
        }
    }
}

impl Directory {
    /// Fetches the directory `id` from `store`: its row and its tags, both by
    /// the same identifier. A node of another kind is not found.
    pub fn retrieve(store: &Store, id: &FSId) -> (found: Option<Directory>)
        ensures
            match found {
                Some(dir) => retrieved(store@, *id) == Some(dir@),
                None => retrieved(store@, *id) is None,
            },
            found is Some <==> exists|i: int|
                0 <= i < store@.nodes.len() && is_directory_row(#[trigger] store@.nodes[i], *id),
    {
        proof {
            use_type_invariant(store);
            lemma_retrieved_iff_row(store@, *id);
        }
        let row = match store.fetch_row(id) {
            Some(row) => row,
            None => {
                return None;
            },
        };
        if row.fs_type != DIR_TYPE {
            return None;
        }
        let tags = store.fetch_tags(id);
        Some(
            Directory {
                id: row.id,
                user_id: row.user_id,
                storage: row.storage,
                parent: row.parent,
                basename: row.basename,
                path: row.path,
                tags,
                comment: row.comment,
                created: row.created,
                updated: row.updated,
                deleted: row.deleted,
            },
        )
    }

    /// Starts the builder of a directory with the identifier `id`, owned by
    /// `user_id`, on the medium `storage`, directly under the medium's root.
    pub fn builder(id: FSId, user_id: UserId, storage: &storage::Medium) -> (builder: Builder)
        ensures
            builder@ == (BuilderView {
                id,
                user_id,
                medium: storage.id,
                root: storage.type_.root(),
                parent: None,
                basename: None,
                tags: Map::empty(),
                comment: None,
            }),
    {
        Builder {
            id,
            user_id,
            medium: storage.id,
            backend: storage.type_.clone(),
            parent: None,
            basename: None,
            tags: TagMap::new(),
            comment: None,
        }
    }
}

} // verus!
