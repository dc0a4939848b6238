//! The tree of filesystem nodes.

use vstd::prelude::*;
use vstd::string::*;
use crate::error::BackendError;
use crate::ids::{FSId, StorageId};
use crate::path::{join, joined};
use crate::schema;
use crate::storage::types::PathState;
use crate::store::{Store, StoreView};
use crate::tags::TagMap;
use crate::text::opt_text;
use crate::time::Timestamp;

pub mod checksum;
pub mod consts;
pub mod directory;
pub mod error;
pub mod file;
pub mod naming;
pub mod record;
pub mod root;

pub use directory::Directory;
pub use file::File;
pub use naming::{
    candidate, generated_name, is_first_free, is_free, lemma_generated_free, lemma_generated_is,
    lemma_generated_none, lemma_generated_some, NameGen, Probe, ProbeView,
};
pub use root::Root;

use checksum::{ContentHash, HASH_LEN};
use consts::{DIR_TYPE, FILE_TYPE, ROOT_TYPE};
use directory::DirectoryView;
use error::{ItemError, ValidateError};
use file::{FileView, Mime};
use record::{Record, RecordView, Row, RowView};
use root::RootView;

verus! {

/// The scope in which a basename has to be unique: the entries of one
/// directory, or the entries that sit directly under the root of one medium.
#[derive(Clone, Copy, Debug, PartialEq, Eq, Structural)]
pub enum IdOption {
    Parent(FSId),
    Storage(StorageId),
}

/// Looks up the active entry of `scope` that bears the basename `name`.
pub fn name_check(store: &Store, scope: &IdOption, name: &str) -> (found: Option<FSId>)
    ensures
        found == store@.name_check(*scope, name@),
{
    store.name_check(scope, name)
}

/// Generates a basename that is free in `scope`: tries the candidates for
/// the instant `now` in order, at most `attempts` of them, and returns the
/// first that no active entry of the scope bears. Without a free candidate
/// among them, and so with no attempt allowed at all, there is no name.
pub fn name_gen(store: &Store, scope: &IdOption, now: Timestamp, attempts: usize) -> (name: Option<
    String,
>)
    ensures
        opt_text(name) == generated_name(store@, *scope, now, attempts as nat),
        attempts == 0 ==> name is None,
        name matches Some(n) ==> is_free(store@, *scope, n@) && exists|count: nat|
            1 <= count <= attempts && n@ == #[trigger] candidate(now, count),
        name is None <==> forall|count: nat|
            1 <= count <= attempts ==> !is_free(store@, *scope, #[trigger] candidate(now, count)),
{
    let (mut state, mut probe) = NameGen::start(now, attempts);
    loop
        invariant
            state.now == now,
            state.attempts == attempts,
            match probe@ {
                ProbeView::Check(name) => {
                    &&& state.tried < attempts
                    &&& name == state.current()
                    &&& forall|j: nat|
                        1 <= j <= state.tried ==> !is_free(
                            store@,
                            *scope,
                            #[trigger] candidate(now, j),
                        )
                },
                ProbeView::Done(found) => found == generated_name(
                    store@,
                    *scope,
                    now,
                    attempts as nat,
                ),
            },
        decreases
                attempts - state.tried + (if probe is Check {
                    1int
                } else {
                    0int
                }),
    {
        match probe {
            Probe::Check(name) => {
                let found = store.name_check(scope, name.as_str());
                proof {
                    if found is None {
                        assert(is_first_free(store@, *scope, now, (state.tried + 1) as nat));
                        lemma_generated_is(
                            store@,
                            *scope,
                            now,
                            attempts as nat,
                            (state.tried + 1) as nat,
                        );
                    } else if state.tried + 1 >= attempts {
                        lemma_generated_none(store@, *scope, now, attempts as nat);
                    }
                }
                let (next, asked) = state.step(found);
                state = next;
                probe = asked;
            },
            Probe::Done(name) => {
                proof {
                    lemma_generated_free(store@, *scope, now, attempts as nat);
                    lemma_generated_none(store@, *scope, now, attempts as nat);
                    lemma_generated_some(store@, *scope, now, attempts as nat);
                }
                return name;
            },
        }
    }
}

/// The sentence that says that the directory called `name` is missing.
pub open spec fn missing_message(name: Seq<char>) -> Seq<char> {
    "given "@ + name + " does not exist"@
}

/// The sentence that says that what is called `name` is no directory.
pub open spec fn not_directory_message(name: Seq<char>) -> Seq<char> {
    "given "@ + name + " is not a directory"@
}

/// The path that the disk is to make canonical in order to validate `path`:
/// `path` adjoined to the working directory `cwd`, which is `path` itself
/// when it starts at the root. Every path is made canonical, whether it is
/// relative or not, so that what is validated bears no `.` or `..` and goes
/// through no link.
pub fn validate_dir_lookup(cwd: &str, path: &str) -> (target: String)
    ensures
        target@ == joined(cwd@, path@),
{
    join(cwd, path)
}

/// Validates the directory that a setting called `name` points to, given
/// what the disk `found` when it made the path canonical: the canonical
/// path and what lies there, or the failure to get that far. A path that
/// does not exist is refused as not found, one that is no directory as not a
/// directory, each with a sentence that names the setting; any other failure
/// of the disk is handed on. What is accepted is the canonical path.
pub fn validate_dir(name: &str, found: Result<(String, PathState), BackendError>) -> (valid: Result<
    String,
    ValidateError,
>)
    ensures
        match valid {
            Ok(path) => found matches Ok((resolved, state)) && state == PathState::Directory
                && path == resolved,
            Err(ValidateError::NotFound(message)) => {
                &&& found == Err::<(String, PathState), BackendError>(BackendError::NotFound)
                    || (found matches Ok((_, state)) && state == PathState::Missing)
                &&& message@ == missing_message(name@)
            },
            Err(ValidateError::NotADirectory(message)) => {
                &&& found matches Ok((_, state)) && state == PathState::NotDirectory
                &&& message@ == not_directory_message(name@)
            },
            Err(ValidateError::Backend(error)) => found == Err::<(String, PathState), BackendError>(
                error,
            ) && error != BackendError::NotFound,
        },
{
    match found {
        Ok((resolved, PathState::Directory)) => Ok(resolved),
        Ok((_, PathState::Missing)) | Err(BackendError::NotFound) => {
            let mut message = String::new();
            message.append("given ");
            message.append(name);
            message.append(" does not exist");
            assert(message@ =~= missing_message(name@));
            Err(ValidateError::NotFound(message))
        },
        Ok((_, PathState::NotDirectory)) => {
            let mut message = String::new();
            message.append("given ");
            message.append(name);
            message.append(" is not a directory");
            assert(message@ =~= not_directory_message(name@));
            Err(ValidateError::NotADirectory(message))
        },
        Err(error) => Err(ValidateError::Backend(error)),
    }
}

/// A node of any kind.
#[derive(Debug)]
pub enum Item {
    Root(Root),
    Directory(Directory),
    File(File),
}

/// A node of any kind over plain values.
pub enum ItemView {
    Root(RootView),
    Directory(DirectoryView),
    File(FileView),
}

impl ItemView {
    /// The identifier of the node.
    pub open spec fn id(self) -> FSId {
        match self {
            ItemView::Root(root) => root.id,
            ItemView::Directory(dir) => dir.id,
            ItemView::File(file) => file.id,
        }
    }

    /// The medium that the node lives on.
    pub open spec fn storage_id(self) -> StorageId {
        match self {
            ItemView::Root(root) => root.storage.medium(),
            ItemView::Directory(dir) => dir.storage.medium(),
            ItemView::File(file) => file.storage.medium(),
        }
    }

    /// The path of the node inside its medium: empty for a root, else the
    /// stored path followed by the basename.
    pub open spec fn full_path(self) -> Seq<char> {
        match self {
            ItemView::Root(_) => Seq::empty(),
            ItemView::Directory(dir) => dir.full_path(),
            ItemView::File(file) => file.full_path(),
        }
    }

    /// The comment on the node.
    pub open spec fn comment(self) -> Option<Seq<char>> {
        match self {
            ItemView::Root(root) => root.comment,
            ItemView::Directory(dir) => dir.comment,
            ItemView::File(file) => file.comment,
        }
    }

    /// The tags of the node.
    pub open spec fn tags(self) -> Map<Seq<char>, Option<Seq<char>>> {
        match self {
            ItemView::Root(root) => root.tags,
            ItemView::Directory(dir) => dir.tags,
            ItemView::File(file) => file.tags,
        }
    }

    /// The same node with another comment.
    pub open spec fn with_comment(self, comment: Option<Seq<char>>) -> ItemView {
        match self {
            ItemView::Root(root) => ItemView::Root(RootView { comment, ..root }),
            ItemView::Directory(dir) => ItemView::Directory(DirectoryView { comment, ..dir }),
            ItemView::File(file) => ItemView::File(FileView { comment, ..file }),
        }
    }

    /// The same node with other tags.
    pub open spec fn with_tags(self, tags: Map<Seq<char>, Option<Seq<char>>>) -> ItemView {
        match self {
            ItemView::Root(root) => ItemView::Root(RootView { tags, ..root }),
            ItemView::Directory(dir) => ItemView::Directory(DirectoryView { tags, ..dir }),
            ItemView::File(file) => ItemView::File(FileView { tags, ..file }),
        }
    }

    /// The row and tags that persist the node.
    pub open spec fn record(self) -> RecordView {
        match self {
            ItemView::Root(root) => root.record(),
            ItemView::Directory(dir) => dir.record(),
            ItemView::File(file) => file.record(),
        }
    }

    /// The node that a row and the tags fetched with it stand for. The row's
    /// kind decides the variant; a kind that is none of the three is an
    /// error, and so is the row of a file without a size or without a hash
    /// of 32 bytes.
    pub open spec fn of(row: RowView, tags: Map<Seq<char>, Option<Seq<char>>>) -> Result<
        ItemView,
        ItemError,
    > {
        if row.fs_type == ROOT_TYPE {
            Ok(ItemView::Root(RootView::of(row, tags)))
        } else if row.fs_type == FILE_TYPE {
            if row.size is None {
                Err(ItemError::MissingSize)
            } else if row.hash is None || row.hash->0.len() != HASH_LEN {
                Err(ItemError::InvalidHash)
            } else {
                Ok(ItemView::File(FileView::of(row, tags)))
            }
        } else if row.fs_type == DIR_TYPE {
            Ok(ItemView::Directory(DirectoryView::of(row, tags)))
        } else {
            Err(ItemError::UnexpectedType(row.fs_type))
        }
    }
}

impl View for Item {
    type V = ItemView;

    open spec fn view(&self) -> ItemView {
        match self {
            Item::Root(root) => ItemView::Root(root@),
            Item::Directory(dir) => ItemView::Directory(dir@),
            Item::File(file) => ItemView::File(file@),
        }
    }
}

/// What a retrieval of the node `id` finds in `store`: nothing where no row
/// has that identifier, else the node that the row and its tags stand for, or
/// the reason why they stand for none.
pub open spec fn retrieved(store: StoreView, id: FSId) -> Result<Option<ItemView>, ItemError> {
    match store.find_node(id) {
        Some(node) => match ItemView::of(node.row, node.tags) {
            Ok(item) => Ok(Some(item)),
            Err(error) => Err(error),
        },
        None => Ok(None),
    }
}

impl Item {
    /// Fetches the node `id` from `store`: its row and its tags, both by the
    /// same identifier, combined into the kind of node that the row records.
    pub fn retrieve(store: &Store, id: &FSId) -> (found: Result<Option<Item>, ItemError>)
        ensures
            match found {
                Ok(Some(item)) => retrieved(store@, *id) == Ok::<Option<ItemView>, ItemError>(
                    Some(item@),
                ),
                Ok(None) => retrieved(store@, *id) == Ok::<Option<ItemView>, ItemError>(None),
                Err(error) => retrieved(store@, *id) == Err::<Option<ItemView>, ItemError>(error),
            },
    {
        let row = store.fetch_row(id);
        let tags = store.fetch_tags(id);
        match row {
            Some(row) => match Item::query_to_item(row, tags) {
                Ok(item) => Ok(Some(item)),
                Err(error) => Err(error),
            },
            None => Ok(None),
        }
    }

    /// Combines a fetched row and the tags fetched with it into the node
    /// that they stand for.
    pub fn query_to_item(row: Row, tags: TagMap) -> (item: Result<Item, ItemError>)
        ensures
            match item {
                Ok(node) => ItemView::of(row@, tags@) == Ok::<ItemView, ItemError>(node@),
                Err(error) => ItemView::of(row@, tags@) == Err::<ItemView, ItemError>(error),
            },
    {
        let fs_type = row.fs_type;
        if fs_type == ROOT_TYPE {
            Ok(
                Item::Root(
                    Root {
                        id: row.id,
                        user_id: row.user_id,
                        storage: row.storage,
                        tags,
                        comment: row.comment,
                        created: row.created,
                        updated: row.updated,
                        deleted: row.deleted,
                    },
                ),
            )
        } else if fs_type == FILE_TYPE {
            let size = match row.size {
                Some(size) => size,
                None => {
                    return Err(ItemError::MissingSize);
                },
            };
            let hash = match &row.hash {
                Some(bytes) => match ContentHash::from_bytes(bytes) {
                    Some(hash) => hash,
                    None => {
                        return Err(ItemError::InvalidHash);
                    },
                },
                None => {
                    return Err(ItemError::InvalidHash);
                },
            };
            Ok(
                Item::File(
                    File {
                        id: row.id,
                        user_id: row.user_id,
                        storage: row.storage,
                        parent: row.parent,
                        path: row.path,
                        basename: row.basename,
                        mime: Mime { type_: row.mime_type, subtype: row.mime_subtype },
                        size,
                        hash,
                        tags,
                        comment: row.comment,
                        created: row.created,
                        updated: row.updated,
                        deleted: row.deleted,
                    },
                ),
            )
        } else if fs_type == DIR_TYPE {
            Ok(
                Item::Directory(
                    Directory {
                        id: row.id,
                        user_id: row.user_id,
                        storage: row.storage,
                        parent: row.parent,
                        path: row.path,
                        basename: row.basename,
                        tags,
                        comment: row.comment,
                        created: row.created,
                        updated: row.updated,
                        deleted: row.deleted,
                    },
                ),
            )
        } else {
            Err(ItemError::UnexpectedType(fs_type))
        }
    }

    /// The row and tags that persist the node. Read back, they stand for
    /// this node again.
    pub fn to_record(&self) -> (record: Record)
        ensures
            record@ == self@.record(),
            ItemView::of(record@.row, record@.tags) == Ok::<ItemView, ItemError>(self@),
    {
        proof {
            if let Item::File(file) = self {
                file.hash.lemma_width();
            }
            crate::guarantees::lemma_record_round_trip(self@);
        }
        match self {
            Item::Root(root) => root.to_record(),
            Item::Directory(dir) => dir.to_record(),
            Item::File(file) => file.to_record(),
        }
    }

    /// The identifier of the node.
    pub fn id(&self) -> (id: &FSId)
        ensures
            *id == self@.id(),
    {
        match self {
            Item::Root(root) => &root.id,
            Item::Directory(dir) => &dir.id,
            Item::File(file) => &file.id,
        }
    }

    /// Whether the node is a file.
    pub fn is_file(&self) -> (is_file: bool)
        ensures
            is_file == (self is File),
    {
        match self {
            Item::File(_) => true,
            _ => false,
        }
    }

    /// The file that the node is, if it is one.
    pub fn try_into_file(self) -> (file: Option<File>)
        ensures
            file == (match self {
                Item::File(f) => Some(f),
                _ => None,
            }),
    {
        match self {
            Item::File(file) => Some(file),
            _ => None,
        }
    }

    /// The file that the node is.
    pub fn into_file(self) -> (file: File)
        requires
            self is File,
        ensures
            self == Item::File(file),
    {
        match self {
            Item::File(file) => file,
            _ => vstd::pervasive::unreached(),
        }
    }

    /// The medium that the node lives on.
    pub fn storage_id(&self) -> (id: &StorageId)
        ensures
            *id == self@.storage_id(),
    {
        match self {
            Item::Root(root) => root.storage.id(),
            Item::Directory(dir) => dir.storage.id(),
            Item::File(file) => file.storage.id(),
        }
    }

    /// The path of the node inside its medium.
    pub fn full_path(&self) -> (path: String)
        ensures
            path@ == self@.full_path(),
    {
        match self {
            Item::Root(root) => root.full_path(),
            Item::Directory(dir) => dir.full_path(),
            Item::File(file) => file.full_path(),
        }
    }

    /// The public projection of the node; a directory is shown without any
    /// of its entries.
    pub fn into_schema(self) -> (model: schema::fs::Item)
        ensures
            model@ == self@,
            model.is_bare(),
    {
        match self {
            Item::Root(root) => schema::fs::Item::Root(root.into_schema()),
            Item::Directory(dir) => schema::fs::Item::Directory(dir.into_schema()),
            Item::File(file) => schema::fs::Item::File(file.into_schema()),
        }
    }

    /// Replaces the comment on the node and returns the one it had.
    pub fn set_comment(&mut self, comment: Option<String>) -> (previous: Option<String>)
        ensures
            final(self)@ == old(self)@.with_comment(opt_text(comment)),
            opt_text(previous) == old(self)@.comment(),
    {
        let mut held = comment;
        match self {
            Item::Root(root) => std::mem::swap(&mut root.comment, &mut held),
            Item::Directory(dir) => std::mem::swap(&mut dir.comment, &mut held),
            Item::File(file) => std::mem::swap(&mut file.comment, &mut held),
        }
        held
    }

    /// Replaces the tags of the node and returns the ones it had.
    pub fn set_tags(&mut self, tags: TagMap) -> (previous: TagMap)
        ensures
            final(self)@ == old(self)@.with_tags(tags@),
            previous@ == old(self)@.tags(),
    {
        let mut held = tags;
        match self {
            Item::Root(root) => std::mem::swap(&mut root.tags, &mut held),
            Item::Directory(dir) => std::mem::swap(&mut dir.tags, &mut held),
            Item::File(file) => std::mem::swap(&mut file.tags, &mut held),
        }
        held
    }
}

impl From<Root> for Item {
    fn from(root: Root) -> (item: Item) {
        Item::Root(root)
    }
}

impl vstd::std_specs::convert::FromSpecImpl<Root> for Item {
    open spec fn obeys_from_spec() -> bool {
        true
    }

    open spec fn from_spec(root: Root) -> Item {
        Item::Root(root)
    }
}

impl From<Directory> for Item {
    fn from(dir: Directory) -> (item: Item) {
        Item::Directory(dir)
    }
}

impl vstd::std_specs::convert::FromSpecImpl<Directory> for Item {
    open spec fn obeys_from_spec() -> bool {
        true
    }

    open spec fn from_spec(dir: Directory) -> Item {
        Item::Directory(dir)
    }
}

impl From<File> for Item {
    fn from(file: File) -> (item: Item) {
        Item::File(file)
    }
}

impl vstd::std_specs::convert::FromSpecImpl<File> for Item {
    open spec fn obeys_from_spec() -> bool {
        true
    }

    open spec fn from_spec(file: File) -> Item {
        Item::File(file)
    }
}

} // verus!
