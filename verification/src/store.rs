//! The metadata store: the table of storage mediums and the table of
//! filesystem nodes, with the statements that the engine runs against them.
//!
//! The store keeps rows in the order in which they were inserted. It enforces
//! primary keys on insertion and nothing else: the rules on names are the
//! engine's, which checks them before it inserts. A store is consistent when
//! its keys are unique and no name is borne twice among the active entries of
//! a scope; the engine's operations keep a consistent store consistent. That
//! identifiers are keys holds of every store: it is an invariant of the type.

use vstd::prelude::*;
use vstd::string::*;
use crate::error::StoreError;
use crate::fs::consts::ROOT_TYPE;
use crate::fs::record::{Record, RecordView, Row, RowView};
use crate::fs::IdOption;
use crate::ids::{FSId, StorageId, UserId};
use crate::path::joined;
use crate::schema::storage::StorageItemView;
use crate::storage::medium::Medium;
use crate::tags::{opt_tags, TagMap};
use crate::text::opt_text;
use crate::time::Timestamp;

verus! {

/// Whether `i` is the first position of `s` whose element satisfies `p`.
pub open spec fn is_first<T>(s: Seq<T>, p: spec_fn(T) -> bool, i: int) -> bool {
    &&& 0 <= i < s.len()
    &&& p(s[i])
    &&& forall|j: int| 0 <= j < i ==> !p(#[trigger] s[j])
}

/// The first position of `s` whose element satisfies `p`, if there is one.
pub open spec fn first_where<T>(s: Seq<T>, p: spec_fn(T) -> bool) -> Option<int> {
    if exists|i: int| is_first(s, p, i) {
        Some(choose|i: int| is_first(s, p, i))
    } else {
        None
    }
}

/// A first position is the first position.
pub proof fn lemma_first_is<T>(s: Seq<T>, p: spec_fn(T) -> bool, i: int)
    requires
        is_first(s, p, i),
    ensures
        first_where(s, p) == Some(i),
{
    let k = choose|k: int| is_first(s, p, k);
    assert(is_first(s, p, k));
    if k < i {
        assert(!p(s[k]));
    } else if i < k {
        assert(!p(s[i]));
    }
}

/// Where no element satisfies `p`, there is no first position.
pub proof fn lemma_first_none<T>(s: Seq<T>, p: spec_fn(T) -> bool)
    requires
        forall|j: int| 0 <= j < s.len() ==> !p(#[trigger] s[j]),
    ensures
        first_where(s, p) is None,
{
    if exists|i: int| is_first(s, p, i) {
        let k = choose|k: int| is_first(s, p, k);
        assert(!p(s[k]));
    }
}

/// What `first_where` says when it finds a position, and when it does not.
pub proof fn lemma_first_where<T>(s: Seq<T>, p: spec_fn(T) -> bool)
    ensures
        first_where(s, p) matches Some(i) ==> is_first(s, p, i),
        first_where(s, p) is None ==> forall|j: int| 0 <= j < s.len() ==> !p(#[trigger] s[j]),
    decreases s.len(),
{
    if first_where(s, p) is None {
        assert forall|j: int| 0 <= j < s.len() implies !p(#[trigger] s[j]) by {
            if p(s[j]) {
                lemma_some_first(s, p, j);
            }
        }
    }
}

/// Where some element satisfies `p`, there is a first position.
pub proof fn lemma_some_first<T>(s: Seq<T>, p: spec_fn(T) -> bool, j: int)
    requires
        0 <= j < s.len(),
        p(s[j]),
    ensures
        exists|i: int| is_first(s, p, i),
    decreases j,
{
    if forall|k: int| 0 <= k < j ==> !p(#[trigger] s[k]) {
        assert(is_first(s, p, j));
    } else {
        let k = choose|k: int| 0 <= k < j && p(#[trigger] s[k]);
        lemma_some_first(s, p, k);
    }
}

/// The first position after one more element was appended.
pub proof fn lemma_first_where_push<T>(s: Seq<T>, p: spec_fn(T) -> bool, x: T)
    ensures
        first_where(s.push(x), p) == (match first_where(s, p) {
            Some(i) => Some(i),
            None => if p(x) {
                Some(s.len() as int)
            } else {
                None
            },
        }),
{
    let t = s.push(x);
    lemma_first_where(s, p);
    assert forall|j: int| 0 <= j < s.len() implies #[trigger] t[j] == s[j] by {}
    match first_where(s, p) {
        Some(i) => {
            assert(t[i] == s[i]);
            assert(is_first(t, p, i));
            lemma_first_is(t, p, i);
        },
        None => {
            assert(t[s.len() as int] == x);
            if p(x) {
                assert(is_first(t, p, s.len() as int));
                lemma_first_is(t, p, s.len() as int);
            } else {
                lemma_first_none(t, p);
            }
        },
    }
}

/// The medium has the identifier `id`.
pub open spec fn medium_is(id: StorageId) -> spec_fn(StorageItemView) -> bool {
    |m: StorageItemView| m.id == id
}

/// The medium has the identifier `id` and belongs to `user`.
pub open spec fn medium_of(user: UserId, id: StorageId) -> spec_fn(StorageItemView) -> bool {
    |m: StorageItemView| m.id == id && m.user_id == user
}

/// The medium is active, belongs to `user` and is named `name`.
pub open spec fn medium_named(user: UserId, name: Seq<char>) -> spec_fn(StorageItemView) -> bool {
    |m: StorageItemView| m.user_id == user && m.name == name && m.deleted is None
}

/// The node has the identifier `id`.
pub open spec fn node_is(id: FSId) -> spec_fn(RecordView) -> bool {
    |r: RecordView| r.row.id == id
}

/// The scope in which the basename of a node has to be unique.
pub open spec fn scope_of(row: RowView) -> IdOption {
    match row.parent {
        Some(parent) => IdOption::Parent(parent),
        None => IdOption::Storage(row.storage.medium()),
    }
}

/// The path of a node inside its medium: empty for a root, else the stored
/// path followed by the basename.
pub open spec fn full_path_of(row: RowView) -> Seq<char> {
    if row.fs_type == ROOT_TYPE {
        Seq::empty()
    } else {
        joined(row.path, row.basename)
    }
}

/// The node is an active, named entry of `scope`.
pub open spec fn in_scope(scope: IdOption, row: RowView) -> bool {
    row.fs_type != ROOT_TYPE && row.deleted is None && scope_of(row) == scope
}

/// The node is an active entry of `scope` with the basename `name`.
pub open spec fn sibling_named(scope: IdOption, name: Seq<char>) -> spec_fn(RecordView) -> bool {
    |r: RecordView| in_scope(scope, r.row) && r.row.basename == name
}

/// The medium after a soft delete of the medium `id` at the instant `at`.
pub open spec fn medium_after_delete(id: StorageId, at: Timestamp) -> spec_fn(
    StorageItemView,
) -> StorageItemView {
    |m: StorageItemView|
        if m.id == id {
            StorageItemView { deleted: Some(at), ..m }
        } else {
            m
        }
}

/// The node after a soft delete of the medium `id` at the instant `at`.
pub open spec fn node_after_medium_delete(id: StorageId, at: Timestamp) -> spec_fn(
    RecordView,
) -> RecordView {
    |r: RecordView|
        if r.row.storage.medium() == id {
            RecordView { row: RowView { deleted: Some(at), ..r.row }, ..r }
        } else {
            r
        }
}

/// The node after a soft delete of the node `id` at the instant `at`.
pub open spec fn node_after_delete(id: FSId, at: Timestamp) -> spec_fn(RecordView) -> RecordView {
    |r: RecordView|
        if r.row.id == id {
            RecordView { row: RowView { deleted: Some(at), ..r.row }, ..r }
        } else {
            r
        }
}

/// The medium after an update: a new name and new tags where they are given,
/// and the instant of the update where one is given.
pub open spec fn medium_after_update(
    id: StorageId,
    name: Option<Seq<char>>,
    tags: Option<Map<Seq<char>, Option<Seq<char>>>>,
    updated: Option<Timestamp>,
) -> spec_fn(StorageItemView) -> StorageItemView {
    |m: StorageItemView|
        if m.id == id {
            StorageItemView {
                name: match name {
                    Some(n) => n,
                    None => m.name,
                },
                tags: match tags {
                    Some(t) => t,
                    None => m.tags,
                },
                updated: match updated {
                    Some(u) => Some(u),
                    None => m.updated,
                },
                ..m
            }
        } else {
            m
        }
}

/// The tables of the store over plain values.
pub struct StoreView {
    pub media: Seq<StorageItemView>,
    pub nodes: Seq<RecordView>,
}

impl StoreView {
    /// The store without any row.
    pub open spec fn empty() -> StoreView {
        StoreView { media: Seq::empty(), nodes: Seq::empty() }
    }

    /// Whether a medium row has the primary key `id`.
    pub open spec fn has_medium(self, id: StorageId) -> bool {
        first_where(self.media, medium_is(id)) is Some
    }

    /// The medium `id` of `user`, deleted or not.
    pub open spec fn find_medium(self, user: UserId, id: StorageId) -> Option<StorageItemView> {
        match first_where(self.media, medium_of(user, id)) {
            Some(i) => Some(self.media[i]),
            None => None,
        }
    }

    /// The active medium of `user` that is named `name`.
    pub open spec fn medium_name_check(self, user: UserId, name: Seq<char>) -> Option<StorageId> {
        match first_where(self.media, medium_named(user, name)) {
            Some(i) => Some(self.media[i].id),
            None => None,
        }
    }

    /// Whether a node row has the primary key `id`.
    pub open spec fn has_node(self, id: FSId) -> bool {
        first_where(self.nodes, node_is(id)) is Some
    }

    /// The node `id`, deleted or not.
    pub open spec fn find_node(self, id: FSId) -> Option<RecordView> {
        match first_where(self.nodes, node_is(id)) {
            Some(i) => Some(self.nodes[i]),
            None => None,
        }
    }

    /// The active entry of `scope` with the basename `name`.
    pub open spec fn name_check(self, scope: IdOption, name: Seq<char>) -> Option<FSId> {
        match first_where(self.nodes, sibling_named(scope, name)) {
            Some(i) => Some(self.nodes[i].row.id),
            None => None,
        }
    }

    /// The store with one more medium row.
    pub open spec fn with_medium(self, medium: StorageItemView) -> StoreView {
        StoreView { media: self.media.push(medium), ..self }
    }

    /// The store with one more node row.
    pub open spec fn with_node(self, node: RecordView) -> StoreView {
        StoreView { nodes: self.nodes.push(node), ..self }
    }

    /// The store after the medium `id` was updated.
    pub open spec fn with_medium_updated(
        self,
        id: StorageId,
        name: Option<Seq<char>>,
        tags: Option<Map<Seq<char>, Option<Seq<char>>>>,
        updated: Option<Timestamp>,
    ) -> StoreView {
        StoreView {
            media: self.media.map_values(medium_after_update(id, name, tags, updated)),
            ..self
        }
    }

    /// The store after the medium `id` was soft-deleted at `at`: the medium
    /// and every node that lives on it bear that instant as their deletion
    /// mark; every other row is as it was.
    pub open spec fn with_medium_deleted(self, id: StorageId, at: Timestamp) -> StoreView {
        StoreView {
            media: self.media.map_values(medium_after_delete(id, at)),
            nodes: self.nodes.map_values(node_after_medium_delete(id, at)),
        }
    }

    /// The store after the node `id` was soft-deleted at `at`.
    pub open spec fn with_node_deleted(self, id: FSId, at: Timestamp) -> StoreView {
        StoreView { nodes: self.nodes.map_values(node_after_delete(id, at)), ..self }
    }

    /// No two medium rows share an identifier.
    pub open spec fn media_keyed(self) -> bool {
        forall|i: int, j: int|
            #![trigger self.media[i], self.media[j]]
            0 <= i < j < self.media.len() ==> self.media[i].id != self.media[j].id
    }

    /// No two node rows share an identifier.
    pub open spec fn nodes_keyed(self) -> bool {
        forall|i: int, j: int|
            #![trigger self.nodes[i], self.nodes[j]]
            0 <= i < j < self.nodes.len() ==> self.nodes[i].row.id != self.nodes[j].row.id
    }

    /// No two active mediums of one user share a name.
    pub open spec fn media_names_unique(self) -> bool {
        forall|i: int, j: int|
            #![trigger self.media[i], self.media[j]]
            0 <= i < j < self.media.len() && self.media[i].deleted is None
                && self.media[j].deleted is None && self.media[i].user_id
                == self.media[j].user_id ==> self.media[i].name != self.media[j].name
    }

    /// No two active entries of one scope share a basename.
    pub open spec fn basenames_unique(self) -> bool {
        forall|i: int, j: int|
            #![trigger self.nodes[i], self.nodes[j]]
            0 <= i < j < self.nodes.len() && in_scope(scope_of(self.nodes[i].row), self.nodes[i].row)
                && in_scope(scope_of(self.nodes[i].row), self.nodes[j].row)
                ==> self.nodes[i].row.basename != self.nodes[j].row.basename
    }

    /// Every parent that a node names is there, and the stored path of the
    /// node is the full path of that parent.
    pub open spec fn paths_agree(self) -> bool {
        &&& forall|i: int|
            0 <= i < self.nodes.len() && (#[trigger] self.nodes[i]).row.parent is Some
                ==> self.has_node(self.nodes[i].row.parent->0)
        &&& forall|i: int, j: int|
            #![trigger self.nodes[i], self.nodes[j]]
            0 <= i < self.nodes.len() && 0 <= j < self.nodes.len() && self.nodes[i].row.parent
                == Some(self.nodes[j].row.id) ==> self.nodes[i].row.path == full_path_of(
                self.nodes[j].row,
            )
    }

    /// The store is consistent: identifiers are keys, and names are unique
    /// among the active entries of each scope.
    pub open spec fn wf(self) -> bool {
        &&& self.media_keyed()
        &&& self.nodes_keyed()
        &&& self.media_names_unique()
        &&& self.basenames_unique()
    }
}

/// Adding an active medium under a name that is free for its owner keeps the
/// store consistent.
pub proof fn lemma_medium_insert_keeps_wf(store: StoreView, medium: StorageItemView)
    requires
        store.wf(),
        !store.has_medium(medium.id),
        store.medium_name_check(medium.user_id, medium.name) is None,
    ensures
        store.with_medium(medium).wf(),
{
    let after = store.with_medium(medium);
    let n = store.media.len() as int;
    lemma_first_where(store.media, medium_is(medium.id));
    lemma_first_where(store.media, medium_named(medium.user_id, medium.name));
    assert(after.nodes == store.nodes);
    assert forall|i: int, j: int| 0 <= i < j < after.media.len() implies after.media[i].id
        != after.media[j].id by {
        if j < n {
            assert(store.media[i].id != store.media[j].id);
        } else {
            assert(!medium_is(medium.id)(store.media[i]));
        }
    }
    assert forall|i: int, j: int|
        0 <= i < j < after.media.len() && after.media[i].deleted is None
            && after.media[j].deleted is None && after.media[i].user_id
            == after.media[j].user_id implies after.media[i].name != after.media[j].name by {
        if j < n {
            assert(store.media[i].name != store.media[j].name);
        } else {
            assert(!medium_named(medium.user_id, medium.name)(store.media[i]));
        }
    }
}

/// Adding an active entry under a free name keeps the store consistent.
pub proof fn lemma_node_insert_keeps_wf(store: StoreView, node: RecordView)
    requires
        store.wf(),
        !store.has_node(node.row.id),
        store.name_check(scope_of(node.row), node.row.basename) is None,
    ensures
        store.with_node(node).wf(),
{
    let after = store.with_node(node);
    let n = store.nodes.len() as int;
    lemma_first_where(store.nodes, node_is(node.row.id));
    lemma_first_where(store.nodes, sibling_named(scope_of(node.row), node.row.basename));
    assert(after.media == store.media);
    assert forall|i: int, j: int| 0 <= i < j < after.nodes.len() implies after.nodes[i].row.id
        != after.nodes[j].row.id by {
        if j < n {
            assert(store.nodes[i].row.id != store.nodes[j].row.id);
        } else {
            assert(!node_is(node.row.id)(store.nodes[i]));
        }
    }
    assert forall|i: int, j: int|
        0 <= i < j < after.nodes.len() && in_scope(scope_of(after.nodes[i].row), after.nodes[i].row)
            && in_scope(
            scope_of(after.nodes[i].row),
            after.nodes[j].row,
        ) implies after.nodes[i].row.basename != after.nodes[j].row.basename by {
        if j < n {
            assert(store.nodes[i].row.basename != store.nodes[j].row.basename);
        } else {
            assert(!sibling_named(scope_of(node.row), node.row.basename)(store.nodes[i]));
        }
    }
}

/// Whether `after` is `before` with deletion marks set or renewed on some
/// rows: the tables are as long as before, and row by row the identifier,
/// the owner, the names, the place in the tree and the kind are the same,
/// and no deletion mark is cleared.
pub open spec fn marked(before: StoreView, after: StoreView) -> bool {
    &&& after.media.len() == before.media.len()
    &&& after.nodes.len() == before.nodes.len()
    &&& forall|i: int|
        0 <= i < before.media.len() ==> {
            let was = before.media[i];
            let is = #[trigger] after.media[i];
            &&& is.id == was.id
            &&& is.user_id == was.user_id
            &&& is.name == was.name
            &&& was.deleted is Some ==> is.deleted is Some
        }
    &&& forall|i: int|
        0 <= i < before.nodes.len() ==> {
            let was = before.nodes[i].row;
            let is = (#[trigger] after.nodes[i]).row;
            &&& is.id == was.id
            &&& is.parent == was.parent
            &&& is.storage == was.storage
            &&& is.fs_type == was.fs_type
            &&& is.basename == was.basename
            &&& is.path == was.path
            &&& was.deleted is Some ==> is.deleted is Some
        }
}

/// Soft deletes set deletion marks and change nothing else.
pub proof fn lemma_deletes_mark(store: StoreView, medium: StorageId, node: FSId, at: Timestamp)
    ensures
        marked(store, store.with_medium_deleted(medium, at)),
        marked(store, store.with_node_deleted(node, at)),
{
}

/// Setting deletion marks keeps identifiers unique.
pub proof fn lemma_marks_keep_keys(before: StoreView, after: StoreView)
    requires
        before.media_keyed(),
        before.nodes_keyed(),
        marked(before, after),
    ensures
        after.media_keyed(),
        after.nodes_keyed(),
{
    assert forall|i: int, j: int| 0 <= i < j < after.media.len() implies after.media[i].id
        != after.media[j].id by {
        assert(before.media[i].id != before.media[j].id);
    }
    assert forall|i: int, j: int| 0 <= i < j < after.nodes.len() implies after.nodes[i].row.id
        != after.nodes[j].row.id by {
        assert(before.nodes[i].row.id != before.nodes[j].row.id);
    }
}

/// A medium row with a new identifier keeps identifiers unique.
pub proof fn lemma_push_keeps_media_keyed(store: StoreView, medium: StorageItemView)
    requires
        store.media_keyed(),
        !store.has_medium(medium.id),
    ensures
        store.with_medium(medium).media_keyed(),
{
    let after = store.with_medium(medium);
    lemma_first_where(store.media, medium_is(medium.id));
    assert forall|i: int, j: int| 0 <= i < j < after.media.len() implies after.media[i].id
        != after.media[j].id by {
        if j < store.media.len() {
            assert(store.media[i].id != store.media[j].id);
        } else {
            assert(!medium_is(medium.id)(store.media[i]));
        }
    }
}

/// A node row with a new identifier keeps identifiers unique.
pub proof fn lemma_push_keeps_nodes_keyed(store: StoreView, node: RecordView)
    requires
        store.nodes_keyed(),
        !store.has_node(node.row.id),
    ensures
        store.with_node(node).nodes_keyed(),
{
    let after = store.with_node(node);
    lemma_first_where(store.nodes, node_is(node.row.id));
    assert forall|i: int, j: int| 0 <= i < j < after.nodes.len() implies after.nodes[i].row.id
        != after.nodes[j].row.id by {
        if j < store.nodes.len() {
            assert(store.nodes[i].row.id != store.nodes[j].row.id);
        } else {
            assert(!node_is(node.row.id)(store.nodes[i]));
        }
    }
}

/// Setting deletion marks keeps a store consistent.
pub proof fn lemma_marks_keep_wf(before: StoreView, after: StoreView)
    requires
        before.wf(),
        marked(before, after),
    ensures
        after.wf(),
{
    lemma_marks_keep_keys(before, after);
    assert forall|i: int, j: int|
        0 <= i < j < after.media.len() && after.media[i].deleted is None
            && after.media[j].deleted is None && after.media[i].user_id
            == after.media[j].user_id implies after.media[i].name != after.media[j].name by {
        assert(before.media[i].name != before.media[j].name);
    }
    assert forall|i: int, j: int|
        0 <= i < j < after.nodes.len() && in_scope(scope_of(after.nodes[i].row), after.nodes[i].row)
            && in_scope(
            scope_of(after.nodes[i].row),
            after.nodes[j].row,
        ) implies after.nodes[i].row.basename != after.nodes[j].row.basename by {
        assert(before.nodes[i].row.basename != before.nodes[j].row.basename);
    }
}

/// Setting deletion marks keeps the paths of a store in agreement.
pub proof fn lemma_marks_keep_paths(before: StoreView, after: StoreView)
    requires
        before.paths_agree(),
        marked(before, after),
    ensures
        after.paths_agree(),
{
    assert forall|i: int|
        0 <= i < after.nodes.len() && (#[trigger] after.nodes[i]).row.parent is Some implies after.has_node(
        after.nodes[i].row.parent->0,
    ) by {
        lemma_same_keys(before.nodes, after.nodes, before.nodes[i].row.parent->0);
    }
    assert forall|i: int, j: int|
        0 <= i < after.nodes.len() && 0 <= j < after.nodes.len() && after.nodes[i].row.parent
            == Some(after.nodes[j].row.id) implies after.nodes[i].row.path == full_path_of(
        after.nodes[j].row,
    ) by {
        assert(before.nodes[i].row.path == full_path_of(before.nodes[j].row));
    }
}

/// Two tables whose rows bear the same identifiers, position by position,
/// hold a row with the identifier `id` together or not at all, and at the
/// same place.
pub proof fn lemma_same_keys(before: Seq<RecordView>, after: Seq<RecordView>, id: FSId)
    requires
        before.len() == after.len(),
        forall|i: int| 0 <= i < before.len() ==> (#[trigger] after[i]).row.id == before[i].row.id,
    ensures
        first_where(after, node_is(id)) == first_where(before, node_is(id)),
{
    lemma_first_where(before, node_is(id));
    match first_where(before, node_is(id)) {
        Some(i) => {
            assert(node_is(id)(after[i]));
            assert forall|j: int| 0 <= j < i implies !node_is(id)(#[trigger] after[j]) by {
                assert(!node_is(id)(before[j]));
            }
            lemma_first_is(after, node_is(id), i);
        },
        None => {
            assert forall|j: int| 0 <= j < after.len() implies !node_is(id)(#[trigger] after[j]) by {
                assert(!node_is(id)(before[j]));
            }
            lemma_first_none(after, node_is(id));
        },
    }
}

/// The metadata store.
#[derive(Debug)]
pub struct Store {
    media: Vec<Medium>,
    nodes: Vec<Record>,
}

/// The rows of the table of mediums over plain values.
spec fn media_view(media: Vec<Medium>) -> Seq<StorageItemView> {
    Seq::new(media.len() as nat, |i: int| media[i]@)
}

/// The rows of the table of nodes over plain values.
spec fn nodes_view(nodes: Vec<Record>) -> Seq<RecordView> {
    Seq::new(nodes.len() as nat, |i: int| nodes[i]@)
}

impl View for Store {
    type V = StoreView;

    closed spec fn view(&self) -> StoreView {
        StoreView { media: media_view(self.media), nodes: nodes_view(self.nodes) }
    }
}

/// Marks the rows of the medium `id` as deleted at `at`.
fn mark_media(media: &mut Vec<Medium>, id: &StorageId, at: Timestamp)
    ensures
        media_view(*final(media)) == media_view(*old(media)).map_values(
            medium_after_delete(*id, at),
        ),
{
    let mut i: usize = 0;
    while i < media.len()
        invariant
            i <= media.len(),
            media.len() == old(media).len(),
            forall|j: int|
                0 <= j < i ==> #[trigger] media[j]@ == medium_after_delete(*id, at)(old(media)[j]@),
            forall|j: int| i <= j < media.len() ==> media[j] == old(media)[j],
        decreases media.len() - i,
    {
        if media[i].id == *id {
            media[i].deleted = Some(at);
        }
        i += 1;
    }
    assert(media_view(*media) =~= media_view(*old(media)).map_values(medium_after_delete(*id, at)));
}

/// Gives the rows of the medium `id` the name, the tags and the instant of
/// update that are given.
fn change_media(
    media: &mut Vec<Medium>,
    id: &StorageId,
    name: &Option<String>,
    tags: &Option<TagMap>,
    updated: Option<Timestamp>,
)
    ensures
        media_view(*final(media)) == media_view(*old(media)).map_values(
            medium_after_update(*id, opt_text(*name), opt_tags(*tags), updated),
        ),
{
    let mut i: usize = 0;
    while i < media.len()
        invariant
            i <= media.len(),
            media.len() == old(media).len(),
            forall|j: int|
                0 <= j < i ==> #[trigger] media[j]@ == medium_after_update(
                    *id,
                    opt_text(*name),
                    opt_tags(*tags),
                    updated,
                )(old(media)[j]@),
            forall|j: int| i <= j < media.len() ==> media[j] == old(media)[j],
        decreases media.len() - i,
    {
        if media[i].id == *id {
            if let Some(n) = name {
                media[i].name = n.clone();
            }
            if let Some(t) = tags {
                media[i].tags = t.clone();
            }
            if let Some(u) = updated {
                media[i].updated = Some(u);
            }
        }
        i += 1;
    }
    assert(media_view(*media) =~= media_view(*old(media)).map_values(
        medium_after_update(*id, opt_text(*name), opt_tags(*tags), updated),
    ));
}

/// Marks the nodes that live on the medium `id` as deleted at `at`.
fn mark_nodes_on(nodes: &mut Vec<Record>, id: &StorageId, at: Timestamp)
    ensures
        nodes_view(*final(nodes)) == nodes_view(*old(nodes)).map_values(
            node_after_medium_delete(*id, at),
        ),
{
    let mut k: usize = 0;
    while k < nodes.len()
        invariant
            k <= nodes.len(),
            nodes.len() == old(nodes).len(),
            forall|j: int|
                0 <= j < k ==> #[trigger] nodes[j]@ == node_after_medium_delete(*id, at)(
                    old(nodes)[j]@,
                ),
            forall|j: int| k <= j < nodes.len() ==> nodes[j] == old(nodes)[j],
        decreases nodes.len() - k,
    {
        if *nodes[k].row.storage.id() == *id {
            nodes[k].row.deleted = Some(at);
        }
        k += 1;
    }
    assert(nodes_view(*nodes) =~= nodes_view(*old(nodes)).map_values(
        node_after_medium_delete(*id, at),
    ));
}

/// Marks the rows of the node `id` as deleted at `at`.
fn mark_node(nodes: &mut Vec<Record>, id: &FSId, at: Timestamp)
    ensures
        nodes_view(*final(nodes)) == nodes_view(*old(nodes)).map_values(node_after_delete(*id, at)),
{
    let mut k: usize = 0;
    while k < nodes.len()
        invariant
            k <= nodes.len(),
            nodes.len() == old(nodes).len(),
            forall|j: int|
                0 <= j < k ==> #[trigger] nodes[j]@ == node_after_delete(*id, at)(old(nodes)[j]@),
            forall|j: int| k <= j < nodes.len() ==> nodes[j] == old(nodes)[j],
        decreases nodes.len() - k,
    {
        if nodes[k].row.id == *id {
            nodes[k].row.deleted = Some(at);
        }
        k += 1;
    }
    assert(nodes_view(*nodes) =~= nodes_view(*old(nodes)).map_values(node_after_delete(*id, at)));
}

impl Store {
    /// What holds of every store: no two medium rows share an identifier,
    /// and no two node rows do.
    #[verifier::type_invariant]
    pub open spec fn keyed(self) -> bool {
        self@.media_keyed() && self@.nodes_keyed()
    }

    /// A store without any row.
    pub fn new() -> (store: Store)
        ensures
            store@ == StoreView::empty(),
            store@.wf(),
            store@.paths_agree(),
    {
        let store = Store { media: Vec::new(), nodes: Vec::new() };
        assert(store@.media =~= Seq::empty());
        assert(store@.nodes =~= Seq::empty());
        store
    }

    /// Moves the tables out and leaves the store empty.
    fn take(&mut self) -> (tables: (Vec<Medium>, Vec<Record>))
        ensures
            tables.0 == old(self).media,
            tables.1 == old(self).nodes,
    {
        let mut taken = Store::new();
        std::mem::swap(self, &mut taken);
        (taken.media, taken.nodes)
    }

    /// The number of medium rows.
    pub fn media_len(&self) -> (n: usize)
        ensures
            n == self@.media.len(),
    {
        self.media.len()
    }

    /// The number of node rows.
    pub fn nodes_len(&self) -> (n: usize)
        ensures
            n == self@.nodes.len(),
    {
        self.nodes.len()
    }

    /// A copy of the medium row at position `i`, if there are that many.
    pub fn medium_at(&self, i: usize) -> (medium: Option<Medium>)
        ensures
            medium is Some == (i < self@.media.len()),
            medium matches Some(m) ==> m@ == self@.media[i as int],
    {
        if i < self.media.len() {
            Some(self.media[i].clone())
        } else {
            None
        }
    }

    /// A copy of the node row at position `i`, if there are that many.
    pub fn node_at(&self, i: usize) -> (node: Option<Record>)
        ensures
            node is Some == (i < self@.nodes.len()),
            node matches Some(n) ==> n@ == self@.nodes[i as int],
    {
        if i < self.nodes.len() {
            Some(self.nodes[i].clone())
        } else {
            None
        }
    }

    fn medium_position(&self, id: &StorageId) -> (found: Option<usize>)
        ensures
            match found {
                Some(i) => first_where(self@.media, medium_is(*id)) == Some(i as int),
                None => first_where(self@.media, medium_is(*id)) is None,
            },
    {
        let mut i: usize = 0;
        while i < self.media.len()
            invariant
                i <= self.media.len(),
                forall|j: int| 0 <= j < i ==> !medium_is(*id)(#[trigger] self@.media[j]),
            decreases self.media.len() - i,
        {
            if self.media[i].id == *id {
                proof {
                    lemma_first_is(self@.media, medium_is(*id), i as int);
                }
                return Some(i);
            }
            i += 1;
        }
        proof {
            lemma_first_none(self@.media, medium_is(*id));
        }
        None
    }

    fn node_position(&self, id: &FSId) -> (found: Option<usize>)
        ensures
            match found {
                Some(i) => first_where(self@.nodes, node_is(*id)) == Some(i as int),
                None => first_where(self@.nodes, node_is(*id)) is None,
            },
    {
        let mut i: usize = 0;
        while i < self.nodes.len()
            invariant
                i <= self.nodes.len(),
                forall|j: int| 0 <= j < i ==> !node_is(*id)(#[trigger] self@.nodes[j]),
            decreases self.nodes.len() - i,
        {
            if self.nodes[i].row.id == *id {
                proof {
                    lemma_first_is(self@.nodes, node_is(*id), i as int);
                }
                return Some(i);
            }
            i += 1;
        }
        proof {
            lemma_first_none(self@.nodes, node_is(*id));
        }
        None
    }

    /// The medium `id` of `user`, deleted or not: a medium of another user is
    /// not found.
    pub fn find_medium(&self, user: &UserId, id: &StorageId) -> (found: Option<Medium>)
        ensures
            match found {
                Some(medium) => self@.find_medium(*user, *id) == Some(medium@),
                None => self@.find_medium(*user, *id) is None,
            },
    {
        let mut i: usize = 0;
        while i < self.media.len()
            invariant
                i <= self.media.len(),
                forall|j: int| 0 <= j < i ==> !medium_of(*user, *id)(#[trigger] self@.media[j]),
            decreases self.media.len() - i,
        {
            if self.media[i].id == *id && self.media[i].user_id == *user {
                proof {
                    lemma_first_is(self@.media, medium_of(*user, *id), i as int);
                }
                return Some(self.media[i].clone());
            }
            i += 1;
        }
        proof {
            lemma_first_none(self@.media, medium_of(*user, *id));
        }
        None
    }

    /// The active medium of `user` that bears the name `name`.
    pub fn medium_name_check(&self, user: &UserId, name: &str) -> (found: Option<StorageId>)
        ensures
            found == self@.medium_name_check(*user, name@),
    {
        let wanted = String::from_str(name);
        let mut i: usize = 0;
        while i < self.media.len()
            invariant
                i <= self.media.len(),
                wanted@ == name@,
                forall|j: int|
                    0 <= j < i ==> !medium_named(*user, name@)(#[trigger] self@.media[j]),
            decreases self.media.len() - i,
        {
            if self.media[i].user_id == *user && self.media[i].name == wanted
                && self.media[i].deleted.is_none() {
                proof {
                    lemma_first_is(self@.media, medium_named(*user, name@), i as int);
                }
                return Some(self.media[i].id);
            }
            i += 1;
        }
        proof {
            lemma_first_none(self@.media, medium_named(*user, name@));
        }
        None
    }

    /// Inserts a medium row. The identifier is the primary key: a second row
    /// with the same identifier is refused and the store stays as it was.
    pub fn insert_medium(&mut self, medium: Medium) -> (done: Result<(), StoreError>)
        ensures
            match done {
                Ok(_) => !old(self)@.has_medium(medium.id) && final(self)@ == old(self)@.with_medium(
                    medium@,
                ),
                Err(error) => old(self)@.has_medium(medium.id) && error == StoreError::DuplicateId
                    && final(self)@ == old(self)@,
            },
            old(self)@.wf() && old(self)@.medium_name_check(medium.user_id, medium.name@) is None
                ==> final(self)@.wf(),
    {
        proof {
            use_type_invariant(&*self);
            if old(self)@.wf() && old(self)@.medium_name_check(medium.user_id, medium.name@) is None
                && !old(self)@.has_medium(medium.id) {
                lemma_medium_insert_keeps_wf(old(self)@, medium@);
            }
        }
        match self.medium_position(&medium.id) {
            Some(_) => Err(StoreError::DuplicateId),
            None => {
                let ghost row = medium@;
                let (mut media, nodes) = self.take();
                media.push(medium);
                proof {
                    assert(media_view(media) =~= old(self)@.media.push(row));
                    lemma_push_keeps_media_keyed(old(self)@, row);
                }
                *self = Store { media, nodes };
                Ok(())
            },
        }
    }

    /// Marks the medium `id` and every node that lives on it as deleted at
    /// `at`, in one step. Rows that bore a deletion mark already get the new
    /// one; no other row changes.
    pub fn delete_medium(&mut self, id: &StorageId, at: Timestamp)
        ensures
            final(self)@ == old(self)@.with_medium_deleted(*id, at),
            old(self)@.wf() ==> final(self)@.wf(),
            old(self)@.paths_agree() ==> final(self)@.paths_agree(),
    {
        proof {
            use_type_invariant(&*self);
            let after = old(self)@.with_medium_deleted(*id, at);
            lemma_deletes_mark(old(self)@, *id, FSId { value: 0 }, at);
            lemma_marks_keep_keys(old(self)@, after);
            if old(self)@.paths_agree() {
                lemma_marks_keep_paths(old(self)@, after);
            }
            if old(self)@.wf() {
                lemma_marks_keep_wf(old(self)@, after);
            }
        }
        let (mut media, mut nodes) = self.take();
        mark_media(&mut media, id, at);
        mark_nodes_on(&mut nodes, id, at);
        *self = Store { media, nodes };
    }

    /// Updates the medium `id`: gives it the name and the tags that are
    /// given, and the instant of the update where one is given. No other row
    /// changes.
    pub fn update_medium(
        &mut self,
        id: &StorageId,
        name: &Option<String>,
        tags: &Option<TagMap>,
        updated: Option<Timestamp>,
    )
        ensures
            final(self)@ == old(self)@.with_medium_updated(
                *id,
                opt_text(*name),
                opt_tags(*tags),
                updated,
            ),
    {
        proof {
            use_type_invariant(&*self);
            let before = old(self)@;
            let after = before.with_medium_updated(*id, opt_text(*name), opt_tags(*tags), updated);
            assert forall|i: int, j: int| 0 <= i < j < after.media.len() implies after.media[i].id
                != after.media[j].id by {
                assert(before.media[i].id != before.media[j].id);
            }
        }
        let (mut media, nodes) = self.take();
        change_media(&mut media, id, name, tags, updated);
        *self = Store { media, nodes };
    }

    /// Marks the node `id` as deleted at `at`. No other row changes.
    pub fn delete_node(&mut self, id: &FSId, at: Timestamp)
        ensures
            final(self)@ == old(self)@.with_node_deleted(*id, at),
            old(self)@.wf() ==> final(self)@.wf(),
            old(self)@.paths_agree() ==> final(self)@.paths_agree(),
    {
        proof {
            use_type_invariant(&*self);
            let after = old(self)@.with_node_deleted(*id, at);
            lemma_deletes_mark(old(self)@, StorageId { value: 0 }, *id, at);
            lemma_marks_keep_keys(old(self)@, after);
            if old(self)@.paths_agree() {
                lemma_marks_keep_paths(old(self)@, after);
            }
            if old(self)@.wf() {
                lemma_marks_keep_wf(old(self)@, after);
            }
        }
        let (media, mut nodes) = self.take();
        mark_node(&mut nodes, id, at);
        *self = Store { media, nodes };
    }

    /// The active entry of `scope` that bears the basename `name`.
    pub fn name_check(&self, scope: &IdOption, name: &str) -> (found: Option<FSId>)
        ensures
            found == self@.name_check(*scope, name@),
    {
        let wanted = String::from_str(name);
        let mut i: usize = 0;
        while i < self.nodes.len()
            invariant
                i <= self.nodes.len(),
                wanted@ == name@,
                forall|j: int|
                    0 <= j < i ==> !sibling_named(*scope, name@)(#[trigger] self@.nodes[j]),
            decreases self.nodes.len() - i,
        {
            let row = &self.nodes[i].row;
            let entry_scope = match row.parent {
                Some(parent) => IdOption::Parent(parent),
                None => IdOption::Storage(*row.storage.id()),
            };
            if row.fs_type != ROOT_TYPE && row.deleted.is_none() && entry_scope == *scope
                && row.basename == wanted {
                proof {
                    lemma_first_is(self@.nodes, sibling_named(*scope, name@), i as int);
                }
                return Some(row.id);
            }
            i += 1;
        }
        proof {
            lemma_first_none(self@.nodes, sibling_named(*scope, name@));
        }
        None
    }

    /// The row of the node `id`, deleted or not.
    pub fn fetch_row(&self, id: &FSId) -> (found: Option<Row>)
        ensures
            match found {
                Some(row) => self@.find_node(*id) matches Some(node) && node.row == row@,
                None => self@.find_node(*id) is None,
            },
    {
        match self.node_position(id) {
            Some(i) => Some(self.nodes[i].row.clone()),
            None => None,
        }
    }

    /// The tags of the node `id`; none where there is no such node.
    pub fn fetch_tags(&self, id: &FSId) -> (tags: TagMap)
        ensures
            tags@ == (match self@.find_node(*id) {
                Some(node) => node.tags,
                None => Map::empty(),
            }),
    {
        match self.node_position(id) {
            Some(i) => self.nodes[i].tags.clone(),
            None => TagMap::new(),
        }
    }

    /// Inserts a node row with its tags. The identifier is the primary key: a
    /// second row with the same identifier is refused and the store stays as
    /// it was.
    pub fn insert_node(&mut self, node: Record) -> (done: Result<(), StoreError>)
        ensures
            match done {
                Ok(_) => !old(self)@.has_node(node.row.id) && final(self)@ == old(self)@.with_node(
                    node@,
                ),
                Err(error) => old(self)@.has_node(node.row.id) && error == StoreError::DuplicateId
                    && final(self)@ == old(self)@,
            },
            old(self)@.wf() && old(self)@.name_check(scope_of(node.row@), node.row.basename@) is None
                ==> final(self)@.wf(),
    {
        proof {
            use_type_invariant(&*self);
            if old(self)@.wf() && old(self)@.name_check(scope_of(node.row@), node.row.basename@)
                is None && !old(self)@.has_node(node.row.id) {
                lemma_node_insert_keeps_wf(old(self)@, node@);
            }
        }
        match self.node_position(&node.row.id) {
            Some(_) => Err(StoreError::DuplicateId),
            None => {
                let ghost row = node@;
                let (media, mut nodes) = self.take();
                nodes.push(node);
                proof {
                    assert(nodes_view(nodes) =~= old(self)@.nodes.push(row));
                    lemma_push_keeps_nodes_keyed(old(self)@, row);
                }
                *self = Store { media, nodes };
                Ok(())
            },
        }
    }
}

} // verus!
