//! What holds across the operations of the engine, whatever the store held
//! before and whatever the operations were given.

use vstd::prelude::*;
use crate::error::BackendError;
use crate::fs::checksum::HASH_LEN;
use crate::fs::directory::{BuilderView, DirectoryView, ParentView, NAME_GEN_ATTEMPTS};
use crate::fs::error::{BuilderError, ItemError};
use crate::fs::naming::lemma_least_free;
use crate::fs::{
    candidate, generated_name, is_first_free, is_free, lemma_generated_free, lemma_generated_is,
    IdOption, ItemView,
};
use crate::fs::consts::ROOT_TYPE;
use crate::ids::{StorageId, UserId};
use crate::path::joined;
use crate::routing;
use crate::schema::storage::StorageItemView;
use crate::storage;
use crate::store::{
    first_where, full_path_of, in_scope, lemma_first_is, lemma_first_none, lemma_first_where,
    lemma_first_where_push, medium_is, medium_named, medium_of, node_is, scope_of, sibling_named,
    StoreView,
};
use crate::time::Timestamp;

verus! {

/// Once a user has created a medium, a second medium of the same name for
/// the same user is refused as long as the first is active, and the store
/// stays as the first creation left it.
pub proof fn lemma_second_medium_conflicts(
    store: StoreView,
    first: StorageItemView,
    second: StorageItemView,
)
    requires
        storage::medium::created(store, first).1 is Ok,
        first.deleted is None,
        second.user_id == first.user_id,
        second.name == first.name,
    ensures
        storage::medium::created(storage::medium::created(store, first).0, second) == (
            storage::medium::created(store, first).0,
            Err::<(), storage::error::BuilderError>(storage::error::BuilderError::NameExists),
        ),
{
    lemma_first_where_push(store.media, medium_named(first.user_id, first.name), first);
}

/// A medium of one user does not take its name from any other user: once it
/// is created, the creation of a medium for another user ends as it would
/// have ended before; so it succeeds where that user has no active medium
/// of the name and the identifier is new.
pub proof fn lemma_medium_names_per_user(
    store: StoreView,
    first: StorageItemView,
    second: StorageItemView,
)
    requires
        storage::medium::created(store, first).1 is Ok,
        second.user_id != first.user_id,
        second.id != first.id,
    ensures
        storage::medium::created(storage::medium::created(store, first).0, second).1
            == storage::medium::created(store, second).1,
        store.medium_name_check(second.user_id, second.name) is None && !store.has_medium(second.id)
            ==> storage::medium::created(storage::medium::created(store, first).0, second).1 is Ok,
{
    lemma_first_where_push(store.media, medium_named(second.user_id, second.name), first);
    lemma_first_where_push(store.media, medium_is(second.id), first);
    lemma_first_where(store.media, medium_named(second.user_id, second.name));
}

/// In a consistent store two different active entries of one scope never
/// bear the same basename.
pub proof fn lemma_siblings_distinct(store: StoreView, scope: IdOption, i: int, j: int)
    requires
        store.wf(),
        0 <= i < store.nodes.len(),
        0 <= j < store.nodes.len(),
        i != j,
        in_scope(scope, store.nodes[i].row),
        in_scope(scope, store.nodes[j].row),
    ensures
        store.nodes[i].row.basename != store.nodes[j].row.basename,
{
    if i < j {
        assert(store.nodes[i].row.basename != store.nodes[j].row.basename);
    } else {
        assert(store.nodes[j].row.basename != store.nodes[i].row.basename);
    }
}

/// Once a directory is built, a second directory that asks for its basename
/// in the same scope is refused, and the store stays as the first build left
/// it.
pub proof fn lemma_second_sibling_conflicts(
    store: StoreView,
    first: BuilderView,
    second: BuilderView,
    first_created: Timestamp,
    second_created: Timestamp,
    made: Result<(), BackendError>,
)
    requires
        first.build(store, first_created, Ok(())).1 is Ok,
        second.scope() == first.scope(),
        second.basename == Some(first.build(store, first_created, Ok(())).1->Ok_0.basename),
    ensures
        second.build(first.build(store, first_created, Ok(())).0, second_created, made) == (
            first.build(store, first_created, Ok(())).0,
            Err::<DirectoryView, BuilderError>(BuilderError::BasenameExists),
        ),
{
    let dir = first.build(store, first_created, Ok(())).1->Ok_0;
    let node = dir.record();
    assert(scope_of(node.row) == first.scope());
    lemma_first_where_push(store.nodes, sibling_named(first.scope(), dir.basename), node);
}

/// Once a directory is built and then soft-deleted, its basename is free
/// again in its scope: a new directory that asks for the name there gets it,
/// and is built when its identifier is new and its physical object is made.
pub proof fn lemma_delete_frees_basename(
    store: StoreView,
    first: BuilderView,
    second: BuilderView,
    first_created: Timestamp,
    deleted: Timestamp,
    second_created: Timestamp,
)
    requires
        first.build(store, first_created, Ok(())).1 is Ok,
        second.scope() == first.scope(),
        second.basename == Some(first.build(store, first_created, Ok(())).1->Ok_0.basename),
    ensures
        ({
            let name = first.build(store, first_created, Ok(())).1->Ok_0.basename;
            let after = first.build(store, first_created, Ok(())).0.with_node_deleted(
                first.id,
                deleted,
            );
            &&& is_free(after, first.scope(), name)
            &&& second.resolved_name(after, second_created) == Ok::<Seq<char>, BuilderError>(name)
            &&& !after.has_node(second.id) ==> second.build(after, second_created, Ok(())).1
                == Ok::<DirectoryView, BuilderError>(second.directory(name, second_created))
        }),
{
    let dir = first.build(store, first_created, Ok(())).1->Ok_0;
    let name = dir.basename;
    let node = dir.record();
    let built = first.build(store, first_created, Ok(())).0;
    let after = built.with_node_deleted(first.id, deleted);
    if first.basename is None {
        lemma_generated_free(store, first.scope(), first_created, NAME_GEN_ATTEMPTS as nat);
    }
    assert(is_free(store, first.scope(), name));
    lemma_first_where(store.nodes, sibling_named(first.scope(), name));
    assert(built.nodes == store.nodes.push(node));
    assert forall|j: int| 0 <= j < after.nodes.len() implies !sibling_named(first.scope(), name)(
        #[trigger] after.nodes[j],
    ) by {
        if j < store.nodes.len() {
            assert(built.nodes[j] == store.nodes[j]);
            assert(!sibling_named(first.scope(), name)(store.nodes[j]));
        } else {
            assert(built.nodes[j] == node);
        }
    }
    lemma_first_none(after.nodes, sibling_named(first.scope(), name));
}

/// A name is free in a scope exactly when no active entry of the scope bears
/// it: rows that bear a deletion mark do not count.
pub proof fn lemma_free_iff_no_active_bearer(store: StoreView, scope: IdOption, name: Seq<char>)
    ensures
        is_free(store, scope, name) <==> forall|i: int|
            0 <= i < store.nodes.len() && scope_of((#[trigger] store.nodes[i]).row) == scope
                && store.nodes[i].row.fs_type != ROOT_TYPE && store.nodes[i].row.basename == name
                ==> store.nodes[i].row.deleted is Some,
{
    lemma_first_where(store.nodes, sibling_named(scope, name));
    if is_free(store, scope, name) {
        assert forall|i: int|
            0 <= i < store.nodes.len() && scope_of((#[trigger] store.nodes[i]).row) == scope
                && store.nodes[i].row.fs_type != ROOT_TYPE && store.nodes[i].row.basename
                == name implies store.nodes[i].row.deleted is Some by {
            assert(!sibling_named(scope, name)(store.nodes[i]));
        }
    } else {
        let first = first_where(store.nodes, sibling_named(scope, name))->0;
        assert(sibling_named(scope, name)(store.nodes[first]));
    }
}

/// A build that asks for a basename which only soft-deleted entries of its
/// scope bear, or none at all, gets that name: with a new identifier and its
/// physical object made, the directory is built under the name, under the
/// builder's parent and without a deletion mark, and its row is added to the
/// store.
pub proof fn lemma_free_name_is_granted(
    store: StoreView,
    builder: BuilderView,
    name: Seq<char>,
    created: Timestamp,
)
    requires
        builder.basename == Some(name),
        forall|i: int|
            0 <= i < store.nodes.len() && scope_of((#[trigger] store.nodes[i]).row)
                == builder.scope() && store.nodes[i].row.fs_type != ROOT_TYPE
                && store.nodes[i].row.basename == name ==> store.nodes[i].row.deleted is Some,
        !store.has_node(builder.id),
    ensures
        ({
            let (after, built) = builder.build(store, created, Ok(()));
            &&& built == Ok::<DirectoryView, BuilderError>(builder.directory(name, created))
            &&& built->Ok_0.basename == name
            &&& built->Ok_0.parent == builder.parent_id()
            &&& built->Ok_0.deleted is None
            &&& after == store.with_node(builder.directory(name, created).record())
        }),
{
    lemma_free_iff_no_active_bearer(store, builder.scope(), name);
}

/// A directory that was built is found again under its identifier, as it was
/// built: same identifier, medium, basename, path, tags and comment, and
/// without an instant of update.
pub proof fn lemma_build_then_retrieve(
    store: StoreView,
    builder: BuilderView,
    created: Timestamp,
)
    requires
        builder.build(store, created, Ok(())).1 is Ok,
    ensures
        ({
            let dir = builder.build(store, created, Ok(())).1->Ok_0;
            let after = builder.build(store, created, Ok(())).0;
            &&& crate::fs::directory::retrieved(after, builder.id) == Some(dir)
            &&& crate::fs::retrieved(after, builder.id) == Ok::<Option<ItemView>, ItemError>(
                Some(ItemView::Directory(dir)),
            )
            &&& dir.id == builder.id
            &&& dir.storage.medium() == builder.medium
            &&& dir.tags == builder.tags
            &&& dir.comment == builder.comment
            &&& dir.path == builder.path()
            &&& builder.basename matches Some(given) ==> dir.basename == given
            &&& dir.updated is None
            &&& dir.deleted is None
        }),
{
    let dir = builder.build(store, created, Ok(())).1->Ok_0;
    lemma_first_where_push(store.nodes, node_is(builder.id), dir.record());
    assert(DirectoryView::of(dir.record().row, dir.record().tags) == dir);
}

/// A directory that is built under a parent lies at the parent's full path
/// followed by its own basename.
pub proof fn lemma_full_path_under_parent(
    store: StoreView,
    builder: BuilderView,
    parent: DirectoryView,
    created: Timestamp,
    made: Result<(), BackendError>,
)
    requires
        builder.parent == Some(ParentView { id: parent.id, full_path: parent.full_path() }),
        builder.build(store, created, made).1 is Ok,
    ensures
        ({
            let dir = builder.build(store, created, made).1->Ok_0;
            &&& dir.parent == Some(parent.id)
            &&& dir.path == parent.full_path()
            &&& dir.full_path() == joined(parent.full_path(), dir.basename)
        }),
{
}

/// In a store whose paths agree, every node that has a parent lies at the
/// parent's full path followed by its own basename.
pub proof fn lemma_full_path_in_tree(store: StoreView, node: int, parent: int)
    requires
        store.paths_agree(),
        0 <= node < store.nodes.len(),
        0 <= parent < store.nodes.len(),
        store.nodes[node].row.parent == Some(store.nodes[parent].row.id),
        store.nodes[node].row.fs_type != ROOT_TYPE,
    ensures
        full_path_of(store.nodes[node].row) == joined(
            full_path_of(store.nodes[parent].row),
            store.nodes[node].row.basename,
        ),
{
}

/// A build keeps the paths of a store in agreement, provided identifiers are
/// keys and the builder's parent is a directory as the store holds it.
pub proof fn lemma_build_keeps_paths(
    store: StoreView,
    builder: BuilderView,
    created: Timestamp,
    made: Result<(), BackendError>,
)
    requires
        store.paths_agree(),
        store.nodes_keyed(),
        builder.parent matches Some(parent) ==> (crate::fs::directory::retrieved(store, parent.id)
            matches Some(dir) && dir.full_path() == parent.full_path),
    ensures
        builder.build(store, created, made).0.paths_agree(),
{
    let after = builder.build(store, created, made).0;
    if builder.build(store, created, made).1 is Ok {
        let dir = builder.build(store, created, made).1->Ok_0;
        let node = dir.record();
        let n = store.nodes.len() as int;
        assert(after.nodes == store.nodes.push(node));
        lemma_first_where(store.nodes, node_is(builder.id));
        assert forall|i: int|
            0 <= i < after.nodes.len() && (#[trigger] after.nodes[i]).row.parent is Some implies after.has_node(
            after.nodes[i].row.parent->0,
        ) by {
            let wanted = after.nodes[i].row.parent->0;
            lemma_first_where_push(store.nodes, node_is(wanted), node);
            if i == n {
                let parent = builder.parent->0;
                assert(wanted == parent.id);
            } else {
                assert(after.nodes[i] == store.nodes[i]);
                assert(store.has_node(wanted));
            }
        }
        assert forall|i: int, j: int|
            0 <= i < after.nodes.len() && 0 <= j < after.nodes.len() && after.nodes[i].row.parent
                == Some(after.nodes[j].row.id) implies after.nodes[i].row.path == full_path_of(
            after.nodes[j].row,
        ) by {
            if i < n && j < n {
                assert(store.nodes[i].row.path == full_path_of(store.nodes[j].row));
            } else if i < n {
                assert(after.nodes[i] == store.nodes[i]);
                assert(store.has_node(builder.id));
            } else if j < n {
                let parent = builder.parent->0;
                lemma_first_where(store.nodes, node_is(parent.id));
                let first = first_where(store.nodes, node_is(parent.id))->0;
                if first < j {
                    assert(store.nodes[first].row.id != store.nodes[j].row.id);
                } else if j < first {
                    assert(store.nodes[j].row.id != store.nodes[first].row.id);
                }
                assert(first == j);
            } else {
                assert(store.has_node(builder.id));
            }
        }
    }
}

/// A directory that is built without a parent lies directly under the root
/// of its medium: its full path is its basename alone, unless that is empty.
pub proof fn lemma_full_path_under_root(
    store: StoreView,
    builder: BuilderView,
    created: Timestamp,
    made: Result<(), BackendError>,
)
    requires
        builder.parent is None,
        builder.build(store, created, made).1 is Ok,
    ensures
        ({
            let dir = builder.build(store, created, made).1->Ok_0;
            &&& dir.parent is None
            &&& dir.path == Seq::<char>::empty()
            &&& dir.full_path() == dir.basename
        }),
{
    let dir = builder.build(store, created, made).1->Ok_0;
    assert(Seq::<char>::empty() + dir.basename =~= dir.basename);
}

/// The deletion of a medium marks the medium and every node that lives on it
/// with the instant of the deletion, changes nothing else, and from then on
/// the medium is hidden from requests.
pub proof fn lemma_medium_delete_cascades(
    store: StoreView,
    user: UserId,
    id: StorageId,
    at: Timestamp,
)
    requires
        routing::storage_id::deleted(store, user, id, at) is Ok,
    ensures
        ({
            let after = routing::storage_id::deleted(store, user, id, at)->Ok_0;
            &&& after.media.len() == store.media.len()
            &&& after.nodes.len() == store.nodes.len()
            &&& forall|i: int|
                0 <= i < store.media.len() ==> #[trigger] after.media[i] == if store.media[i].id
                    == id {
                    StorageItemView { deleted: Some(at), ..store.media[i] }
                } else {
                    store.media[i]
                }
            &&& forall|k: int|
                0 <= k < store.nodes.len() && store.nodes[k].row.storage.medium() == id
                    ==> (#[trigger] after.nodes[k]).row.deleted == Some(at)
            &&& forall|k: int|
                0 <= k < store.nodes.len() && store.nodes[k].row.storage.medium() != id
                    ==> #[trigger] after.nodes[k] == store.nodes[k]
            &&& forall|k: int|
                0 <= k < store.nodes.len() ==> (#[trigger] after.nodes[k]).tags
                    == store.nodes[k].tags && after.nodes[k].row.id == store.nodes[k].row.id
            &&& routing::storage_id::visible(after, user, id) is None
        }),
{
    let after = store.with_medium_deleted(id, at);
    lemma_first_where(store.media, medium_of(user, id));
    let row = first_where(store.media, medium_of(user, id))->0;
    assert(after.media[row].id == id && after.media[row].user_id == user);
    assert forall|j: int| 0 <= j < row implies !medium_of(user, id)(#[trigger] after.media[j]) by {
        assert(!medium_of(user, id)(store.media[j]));
    }
    assert(medium_of(user, id)(after.media[row]));
    lemma_first_is(after.media, medium_of(user, id), row);
}

/// A node that is persisted and read back is the same node: the kind that
/// its row records is the kind that it is read as.
pub proof fn lemma_record_round_trip(item: ItemView)
    requires
        item matches ItemView::File(file) ==> file.hash.len() == HASH_LEN,
    ensures
        ItemView::of(item.record().row, item.record().tags) == Ok::<ItemView, ItemError>(item),
{
}

/// Generation with no attempt allowed yields no name; generation with a free
/// candidate within its attempts yields a name, and a name that generation
/// yields is borne by no active entry of the scope.
pub proof fn lemma_generation(
    store: StoreView,
    scope: IdOption,
    now: Timestamp,
    attempts: nat,
    free: nat,
)
    ensures
        attempts == 0 ==> generated_name(store, scope, now, attempts) is None,
        1 <= free <= attempts && is_free(store, scope, candidate(now, free)) ==> generated_name(
            store,
            scope,
            now,
            attempts,
        ) is Some,
        generated_name(store, scope, now, attempts) matches Some(name) ==> is_free(
            store,
            scope,
            name,
        ),
{
    lemma_generated_free(store, scope, now, attempts);
    if attempts == 0 {
        if exists|count: nat| count <= attempts && is_first_free(store, scope, now, count) {
            let count = choose|count: nat|
                count <= attempts && is_first_free(store, scope, now, count);
            assert(is_first_free(store, scope, now, count));
        }
    }
    if 1 <= free <= attempts && is_free(store, scope, candidate(now, free)) {
        lemma_least_free(store, scope, now, free);
        let count = choose|count: nat|
            1 <= count <= free && is_first_free(store, scope, now, count);
        lemma_generated_is(store, scope, now, attempts, count);
    }
}

} // verus!
