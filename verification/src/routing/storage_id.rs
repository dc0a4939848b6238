//! Requests on one storage medium: show it, change it, delete it.

use vstd::prelude::*;
use crate::actions::{UpdateStorage, UpdateStorageView};
use crate::ids::{StorageId, UserId};
use crate::schema::storage::{StorageItem, StorageItemView};
use crate::storage;
use crate::store::{first_where, lemma_first_where, medium_named, medium_of, Store, StoreView};
use crate::time::Timestamp;
use super::error::Error;

verus! {

/// The medium that a request names.
#[derive(Clone, Copy, Debug, PartialEq, Eq, Structural)]
pub struct PathParams {
    pub storage_id: StorageId,
}

/// The medium `id` of `user` as requests see it: a deleted medium is as
/// absent as one that never was, and so is a medium of another user.
pub open spec fn visible(store: StoreView, user: UserId, id: StorageId) -> Option<StorageItemView> {
    match store.find_medium(user, id) {
        Some(medium) => if medium.deleted is None {
            Some(medium)
        } else {
            None
        },
        None => None,
    }
}

/// The instant that an update records: none where only the tags change.
pub open spec fn update_stamp(change: UpdateStorageView, at: Timestamp) -> Option<Timestamp> {
    if change.changes_row() {
        Some(at)
    } else {
        None
    }
}

/// What the update `change` of the medium `id` does, asked by `user` at the
/// instant `at`: the refusal or the store afterwards.
pub open spec fn updated(
    store: StoreView,
    user: UserId,
    id: StorageId,
    change: UpdateStorageView,
    at: Timestamp,
) -> Result<StoreView, Error> {
    if visible(store, user, id) is None {
        Err(Error::StorageNotFound)
    } else if !change.has_work() {
        Err(Error::NoWork)
    } else if change.name matches Some(name) && store.medium_name_check(user, name) matches Some(
        holder,
    ) && holder != id {
        Err(Error::StorageNameExists)
    } else {
        Ok(store.with_medium_updated(id, change.name, change.tags, update_stamp(change, at)))
    }
}

/// What the deletion of the medium `id` does, asked by `user` at the instant
/// `at`: the refusal or the store afterwards.
pub open spec fn deleted(store: StoreView, user: UserId, id: StorageId, at: Timestamp) -> Result<
    StoreView,
    Error,
> {
    if visible(store, user, id) is None {
        Err(Error::StorageNotFound)
    } else {
        Ok(store.with_medium_deleted(id, at))
    }
}

/// An update that the engine accepts keeps the store consistent.
pub proof fn lemma_update_keeps_wf(
    store: StoreView,
    user: UserId,
    id: StorageId,
    change: UpdateStorageView,
    at: Timestamp,
)
    requires
        store.wf(),
        updated(store, user, id, change, at) is Ok,
    ensures
        updated(store, user, id, change, at)->Ok_0.wf(),
{
    let after = updated(store, user, id, change, at)->Ok_0;
    lemma_first_where(store.media, medium_of(user, id));
    let at_row = first_where(store.media, medium_of(user, id))->0;
    assert(store.media[at_row].id == id && store.media[at_row].user_id == user);
    assert forall|i: int, j: int| 0 <= i < j < after.media.len() implies after.media[i].id
        != after.media[j].id by {
        assert(store.media[i].id != store.media[j].id);
    }
    assert(after.nodes == store.nodes);
    assert forall|i: int, j: int|
        0 <= i < j < after.media.len() && after.media[i].deleted is None
            && after.media[j].deleted is None && after.media[i].user_id
            == after.media[j].user_id implies after.media[i].name != after.media[j].name by {
        assert(store.media[i].name != store.media[j].name);
        if let Some(name) = change.name {
            lemma_first_where(store.media, medium_named(user, name));
            let other = if store.media[i].id == id {
                j
            } else {
                i
            };
            if store.media[i].id == id || store.media[j].id == id {
                assert(store.media[i].id != store.media[j].id);
                if i != at_row {
                    assert(store.media[i].id != store.media[at_row].id || store.media[j].id
                        != store.media[at_row].id);
                }
                if store.media[other].name == name {
                    assert(medium_named(user, name)(store.media[other]));
                    let first = first_where(store.media, medium_named(user, name))->0;
                    assert(store.media[first].id == id);
                    if first < other {
                        assert(store.media[first].name != store.media[other].name);
                    } else if other < first {
                        assert(store.media[other].name != store.media[first].name);
                    }
                }
            }
        }
    }
}

/// Shows the medium `storage_id` to `user_id`.
pub fn get(store: &Store, user_id: &UserId, storage_id: &StorageId) -> (answer: Result<
    StorageItem,
    Error,
>)
    ensures
        match answer {
            Ok(item) => visible(store@, *user_id, *storage_id) == Some(item@),
            Err(error) => visible(store@, *user_id, *storage_id) is None && error
                == Error::StorageNotFound,
        },
{
    let medium = match storage::Medium::retrieve(store, user_id, storage_id) {
        Some(medium) => medium,
        None => {
            return Err(Error::StorageNotFound);
        },
    };
    if medium.deleted.is_some() {
        return Err(Error::StorageNotFound);
    }
    Ok(medium.into_model())
}

/// Changes the medium `storage_id` of `user_id` as `json` asks, at the
/// instant `at`. The medium must be visible to the user and the change must
/// ask for something; a new name must not be borne by another active medium
/// of the user. A refused request leaves the store as it was.
pub fn put(
    store: &mut Store,
    user_id: &UserId,
    storage_id: &StorageId,
    json: UpdateStorage,
    at: Timestamp,
) -> (answer: Result<(), Error>)
    ensures
        match answer {
            Ok(_) => updated(old(store)@, *user_id, *storage_id, json@, at) == Ok::<
                StoreView,
                Error,
            >(final(store)@),
            Err(error) => updated(old(store)@, *user_id, *storage_id, json@, at) == Err::<
                StoreView,
                Error,
            >(error) && final(store)@ == old(store)@,
        },
        old(store)@.wf() ==> final(store)@.wf(),
        old(store)@.paths_agree() ==> final(store)@.paths_agree(),
{
    let medium = match storage::Medium::retrieve(store, user_id, storage_id) {
        Some(medium) => medium,
        None => {
            return Err(Error::StorageNotFound);
        },
    };
    if medium.deleted.is_some() {
        return Err(Error::StorageNotFound);
    }
    if !json.has_work() {
        return Err(Error::NoWork);
    }
    if let Some(name) = &json.name {
        if let Some(found_id) = storage::medium::name_check(store, user_id, name.as_str()) {
            if found_id != *storage_id {
                return Err(Error::StorageNameExists);
            }
        }
    }
    let stamp = if json.changes_row() {
        Some(at)
    } else {
        None
    };
    proof {
        if old(store)@.wf() {
            lemma_update_keeps_wf(old(store)@, *user_id, *storage_id, json@, at);
        }
    }
    store.update_medium(storage_id, &json.name, &json.tags, stamp);
    Ok(())
}

/// Deletes the medium `storage_id` of `user_id` at the instant `at`: the
/// medium and every node that lives on it get that instant as their deletion
/// mark, in one step. The medium must be visible to the user; a refused
/// request leaves the store as it was.
pub fn delete(store: &mut Store, user_id: &UserId, storage_id: &StorageId, at: Timestamp) -> (answer:
    Result<(), Error>)
    ensures
        match answer {
            Ok(_) => deleted(old(store)@, *user_id, *storage_id, at) == Ok::<StoreView, Error>(
                final(store)@,
            ),
            Err(error) => deleted(old(store)@, *user_id, *storage_id, at) == Err::<
                StoreView,
                Error,
            >(error) && final(store)@ == old(store)@,
        },
        old(store)@.wf() ==> final(store)@.wf(),
        old(store)@.paths_agree() ==> final(store)@.paths_agree(),
{
    let medium = match storage::Medium::retrieve(store, user_id, storage_id) {
        Some(medium) => medium,
        None => {
            return Err(Error::StorageNotFound);
        },
    };
    if medium.deleted.is_some() {
        return Err(Error::StorageNotFound);
    }
    store.delete_medium(storage_id, at);
    Ok(())
}

} // verus!
