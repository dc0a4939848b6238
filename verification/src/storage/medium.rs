//! The storage medium itself.

use vstd::prelude::*;
use vstd::string::*;
use crate::error::StoreError;
use crate::ids::{StorageId, UserId};
use crate::schema::storage::{StorageItem, StorageItemView, StorageListItem};
use crate::store::{lemma_medium_insert_keeps_wf, Store, StoreView};
use crate::tags::TagMap;
use crate::time::Timestamp;
use super::error::BuilderError;
use super::types::{Local, PathState, Provision, Type};

verus! {

/// A named, user-owned storage backend. Its name is unique among the active
/// mediums of its owner; `deleted` marks it as logically absent.
#[derive(Debug)]
pub struct Medium {
    pub id: StorageId,
    pub user_id: UserId,
    pub name: String,
    pub type_: Type,
    pub tags: TagMap,
    pub created: Timestamp,
    pub updated: Option<Timestamp>,
    pub deleted: Option<Timestamp>,
}

impl View for Medium {
    type V = StorageItemView;

    open spec fn view(&self) -> StorageItemView {
        StorageItemView {
            id: self.id,
            name: self.name@,
            user_id: self.user_id,
            root: self.type_.root(),
            tags: self.tags@,
            created: self.created,
            updated: self.updated,
            deleted: self.deleted,
        }
    }
}

/// What the creation of the medium `medium` does to `store`: a medium whose
/// name an active medium of the same user bears is refused, and so is one
/// whose identifier a row bears already; any other is inserted. The store
/// changes only when the medium is inserted.
pub open spec fn created(store: StoreView, medium: StorageItemView) -> (
    StoreView,
    Result<(), BuilderError>,
) {
    if store.medium_name_check(medium.user_id, medium.name) is Some {
        (store, Err(BuilderError::NameExists))
    } else if store.has_medium(medium.id) {
        (store, Err(BuilderError::Store(StoreError::DuplicateId)))
    } else {
        (store.with_medium(medium), Ok(()))
    }
}

/// Looks up the active medium of `user_id` that bears the name `name`.
pub fn name_check(store: &Store, user_id: &UserId, name: &str) -> (found: Option<StorageId>)
    ensures
        found == store@.medium_name_check(*user_id, name@),
{
    store.medium_name_check(user_id, name)
}

impl Medium {
    /// Creates the medium `name` of `user_id` on the backend `type_` at the
    /// instant `created`, and persists it in `store`. The name must not be
    /// borne by an active medium of the same user.
    pub fn create(
        store: &mut Store,
        id: StorageId,
        user_id: UserId,
        name: &str,
        type_: Type,
        tags: TagMap,
        created: Timestamp,
    ) -> (made: Result<Medium, BuilderError>)
        ensures
            ({
                let wanted = StorageItemView {
                    id,
                    name: name@,
                    user_id,
                    root: type_.root(),
                    tags: tags@,
                    created,
                    updated: None,
                    deleted: None,
                };
                &&& final(store)@ == self::created(old(store)@, wanted).0
                &&& match made {
                    Ok(medium) => medium@ == wanted && self::created(old(store)@, wanted).1 is Ok,
                    Err(error) => self::created(old(store)@, wanted).1 == Err::<(), BuilderError>(
                        error,
                    ),
                }
            }),
            made is Err ==> final(store)@ == old(store)@,
            old(store)@.wf() ==> final(store)@.wf(),
            old(store)@.paths_agree() ==> final(store)@.paths_agree(),
    {
        if name_check(store, &user_id, name).is_some() {
            return Err(BuilderError::NameExists);
        }
        let medium = Medium {
            id,
            user_id,
            name: String::from_str(name),
            type_,
            tags,
            created,
            updated: None,
            deleted: None,
        };
        let copy = medium.clone();
        match store.insert_medium(medium) {
            Ok(_) => {
                proof {
                    if old(store)@.wf() {
                        lemma_medium_insert_keeps_wf(old(store)@, copy@);
                    }
                }
                Ok(copy)
            },
            Err(error) => Err(BuilderError::Store(error)),
        }
    }

    /// Creates the medium `name` of `user_id` on a local backend rooted at
    /// `path`, where a probe of the disk `found` what it says. The name must
    /// not be borne by an active medium of the same user; then the path, if
    /// it exists, must be a directory. The medium comes with what is left to
    /// do on the disk: a missing root is to be created with its ancestors.
    pub fn create_local(
        store: &mut Store,
        id: StorageId,
        user_id: UserId,
        name: &str,
        path: String,
        found: PathState,
        tags: TagMap,
        created: Timestamp,
    ) -> (made: Result<(Medium, Provision), BuilderError>)
        ensures
            ({
                let wanted = StorageItemView {
                    id,
                    name: name@,
                    user_id,
                    root: path@,
                    tags: tags@,
                    created,
                    updated: None,
                    deleted: None,
                };
                match made {
                    Ok((medium, provision)) => {
                        &&& found != PathState::NotDirectory
                        &&& self::created(old(store)@, wanted).1 is Ok
                        &&& final(store)@ == old(store)@.with_medium(wanted)
                        &&& medium@ == wanted
                        &&& provision == if found == PathState::Missing {
                            Provision::CreateAll
                        } else {
                            Provision::Nothing
                        }
                    },
                    Err(error) => {
                        &&& final(store)@ == old(store)@
                        &&& error == if old(store)@.medium_name_check(user_id, name@) is Some {
                            BuilderError::NameExists
                        } else if found == PathState::NotDirectory {
                            BuilderError::PathNotDirectory
                        } else {
                            BuilderError::Store(StoreError::DuplicateId)
                        }
                        &&& old(store)@.medium_name_check(user_id, name@) is Some || found
                            == PathState::NotDirectory || old(store)@.has_medium(id)
                    },
                }
            }),
            old(store)@.wf() ==> final(store)@.wf(),
            old(store)@.paths_agree() ==> final(store)@.paths_agree(),
    {
        if name_check(store, &user_id, name).is_some() {
            return Err(BuilderError::NameExists);
        }
        let (local, provision) = match Local::build(path, found) {
            Ok(built) => built,
            Err(error) => {
                return Err(error);
            },
        };
        match Medium::create(store, id, user_id, name, Type::Local(local), tags, created) {
            Ok(medium) => Ok((medium, provision)),
            Err(error) => Err(error),
        }
    }

    /// Fetches the medium `id` of `user_id` from `store`, deleted or not. A
    /// medium that belongs to another user is not found.
    pub fn retrieve(store: &Store, user_id: &UserId, id: &StorageId) -> (found: Option<Medium>)
        ensures
            match found {
                Some(medium) => store@.find_medium(*user_id, *id) == Some(medium@),
                None => store@.find_medium(*user_id, *id) is None,
            },
    {
        store.find_medium(user_id, id)
    }

    /// The full public projection of the medium.
    pub fn into_model(self) -> (model: StorageItem)
        ensures
            model@ == self@,
    {
        StorageItem {
            id: self.id,
            name: self.name,
            user_id: self.user_id,
            type_: self.type_.into_model(),
            tags: self.tags,
            created: self.created,
            updated: self.updated,
            deleted: self.deleted,
        }
    }

    /// The summary of the medium that listings show.
    pub fn into_list_model(self) -> (model: StorageListItem)
        ensures
            model@ == self@.summary(),
    {
        StorageListItem {
            id: self.id,
            name: self.name,
            user_id: self.user_id,
            type_: self.type_.into_model(),
            tags: self.tags,
        }
    }
}

impl Clone for Medium {
    fn clone(&self) -> (copy: Medium)
        ensures
            copy@ == self@,
    {
        Medium {
            id: self.id,
            user_id: self.user_id,
            name: self.name.clone(),
            type_: self.type_.clone(),
            tags: self.tags.clone(),
            created: self.created,
            updated: self.updated,
            deleted: self.deleted,
        }
    }
}

} // verus!
