use rfs_core::error::{BackendError, StoreError};
use rfs_core::fs::consts::{DIR_TYPE, FILE_TYPE, ROOT_TYPE};
use rfs_core::fs::directory::{Resolution, NAME_GEN_ATTEMPTS};
use rfs_core::fs::error::{BuilderError, ItemError, ValidateError};
use rfs_core::fs::file::Mime;
use rfs_core::fs::record::{Record, Row};
use rfs_core::fs::{
    name_check, name_gen, validate_dir, validate_dir_lookup, Directory, File, IdOption, Item,
    NameGen, Probe, Root,
};
use rfs_core::fs::checksum::ContentHash;
use rfs_core::ids::{FSId, StorageId, UserId};
use rfs_core::schema;
use rfs_core::storage::fs::{Local as NodeLocal, Storage};
use rfs_core::storage::types::{Local, PathState, Type};
use rfs_core::storage::Medium;
use rfs_core::store::Store;
use rfs_core::tags::TagMap;
use rfs_core::time::Timestamp;

fn at(secs: i64) -> Timestamp {
    Timestamp::new(secs, 0)
}

fn medium(id: i64) -> Medium {
    Medium {
        id: StorageId::new(id),
        user_id: UserId::new(1),
        name: String::from("photos"),
        type_: Type::Local(Local { path: String::from("/srv/data") }),
        tags: TagMap::new(),
        created: at(10),
        updated: None,
        deleted: None,
    }
}

fn on(medium: i64) -> Storage {
    Storage::Local(NodeLocal { id: StorageId::new(medium) })
}

fn row(id: i64, kind: i16, parent: Option<i64>, basename: &str) -> Row {
    Row {
        id: FSId::new(id),
        user_id: UserId::new(1),
        parent: parent.map(FSId::new),
        basename: String::from(basename),
        fs_type: kind,
        path: String::from("docs"),
        size: None,
        mime_type: None,
        mime_subtype: None,
        hash: None,
        storage: on(10),
        comment: Some(String::from("note")),
        created: at(50),
        updated: Some(at(60)),
        deleted: None,
    }
}

fn build_named(store: &mut Store, id: i64, name: &str) -> Result<Directory, BuilderError> {
    let mut builder = Directory::builder(FSId::new(id), UserId::new(1), &medium(10));
    builder.basename(name);
    builder.build(store, at(1_700_000_000), Ok(()))
}

#[test]
fn name_check_finds_the_active_entry_of_the_scope() {
    let mut store = Store::new();
    store.insert_node(Record { row: row(1, DIR_TYPE, None, "a"), tags: TagMap::new() }).unwrap();
    store.insert_node(Record { row: row(2, FILE_TYPE, Some(1), "a"), tags: TagMap::new() }).unwrap();
    let root_scope = IdOption::Storage(StorageId::new(10));
    let dir_scope = IdOption::Parent(FSId::new(1));
    assert_eq!(name_check(&store, &root_scope, "a"), Some(FSId::new(1)));
    assert_eq!(name_check(&store, &dir_scope, "a"), Some(FSId::new(2)));
    assert_eq!(name_check(&store, &root_scope, "b"), None);
    assert_eq!(name_check(&store, &IdOption::Storage(StorageId::new(11)), "a"), None);
    assert_eq!(name_check(&store, &IdOption::Parent(FSId::new(2)), "a"), None);
}

#[test]
fn name_check_passes_over_deleted_entries_and_roots() {
    let mut store = Store::new();
    let mut gone = row(1, DIR_TYPE, None, "a");
    gone.deleted = Some(at(70));
    store.insert_node(Record { row: gone, tags: TagMap::new() }).unwrap();
    store.insert_node(Record { row: row(2, ROOT_TYPE, None, ""), tags: TagMap::new() }).unwrap();
    let scope = IdOption::Storage(StorageId::new(10));
    assert_eq!(name_check(&store, &scope, "a"), None);
    assert_eq!(name_check(&store, &scope, ""), None);
    store.insert_node(Record { row: row(3, DIR_TYPE, None, "a"), tags: TagMap::new() }).unwrap();
    assert_eq!(name_check(&store, &scope, "a"), Some(FSId::new(3)));
}

#[test]
fn name_gen_without_attempts_yields_nothing() {
    let store = Store::new();
    let scope = IdOption::Storage(StorageId::new(10));
    assert_eq!(name_gen(&store, &scope, at(1_700_000_000), 0), None);
}

#[test]
fn name_gen_yields_the_first_candidate_when_it_is_free() {
    let store = Store::new();
    let scope = IdOption::Storage(StorageId::new(10));
    assert_eq!(name_gen(&store, &scope, at(1_700_000_000), 1), Some(String::from("1700000000_1")));
    assert_eq!(name_gen(&store, &scope, at(0), 5), Some(String::from("0_1")));
    assert_eq!(name_gen(&store, &scope, at(-5), 5), Some(String::from("-5_1")));
    assert_eq!(
        name_gen(&store, &scope, Timestamp::new(12, 999_999_999), 5),
        Some(String::from("12_1"))
    );
}

#[test]
fn name_gen_skips_the_candidates_that_are_taken() {
    let mut store = Store::new();
    build_named(&mut store, 1, "1700000000_1").unwrap();
    build_named(&mut store, 2, "1700000000_2").unwrap();
    let scope = IdOption::Storage(StorageId::new(10));
    assert_eq!(name_gen(&store, &scope, at(1_700_000_000), 3), Some(String::from("1700000000_3")));
    assert_eq!(name_gen(&store, &scope, at(1_700_000_000), 2), None);
    assert_eq!(name_gen(&store, &scope, at(1_700_000_000), 1), None);
    assert_eq!(name_gen(&store, &scope, at(1_700_000_001), 1), Some(String::from("1700000001_1")));
    let elsewhere = IdOption::Parent(FSId::new(1));
    assert_eq!(
        name_gen(&store, &elsewhere, at(1_700_000_000), 1),
        Some(String::from("1700000000_1"))
    );
}

#[test]
fn name_gen_result_is_borne_by_no_active_sibling() {
    let mut store = Store::new();
    build_named(&mut store, 1, "7_1").unwrap();
    build_named(&mut store, 2, "7_3").unwrap();
    let scope = IdOption::Storage(StorageId::new(10));
    let name = name_gen(&store, &scope, at(7), 10).unwrap();
    assert_eq!(name, "7_2");
    assert_eq!(name_check(&store, &scope, name.as_str()), None);
}

#[test]
fn build_under_the_root_with_a_given_name() {
    let mut store = Store::new();
    let mut builder = Directory::builder(FSId::new(1), UserId::new(4), &medium(10));
    builder.basename("docs");
    builder.add_tag("color", Some("red"));
    builder.add_tag("flag", None);
    builder.comment("first");
    let dir = builder.build(&mut store, Timestamp::new(1_700_000_000, 3), Ok(())).unwrap();
    assert_eq!(dir.id, FSId::new(1));
    assert_eq!(dir.user_id, UserId::new(4));
    assert_eq!(dir.storage, on(10));
    assert_eq!(dir.parent, None);
    assert_eq!(dir.basename, "docs");
    assert_eq!(dir.path, "");
    assert_eq!(dir.full_path(), "docs");
    assert_eq!(dir.tags.len(), 2);
    assert_eq!(dir.tags.get("color"), Some(&Some(String::from("red"))));
    assert_eq!(dir.tags.get("flag"), Some(&None));
    assert_eq!(dir.comment, Some(String::from("first")));
    assert_eq!(dir.created, Timestamp::new(1_700_000_000, 3));
    assert_eq!(dir.updated, None);
    assert_eq!(dir.deleted, None);
    assert_eq!(store.nodes_len(), 1);
    assert_eq!(store.node_at(0).unwrap().row.fs_type, DIR_TYPE);
}

#[test]
fn build_then_retrieve_gives_the_same_directory() {
    let mut store = Store::new();
    let mut builder = Directory::builder(FSId::new(1), UserId::new(4), &medium(10));
    builder.basename("docs");
    builder.add_tag("color", Some("red"));
    builder.comment("first");
    let built = builder.build(&mut store, at(1_700_000_000), Ok(())).unwrap();
    let found = Directory::retrieve(&store, &FSId::new(1)).unwrap();
    assert_eq!(found.id, built.id);
    assert_eq!(found.user_id, built.user_id);
    assert_eq!(found.storage, built.storage);
    assert_eq!(found.parent, built.parent);
    assert_eq!(found.basename, built.basename);
    assert_eq!(found.path, built.path);
    assert_eq!(found.comment, built.comment);
    assert_eq!(found.created, built.created);
    assert_eq!(found.updated, None);
    assert_eq!(found.deleted, None);
    assert_eq!(found.tags.len(), 1);
    assert_eq!(found.tags.get("color"), Some(&Some(String::from("red"))));
    match Item::retrieve(&store, &FSId::new(1)) {
        Ok(Some(Item::Directory(dir))) => assert_eq!(dir.basename, "docs"),
        _ => panic!("the directory was not found as an item"),
    }
    assert!(Directory::retrieve(&store, &FSId::new(2)).is_none());
    assert!(matches!(Item::retrieve(&store, &FSId::new(2)), Ok(None)));
}

#[test]
fn build_under_a_parent_extends_the_parents_full_path() {
    let mut store = Store::new();
    let top = build_named(&mut store, 1, "docs").unwrap();
    let mut builder = Directory::builder(FSId::new(2), UserId::new(1), &medium(10)).with_parent(&top);
    builder.basename("img");
    let child = builder.build(&mut store, at(5), Ok(())).unwrap();
    assert_eq!(child.parent, Some(FSId::new(1)));
    assert_eq!(child.path, "docs");
    assert_eq!(child.full_path(), "docs/img");
    assert_eq!(child.path, top.full_path());
    let mut deeper =
        Directory::builder(FSId::new(3), UserId::new(1), &medium(10)).with_parent(&child);
    deeper.basename("raw");
    let leaf = deeper.build(&mut store, at(6), Ok(())).unwrap();
    assert_eq!(leaf.path, "docs/img");
    assert_eq!(leaf.full_path(), "docs/img/raw");
    assert_eq!(leaf.full_path(), rfs_core::path::join(child.full_path().as_str(), "raw"));
}

#[test]
fn build_refuses_a_basename_that_an_active_sibling_bears() {
    let mut store = Store::new();
    build_named(&mut store, 1, "docs").unwrap();
    let second = build_named(&mut store, 2, "docs");
    assert!(matches!(second, Err(BuilderError::BasenameExists)));
    assert_eq!(store.nodes_len(), 1);
}

#[test]
fn same_basename_is_allowed_in_another_scope() {
    let mut store = Store::new();
    let top = build_named(&mut store, 1, "docs").unwrap();
    let mut inner = Directory::builder(FSId::new(2), UserId::new(1), &medium(10)).with_parent(&top);
    inner.basename("docs");
    assert!(inner.build(&mut store, at(5), Ok(())).is_ok());
    let mut other = Directory::builder(FSId::new(3), UserId::new(1), &medium(11));
    other.basename("docs");
    assert!(other.build(&mut store, at(5), Ok(())).is_ok());
    assert_eq!(store.nodes_len(), 3);
}

#[test]
fn soft_deleting_a_sibling_frees_its_basename() {
    let mut store = Store::new();
    build_named(&mut store, 1, "docs").unwrap();
    assert!(matches!(build_named(&mut store, 2, "docs"), Err(BuilderError::BasenameExists)));
    store.delete_node(&FSId::new(1), at(99));
    assert_eq!(store.node_at(0).unwrap().row.deleted, Some(at(99)));
    let again = build_named(&mut store, 2, "docs").unwrap();
    assert_eq!(again.basename, "docs");
    assert_eq!(store.nodes_len(), 2);
    assert_eq!(
        name_check(&store, &IdOption::Storage(StorageId::new(10)), "docs"),
        Some(FSId::new(2))
    );
}

#[test]
fn build_without_a_name_generates_one() {
    let mut store = Store::new();
    let first = Directory::builder(FSId::new(1), UserId::new(1), &medium(10))
        .build(&mut store, at(1_700_000_000), Ok(()))
        .unwrap();
    assert_eq!(first.basename, "1700000000_1");
    let second = Directory::builder(FSId::new(2), UserId::new(1), &medium(10))
        .build(&mut store, at(1_700_000_000), Ok(()))
        .unwrap();
    assert_eq!(second.basename, "1700000000_2");
    assert_eq!(second.full_path(), "1700000000_2");
}

#[test]
fn build_gives_up_when_every_candidate_is_taken() {
    let mut store = Store::new();
    assert_eq!(NAME_GEN_ATTEMPTS, 100);
    for n in 1..=100i64 {
        build_named(&mut store, n, format!("42_{}", n).as_str()).unwrap();
    }
    let full = Directory::builder(FSId::new(500), UserId::new(1), &medium(10)).build(
        &mut store,
        at(42),
        Ok(()),
    );
    assert!(matches!(full, Err(BuilderError::BasenameGenFailed)));
    assert_eq!(store.nodes_len(), 100);
    store.delete_node(&FSId::new(100), at(50));
    let last = Directory::builder(FSId::new(500), UserId::new(1), &medium(10))
        .build(&mut store, at(42), Ok(()))
        .unwrap();
    assert_eq!(last.basename, "42_100");
}

#[test]
fn build_stops_when_the_backend_fails() {
    let mut store = Store::new();
    let mut builder = Directory::builder(FSId::new(1), UserId::new(1), &medium(10));
    builder.basename("docs");
    let failed = builder.build(&mut store, at(5), Err(BackendError::PermissionDenied));
    assert!(matches!(failed, Err(BuilderError::Backend(BackendError::PermissionDenied))));
    assert_eq!(store.nodes_len(), 0);
}

#[test]
fn build_reports_the_name_conflict_before_the_backend_is_asked() {
    let mut store = Store::new();
    build_named(&mut store, 1, "docs").unwrap();
    let mut builder = Directory::builder(FSId::new(2), UserId::new(1), &medium(10));
    builder.basename("docs");
    let failed = builder.build(&mut store, at(5), Err(BackendError::Other));
    assert!(matches!(failed, Err(BuilderError::BasenameExists)));
}

#[test]
fn build_with_a_used_identifier_is_refused_by_the_store() {
    let mut store = Store::new();
    build_named(&mut store, 1, "docs").unwrap();
    let second = build_named(&mut store, 1, "img");
    assert!(matches!(second, Err(BuilderError::Store(StoreError::DuplicateId))));
    assert_eq!(store.nodes_len(), 1);
}

#[test]
fn resolve_says_where_the_physical_object_goes() {
    let mut store = Store::new();
    let top = build_named(&mut store, 1, "docs").unwrap();
    let mut builder = Directory::builder(FSId::new(2), UserId::new(1), &medium(10)).with_parent(&top);
    builder.basename("img");
    let pending = builder.resolve(&store, at(5)).unwrap();
    assert_eq!(pending.physical_path(), "/srv/data/docs/img");
    assert_eq!(pending.directory().basename, "img");
    assert_eq!(store.nodes_len(), 1);
    let dir = pending.commit(&mut store).unwrap();
    assert_eq!(dir.full_path(), "docs/img");
    assert_eq!(store.nodes_len(), 2);
    let root_level = Directory::builder(FSId::new(3), UserId::new(1), &medium(10))
        .resolve(&store, at(9))
        .unwrap();
    assert_eq!(root_level.physical_path(), "/srv/data/9_1");
}

#[test]
fn row_of_an_unknown_kind_is_an_error_on_retrieval() {
    let mut store = Store::new();
    store.insert_node(Record { row: row(1, 7, None, "x"), tags: TagMap::new() }).unwrap();
    assert!(matches!(Item::retrieve(&store, &FSId::new(1)), Err(ItemError::UnexpectedType(7))));
    assert!(matches!(
        Item::query_to_item(row(2, -1, None, "x"), TagMap::new()),
        Err(ItemError::UnexpectedType(-1))
    ));
    assert!(matches!(
        Item::query_to_item(row(2, 3, None, "x"), TagMap::new()),
        Err(ItemError::UnexpectedType(3))
    ));
    assert!(Directory::retrieve(&store, &FSId::new(1)).is_none());
}

#[test]
fn rows_become_the_kind_of_node_that_they_record() {
    let mut tags = TagMap::new();
    tags.insert(String::from("t"), None);
    match Item::query_to_item(row(1, ROOT_TYPE, None, ""), tags.clone()).unwrap() {
        Item::Root(root) => {
            assert_eq!(root.id, FSId::new(1));
            assert_eq!(root.storage, on(10));
            assert_eq!(root.comment, Some(String::from("note")));
            assert_eq!(root.updated, Some(at(60)));
            assert!(root.tags.contains_key("t"));
        }
        _ => panic!("not a root"),
    }
    match Item::query_to_item(row(2, DIR_TYPE, Some(1), "docs"), tags.clone()).unwrap() {
        Item::Directory(dir) => {
            assert_eq!(dir.parent, Some(FSId::new(1)));
            assert_eq!(dir.basename, "docs");
            assert_eq!(dir.path, "docs");
            assert!(dir.tags.contains_key("t"));
        }
        _ => panic!("not a directory"),
    }
    let mut file_row = row(3, FILE_TYPE, Some(2), "a.txt");
    file_row.size = Some(12);
    file_row.mime_type = Some(String::from("text"));
    file_row.hash = Some(vec![9u8; 32]);
    match Item::query_to_item(file_row, tags).unwrap() {
        Item::File(file) => {
            assert_eq!(file.size, 12);
            assert_eq!(file.mime.type_, Some(String::from("text")));
            assert_eq!(file.mime.subtype, None);
            assert_eq!(file.hash.bytes, [9u8; 32]);
            assert_eq!(file.full_path(), "docs/a.txt");
        }
        _ => panic!("not a file"),
    }
}

#[test]
fn file_rows_need_a_size_and_a_hash_of_32_bytes() {
    let mut no_size = row(3, FILE_TYPE, None, "a");
    no_size.hash = Some(vec![0u8; 32]);
    assert!(matches!(Item::query_to_item(no_size, TagMap::new()), Err(ItemError::MissingSize)));
    let mut no_hash = row(3, FILE_TYPE, None, "a");
    no_hash.size = Some(1);
    assert!(matches!(Item::query_to_item(no_hash, TagMap::new()), Err(ItemError::InvalidHash)));
    let mut short = row(3, FILE_TYPE, None, "a");
    short.size = Some(1);
    short.hash = Some(vec![0u8; 31]);
    assert!(matches!(Item::query_to_item(short, TagMap::new()), Err(ItemError::InvalidHash)));
}

fn sample_file() -> File {
    File {
        id: FSId::new(3),
        user_id: UserId::new(1),
        storage: on(10),
        parent: Some(FSId::new(2)),
        basename: String::from("a.txt"),
        path: String::from("docs"),
        mime: Mime { type_: Some(String::from("text")), subtype: Some(String::from("plain")) },
        size: 12,
        hash: ContentHash { bytes: [3u8; 32] },
        tags: TagMap::new(),
        comment: None,
        created: at(1),
        updated: None,
        deleted: None,
    }
}

fn sample_root() -> Root {
    Root {
        id: FSId::new(1),
        user_id: UserId::new(1),
        storage: on(10),
        tags: TagMap::new(),
        comment: Some(String::from("top")),
        created: at(1),
        updated: None,
        deleted: None,
    }
}

#[test]
fn records_read_back_as_the_node_that_wrote_them() {
    let file = sample_file();
    let record = file.to_record();
    assert_eq!(record.row.fs_type, FILE_TYPE);
    assert_eq!(record.row.size, Some(12));
    assert_eq!(record.row.hash, Some(vec![3u8; 32]));
    match Item::query_to_item(record.row, record.tags).unwrap() {
        Item::File(back) => {
            assert_eq!(back.basename, "a.txt");
            assert_eq!(back.mime.subtype, Some(String::from("plain")));
            assert!(back.hash.matches(&file.hash));
        }
        _ => panic!("not a file"),
    }
    let root = sample_root().to_record();
    assert_eq!(root.row.fs_type, ROOT_TYPE);
    assert_eq!(root.row.parent, None);
    assert_eq!(root.row.basename, "");
    assert!(matches!(Item::query_to_item(root.row, root.tags), Ok(Item::Root(_))));
}

#[test]
fn item_answers_for_every_kind() {
    let root = Item::from(sample_root());
    let file = Item::from(sample_file());
    assert_eq!(*root.id(), FSId::new(1));
    assert_eq!(*file.id(), FSId::new(3));
    assert_eq!(root.full_path(), "");
    assert_eq!(file.full_path(), "docs/a.txt");
    assert_eq!(*root.storage_id(), StorageId::new(10));
    assert_eq!(*file.storage_id(), StorageId::new(10));
    assert!(!root.is_file());
    assert!(file.is_file());
    assert!(root.try_into_file().is_none());
    assert_eq!(file.try_into_file().unwrap().size, 12);
    assert_eq!(Item::from(sample_file()).into_file().basename, "a.txt");
    let mut store = Store::new();
    let dir = Item::from(build_named(&mut store, 5, "docs").unwrap());
    assert!(!dir.is_file());
    assert_eq!(*dir.id(), FSId::new(5));
    assert_eq!(dir.full_path(), "docs");
}

#[test]
fn setters_replace_and_return_what_was_there() {
    let mut item = Item::from(sample_root());
    assert_eq!(item.set_comment(Some(String::from("new"))), Some(String::from("top")));
    assert_eq!(item.set_comment(None), Some(String::from("new")));
    assert_eq!(item.set_comment(Some(String::from("again"))), None);
    let mut tags = TagMap::new();
    tags.insert(String::from("a"), None);
    let before = item.set_tags(tags);
    assert!(before.is_empty());
    let after = item.set_tags(TagMap::new());
    assert_eq!(after.len(), 1);
    assert!(after.contains_key("a"));
    match item {
        Item::Root(root) => {
            assert_eq!(root.comment, Some(String::from("again")));
            assert!(root.tags.is_empty());
        }
        _ => panic!("not a root"),
    }
    let mut file = Item::from(sample_file());
    assert_eq!(file.set_comment(Some(String::from("c"))), None);
    assert_eq!(file.set_comment(None), Some(String::from("c")));
}

#[test]
fn nodes_project_to_their_public_form() {
    let mut store = Store::new();
    let dir = build_named(&mut store, 5, "docs").unwrap();
    let model = Directory::retrieve(&store, &FSId::new(5)).unwrap().into_model();
    assert_eq!(model.id, FSId::new(5));
    assert_eq!(model.basename, "docs");
    assert_eq!(model.storage, schema::fs::Storage::Local { id: StorageId::new(10) });
    assert_eq!(model.total, 0);
    assert!(model.contents.is_empty());
    assert!(matches!(dir.into_model_item(), schema::fs::Item::Directory(_)));
    assert!(matches!(Item::from(sample_root()).into_schema(), schema::fs::Item::Root(_)));
    match Item::from(sample_file()).into_schema() {
        schema::fs::Item::File(file) => {
            assert_eq!(file.size, 12);
            assert_eq!(file.path, "docs");
        }
        _ => panic!("not a file"),
    }
}

#[test]
fn validate_dir_lookup_adjoins_the_path_to_the_working_directory() {
    assert_eq!(validate_dir_lookup("/home/me", "data/files"), "/home/me/data/files");
    assert_eq!(validate_dir_lookup("/home/me", "../data"), "/home/me/../data");
    assert_eq!(validate_dir_lookup("/home/me", ""), "/home/me/");
    assert_eq!(validate_dir_lookup("/home/me/", "data"), "/home/me/data");
}

#[test]
fn validate_dir_lookup_takes_an_absolute_path_from_the_root() {
    assert_eq!(validate_dir_lookup("/home/me", "/etc/rfs"), "/etc/rfs");
    assert_eq!(validate_dir_lookup("/home/me", "/srv/../data"), "/srv/../data");
    assert_eq!(validate_dir_lookup("", "/"), "/");
}

#[test]
fn validate_dir_returns_the_canonical_path_that_the_disk_found() {
    let target = validate_dir_lookup("/home/me", "/srv/../data");
    assert_eq!(target, "/srv/../data");
    let valid = validate_dir("pages", Ok((String::from("/data"), PathState::Directory)));
    assert!(matches!(valid, Ok(path) if path == "/data"));
}

#[test]
fn validate_dir_accepts_a_directory() {
    let valid = validate_dir("pages", Ok((String::from("/srv/pages"), PathState::Directory)));
    assert!(matches!(valid, Ok(path) if path == "/srv/pages"));
}

#[test]
fn validate_dir_names_what_is_missing() {
    let missing = validate_dir("pages", Ok((String::from("/srv/pages"), PathState::Missing)));
    assert!(matches!(missing, Err(ValidateError::NotFound(m)) if m == "given pages does not exist"));
    let unresolved = validate_dir("assets", Err(BackendError::NotFound));
    assert!(
        matches!(unresolved, Err(ValidateError::NotFound(m)) if m == "given assets does not exist")
    );
}

#[test]
fn validate_dir_names_what_is_no_directory() {
    let file = validate_dir("pages", Ok((String::from("/srv/pages"), PathState::NotDirectory)));
    assert!(
        matches!(file, Err(ValidateError::NotADirectory(m)) if m == "given pages is not a directory")
    );
}

#[test]
fn validate_dir_hands_other_failures_on() {
    let denied = validate_dir("pages", Err(BackendError::PermissionDenied));
    assert!(matches!(denied, Err(ValidateError::Backend(BackendError::PermissionDenied))));
    let other = validate_dir("pages", Err(BackendError::Other));
    assert!(matches!(other, Err(ValidateError::Backend(BackendError::Other))));
}

#[test]
fn generation_steps_through_the_candidates() {
    let (state, probe) = NameGen::start(at(7), 2);
    assert_eq!(state, NameGen { now: at(7), tried: 0, attempts: 2 });
    assert!(matches!(&probe, Probe::Check(name) if name == "7_1"));
    let (state, probe) = state.step(Some(FSId::new(1)));
    assert_eq!(state.tried, 1);
    assert!(matches!(&probe, Probe::Check(name) if name == "7_2"));
    let (taken, over) = state.step(Some(FSId::new(2)));
    assert_eq!(taken.tried, 2);
    assert!(matches!(over, Probe::Done(None)));
    let (_, found) = state.step(None);
    assert!(matches!(&found, Probe::Done(Some(name)) if name == "7_2"));
    assert!(matches!(taken.step(None).1, Probe::Done(None)));
}

#[test]
fn generation_without_attempts_is_over_at_once() {
    let (_, probe) = NameGen::start(at(7), 0);
    assert!(matches!(probe, Probe::Done(None)));
}

#[test]
fn settling_a_given_name_takes_one_lookup() {
    let mut builder = Directory::builder(FSId::new(1), UserId::new(1), &medium(10));
    builder.basename("docs");
    let naming = match builder.begin(at(5)) {
        Resolution::Ask(naming) => naming,
        _ => panic!("a given name is looked up first"),
    };
    assert_eq!(naming.scope(), IdOption::Storage(StorageId::new(10)));
    assert_eq!(naming.name(), "docs");
    match naming.answer(None) {
        Resolution::Settled(pending) => {
            assert_eq!(pending.physical_path(), "/srv/data/docs");
            assert_eq!(pending.into_directory().basename, "docs");
        }
        _ => panic!("a free name settles the build"),
    }
    let mut again = Directory::builder(FSId::new(1), UserId::new(1), &medium(10));
    again.basename("docs");
    let naming = match again.begin(at(5)) {
        Resolution::Ask(naming) => naming,
        _ => panic!("a given name is looked up first"),
    };
    assert!(matches!(
        naming.answer(Some(FSId::new(9))),
        Resolution::Failed(BuilderError::BasenameExists)
    ));
}

#[test]
fn settling_a_generated_name_walks_the_candidates() {
    let builder = Directory::builder(FSId::new(1), UserId::new(1), &medium(10));
    let mut resolution = builder.begin(at(5));
    let mut asked = Vec::new();
    let pending = loop {
        match resolution {
            Resolution::Ask(naming) => {
                asked.push(String::from(naming.name()));
                let found = if asked.len() < 3 { Some(FSId::new(9)) } else { None };
                resolution = naming.answer(found);
            }
            Resolution::Settled(pending) => break pending,
            Resolution::Failed(_) => panic!("the third candidate is free"),
        }
    };
    assert_eq!(asked, vec!["5_1", "5_2", "5_3"]);
    assert_eq!(pending.directory().basename, "5_3");
    assert_eq!(pending.physical_path(), "/srv/data/5_3");
    let mut resolution = Directory::builder(FSId::new(1), UserId::new(1), &medium(10)).begin(at(5));
    let mut lookups = 0;
    let failed = loop {
        match resolution {
            Resolution::Ask(naming) => {
                lookups += 1;
                resolution = naming.answer(Some(FSId::new(9)));
            }
            Resolution::Settled(_) => panic!("every candidate is taken"),
            Resolution::Failed(error) => break error,
        }
    };
    assert_eq!(failed, BuilderError::BasenameGenFailed);
    assert_eq!(lookups, 100);
}

#[test]
fn builder_tells_its_identifier_and_scope() {
    let builder = Directory::builder(FSId::new(3), UserId::new(1), &medium(10));
    assert_eq!(builder.id(), FSId::new(3));
    assert_eq!(builder.scope(), IdOption::Storage(StorageId::new(10)));
    let mut store = Store::new();
    let top = build_named(&mut store, 1, "docs").unwrap();
    let under = Directory::builder(FSId::new(4), UserId::new(1), &medium(10)).with_parent(&top);
    assert_eq!(under.scope(), IdOption::Parent(FSId::new(1)));
}

#[test]
fn file_verifies_the_content_that_it_records() {
    let content = b"hello world!";
    let mut file = sample_file();
    file.size = content.len() as u64;
    file.hash = ContentHash::of(content);
    assert!(file.verifies(content));
    assert!(!file.verifies(b"hello world?"));
    assert!(!file.verifies(b"hello world"));
    file.size = 11;
    assert!(!file.verifies(content));
}

#[test]
fn every_node_lies_at_its_parents_full_path_plus_its_basename() {
    let mut store = Store::new();
    build_named(&mut store, 1, "a").unwrap();
    let mut parent_id = 1;
    for (id, name) in [(2, "b"), (3, "c"), (4, "d")] {
        let parent = Directory::retrieve(&store, &FSId::new(parent_id)).unwrap();
        let mut builder =
            Directory::builder(FSId::new(id), UserId::new(1), &medium(10)).with_parent(&parent);
        builder.basename(name);
        builder.build(&mut store, at(5), Ok(())).unwrap();
        parent_id = id;
    }
    for i in 0..store.nodes_len() {
        let node = store.node_at(i).unwrap().row;
        if let Some(parent) = node.parent {
            let above = Directory::retrieve(&store, &parent).unwrap();
            let here = Directory::retrieve(&store, &node.id).unwrap();
            assert_eq!(node.path, above.full_path());
            assert_eq!(
                here.full_path(),
                rfs_core::path::join(above.full_path().as_str(), node.basename.as_str())
            );
        }
    }
    assert_eq!(Directory::retrieve(&store, &FSId::new(4)).unwrap().full_path(), "a/b/c/d");
}

#[test]
fn soft_deleted_row_under_a_parent_does_not_block_its_name() {
    let mut store = Store::new();
    let parent = build_named(&mut store, 1, "top").unwrap();
    let mut gone = row(2, DIR_TYPE, Some(1), "docs");
    gone.deleted = Some(at(3));
    store.insert_node(Record { row: gone, tags: TagMap::new() }).unwrap();
    let mut builder =
        Directory::builder(FSId::new(7), UserId::new(1), &medium(10)).with_parent(&parent);
    builder.basename("docs");
    let dir = builder.build(&mut store, at(9), Ok(())).unwrap();
    assert_eq!(dir.basename, "docs");
    assert_eq!(dir.parent, Some(FSId::new(1)));
    assert_eq!(dir.deleted, None);
    assert_eq!(dir.full_path(), "top/docs");
    assert_eq!(store.nodes_len(), 3);
    assert_eq!(name_check(&store, &IdOption::Parent(FSId::new(1)), "docs"), Some(FSId::new(7)));
    let mut reused =
        Directory::builder(FSId::new(2), UserId::new(1), &medium(10)).with_parent(&parent);
    reused.basename("other");
    assert!(matches!(
        reused.build(&mut store, at(9), Ok(())),
        Err(BuilderError::Store(StoreError::DuplicateId))
    ));
}
