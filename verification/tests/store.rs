use cita_database::columns::{column_name, column_names, map_columns};
use cita_database::config::Config;
use cita_database::error::DatabaseError;
use cita_database::memorydb::{gen_key, gen_keys};
use cita_database::restore::{backup_path, restore_start, restore_step, RestoreEvent, RestoreState};
use cita_database::store::{interpret_reply, EngineReply, ReadPlan, StoreCore, WritePlan};
use cita_database::DataCategory;

#[test]
fn test_map_columns_values() {
    assert_eq!(map_columns(DataCategory::State), "col0");
    assert_eq!(map_columns(DataCategory::Headers), "col1");
    assert_eq!(map_columns(DataCategory::Bodies), "col2");
    assert_eq!(map_columns(DataCategory::Extra), "col3");
    assert_eq!(map_columns(DataCategory::Trace), "col4");
    assert_eq!(map_columns(DataCategory::AccountBloom), "col5");
    assert_eq!(map_columns(DataCategory::Other), "col6");
}

#[test]
fn test_column_names_generation() {
    assert_eq!(column_name(0), "col0");
    assert_eq!(column_name(123), "col123");
    assert_eq!(column_name(1000), "col1000");
    assert_eq!(column_names(3), vec!["col0", "col1", "col2"]);
    assert!(column_names(0).is_empty());
}

#[test]
fn test_gen_key_prefixes() {
    assert_eq!(gen_key(&Some(DataCategory::State), b"abc".to_vec()), b"state-abc".to_vec());
    assert_eq!(gen_key(&Some(DataCategory::Headers), b"k".to_vec()), b"headers-k".to_vec());
    assert_eq!(gen_key(&Some(DataCategory::Bodies), b"k".to_vec()), b"bodies-k".to_vec());
    assert_eq!(gen_key(&Some(DataCategory::Extra), b"k".to_vec()), b"extra-k".to_vec());
    assert_eq!(gen_key(&Some(DataCategory::Trace), b"k".to_vec()), b"trace-k".to_vec());
    assert_eq!(
        gen_key(&Some(DataCategory::AccountBloom), b"k".to_vec()),
        b"account-bloom-k".to_vec()
    );
    assert_eq!(gen_key(&Some(DataCategory::Other), b"k".to_vec()), b"other-k".to_vec());
    assert_eq!(gen_key(&None, b"plain".to_vec()), b"plain".to_vec());

    let keys = gen_keys(&Some(DataCategory::State), vec![b"a".to_vec(), b"b".to_vec()]);
    assert_eq!(keys, vec![b"state-a".to_vec(), b"state-b".to_vec()]);
}

#[test]
fn test_error_messages() {
    assert_eq!(DatabaseError::NotFound.message(), "not found");
    assert_eq!(DatabaseError::InvalidData.message(), "invalid data");
    assert_eq!(
        DatabaseError::Internal("lock held".to_string()).message(),
        "internal error: lock held"
    );
}

#[test]
fn test_interpret_reply() {
    assert_eq!(interpret_reply(EngineReply::Done(7u32)), Ok(7u32));
    assert_eq!(
        interpret_reply::<u32>(EngineReply::MissingColumn),
        Err(DatabaseError::NotFound)
    );
    assert_eq!(
        interpret_reply::<u32>(EngineReply::Failed("disk gone".to_string())),
        Err(DatabaseError::Internal("disk gone".to_string()))
    );
}

#[test]
fn test_store_core_close_and_reopen() {
    let mut core = StoreCore::new_open("data/db".to_string(), Config::default());
    assert!(core.opened());
    assert_eq!(core.path(), "data/db");

    // open: reads query the engine on the category's column
    match core.plan_read(Some(DataCategory::State)) {
        ReadPlan::Query { column } => assert_eq!(column, Some("col0")),
        ReadPlan::Absent => panic!("an open store must query the engine"),
    }
    match core.plan_read(None) {
        ReadPlan::Query { column } => assert_eq!(column, None),
        ReadPlan::Absent => panic!("an open store must query the engine"),
    }
    match core.plan_write(Some(DataCategory::Other)) {
        WritePlan::Apply { column } => assert_eq!(column, Some("col6")),
        WritePlan::Skip => panic!("an open store must apply writes"),
    }

    // closed: reads answer absence, writes are silent no-ops
    core.close();
    assert!(!core.opened());
    assert!(matches!(core.plan_read(Some(DataCategory::State)), ReadPlan::Absent));
    assert!(matches!(core.plan_write(None), WritePlan::Skip));

    // closing again is a no-op
    core.close();
    assert!(!core.opened());

    // reopening restores connectivity at the same path and configuration
    core.reopened();
    assert!(core.opened());
    assert_eq!(core.path(), "data/db");
    assert!(matches!(core.plan_read(None), ReadPlan::Query { column: None }));
}

#[test]
fn test_plan_insert_batch_validation() {
    let core = StoreCore::new_open("data/db".to_string(), Config::default());

    let keys = vec![b"k".to_vec()];
    let no_values: Vec<Vec<u8>> = vec![];
    match core.plan_insert_batch(None, &keys, &no_values) {
        Err(DatabaseError::InvalidData) => (),
        _ => panic!("should return error DatabaseError::InvalidData"),
    }

    let values = vec![b"v".to_vec()];
    match core.plan_insert_batch(Some(DataCategory::State), &keys, &values) {
        Ok(WritePlan::Apply { column }) => assert_eq!(column, Some("col0")),
        _ => panic!("a matched batch on an open store must be applied"),
    }

    // a closed store still rejects a mismatched batch before skipping
    let mut closed = StoreCore::new_open("data/db".to_string(), Config::default());
    closed.close();
    match closed.plan_insert_batch(None, &keys, &no_values) {
        Err(DatabaseError::InvalidData) => (),
        _ => panic!("should return error DatabaseError::InvalidData"),
    }
    match closed.plan_insert_batch(None, &keys, &values) {
        Ok(WritePlan::Skip) => (),
        _ => panic!("a matched batch on a closed store is skipped"),
    }
}

#[test]
fn test_config_defaults() {
    let config = Config::default();
    assert!(config.wal);
    assert_eq!(config.category_num, None);
    assert_eq!(config.max_open_files, 512);
    assert_eq!(config.compaction.target_file_size_base, 64 * 1024 * 1024);
    assert_eq!(config.compaction.max_background_compactions, None);
    assert_eq!(config.increase_parallelism, None);

    let with_num = Config::with_category_num(Some(4));
    assert_eq!(with_num.category_num, Some(4));
    assert!(with_num.wal);
    assert_eq!(with_num.max_open_files, 512);
}

#[test]
fn test_restore_success_path() {
    assert_eq!(backup_path(), "backup_old_db");

    let mut state = restore_start();
    assert!(matches!(state, RestoreState::CheckBackup));

    // no backup in the way: back up, install, discard, reopen
    state = restore_step(state, RestoreEvent::Exists(false));
    assert!(matches!(state, RestoreState::BackupCurrent));
    state = restore_step(state, RestoreEvent::Completed);
    assert!(matches!(state, RestoreState::InstallNew));
    state = restore_step(state, RestoreEvent::Completed);
    assert!(matches!(state, RestoreState::DiscardBackup));
    state = restore_step(state, RestoreEvent::Completed);
    assert!(matches!(state, RestoreState::Reopen { outcome: Ok(()) }));
    state = restore_step(state, RestoreEvent::Completed);
    assert!(matches!(state, RestoreState::Done { outcome: Ok(()) }));
}

#[test]
fn test_restore_conflicting_backup() {
    // a stale backup directory blocks the attempt; the caller gets an
    // internal error and the store is reopened over its untouched data
    let mut state = restore_start();
    state = restore_step(state, RestoreEvent::Exists(true));
    match &state {
        RestoreState::Reopen { outcome: Err(DatabaseError::Internal(detail)) } => {
            assert_eq!(detail, "conflicting backup")
        },
        _ => panic!("a present backup must abort the restore"),
    }
    state = restore_step(state, RestoreEvent::Completed);
    match state {
        RestoreState::Done { outcome: Err(DatabaseError::Internal(detail)) } => {
            assert_eq!(detail, "conflicting backup")
        },
        _ => panic!("the conflict must be reported to the caller"),
    }
}

#[test]
fn test_restore_rollback_on_failed_install() {
    let mut state = restore_start();
    state = restore_step(state, RestoreEvent::Exists(false));
    state = restore_step(state, RestoreEvent::Completed);
    assert!(matches!(state, RestoreState::InstallNew));

    // the swap fails: roll the backup back and report the original detail
    state = restore_step(state, RestoreEvent::Failed("no space".to_string()));
    assert!(matches!(state, RestoreState::RollBack { .. }));
    state = restore_step(state, RestoreEvent::Completed);
    match &state {
        RestoreState::Reopen { outcome: Err(DatabaseError::Internal(detail)) } => {
            assert_eq!(detail, "no space")
        },
        _ => panic!("the installation failure must be reported"),
    }
    state = restore_step(state, RestoreEvent::Completed);
    match state {
        RestoreState::Done { outcome: Err(DatabaseError::Internal(detail)) } => {
            assert_eq!(detail, "no space")
        },
        _ => panic!("the installation failure must be reported"),
    }
}

#[test]
fn test_restore_failed_reopen_is_fatal() {
    let mut state = restore_start();
    state = restore_step(state, RestoreEvent::Exists(false));
    state = restore_step(state, RestoreEvent::Completed);
    state = restore_step(state, RestoreEvent::Completed);
    state = restore_step(state, RestoreEvent::Completed);
    assert!(matches!(state, RestoreState::Reopen { outcome: Ok(()) }));

    // the data was replaced, but the handle could not be reacquired
    state = restore_step(state, RestoreEvent::Failed("lock held".to_string()));
    match state {
        RestoreState::Done { outcome: Err(DatabaseError::Internal(detail)) } => {
            assert_eq!(detail, "lock held")
        },
        _ => panic!("a failed reopen is fatal to the restore call"),
    }
}

#[test]
fn test_restore_ignores_unexpected_events() {
    let state = restore_start();
    // an answer that was never asked for leaves the protocol where it was
    let state = restore_step(state, RestoreEvent::Completed);
    assert!(matches!(state, RestoreState::CheckBackup));
    let state = restore_step(state, RestoreEvent::Failed("noise".to_string()));
    assert!(matches!(state, RestoreState::CheckBackup));
}
