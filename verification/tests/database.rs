//! Database configuration validation, the connect fast path, write
//! serialization, and the calling-convention adapter.

use libsql_nvim::adapter::{adapt_call, adapter_for, AdapterKind, MethodShape};
use libsql_nvim::bridge::WorkerLedger;
use libsql_nvim::conn::{prepare_statement, ConnState};
use libsql_nvim::db::{build_plan, BuildPlan, ConfigError, ConnectAction, DbState,
    LuaDatabaseConfig, LuaDatabaseKind};
use libsql_nvim::value::DynamicValue;

#[test]
fn remote_config_needs_url_and_token() {
    let ok = build_plan(LuaDatabaseConfig {
        kind: LuaDatabaseKind::Remote,
        url: Some("libsql://db.example".to_string()),
        token: Some("SECRET-REDACTED".to_string()),
    });
    match ok {
        Ok(BuildPlan::Remote { url, token }) => {
            assert_eq!(url, "libsql://db.example");
            assert_eq!(token, "SECRET-REDACTED");
        }
        other => panic!("expected a remote plan, got {other:?}"),
    }
    let missing_token = build_plan(LuaDatabaseConfig {
        kind: LuaDatabaseKind::Remote,
        url: Some("libsql://db.example".to_string()),
        token: None,
    });
    assert!(matches!(missing_token, Err(ConfigError::MissingUrlOrToken)));
    let missing_url = build_plan(LuaDatabaseConfig {
        kind: LuaDatabaseKind::Remote,
        url: None,
        token: Some("SECRET-REDACTED".to_string()),
    });
    assert!(matches!(missing_url, Err(ConfigError::MissingUrlOrToken)));
}

#[test]
fn local_config_needs_path() {
    let ok = build_plan(LuaDatabaseConfig {
        kind: LuaDatabaseKind::Local,
        url: Some("/tmp/data.db".to_string()),
        token: None,
    });
    match ok {
        Ok(BuildPlan::Local { path }) => assert_eq!(path, "/tmp/data.db"),
        other => panic!("expected a local plan, got {other:?}"),
    }
    let missing = build_plan(LuaDatabaseConfig {
        kind: LuaDatabaseKind::Local,
        url: None,
        token: None,
    });
    assert!(matches!(missing, Err(ConfigError::MissingPath)));
}

#[test]
fn memory_config_needs_nothing() {
    let plan = build_plan(LuaDatabaseConfig {
        kind: LuaDatabaseKind::Memory,
        url: None,
        token: None,
    });
    assert!(matches!(plan, Ok(BuildPlan::Memory)));
}

#[test]
fn config_error_messages() {
    assert_eq!(
        ConfigError::MissingUrlOrToken.message(),
        "url and token must be provided"
    );
    assert_eq!(ConfigError::MissingPath.message(), "path must be provided");
}

#[test]
fn connect_reuses_the_live_connection() {
    let mut ledger = WorkerLedger::new();
    let mut db = DbState::new();
    // nothing open yet: a worker is spawned to open a connection
    assert_eq!(db.connect(&mut ledger), ConnectAction::Spawn);
    assert_eq!(ledger.spawned, 1);
    db.install_connection(7);
    // the fast path: both calls reuse the same logical connection and
    // neither spawns another worker
    assert_eq!(db.connect(&mut ledger), ConnectAction::Reuse(7));
    assert_eq!(db.connect(&mut ledger), ConnectAction::Reuse(7));
    assert_eq!(ledger.spawned, 1);
    // once the host drops the connection, connect spawns again
    db.release_connection();
    assert_eq!(db.connect(&mut ledger), ConnectAction::Spawn);
    assert_eq!(ledger.spawned, 2);
}

#[test]
fn concurrent_writers_serialize_to_the_grant_order() {
    // two execute calls contend for the same connection: the write lock
    // admits one at a time, in some grant order
    let mut interleaved = ConnState::new();
    interleaved.begin_write(1);
    // the second writer is blocked here until the first commits
    interleaved.commit_write();
    interleaved.begin_write(2);
    interleaved.commit_write();

    // the equivalent sequential execution, in the same order
    let mut sequential = ConnState::new();
    for op in [1u64, 2] {
        sequential.begin_write(op);
        sequential.commit_write();
    }

    assert_eq!(interleaved.applied_ops(), sequential.applied_ops());
    assert_eq!(interleaved.applied_ops().as_slice(), &[1, 2]);
    assert!(!interleaved.writer_active());
}

#[test]
fn prepare_statement_converts_before_any_spawn() {
    let mut ledger = WorkerLedger::new();
    let req = prepare_statement(
        "insert into t values (?, ?)".to_string(),
        vec![DynamicValue::Integer(1), DynamicValue::Boolean(false)],
        true,
        &mut ledger,
    )
    .unwrap();
    assert_eq!(req.sql, "insert into t values (?, ?)");
    assert_eq!(req.params.len(), 2);
    assert_eq!(ledger.spawned, 1);

    let bad = prepare_statement(
        "insert into t values (?)".to_string(),
        vec![DynamicValue::Table],
        true,
        &mut ledger,
    );
    assert!(bad.is_err());
    assert_eq!(ledger.spawned, 1);

    let no_handle = prepare_statement(
        "select 1".to_string(),
        vec![],
        false,
        &mut ledger,
    );
    assert!(no_handle.is_err());
    assert_eq!(ledger.spawned, 1);
}

#[test]
fn one_adapter_per_method_shape() {
    let all = [
        AdapterKind::MethodNoLua,
        AdapterKind::MethodWithLua,
        AdapterKind::MethodMutNoLua,
        AdapterKind::MethodMutWithLua,
        AdapterKind::AsyncMethodNoLua,
        AdapterKind::AsyncMethodWithLua,
        AdapterKind::AsyncMethodMutNoLua,
        AdapterKind::AsyncMethodMutWithLua,
    ];
    let mut seen = Vec::new();
    for needs_context in [false, true] {
        for mutable_receiver in [false, true] {
            for is_async in [false, true] {
                let shape = MethodShape { needs_context, mutable_receiver, is_async };
                let k = adapter_for(shape);
                assert!(all.contains(&k));
                assert!(!seen.contains(&k), "two shapes share an adapter");
                seen.push(k);
            }
        }
    }
    assert_eq!(seen.len(), 8);
    assert_eq!(
        adapter_for(MethodShape { needs_context: false, mutable_receiver: false, is_async: true }),
        AdapterKind::AsyncMethodNoLua
    );
}

#[test]
fn adaptation_forwards_arguments_unchanged() {
    let args = vec![
        DynamicValue::Integer(3),
        DynamicValue::Str(b"x".to_vec()),
        DynamicValue::Nil,
    ];
    let shape = MethodShape { needs_context: false, mutable_receiver: false, is_async: false };
    let adapted = adapt_call(shape, args.clone());
    assert_eq!(adapted.args, args);
    assert!(!adapted.context_forwarded);
    let with_ctx = adapt_call(
        MethodShape { needs_context: true, mutable_receiver: true, is_async: true },
        args.clone(),
    );
    assert!(with_ctx.context_forwarded);
    assert_eq!(with_ctx.args, args);
}
