use delila::actor::{ActorAction, ConnectionActor, InboundFrame, PreparedTask};
use delila::errors::{ConfigurationError, DispatchError, ProtocolError};
use delila::pathsettings::PathSettings;
use delila::tasks::{
    CommandHandler, DispatchTable, EventPayload, Request, StorageStatus,
};

fn test_paths() -> PathSettings {
    PathSettings {
        logging_path: String::from("/tmp/logs"),
        settings_database_path: String::from("/tmp/settings"),
        database_path: String::from("/tmp/dbs/delila.db"),
    }
}

fn test_table() -> DispatchTable {
    let mut table = DispatchTable::new();
    table
        .register(String::from("import::importFile"), CommandHandler::ImportFile)
        .expect("fresh name");
    table
        .register(String::from("initialize::initialize"), CommandHandler::Initialize)
        .expect("fresh name");
    table
}

fn test_request(id: u32, name: &str, migrations_ok: bool) -> Request {
    Request {
        id,
        name: String::from(name),
        path_settings: test_paths(),
        storage: StorageStatus { migrations_ok },
        sent: Vec::new(),
    }
}

#[test]
fn test_dispatch_import_invokes_handler() {
    let table = test_table();
    let mut ctx = test_request(5, "import::importFile", true);
    let r = table.dispatch(&mut ctx, "{\"path\": \"/tmp/games.pgn\"}");
    assert!(r.is_ok());
    assert_eq!(ctx.sent.len(), 101);
    for (k, frame) in ctx.sent.iter().enumerate() {
        assert_eq!(frame.id, 5);
        assert_eq!(frame.name, "updateProgress");
        match &frame.payload {
            EventPayload::ImportProgress(p) => {
                assert_eq!(p.activity, "Loading ...");
                assert_eq!(p.progress as usize, k);
            }
            _ => panic!("unexpected payload"),
        }
    }
}

#[test]
fn test_dispatch_initialize_matching_version() {
    let table = test_table();
    let mut ctx = test_request(9, "initialize::initialize", true);
    let r = table.dispatch(&mut ctx, "{\"client_version\": \"0.1.0\"}");
    assert!(r.is_ok());
    assert_eq!(ctx.sent.len(), 5);
    let names: Vec<&str> = ctx.sent.iter().map(|f| f.name.as_str()).collect();
    assert_eq!(
        names,
        vec![
            "InitializeProgress",
            "InitializeProgress",
            "InitializeProgress",
            "InitializeProgress",
            "InitializeFinished",
        ]
    );
    let expected = [
        ("Running database migrations", 0u32),
        ("Reticulating splines", 20),
        ("Checking for updates", 40),
        ("Done", 60),
    ];
    for (frame, (activity, progress)) in ctx.sent.iter().zip(expected.iter()) {
        assert_eq!(frame.id, 9);
        match &frame.payload {
            EventPayload::InitProgress(p) => {
                assert_eq!(p.activity, *activity);
                assert_eq!(p.progress, *progress);
            }
            _ => panic!("unexpected payload"),
        }
    }
    match &ctx.sent[4].payload {
        EventPayload::InitFinished(f) => assert!(f.finished),
        _ => panic!("unexpected payload"),
    }
}

#[test]
fn test_dispatch_initialize_version_mismatch() {
    let table = test_table();
    let mut ctx = test_request(3, "initialize::initialize", true);
    let r = table.dispatch(&mut ctx, "{\"client_version\": \"9.9.9\"}");
    assert!(r.is_ok());
    assert_eq!(ctx.sent.len(), 1);
    assert_eq!(ctx.sent[0].id, 3);
    assert_eq!(ctx.sent[0].name, "VersionMismatchError");
    match &ctx.sent[0].payload {
        EventPayload::VersionMismatch(e) => assert_eq!(e.server_version.0, "0.1.0"),
        _ => panic!("unexpected payload"),
    }
}

#[test]
fn test_dispatch_initialize_migrations_fail() {
    let table = test_table();
    let mut ctx = test_request(4, "initialize::initialize", false);
    let r = table.dispatch(&mut ctx, "{\"client_version\": \"0.1.0\"}");
    match r {
        Err(DispatchError::Task(e)) => {
            assert_eq!(e.message, "Unable to run database migrations during startup");
        }
        _ => panic!("expected a task error"),
    }
    // The progress frame for the migration step was still sent.
    assert_eq!(ctx.sent.len(), 1);
    assert_eq!(ctx.sent[0].name, "InitializeProgress");
}

#[test]
fn test_dispatch_unknown_command() {
    let table = test_table();
    let mut ctx = test_request(2, "no::suchCommand", true);
    let r = table.dispatch(&mut ctx, "{}");
    match r {
        Err(DispatchError::Protocol(ProtocolError::UnknownCommand { name })) => {
            assert_eq!(name, "no::suchCommand");
        }
        _ => panic!("expected an unknown-command error"),
    }
    assert!(ctx.sent.is_empty());
}

#[test]
fn test_dispatch_decode_failure() {
    let table = test_table();
    let mut ctx = test_request(2, "import::importFile", true);
    let r = table.dispatch(&mut ctx, "this is not json");
    match r {
        Err(DispatchError::Protocol(ProtocolError::DecodeFailed { name })) => {
            assert_eq!(name, "import::importFile");
        }
        _ => panic!("expected a decode-failure error"),
    }
    assert!(ctx.sent.is_empty());

    // A well-formed document of the wrong shape fails the same way.
    let mut ctx2 = test_request(2, "import::importFile", true);
    let r2 = table.dispatch(&mut ctx2, "{\"path\": 7}");
    assert!(matches!(
        r2,
        Err(DispatchError::Protocol(ProtocolError::DecodeFailed { .. }))
    ));
    assert!(ctx2.sent.is_empty());
}

#[test]
fn test_register_duplicate_is_configuration_error() {
    let mut table = DispatchTable::new();
    let first = table.register(String::from("import::importFile"), CommandHandler::ImportFile);
    assert!(first.is_ok());
    let second = table.register(String::from("import::importFile"), CommandHandler::Initialize);
    match second {
        Err(ConfigurationError::DuplicateCommand { name }) => {
            assert_eq!(name, "import::importFile");
        }
        _ => panic!("expected a duplicate-command error"),
    }
}

#[test]
fn test_event_ordering_observed() {
    // The frames of one invocation are observed in emission order: the
    // k-th progress event of the import handler carries progress k.
    let table = test_table();
    let mut ctx = test_request(1, "import::importFile", true);
    table
        .dispatch(&mut ctx, "{\"path\": \"a.pgn\"}")
        .expect("import succeeds");
    for k in 0..ctx.sent.len() {
        match &ctx.sent[k].payload {
            EventPayload::ImportProgress(p) => assert_eq!(p.progress as usize, k),
            _ => panic!("unexpected payload"),
        }
    }
}

#[test]
fn test_back_to_back_requests_stay_isolated() {
    // Two requests dispatched back-to-back on the same connection,
    // routed to independent handlers: each completes with its own
    // frames, ids and payloads.
    let table = test_table();
    let mut ctx_a = test_request(21, "import::importFile", true);
    let mut ctx_b = test_request(22, "initialize::initialize", true);
    let ra = table.dispatch(&mut ctx_a, "{\"path\": \"x.pgn\"}");
    let rb = table.dispatch(&mut ctx_b, "{\"client_version\": \"0.1.0\"}");
    assert!(ra.is_ok());
    assert!(rb.is_ok());
    assert_eq!(ctx_a.sent.len(), 101);
    assert_eq!(ctx_b.sent.len(), 5);
    assert!(ctx_a.sent.iter().all(|f| f.id == 21));
    assert!(ctx_b.sent.iter().all(|f| f.id == 22));
    assert!(ctx_a.sent.iter().all(|f| f.name == "updateProgress"));
    assert!(ctx_b.sent.iter().all(|f| f.name != "updateProgress"));
}

#[test]
fn test_actor_submits_parsed_envelope() {
    let mut actor = ConnectionActor::new(test_paths(), StorageStatus { migrations_ok: true });
    let raw = String::from(
        "{\"id\": 42, \"name\": \"import::importFile\", \"args\": \"{\\\"path\\\": \\\"g.pgn\\\"}\"}",
    );
    let action = actor.on_message(InboundFrame::Text(raw), &Vec::new());
    match action {
        ActorAction::Submit(PreparedTask { context, args }) => {
            assert_eq!(context.id, 42);
            assert_eq!(context.name, "import::importFile");
            assert!(context.sent.is_empty());
            assert_eq!(args, "{\"path\": \"g.pgn\"}");
        }
        _ => panic!("expected a submission"),
    }
    assert_eq!(actor.in_flight.len(), 1);
    assert_eq!(actor.in_flight[0].request_id, 42);
}

#[test]
fn test_actor_ignores_malformed_text() {
    let mut actor = ConnectionActor::new(test_paths(), StorageStatus { migrations_ok: true });
    let action = actor.on_message(InboundFrame::Text(String::from("not json")), &Vec::new());
    assert!(matches!(action, ActorAction::IgnoreMalformed));
    assert!(actor.in_flight.is_empty());
}

#[test]
fn test_actor_rejects_binary() {
    let mut actor = ConnectionActor::new(test_paths(), StorageStatus { migrations_ok: true });
    let action = actor.on_message(InboundFrame::Binary(vec![0x01, 0x02]), &Vec::new());
    assert!(matches!(action, ActorAction::IgnoreBinary));
    assert!(actor.in_flight.is_empty());
}

#[test]
fn test_actor_sweeps_completed_tasks() {
    let mut actor = ConnectionActor::new(test_paths(), StorageStatus { migrations_ok: true });
    for id in [7u32, 8, 9] {
        let raw = format!(
            "{{\"id\": {}, \"name\": \"import::importFile\", \"args\": \"{{}}\"}}",
            id
        );
        actor.on_message(InboundFrame::Text(raw), &Vec::new());
    }
    assert_eq!(actor.in_flight.len(), 3);

    // A later frame sweeps the completed ids, keeping the rest in order.
    let completed = vec![7u32, 9];
    let action = actor.on_message(InboundFrame::Text(String::from("not json")), &completed);
    assert!(matches!(action, ActorAction::IgnoreMalformed));
    assert_eq!(actor.in_flight.len(), 1);
    assert_eq!(actor.in_flight[0].request_id, 8);
}

#[test]
fn test_actor_decode_failure_leaves_in_flight_sound() {
    // A payload that fails to decode produces an error for that request
    // only; the actor's bookkeeping is not corrupted and later requests
    // dispatch normally.
    let table = test_table();
    let mut actor = ConnectionActor::new(test_paths(), StorageStatus { migrations_ok: true });
    let raw = String::from(
        "{\"id\": 1, \"name\": \"import::importFile\", \"args\": \"broken\"}",
    );
    let action = actor.on_message(InboundFrame::Text(raw), &Vec::new());
    let (mut context, args) = match action {
        ActorAction::Submit(PreparedTask { context, args }) => (context, args),
        _ => panic!("expected a submission"),
    };
    let r = table.dispatch(&mut context, args.as_str());
    assert!(matches!(
        r,
        Err(DispatchError::Protocol(ProtocolError::DecodeFailed { .. }))
    ));
    assert_eq!(actor.in_flight.len(), 1);

    // The connection keeps working: the failed id completes, a new
    // request arrives, is swept in and dispatches normally.
    let raw2 = String::from(
        "{\"id\": 2, \"name\": \"initialize::initialize\", \"args\": \"{\\\"client_version\\\": \\\"0.1.0\\\"}\"}",
    );
    let action2 = actor.on_message(InboundFrame::Text(raw2), &vec![1u32]);
    let (mut context2, args2) = match action2 {
        ActorAction::Submit(PreparedTask { context, args }) => (context, args),
        _ => panic!("expected a submission"),
    };
    assert_eq!(actor.in_flight.len(), 1);
    assert_eq!(actor.in_flight[0].request_id, 2);
    let r2 = table.dispatch(&mut context2, args2.as_str());
    assert!(r2.is_ok());
    assert_eq!(context2.sent.len(), 5);
}

#[test]
fn test_protocol_error_variants() {
    // The malformed-envelope variant classifies frames the actor
    // ignored softly; the surrounding process logs it.
    let e = ProtocolError::MalformedEnvelope;
    assert!(matches!(e, ProtocolError::MalformedEnvelope));
}
