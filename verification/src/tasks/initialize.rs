//! The handler for initializing the backend.
//!
//! The client opens by announcing its version. On a mismatch the
//! handler reports the server's version and stops. On a match it runs
//! the storage collaborator's pending migrations and walks the client
//! through the remaining startup steps with progress events, closing
//! with a finished frame.

use vstd::prelude::*;

use crate::app_info::delila_version;
use crate::app_info::spec_delila_version;
use crate::errors::TaskError;
use crate::tasks::EventPayload;
use crate::tasks::FrameView;
use crate::tasks::PayloadView;
use crate::tasks::Request;
use crate::tasks::RequestView;

verus! {

/// A failure report payload for initialization.
pub struct InitializeError {
    pub message: String,
}

/// The terminal payload of a successful initialization.
pub struct InitializeFinished {
    pub finished: bool,
}

/// A version string, as exchanged on the wire.
pub struct VersionId(pub String);

/// The payload reporting the server's version on a mismatch.
pub struct VersionMismatchError {
    pub server_version: VersionId,
}

/// The argument type of the initialize command.
pub struct Version {
    pub client_version: VersionId,
}

/// The payload of one initialization progress event.
pub struct InitializeProgress {
    pub activity: String,
    pub progress: u32,
}

/// One `InitializeProgress` frame.
pub open spec fn init_progress_frame(id: u32, activity: Seq<char>, progress: u32) -> FrameView {
    FrameView {
        id,
        name: "InitializeProgress"@,
        payload: PayloadView::InitProgress { activity, progress },
    }
}

/// The frames one initialize invocation produces, as a function of the
/// client's version and the storage collaborator's answer: a single
/// mismatch report, or the migration progress frame alone when the
/// migrations fail, or the full progress walk closed by a finished
/// frame.
pub open spec fn initialize_frames(
    id: u32,
    client_version: Seq<char>,
    migrations_ok: bool,
) -> Seq<FrameView> {
    if client_version != spec_delila_version() {
        seq![
            FrameView {
                id,
                name: "VersionMismatchError"@,
                payload: PayloadView::VersionMismatch { server_version: spec_delila_version() },
            },
        ]
    } else if !migrations_ok {
        seq![init_progress_frame(id, "Running database migrations"@, 0)]
    } else {
        seq![
            init_progress_frame(id, "Running database migrations"@, 0),
            init_progress_frame(id, "Reticulating splines"@, 20),
            init_progress_frame(id, "Checking for updates"@, 40),
            init_progress_frame(id, "Done"@, 60),
            FrameView {
                id,
                name: "InitializeFinished"@,
                payload: PayloadView::InitFinished { finished: true },
            },
        ]
    }
}

/// When one initialize invocation succeeds: always on a version
/// mismatch (the mismatch is reported, not failed), else exactly when
/// the migrations ran.
pub open spec fn initialize_succeeds(client_version: Seq<char>, migrations_ok: bool) -> bool {
    client_version != spec_delila_version() || migrations_ok
}

/// Run the storage collaborator's pending migrations, reporting a task
/// error when the collaborator cannot.
pub fn run_migrations(request: &Request) -> (r: Result<(), TaskError>)
    ensures
        r is Ok <==> request@.storage.migrations_ok,
        r matches Err(e) ==> e.message@ == "Unable to run database migrations during startup"@,
{
    if request.storage.migrations_ok {
        Ok(())
    } else {
        Err(TaskError {
            message: String::from_str("Unable to run database migrations during startup"),
        })
    }
}

/// Run one initialize request: report a version mismatch, or migrate
/// and walk the startup steps, emitting exactly the frames
/// `initialize_frames` describes, in that order.
pub fn initialize(request: &mut Request, version: Version) -> (r: Result<(), TaskError>)
    ensures
        final(request)@ == (RequestView {
            sent: old(request)@.sent + initialize_frames(
                old(request)@.id,
                version.client_version.0@,
                old(request)@.storage.migrations_ok,
            ),
            ..old(request)@
        }),
        r is Ok <==> initialize_succeeds(
            version.client_version.0@,
            old(request)@.storage.migrations_ok,
        ),
        r matches Err(e) ==> e.message@ == "Unable to run database migrations during startup"@,
{
    let ghost pre = request@;
    let ghost client = version.client_version.0@;
    let Version { client_version: VersionId(client_version) } = version;
    let expected = String::from_str(delila_version());
    if client_version != expected {
        request.send(
            String::from_str("VersionMismatchError"),
            EventPayload::VersionMismatch(VersionMismatchError {
                server_version: VersionId(expected),
            }),
        );
        proof {
            assert(request@.sent =~= pre.sent + initialize_frames(
                pre.id,
                client,
                pre.storage.migrations_ok,
            ));
        }
        Ok(())
    } else {
        request.send(
            String::from_str("InitializeProgress"),
            EventPayload::InitProgress(InitializeProgress {
                activity: String::from_str("Running database migrations"),
                progress: 0,
            }),
        );
        match run_migrations(request) {
            Err(e) => {
                proof {
                    assert(request@.sent =~= pre.sent + initialize_frames(
                        pre.id,
                        client,
                        pre.storage.migrations_ok,
                    ));
                }
                Err(e)
            },
            Ok(()) => {
                request.send(
                    String::from_str("InitializeProgress"),
                    EventPayload::InitProgress(InitializeProgress {
                        activity: String::from_str("Reticulating splines"),
                        progress: 20,
                    }),
                );
                request.send(
                    String::from_str("InitializeProgress"),
                    EventPayload::InitProgress(InitializeProgress {
                        activity: String::from_str("Checking for updates"),
                        progress: 40,
                    }),
                );
                request.send(
                    String::from_str("InitializeProgress"),
                    EventPayload::InitProgress(InitializeProgress {
                        activity: String::from_str("Done"),
                        progress: 60,
                    }),
                );
                request.send(
                    String::from_str("InitializeFinished"),
                    EventPayload::InitFinished(InitializeFinished { finished: true }),
                );
                proof {
                    assert(request@.sent =~= pre.sent + initialize_frames(
                        pre.id,
                        client,
                        pre.storage.migrations_ok,
                    ));
                }
                Ok(())
            },
        }
    }
}

} // verus!
