//! The request dispatch core.
//!
//! A `Request` is the per-invocation context a handler runs with: the
//! request's identity, the pre-resolved path configuration, the storage
//! collaborator's handle, and the outbound send capability, modelled as
//! the ordered log of frames this invocation has produced. The
//! connection flushes that log to the client in order, so the log's
//! order is the order the client observes.
//!
//! The `DispatchTable` routes a command name to its registered handler.
//! Each handler is bound to one argument type; `dispatch` decodes the
//! raw argument string for that type and invokes the handler, reporting
//! an unknown name or a failed decode as a `ProtocolError` value.

pub mod importfile;
pub mod initialize;

use vstd::prelude::*;

use crate::errors::ConfigurationError;
use crate::errors::DispatchError;
use crate::errors::ProtocolError;
use crate::pathsettings::PathSettings;
use crate::wire::json_client_version;
use crate::wire::json_file_path;
use crate::wire::decode_file_args;
use crate::wire::decode_version_args;
use crate::tasks::importfile::File;
use crate::tasks::importfile::Progress;
use crate::tasks::importfile::import_frames;
use crate::tasks::initialize::InitializeFinished;
use crate::tasks::initialize::InitializeProgress;
use crate::tasks::initialize::Version;
use crate::tasks::initialize::VersionId;
use crate::tasks::initialize::VersionMismatchError;
use crate::tasks::initialize::initialize_frames;
use crate::tasks::initialize::initialize_succeeds;

verus! {

/// The storage collaborator's handle, as the connection knows it:
/// whether the backing store is in place and its pending migrations
/// can run. The store itself lives outside the library; its answer is
/// captured here when the context is built.
#[derive(Clone, Copy, PartialEq, Eq, Structural)]
pub struct StorageStatus {
    pub migrations_ok: bool,
}

/// The payload of one outbound frame, in typed form. The connection
/// serializes it to the wire's JSON-in-a-string encoding when it
/// flushes the frame.
pub enum EventPayload {
    ImportProgress(Progress),
    InitProgress(InitializeProgress),
    VersionMismatch(VersionMismatchError),
    InitFinished(InitializeFinished),
}

/// The mathematical value of an `EventPayload`.
pub enum PayloadView {
    ImportProgress { activity: Seq<char>, progress: u32 },
    InitProgress { activity: Seq<char>, progress: u32 },
    VersionMismatch { server_version: Seq<char> },
    InitFinished { finished: bool },
}

impl View for EventPayload {
    type V = PayloadView;

    open spec fn view(&self) -> PayloadView {
        match self {
            EventPayload::ImportProgress(p) => PayloadView::ImportProgress {
                activity: p.activity@,
                progress: p.progress,
            },
            EventPayload::InitProgress(p) => PayloadView::InitProgress {
                activity: p.activity@,
                progress: p.progress,
            },
            EventPayload::VersionMismatch(e) => PayloadView::VersionMismatch {
                server_version: e.server_version.0@,
            },
            EventPayload::InitFinished(f) => PayloadView::InitFinished { finished: f.finished },
        }
    }
}

/// One outbound frame: an event or terminal reply for request `id`.
pub struct OutboundFrame {
    pub id: u32,
    pub name: String,
    pub payload: EventPayload,
}

/// The mathematical value of an `OutboundFrame`.
pub struct FrameView {
    pub id: u32,
    pub name: Seq<char>,
    pub payload: PayloadView,
}

impl View for OutboundFrame {
    type V = FrameView;

    open spec fn view(&self) -> FrameView {
        FrameView { id: self.id, name: self.name@, payload: self.payload@ }
    }
}

/// The per-invocation request context. It lives exactly as long as one
/// handler invocation; `sent` is the ordered log of frames the
/// invocation has produced so far.
pub struct Request {
    pub id: u32,
    pub name: String,
    pub path_settings: PathSettings,
    pub storage: StorageStatus,
    pub sent: Vec<OutboundFrame>,
}

/// The mathematical value of a `Request`.
pub struct RequestView {
    pub id: u32,
    pub name: Seq<char>,
    pub path_settings: PathSettings,
    pub storage: StorageStatus,
    pub sent: Seq<FrameView>,
}

impl View for Request {
    type V = RequestView;

    open spec fn view(&self) -> RequestView {
        RequestView {
            id: self.id,
            name: self.name@,
            path_settings: self.path_settings,
            storage: self.storage,
            sent: self.sent@.map_values(|f: OutboundFrame| f@),
        }
    }
}

impl Request {
    /// Record one outbound frame, stamped with this request's id, at
    /// the end of the log. Nothing else changes, so frames are
    /// observed in exactly the order a handler sends them.
    pub fn send(&mut self, method_name: String, payload: EventPayload)
        ensures
            final(self)@ == (RequestView {
                sent: old(self)@.sent.push(
                    FrameView { id: old(self)@.id, name: method_name@, payload: payload@ },
                ),
                ..old(self)@
            }),
    {
        let id = self.id;
        let frame = OutboundFrame { id, name: method_name, payload };
        self.sent.push(frame);
        proof {
            assert(self.sent@.map_values(|f: OutboundFrame| f@)
                =~= old(self).sent@.map_values(|f: OutboundFrame| f@).push(
                    FrameView { id: old(self)@.id, name: method_name@, payload: payload@ },
                ));
        }
    }
}

/// The closed family of typed handlers. Each variant is one command's
/// adapter: it knows how to decode that command's argument type from a
/// raw payload string and which handler function to invoke on the
/// decoded value.
#[derive(Clone, Copy)]
pub enum CommandHandler {
    ImportFile,
    Initialize,
}

/// One registration: a command name bound to its typed handler.
pub struct CommandRegistration {
    pub name: String,
    pub handler: CommandHandler,
}

/// The handler registered under `name`, scanning front to back.
pub open spec fn lookup_in(
    entries: Seq<CommandRegistration>,
    name: Seq<char>,
) -> Option<CommandHandler>
    decreases entries.len(),
{
    if entries.len() == 0 {
        None
    } else if entries[0].name@ == name {
        Some(entries[0].handler)
    } else {
        lookup_in(entries.drop_first(), name)
    }
}

proof fn lemma_lookup_push(
    entries: Seq<CommandRegistration>,
    reg: CommandRegistration,
    name: Seq<char>,
)
    ensures
        lookup_in(entries.push(reg), name) == (if lookup_in(entries, name) is Some {
            lookup_in(entries, name)
        } else if reg.name@ == name {
            Some(reg.handler)
        } else {
            None::<CommandHandler>
        }),
    decreases entries.len(),
{
    if entries.len() == 0 {
        assert(entries.push(reg)[0] == reg);
        assert(entries.push(reg).drop_first() =~= Seq::<CommandRegistration>::empty());
    } else {
        assert(entries.push(reg)[0] == entries[0]);
        assert(entries.push(reg).drop_first() =~= entries.drop_first().push(reg));
        lemma_lookup_push(entries.drop_first(), reg, name);
    }
}

proof fn lemma_lookup_none(entries: Seq<CommandRegistration>, name: Seq<char>)
    ensures
        (lookup_in(entries, name) is None) <==> (forall|i: int|
            0 <= i < entries.len() ==> entries[i].name@ != name),
    decreases entries.len(),
{
    if entries.len() == 0 {
    } else {
        let rest = entries.drop_first();
        lemma_lookup_none(rest, name);
        if lookup_in(entries, name) is None {
            assert forall|i: int| 0 <= i < entries.len() implies entries[i].name@ != name by {
                if i > 0 {
                    assert(rest[i - 1] == entries[i]);
                    assert(rest[i - 1].name@ != name);
                }
            }
        }
        if forall|i: int| 0 <= i < entries.len() ==> entries[i].name@ != name {
            assert(entries[0].name@ != name);
            assert forall|j: int| 0 <= j < rest.len() implies rest[j].name@ != name by {
                assert(rest[j] == entries[j + 1]);
                assert(entries[j + 1].name@ != name);
            }
            assert(lookup_in(rest, name) is None);
        }
    }
}

/// The name-to-handler registry. It is built once at startup and
/// read-only afterwards, so concurrently executing handlers share it
/// freely.
pub struct DispatchTable {
    pub entries: Vec<CommandRegistration>,
}

impl DispatchTable {
    /// At most one registration per name.
    pub open spec fn wf(&self) -> bool {
        forall|i: int, j: int|
            0 <= i < j < self.entries@.len() ==> self.entries@[i].name@ != self.entries@[j].name@
    }

    /// The handler registered under `name`, if any.
    pub open spec fn spec_lookup(&self, name: Seq<char>) -> Option<CommandHandler> {
        lookup_in(self.entries@, name)
    }

    /// An empty table.
    pub fn new() -> (t: DispatchTable)
        ensures
            t.wf(),
            t.entries@ == Seq::<CommandRegistration>::empty(),
    {
        DispatchTable { entries: Vec::new() }
    }

    fn find(&self, name: &String) -> (r: Option<CommandHandler>)
        ensures
            r == self.spec_lookup(name@),
    {
        let n = self.entries.len();
        let mut i: usize = 0;
        proof {
            assert(self.entries@.skip(0) =~= self.entries@);
        }
        while i < n
            invariant
                i <= n,
                n == self.entries@.len(),
                lookup_in(self.entries@, name@) == lookup_in(
                    self.entries@.skip(i as int),
                    name@,
                ),
            decreases n - i,
        {
            let entry = &self.entries[i];
            proof {
                assert(self.entries@.skip(i as int)[0] == self.entries@[i as int]);
            }
            if entry.name == *name {
                return Some(entry.handler);
            }
            proof {
                assert(self.entries@.skip(i as int).drop_first() =~= self.entries@.skip(
                    i as int + 1,
                ));
            }
            i = i + 1;
        }
        proof {
            assert(self.entries@.skip(n as int) =~= Seq::<CommandRegistration>::empty());
        }
        None
    }

    /// Register a handler under `name`. Registering a name twice is a
    /// configuration error, found here at startup, and leaves the
    /// table exactly as it was.
    pub fn register(&mut self, name: String, handler: CommandHandler) -> (r: Result<
        (),
        ConfigurationError,
    >)
        requires
            old(self).wf(),
        ensures
            final(self).wf(),
            old(self).spec_lookup(name@) is Some ==> {
                &&& r matches Err(ConfigurationError::DuplicateCommand { name: n }) && n@ == name@
                &&& *final(self) == *old(self)
            },
            old(self).spec_lookup(name@) is None ==> {
                &&& r is Ok
                &&& final(self).spec_lookup(name@) == Some(handler)
                &&& forall|other: Seq<char>|
                    other != name@ ==> final(self).spec_lookup(other) == old(self).spec_lookup(
                        other,
                    )
            },
    {
        match self.find(&name) {
            Some(_) => Err(ConfigurationError::DuplicateCommand { name }),
            None => {
                proof {
                    lemma_lookup_none(self.entries@, name@);
                }
                let ghost pre = self.entries@;
                let reg = CommandRegistration { name, handler };
                self.entries.push(reg);
                proof {
                    lemma_lookup_push(pre, self.entries@.last(), name@);
                    assert forall|other: Seq<char>| other != name@ implies lookup_in(
                        self.entries@,
                        other,
                    ) == lookup_in(pre, other) by {
                        lemma_lookup_push(pre, self.entries@.last(), other);
                    }
                    assert(forall|i: int|
                        0 <= i < pre.len() ==> #[trigger] self.entries@[i] == pre[i]);
                }
                Ok(())
            },
        }
    }
}

/// Whether the raw argument payload decodes for handler `h`'s argument
/// type.
pub open spec fn spec_decode_ok(h: CommandHandler, args: Seq<char>) -> bool {
    match h {
        CommandHandler::ImportFile => json_file_path(args) is Some,
        CommandHandler::Initialize => json_client_version(args) is Some,
    }
}

/// The frames handler `h` produces for request `id` on a payload that
/// decodes.
pub open spec fn spec_handler_frames(
    h: CommandHandler,
    id: u32,
    storage: StorageStatus,
    args: Seq<char>,
) -> Seq<FrameView> {
    match h {
        CommandHandler::ImportFile => import_frames(id),
        CommandHandler::Initialize => initialize_frames(
            id,
            json_client_version(args)->Some_0,
            storage.migrations_ok,
        ),
    }
}

/// Whether handler `h` succeeds on a payload that decodes.
pub open spec fn spec_handler_succeeds(
    h: CommandHandler,
    storage: StorageStatus,
    args: Seq<char>,
) -> bool {
    match h {
        CommandHandler::ImportFile => true,
        CommandHandler::Initialize => initialize_succeeds(
            json_client_version(args)->Some_0,
            storage.migrations_ok,
        ),
    }
}

impl DispatchTable {
    /// The uniform invocation boundary: look the context's command
    /// name up, decode the raw argument string for the registered
    /// argument type, and invoke the handler on the decoded value. An
    /// unknown name or a failed decode is reported as a protocol
    /// error value, with nothing recorded on the context; a handler
    /// failure is reported as a task error after the frames the
    /// handler did produce.
    pub fn dispatch(&self, context: &mut Request, args: &str) -> (r: Result<(), DispatchError>)
        ensures
            final(context)@ == (RequestView { sent: final(context)@.sent, ..old(context)@ }),
            self.spec_lookup(old(context)@.name) is None ==> {
                &&& r matches Err(DispatchError::Protocol(ProtocolError::UnknownCommand {
                    name,
                })) && name@ == old(context)@.name
                &&& final(context)@.sent == old(context)@.sent
            },
            self.spec_lookup(old(context)@.name) matches Some(h) && !spec_decode_ok(h, args@)
                ==> {
                &&& r matches Err(DispatchError::Protocol(ProtocolError::DecodeFailed { name }))
                    && name@ == old(context)@.name
                &&& final(context)@.sent == old(context)@.sent
            },
            (self.spec_lookup(old(context)@.name) is Some && spec_decode_ok(
                self.spec_lookup(old(context)@.name)->Some_0,
                args@,
            )) ==> ({
                let h = self.spec_lookup(old(context)@.name)->Some_0;
                &&& final(context)@.sent == old(context)@.sent + spec_handler_frames(
                    h,
                    old(context)@.id,
                    old(context)@.storage,
                    args@,
                )
                &&& r is Ok <==> spec_handler_succeeds(h, old(context)@.storage, args@)
                &&& r matches Err(e) ==> e matches DispatchError::Task(t)
                    && t.message@ == "Unable to run database migrations during startup"@
            }),
    {
        let found = self.find(&context.name);
        match found {
            None => Err(
                DispatchError::Protocol(
                    ProtocolError::UnknownCommand { name: context.name.clone() },
                ),
            ),
            Some(CommandHandler::ImportFile) => match decode_file_args(args) {
                None => Err(
                    DispatchError::Protocol(
                        ProtocolError::DecodeFailed { name: context.name.clone() },
                    ),
                ),
                Some(path) => match importfile::handler(context, File { path }) {
                    Ok(()) => Ok(()),
                    Err(e) => Err(DispatchError::Task(e)),
                },
            },
            Some(CommandHandler::Initialize) => match decode_version_args(args) {
                None => Err(
                    DispatchError::Protocol(
                        ProtocolError::DecodeFailed { name: context.name.clone() },
                    ),
                ),
                Some(client_version) => {
                    let version = Version { client_version: VersionId(client_version) };
                    match initialize::initialize(context, version) {
                        Ok(()) => Ok(()),
                        Err(e) => Err(DispatchError::Task(e)),
                    }
                },
            },
        }
    }
}

/// Law: the frames one invocation appends keep their emission order:
/// the k-th frame the handler sent stands at position `pre.len() + k`
/// of the connection's log.
pub proof fn lemma_event_ordering(pre: Seq<FrameView>, emitted: Seq<FrameView>, k: int)
    requires
        0 <= k < emitted.len(),
    ensures
        (pre + emitted)[pre.len() + k] == emitted[k],
{
}

/// Law: every frame a handler produces for a request echoes that
/// request's id.
pub proof fn lemma_frames_echo_id(
    h: CommandHandler,
    id: u32,
    storage: StorageStatus,
    args: Seq<char>,
    k: int,
)
    requires
        0 <= k < spec_handler_frames(h, id, storage, args).len(),
    ensures
        spec_handler_frames(h, id, storage, args)[k].id == id,
{
}

/// Law: no silence: a handler invocation always produces at least one
/// frame, so a request that reaches its handler is always answered —
/// by progress and a terminal frame, a mismatch report, or the frames
/// preceding the failure that is then reported for that request.
pub proof fn lemma_no_silence(h: CommandHandler, id: u32, storage: StorageStatus, args: Seq<char>)
    ensures
        spec_handler_frames(h, id, storage, args).len() > 0,
{
}

/// Law: requests dispatched back-to-back stay isolated: whatever the
/// handlers, payloads and storage answers, frames produced for two
/// distinct request ids are never the same frame.
pub proof fn lemma_request_isolation(
    h1: CommandHandler,
    id1: u32,
    storage1: StorageStatus,
    args1: Seq<char>,
    j: int,
    h2: CommandHandler,
    id2: u32,
    storage2: StorageStatus,
    args2: Seq<char>,
    k: int,
)
    requires
        id1 != id2,
        0 <= j < spec_handler_frames(h1, id1, storage1, args1).len(),
        0 <= k < spec_handler_frames(h2, id2, storage2, args2).len(),
    ensures
        spec_handler_frames(h1, id1, storage1, args1)[j] != spec_handler_frames(
            h2,
            id2,
            storage2,
            args2,
        )[k],
{
    lemma_frames_echo_id(h1, id1, storage1, args1, j);
    lemma_frames_echo_id(h2, id2, storage2, args2, k);
}

} // verus!
