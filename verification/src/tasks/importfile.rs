//! The handler for importing a game file.
//!
//! The import itself is an external collaborator's work; what the core
//! owes the client is a progress stream: an opening frame at progress
//! 0, then one frame per completed step up to 100, all under the
//! `updateProgress` event name and the request's own id.

use vstd::prelude::*;

use crate::errors::TaskError;
use crate::tasks::EventPayload;
use crate::tasks::FrameView;
use crate::tasks::PayloadView;
use crate::tasks::Request;
use crate::tasks::RequestView;

verus! {

/// The argument type of the file-import command.
pub struct File {
    pub path: String,
}

/// The payload of one `updateProgress` event.
pub struct Progress {
    pub activity: String,
    pub progress: u32,
}

/// The frames one file-import invocation produces: progress 0 through
/// 100 under the `updateProgress` name, in that order.
pub open spec fn import_frames(id: u32) -> Seq<FrameView> {
    Seq::new(
        101,
        |k: int| FrameView {
            id,
            name: "updateProgress"@,
            payload: PayloadView::ImportProgress { activity: "Loading ..."@, progress: k as u32 },
        },
    )
}

/// Run one file-import request: emit the progress stream 0..=100 and
/// succeed. The decoded argument is accepted as-is; the actual file
/// work belongs to the storage collaborator.
pub fn handler(request: &mut Request, args: File) -> (r: Result<(), TaskError>)
    ensures
        r is Ok,
        final(request)@ == (RequestView {
            sent: old(request)@.sent + import_frames(old(request)@.id),
            ..old(request)@
        }),
{
    let ghost pre = request@;
    let state = Progress { activity: String::from_str("Loading ..."), progress: 0 };
    request.send(String::from_str("updateProgress"), EventPayload::ImportProgress(state));
    proof {
        assert(request@.sent =~= pre.sent + import_frames(pre.id).take(1));
    }
    let mut i: u32 = 0;
    while i < 100
        invariant
            i <= 100,
            request@ == (RequestView {
                sent: pre.sent + import_frames(pre.id).take(i + 1),
                ..pre
            }),
        decreases 100 - i,
    {
        i = i + 1;
        let state = Progress { activity: String::from_str("Loading ..."), progress: i };
        request.send(String::from_str("updateProgress"), EventPayload::ImportProgress(state));
        proof {
            assert(request@.sent =~= pre.sent + import_frames(pre.id).take(i + 1));
        }
    }
    proof {
        assert(import_frames(pre.id).take(101) =~= import_frames(pre.id));
    }
    Ok(())
}

} // verus!
