//! The life of one tag: fetch a request, serve it, commit its result while
//! fetching the next, until the driver aborts.
use vstd::prelude::*;

use crate::abi::{EIO, UBLK_IO_RES_ABORT, UBLK_U_IO_COMMIT_AND_FETCH_REQ, UBLK_U_IO_FETCH_REQ};
use crate::sqes::{create_fetch_req_commit_sqe, create_fetch_req_sqe, io_cmd_bytes, IoSqe};

verus! {

/// Fixed-file slot of the per-device character device.
pub const UBLKC_FD_IDX: u32 = 0;

/// Where a tag stands.
#[derive(Debug, Clone, Copy, PartialEq, Eq, Structural)]
pub enum TagPhase {
    /// Nothing submitted yet.
    Init,
    /// The first fetch is in flight.
    Fetching,
    /// A request is being served.
    Serving,
    /// A commit-and-fetch is in flight.
    Committing,
    /// The tag is done.
    Exited,
}

/// What the tag does after a completion of its own command.
#[derive(Debug, Clone, Copy, PartialEq, Eq, Structural)]
pub enum TagAction {
    /// Serve the request now in the descriptor table.
    Serve,
    /// The driver aborted: end the tag cleanly.
    Exit,
    /// The first fetch failed: end the tag with this error.
    Fail(i32),
    /// The driver refused the last commit with this error; the request was
    /// dropped, and the tag serves the next one.
    ServeAfterCommitError(i32),
}

/// The state of one tag.
pub struct TagTask {
    tag: u8,
    queue_id: u16,
    buf_addr: u64,
    phase: TagPhase,
}

impl TagTask {
    pub closed spec fn phase(&self) -> TagPhase {
        self.phase
    }

    pub closed spec fn tag(&self) -> u8 {
        self.tag
    }

    pub closed spec fn queue_id(&self) -> u16 {
        self.queue_id
    }

    pub closed spec fn buf_addr(&self) -> u64 {
        self.buf_addr
    }

    /// A tag of queue `queue_id` whose buffer is at `buf_addr`.
    pub fn new(tag: u8, queue_id: u16, buf_addr: u64) -> (r: TagTask)
        ensures
            r.phase() == TagPhase::Init,
            r.tag() == tag,
            r.queue_id() == queue_id,
            r.buf_addr() == buf_addr,
    {
        TagTask { tag, queue_id, buf_addr, phase: TagPhase::Init }
    }

    /// The first fetch.
    pub fn fetch(&mut self) -> (r: IoSqe)
        requires
            old(self).phase() == TagPhase::Init,
        ensures
            final(self).phase() == TagPhase::Fetching,
            final(self).tag() == old(self).tag(),
            final(self).queue_id() == old(self).queue_id(),
            final(self).buf_addr() == old(self).buf_addr(),
            r matches IoSqe::Cmd { file_index, op, cmd } && file_index == UBLKC_FD_IDX
                && op == UBLK_U_IO_FETCH_REQ
                && cmd@ == io_cmd_bytes(old(self).queue_id(), old(self).tag() as u16, 0, old(self).buf_addr()),
    {
        self.phase = TagPhase::Fetching;
        create_fetch_req_sqe(UBLKC_FD_IDX, self.tag, self.queue_id, self.buf_addr)
    }

    /// Takes the completion of the first fetch: a request to serve, an abort
    /// (shutdown before any work), or an error that ends the tag.
    pub fn on_fetched(&mut self, result: i32) -> (r: TagAction)
        requires
            old(self).phase() == TagPhase::Fetching,
        ensures
            final(self).tag() == old(self).tag(),
            final(self).queue_id() == old(self).queue_id(),
            final(self).buf_addr() == old(self).buf_addr(),
            result == UBLK_IO_RES_ABORT ==> r == TagAction::Exit && final(self).phase() == TagPhase::Exited,
            result < 0 && result != UBLK_IO_RES_ABORT ==> r == TagAction::Fail(result) && final(self).phase()
                == TagPhase::Exited,
            result >= 0 ==> r == TagAction::Serve && final(self).phase() == TagPhase::Serving,
    {
        if result == UBLK_IO_RES_ABORT {
            self.phase = TagPhase::Exited;
            TagAction::Exit
        } else if result < 0 {
            self.phase = TagPhase::Exited;
            TagAction::Fail(result)
        } else {
            self.phase = TagPhase::Serving;
            TagAction::Serve
        }
    }

    /// Commits the result of the request just served and fetches the next.
    /// A request that could not be served commits `-EIO`.
    pub fn commit(&mut self, served: Option<i32>) -> (r: IoSqe)
        requires
            old(self).phase() == TagPhase::Serving,
        ensures
            final(self).phase() == TagPhase::Committing,
            final(self).tag() == old(self).tag(),
            final(self).queue_id() == old(self).queue_id(),
            final(self).buf_addr() == old(self).buf_addr(),
            r matches IoSqe::Cmd { file_index, op, cmd } && file_index == UBLKC_FD_IDX
                && op == UBLK_U_IO_COMMIT_AND_FETCH_REQ && cmd@ == io_cmd_bytes(
                old(self).queue_id(),
                old(self).tag() as u16,
                match served {
                    Some(v) => v,
                    None => -EIO as i32,
                },
                old(self).buf_addr(),
            ),
    {
        let result = match served {
            Some(v) => v,
            None => -EIO,
        };
        self.phase = TagPhase::Committing;
        create_fetch_req_commit_sqe(UBLKC_FD_IDX, self.tag, self.queue_id, self.buf_addr, result)
    }

    /// Takes the completion of a commit-and-fetch: an abort ends the tag
    /// cleanly; anything else brings the next request.
    pub fn on_committed(&mut self, result: i32) -> (r: TagAction)
        requires
            old(self).phase() == TagPhase::Committing,
        ensures
            final(self).tag() == old(self).tag(),
            final(self).queue_id() == old(self).queue_id(),
            final(self).buf_addr() == old(self).buf_addr(),
            result == UBLK_IO_RES_ABORT ==> r == TagAction::Exit && final(self).phase() == TagPhase::Exited,
            result < 0 && result != UBLK_IO_RES_ABORT ==> r == TagAction::ServeAfterCommitError(result)
                && final(self).phase() == TagPhase::Serving,
            result >= 0 ==> r == TagAction::Serve && final(self).phase() == TagPhase::Serving,
    {
        if result == UBLK_IO_RES_ABORT {
            self.phase = TagPhase::Exited;
            TagAction::Exit
        } else if result < 0 {
            self.phase = TagPhase::Serving;
            TagAction::ServeAfterCommitError(result)
        } else {
            self.phase = TagPhase::Serving;
            TagAction::Serve
        }
    }
}

} // verus!
