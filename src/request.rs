//! Serving one request: its parts are submitted, then their completions are
//! taken in part order; short transfers and interruptions are resubmitted.
use vstd::prelude::*;

use crate::abi::{
    ublksrv_io_desc, EINTR, EIO, UBLK_IO_OP_FLUSH, UBLK_IO_OP_READ, UBLK_IO_OP_WRITE,
    UBLK_IO_OP_WRITE_ZEROES,
};
use crate::parts::{lemma_parts_cover, lemma_parts_end, part_list, routable, Part, PartModel, Parts};
use crate::sqes::{
    create_flush_sqe, create_rw_sqe_with_offset, create_write_zeroes_sqe, rw_fits, rw_sqe, zeroes_fits, zeroes_mode,
    IoSqe,
};

verus! {

/// What a request asks for.
#[derive(Debug, Clone, Copy, PartialEq, Eq, Structural)]
pub enum RequestKind {
    Read,
    Write,
    Flush,
    WriteZeroes,
}

/// The kind of request an operation code names, if the server serves it.
pub open spec fn kind_of(op: u32) -> Option<RequestKind> {
    if op == UBLK_IO_OP_READ {
        Some(RequestKind::Read)
    } else if op == UBLK_IO_OP_WRITE {
        Some(RequestKind::Write)
    } else if op == UBLK_IO_OP_FLUSH {
        Some(RequestKind::Flush)
    } else if op == UBLK_IO_OP_WRITE_ZEROES {
        Some(RequestKind::WriteZeroes)
    } else {
        None
    }
}

/// The kind of the request `desc` describes.
pub fn request_kind(desc: &ublksrv_io_desc) -> (r: Option<RequestKind>)
    ensures
        r == kind_of(desc.op_flags & 0xff),
{
    let op = desc.op();
    if op == UBLK_IO_OP_READ {
        Some(RequestKind::Read)
    } else if op == UBLK_IO_OP_WRITE {
        Some(RequestKind::Write)
    } else if op == UBLK_IO_OP_FLUSH {
        Some(RequestKind::Flush)
    } else if op == UBLK_IO_OP_WRITE_ZEROES {
        Some(RequestKind::WriteZeroes)
    } else {
        None
    }
}

/// Whether requests of this kind move data and report the bytes moved.
pub open spec fn moves_data(k: RequestKind) -> bool {
    k == RequestKind::Read || k == RequestKind::Write
}

/// The largest read or write, in sectors, whose byte count a result can report.
pub const MAX_REQUEST_SECTORS: u32 = 4_194_303;

/// Whether a request can be served with chunks of `chunk_size` bytes: its
/// sectors lie within the range the chunk numbers cover, and, for a read or
/// a write, its byte count fits a result.
pub open spec fn servable(chunk_size: u64, desc: ublksrv_io_desc) -> bool {
    &&& routable((chunk_size / 512) as int, desc.start_sector as int, desc.nr_sectors as int, 0)
    &&& (kind_of(desc.op_flags & 0xff) matches Some(k) && moves_data(k) ==> desc.nr_sectors <= MAX_REQUEST_SECTORS)
}

/// What to do after a completion.
#[derive(Debug, Clone, PartialEq, Eq)]
pub enum Step {
    /// Submit this entry and hand its completion back.
    Resubmit(IoSqe),
    /// The part is done; hand back the completion of the next part.
    Next,
    /// The request is done: report this result.
    Complete(i32),
}

/// A request being served.
pub struct Request {
    kind: RequestKind,
    op_flags: u32,
    nr_sectors: u32,
    chunk_sectors: u64,
    parts: Vec<Part>,
    files: Vec<u32>,
    idx: usize,
    current: u32,
    total: u64,
    failure: Option<i32>,
    finished: bool,
}

/// The bytes of a part.
pub open spec fn part_bytes(p: Part) -> int {
    p.nr_sectors * 512
}

impl Request {
    pub closed spec fn kind(&self) -> RequestKind {
        self.kind
    }

    pub closed spec fn nr_sectors(&self) -> nat {
        self.nr_sectors as nat
    }

    pub closed spec fn op_flags(&self) -> u32 {
        self.op_flags
    }

    /// The parts of the request.
    pub closed spec fn parts(&self) -> Seq<Part> {
        self.parts@
    }

    /// The fixed-file slots of the parts submitted so far.
    pub closed spec fn files(&self) -> Seq<u32> {
        self.files@
    }

    /// The part whose completion is awaited.
    pub closed spec fn index(&self) -> nat {
        self.idx as nat
    }

    /// Bytes of the awaited part already transferred.
    pub closed spec fn current(&self) -> nat {
        self.current as nat
    }

    /// Bytes of the parts before the awaited one.
    pub closed spec fn done_bytes(&self) -> nat {
        self.total as nat
    }

    /// The first permanent error of a part, once one came.
    pub closed spec fn failure(&self) -> Option<i32> {
        self.failure
    }

    /// Whether the request's result has been given.
    pub closed spec fn finished(&self) -> bool {
        self.finished
    }

    pub closed spec fn wf(&self) -> bool {
        let cs = self.chunk_sectors as nat;
        &&& cs > 0
        &&& cs * 512 <= u64::MAX
        &&& moves_data(self.kind) ==> self.nr_sectors <= MAX_REQUEST_SECTORS
        &&& self.failure is None ==> (self.parts@.len() > 0 <==> self.nr_sectors > 0)
        &&& forall|i: int|
            0 <= i < self.parts@.len() ==> zeroes_fits(#[trigger] self.parts@[i]) && (moves_data(self.kind)
                ==> rw_fits(self.parts@[i]))
        &&& forall|i: int|
            0 <= i < self.parts@.len() ==> #[trigger] self.parts@[i].nr_sectors > 0
        &&& self.parts@.len() > 0 ==> self.parts@[0].buf_offset == 0
        &&& self.failure is None && self.parts@.len() > 0 ==> self.parts@.last().buf_offset
            + self.parts@.last().nr_sectors == self.nr_sectors
        &&& forall|i: int|
            0 <= i < self.parts@.len() ==> #[trigger] self.parts@[i].buf_offset + self.parts@[i].nr_sectors
                <= self.nr_sectors
        &&& forall|i: int|
            0 <= i < self.parts@.len() - 1 ==> #[trigger] self.parts@[i + 1].buf_offset
                == self.parts@[i].buf_offset + self.parts@[i].nr_sectors
        &&& self.files@.len() <= self.parts@.len()
        &&& self.files@.len() < self.parts@.len() ==> self.idx == 0
        &&& self.idx <= self.parts@.len()
        &&& !self.finished ==> self.idx < self.parts@.len()
        &&& self.failure matches Some(e) ==> e < 0
        &&& self.failure is None && self.idx < self.parts@.len() ==> {
            &&& self.total == 512 * self.parts@[self.idx as int].buf_offset
            &&& self.current < part_bytes(self.parts@[self.idx as int])
        }
    }

    /// Starts serving the request `desc` over chunks of `chunk_size` bytes.
    /// Fails with `-EIO` where the operation is unknown or the request cannot
    /// be served.
    pub fn new(chunk_size: u64, desc: &ublksrv_io_desc) -> (r: Result<Request, i32>)
        ensures
            (kind_of(desc.op_flags & 0xff) is Some && servable(chunk_size, *desc)) <==> r is Ok,
            r matches Err(e) ==> e == -EIO,
            r matches Ok(q) ==> {
                &&& q.wf()
                &&& Some(q.kind()) == kind_of(desc.op_flags & 0xff)
                &&& q.op_flags() == desc.op_flags
                &&& q.nr_sectors() == desc.nr_sectors
                &&& q.parts().len() == part_list(
                    (chunk_size / 512) as nat,
                    desc.start_sector as nat,
                    desc.nr_sectors as nat,
                    0,
                ).len()
                &&& forall|i: int|
                    0 <= i < q.parts().len() ==> #[trigger] q.parts()[i].model() == part_list(
                        (chunk_size / 512) as nat,
                        desc.start_sector as nat,
                        desc.nr_sectors as nat,
                        0,
                    )[i]
                &&& q.files().len() == 0
                &&& q.index() == 0
                &&& q.current() == 0
                &&& q.done_bytes() == 0
                &&& q.failure() is None
                &&& q.finished() == (desc.nr_sectors == 0)
            },
    {
        let kind = match request_kind(desc) {
            Some(k) => k,
            None => return Err(-EIO),
        };
        let cs = chunk_size / 512;
        let rw = match kind {
            RequestKind::Read | RequestKind::Write => true,
            _ => false,
        };
        if cs == 0 || (rw && desc.nr_sectors > MAX_REQUEST_SECTORS) {
            return Err(-EIO);
        }
        if desc.start_sector > u64::MAX - desc.nr_sectors as u64 {
            return Err(-EIO);
        }
        if desc.nr_sectors > 0 && (desc.start_sector + desc.nr_sectors as u64 - 1) / cs > u32::MAX as u64 {
            return Err(-EIO);
        }
        let ghost model = part_list(cs as nat, desc.start_sector as nat, desc.nr_sectors as nat, 0);
        let parts = Parts::new(cs, desc.start_sector, desc.nr_sectors).collect();
        proof {
            lemma_parts_cover(cs as nat, desc.start_sector as nat, desc.nr_sectors as nat, 0);
            lemma_parts_end(cs as nat, desc.start_sector as nat, desc.nr_sectors as nat, 0);
            assert(cs * 512 <= chunk_size) by (nonlinear_arith)
                requires cs == chunk_size / 512;
            assert forall|i: int| 0 <= i < parts@.len() implies zeroes_fits(#[trigger] parts@[i]) && (rw
                ==> rw_fits(parts@[i])) && parts@[i].nr_sectors > 0 by {
                assert(parts@[i].model() == model[i]);
                assert(0 <= model[i].start_sector && 0 < model[i].nr_sectors);
                assert(model[i].start_sector + model[i].nr_sectors <= cs);
                assert(parts@[i].start_sector + parts@[i].nr_sectors <= cs);
                assert forall|j: int| 0 <= j < model.len() implies 0 < #[trigger] model[j].nr_sectors by {
                    assert(0 <= model[j].start_sector);
                }
                assert(parts@[i].nr_sectors <= desc.nr_sectors) by {
                    lemma_part_within(model, i, desc.nr_sectors as nat);
                }
                assert((parts@[i].start_sector + parts@[i].nr_sectors) * 512 <= cs * 512) by (nonlinear_arith)
                    requires parts@[i].start_sector + parts@[i].nr_sectors <= cs;
            }
            assert forall|i: int| 0 <= i < parts@.len() implies #[trigger] parts@[i].buf_offset
                + parts@[i].nr_sectors <= desc.nr_sectors by {
                assert(parts@[i].model() == model[i]);
                lemma_parts_bound(cs as nat, desc.start_sector as nat, desc.nr_sectors as nat, 0, i);
            }
            if parts@.len() > 0 {
                assert(parts@[0].model() == model[0]);
                assert(parts@.last().model() == model.last());
            }
            assert forall|i: int| 0 <= i < parts@.len() - 1 implies #[trigger] parts@[i + 1].buf_offset
                == parts@[i].buf_offset + parts@[i].nr_sectors by {
                assert(parts@[i].model() == model[i]);
                assert(parts@[i + 1].model() == model[i + 1]);
            }
        }
        Ok(Request {
            kind,
            op_flags: desc.op_flags,
            nr_sectors: desc.nr_sectors,
            chunk_sectors: cs,
            parts,
            files: Vec::new(),
            idx: 0,
            current: 0,
            total: 0,
            failure: None,
            finished: desc.nr_sectors == 0,
        })
    }
}

/// The entry that transfers what remains of part `p`, in file slot `file`,
/// once `curr` bytes of it are done.
pub open spec fn part_sqe(kind: RequestKind, op_flags: u32, p: Part, file: u32, curr: u32) -> IoSqe {
    match kind {
        RequestKind::Read => rw_sqe(UBLK_IO_OP_READ, file, p, op_flags, curr),
        RequestKind::Write => rw_sqe(UBLK_IO_OP_WRITE, file, p, op_flags, curr),
        RequestKind::Flush => IoSqe::Fsync { file_index: file },
        RequestKind::WriteZeroes => IoSqe::Fallocate {
            file_index: file,
            len: (p.nr_sectors * 512) as u64,
            offset: (p.start_sector * 512) as u64,
            mode: zeroes_mode(op_flags),
        },
    }
}

impl Request {
    /// The result of a request with no sectors, which needs no I/O.
    pub fn immediate_result(&self) -> (r: Option<i32>)
        requires
            self.wf(),
        ensures
            r == (if self.nr_sectors() == 0 { Some(0i32) } else { None }),
    {
        if self.nr_sectors == 0 {
            Some(0)
        } else {
            None
        }
    }

    /// The number of parts.
    pub fn nr_parts(&self) -> (r: usize)
        ensures
            r == self.parts().len(),
    {
        self.parts.len()
    }

    /// The number of parts submitted so far.
    pub fn nr_submitted(&self) -> (r: usize)
        ensures
            r == self.files().len(),
    {
        self.files.len()
    }

    /// The chunk that part `i` lies in.
    pub fn chunk_of(&self, i: usize) -> (r: u32)
        requires
            i < self.parts().len(),
        ensures
            r == self.parts()[i as int].file_num,
    {
        self.parts[i].file_num
    }

    /// Submits the next part, whose chunk file is open in slot `file`.
    pub fn submit_part(&mut self, file: u32) -> (r: IoSqe)
        requires
            old(self).wf(),
            old(self).files().len() < old(self).parts().len(),
        ensures
            final(self).wf(),
            final(self).files() == old(self).files().push(file),
            r == part_sqe(old(self).kind(), old(self).op_flags(), old(self).parts()[old(self).files().len() as int], file, 0),
            final(self).parts() == old(self).parts(),
            final(self).kind() == old(self).kind(),
            final(self).op_flags() == old(self).op_flags(),
            final(self).nr_sectors() == old(self).nr_sectors(),
            final(self).index() == old(self).index(),
            final(self).current() == old(self).current(),
            final(self).done_bytes() == old(self).done_bytes(),
            final(self).finished() == old(self).finished(),
    {
        let i = self.files.len();
        let sqe = self.sqe_for(i, file, 0);
        self.files.push(file);
        sqe
    }

    fn sqe_for(&self, i: usize, file: u32, curr: u32) -> (r: IoSqe)
        requires
            self.wf(),
            i < self.parts().len(),
            curr <= part_bytes(self.parts()[i as int]),
        ensures
            r == part_sqe(self.kind(), self.op_flags(), self.parts()[i as int], file, curr),
    {
        let part = &self.parts[i];
        let desc = ublksrv_io_desc { op_flags: self.op_flags, nr_sectors: self.nr_sectors, start_sector: 0, addr: 0 };
        match self.kind {
            RequestKind::Read => create_rw_sqe_with_offset(UBLK_IO_OP_READ, file, part, &desc, curr),
            RequestKind::Write => create_rw_sqe_with_offset(UBLK_IO_OP_WRITE, file, part, &desc, curr),
            RequestKind::Flush => create_flush_sqe(file),
            RequestKind::WriteZeroes => create_write_zeroes_sqe(file, part, &desc),
        }
    }

    /// Takes the completion `result` of the awaited part. A read or write
    /// that moved fewer bytes than remain is resubmitted for the rest; one
    /// that was interrupted is resubmitted as it was. A flush or zeroing is
    /// done at a zero result and resubmitted at an interruption. Any other
    /// error is kept as the request's result: nothing more is resubmitted,
    /// but the completions of the parts still in flight are taken before it
    /// is reported, so that no transfer outlives the request. Once every part
    /// is done the request reports the first error, or else the bytes it
    /// moved (reads and writes) or zero.
    pub fn on_completion(&mut self, result: i32) -> (r: Step)
        requires
            old(self).wf(),
            !old(self).finished(),
            old(self).files().len() == old(self).parts().len(),
        ensures
            final(self).wf(),
            final(self).parts() == old(self).parts(),
            final(self).files() == old(self).files(),
            final(self).kind() == old(self).kind(),
            final(self).op_flags() == old(self).op_flags(),
            final(self).nr_sectors() == old(self).nr_sectors(),
            ({
                let k = old(self).kind();
                let i = old(self).index() as int;
                let p = old(self).parts()[i];
                let f = old(self).files()[i];
                let cur = old(self).current() as int;
                let last = i + 1 == old(self).parts().len();
                let rw = moves_data(k);
                let ok = old(self).failure() is None;
                let fails = (result < 0 && result != -EINTR) || (rw && result > 0 && cur + result > part_bytes(p));
                let err: i32 = if result < 0 { result } else { (-EIO) as i32 };
                let part_done = if rw { result > 0 && cur + result == part_bytes(p) } else { result == 0 };
                let retry = result == -EINTR || (rw && result == 0) || (!rw && result > 0);
                let moves_on = !ok || fails || part_done;
                &&& moves_on ==> final(self).index() == i + 1 && final(self).current() == 0
                &&& moves_on && !last ==> r == Step::Next && !final(self).finished()
                &&& moves_on && last ==> final(self).finished()
                &&& old(self).failure() matches Some(e) ==> final(self).failure() == Some(e) && (last ==> r
                    == Step::Complete(e))
                &&& ok && fails ==> final(self).failure() == Some(err) && (last ==> r == Step::Complete(err))
                &&& ok && part_done ==> final(self).failure() is None && (last ==> r == Step::Complete(
                    if rw { (old(self).nr_sectors() * 512) as i32 } else { 0 },
                ))
                &&& ok && rw && result > 0 && cur + result < part_bytes(p) ==> r == Step::Resubmit(
                    part_sqe(k, old(self).op_flags(), p, f, (cur + result) as u32),
                ) && !final(self).finished() && final(self).index() == i && final(self).current() == cur
                    + result && final(self).failure() is None
                &&& ok && retry ==> r == Step::Resubmit(part_sqe(k, old(self).op_flags(), p, f, cur as u32))
                    && !final(self).finished() && final(self).index() == i && final(self).current() == cur
                    && final(self).failure() is None
            }),
            r is Complete ==> final(self).finished() && final(self).index() == final(self).files().len(),
            r is Resubmit ==> old(self).failure() is None,
            r matches Step::Complete(v) ==> (v >= 0 ==> v == (if moves_data(old(self).kind()) {
                old(self).nr_sectors() * 512
            } else {
                0
            })),
    {
        let i = self.idx;
        let file = self.files[i];
        let n = self.parts.len();
        let rw = match self.kind {
            RequestKind::Read | RequestKind::Write => true,
            _ => false,
        };
        if let Some(e) = self.failure {
            return self.move_on_failed(e);
        }
        if result < 0 && result != -EINTR {
            return self.move_on_failed(result);
        }
        let expected = self.parts[i].nr_sectors as u64 * 512;
        if rw && result > 0 {
            let remaining = expected - self.current as u64;
            if result as u64 > remaining {
                return self.move_on_failed(-EIO);
            }
            let current = self.current + result as u32;
            if (current as u64) < expected {
                self.current = current;
                return Step::Resubmit(self.sqe_for(i, file, current));
            }
        } else if rw || result != 0 {
            return Step::Resubmit(self.sqe_for(i, file, self.current));
        }
        proof {
            assert(self.parts@[i as int].buf_offset + self.parts@[i as int].nr_sectors <= self.nr_sectors);
        }
        self.total = self.total + expected;
        self.idx = i + 1;
        self.current = 0;
        if i + 1 == n {
            self.finished = true;
            if rw {
                Step::Complete(self.total as i32)
            } else {
                Step::Complete(0)
            }
        } else {
            Step::Next
        }
    }

    /// Gives up the parts not yet submitted, because one of them could not be
    /// (its chunk file could not be opened): the request fails with `e`.
    /// Where parts are in flight, their completions are still to be taken and
    /// the result comes from the last of them (`None` here); else it is `e`
    /// at once.
    pub fn give_up(&mut self, e: i32) -> (r: Option<i32>)
        requires
            old(self).wf(),
            !old(self).finished(),
            old(self).files().len() < old(self).parts().len(),
            e < 0,
        ensures
            final(self).wf(),
            final(self).parts() == old(self).parts().take(old(self).files().len() as int),
            final(self).files() == old(self).files(),
            final(self).kind() == old(self).kind(),
            final(self).op_flags() == old(self).op_flags(),
            final(self).nr_sectors() == old(self).nr_sectors(),
            final(self).index() == old(self).index(),
            final(self).current() == 0,
            final(self).failure() == (if old(self).failure() is Some { old(self).failure() } else { Some(e) }),
            old(self).files().len() == 0 ==> r == final(self).failure() && final(self).finished(),
            old(self).files().len() > 0 ==> r is None && !final(self).finished(),
    {
        let n = self.files.len();
        if self.failure.is_none() {
            self.failure = Some(e);
        }
        let ghost before = self.parts@;
        self.parts.truncate(n);
        self.current = 0;
        proof {
            assert(forall|i: int| 0 <= i < self.parts@.len() ==> #[trigger] self.parts@[i] == before[i]);
            assert forall|i: int| 0 <= i < self.parts@.len() - 1 implies #[trigger] self.parts@[i + 1].buf_offset
                == self.parts@[i].buf_offset + self.parts@[i].nr_sectors by {
                assert(self.parts@[i + 1] == before[i + 1]);
                assert(self.parts@[i] == before[i]);
            }
        }
        if n == 0 {
            self.finished = true;
            self.failure
        } else {
            None
        }
    }

    /// Moves past the awaited part of a request that failed with `e`.
    fn move_on_failed(&mut self, e: i32) -> (r: Step)
        requires
            old(self).wf(),
            !old(self).finished(),
            e < 0,
            old(self).failure() is None || old(self).failure() == Some(e),
            old(self).files().len() == old(self).parts().len(),
        ensures
            final(self).wf(),
            final(self).parts() == old(self).parts(),
            final(self).files() == old(self).files(),
            final(self).kind() == old(self).kind(),
            final(self).op_flags() == old(self).op_flags(),
            final(self).nr_sectors() == old(self).nr_sectors(),
            final(self).failure() == Some(e),
            final(self).index() == old(self).index() + 1,
            final(self).current() == 0,
            old(self).index() + 1 == old(self).parts().len() ==> r == Step::Complete(e) && final(self).finished(),
            old(self).index() + 1 != old(self).parts().len() ==> r == Step::Next && !final(self).finished(),
    {
        let n = self.parts.len();
        self.failure = Some(e);
        self.idx = self.idx + 1;
        self.current = 0;
        if self.idx == n {
            self.finished = true;
            Step::Complete(e)
        } else {
            Step::Next
        }
    }
}

/// Where device sector `sector` is kept: its chunk and its sector in the chunk.
pub open spec fn location(cs: nat, sector: nat) -> (nat, nat) {
    (sector / cs, sector % cs)
}

/// Reads see what writes left, as far as placing goes: distinct device
/// sectors are kept at distinct places of the chunk files, and a read and a
/// write of the same part address the same bytes of the same file and the
/// same bytes of the tag's buffer.
pub proof fn lemma_reads_meet_writes(cs: nat, s1: nat, s2: nat, p: Part, file: u32, op_flags: u32, curr: u32)
    requires
        cs > 0,
        s1 != s2,
    ensures
        location(cs, s1) != location(cs, s2),
        ({
            let r = part_sqe(RequestKind::Read, op_flags, p, file, curr);
            let w = part_sqe(RequestKind::Write, op_flags, p, file, curr);
            &&& r is Read
            &&& w is Write
            &&& r->Read_file_index == w->Write_file_index
            &&& r->Read_buf_offset == w->Write_buf_offset
            &&& r->Read_curr_offset == w->Write_curr_offset
            &&& r->Read_len == w->Write_len
            &&& r->Read_offset == w->Write_offset
        }),
{
    vstd::arithmetic::div_mod::lemma_fundamental_div_mod(s1 as int, cs as int);
    vstd::arithmetic::div_mod::lemma_fundamental_div_mod(s2 as int, cs as int);
}

/// Every part ends, in the buffer, no later than the request.
proof fn lemma_parts_bound(cs: nat, start: nat, nr: nat, buf: nat, i: int)
    requires
        cs > 0,
        0 <= i < part_list(cs, start, nr, buf).len(),
    ensures
        part_list(cs, start, nr, buf)[i].buf_offset + part_list(cs, start, nr, buf)[i].nr_sectors <= buf + nr,
    decreases nr,
{
    let within = start % cs;
    let take: nat = if cs - within < nr { (cs - within) as nat } else { nr };
    if i > 0 {
        lemma_parts_bound(cs, start + take, (nr - take) as nat, buf + take, i - 1);
    }
}

/// A part holds no more sectors than the request.
proof fn lemma_part_within(ps: Seq<PartModel>, i: int, nr: nat)
    requires
        0 <= i < ps.len(),
        crate::parts::total_sectors(ps) == nr,
        forall|j: int| 0 <= j < ps.len() ==> 0 < #[trigger] ps[j].nr_sectors,
    ensures
        ps[i].nr_sectors <= nr,
    decreases ps.len(),
{
    let rest = ps.drop_first();
    assert(forall|j: int| 0 <= j < rest.len() ==> rest[j] == ps[j + 1]);
    assert forall|j: int| 0 <= j < rest.len() implies 0 < #[trigger] rest[j].nr_sectors by {
        assert(rest[j] == ps[j + 1]);
    }
    lemma_total_nonneg(rest);
    if i > 0 {
        lemma_part_within(rest, i - 1, (nr - ps[0].nr_sectors) as nat);
    }
}

proof fn lemma_total_nonneg(ps: Seq<PartModel>)
    requires
        forall|j: int| 0 <= j < ps.len() ==> 0 < #[trigger] ps[j].nr_sectors,
    ensures
        crate::parts::total_sectors(ps) >= 0,
    decreases ps.len(),
{
    if ps.len() > 0 {
        let rest = ps.drop_first();
        assert forall|j: int| 0 <= j < rest.len() implies 0 < #[trigger] rest[j].nr_sectors by {
            assert(rest[j] == ps[j + 1]);
        }
        lemma_total_nonneg(rest);
    }
}

} // verus!
