//! Splitting of a request into parts that each lie within one chunk.
use vstd::prelude::*;

use crate::abi::ublksrv_io_desc;
use crate::config::Config;

verus! {

/// What a part says, in mathematical integers.
pub struct PartModel {
    pub file_num: int,
    pub start_sector: int,
    pub nr_sectors: int,
    pub buf_offset: int,
}

/// The parts of the request of `nr` sectors from sector `start`, with chunks of
/// `cs` sectors, whose data starts `buf` sectors into the buffer.
pub open spec fn part_list(cs: nat, start: nat, nr: nat, buf: nat) -> Seq<PartModel>
    decreases nr,
{
    if nr == 0 || cs == 0 {
        Seq::empty()
    } else {
        let within = start % cs;
        let take: nat = if cs - within < nr { (cs - within) as nat } else { nr };
        seq![PartModel { file_num: (start / cs) as int, start_sector: within as int, nr_sectors: take as int, buf_offset: buf as int }]
            + part_list(cs, start + take, (nr - take) as nat, buf + take)
    }
}

/// The sum of the sizes of `ps`.
pub open spec fn total_sectors(ps: Seq<PartModel>) -> int
    decreases ps.len(),
{
    if ps.len() == 0 {
        0
    } else {
        ps[0].nr_sectors + total_sectors(ps.drop_first())
    }
}

/// The device sector at which part `p` starts.
pub open spec fn device_sector(cs: nat, p: PartModel) -> int {
    p.file_num * cs + p.start_sector
}

/// Every part lies within one chunk and is not empty; the parts follow one
/// another on the device and in the buffer; the first starts at `start`, in
/// the buffer at `buf`, and together they hold `nr` sectors.
pub open spec fn covers(ps: Seq<PartModel>, cs: nat, start: nat, nr: nat, buf: nat) -> bool {
    &&& total_sectors(ps) == nr
    &&& forall|i: int| 0 <= i < ps.len() ==> {
        &&& 0 <= #[trigger] ps[i].start_sector
        &&& 0 < ps[i].nr_sectors
        &&& ps[i].start_sector + ps[i].nr_sectors <= cs
    }
    &&& ps.len() > 0 ==> device_sector(cs, ps[0]) == start && ps[0].buf_offset == buf
    &&& forall|i: int| 0 <= i < ps.len() - 1 ==> {
        &&& device_sector(cs, #[trigger] ps[i + 1]) == device_sector(cs, ps[i]) + ps[i].nr_sectors
        &&& ps[i + 1].buf_offset == ps[i].buf_offset + ps[i].nr_sectors
    }
}

/// The parts of any request: their sizes add up to the request's, each lies
/// within one chunk, and they ascend without gap on the device and in the
/// buffer.
pub proof fn lemma_parts_cover(cs: nat, start: nat, nr: nat, buf: nat)
    requires
        cs > 0,
    ensures
        covers(part_list(cs, start, nr, buf), cs, start, nr, buf),
    decreases nr,
{
    if nr > 0 {
        let within = start % cs;
        let take: nat = if cs - within < nr { (cs - within) as nat } else { nr };
        let head = PartModel { file_num: (start / cs) as int, start_sector: within as int, nr_sectors: take as int, buf_offset: buf as int };
        let rest = part_list(cs, start + take, (nr - take) as nat, buf + take);
        lemma_parts_cover(cs, start + take, (nr - take) as nat, buf + take);
        let ps = part_list(cs, start, nr, buf);
        assert(ps == seq![head] + rest);
        assert(ps.drop_first() == rest);
        assert(start == (start / cs) * cs + within) by (nonlinear_arith)
            requires within == start % cs, cs > 0;
        if rest.len() > 0 {
            let n2 = start + take;
            assert(device_sector(cs, rest[0]) == n2);
            assert(device_sector(cs, ps[1]) == device_sector(cs, ps[0]) + ps[0].nr_sectors);
        }
        assert forall|i: int| 0 <= i < ps.len() - 1 implies {
            &&& device_sector(cs, #[trigger] ps[i + 1]) == device_sector(cs, ps[i]) + ps[i].nr_sectors
            &&& ps[i + 1].buf_offset == ps[i].buf_offset + ps[i].nr_sectors
        } by {
            if i > 0 {
                assert(ps[i + 1] == rest[i]);
                assert(ps[i] == rest[i - 1]);
            }
        }
        assert forall|i: int| 0 <= i < ps.len() implies {
            &&& 0 <= #[trigger] ps[i].start_sector
            &&& 0 < ps[i].nr_sectors
            &&& ps[i].start_sector + ps[i].nr_sectors <= cs
        } by {
            if i > 0 {
                assert(ps[i] == rest[i - 1]);
            }
        }
    }
}

/// The parts of a request that remain to be emitted.
#[derive(Debug)]
pub struct Parts {
    chunk_size: u64,
    start_sector: u64,
    nr_sectors: u32,
    buf_offset: u32,
}

/// One part of a request: `nr_sectors` sectors from `start_sector` within
/// chunk `file_num`, whose data lies `buf_offset` sectors into the buffer.
#[derive(Debug, Clone, Copy, PartialEq, Eq, Structural)]
pub struct Part {
    pub file_num: u32,
    pub nr_sectors: u32,
    pub start_sector: u64,
    pub buf_offset: u32,
}

impl Part {
    pub open spec fn model(self) -> PartModel {
        PartModel {
            file_num: self.file_num as int,
            start_sector: self.start_sector as int,
            nr_sectors: self.nr_sectors as int,
            buf_offset: self.buf_offset as int,
        }
    }
}

/// A request that the parts can describe: chunks are not empty, the request
/// ends within the range of sector numbers, every chunk it touches has a `u32`
/// number, and its buffer offsets fit in `u32`.
pub open spec fn routable(cs: int, start: int, nr: int, buf: int) -> bool {
    &&& cs > 0
    &&& start + nr <= u64::MAX
    &&& buf + nr <= u32::MAX
    &&& nr > 0 ==> (start + nr - 1) / cs <= u32::MAX
}

impl Parts {
    pub closed spec fn chunk_sectors(&self) -> nat {
        self.chunk_size as nat
    }

    /// The parts still to come.
    pub closed spec fn view(&self) -> Seq<PartModel> {
        part_list(self.chunk_size as nat, self.start_sector as nat, self.nr_sectors as nat, self.buf_offset as nat)
    }

    pub closed spec fn wf(&self) -> bool {
        routable(self.chunk_size as int, self.start_sector as int, self.nr_sectors as int, self.buf_offset as int)
    }

    /// The parts of `nr_sectors` sectors from `start_sector`, with chunks of
    /// `chunk_sectors` sectors.
    pub fn new(chunk_sectors: u64, start_sector: u64, nr_sectors: u32) -> (r: Parts)
        requires
            routable(chunk_sectors as int, start_sector as int, nr_sectors as int, 0),
        ensures
            r.wf(),
            r.chunk_sectors() == chunk_sectors,
            r.view() == part_list(chunk_sectors as nat, start_sector as nat, nr_sectors as nat, 0),
    {
        Parts { chunk_size: chunk_sectors, start_sector, nr_sectors, buf_offset: 0 }
    }

    /// Emits the next part, if any remains.
    pub fn next(&mut self) -> (r: Option<Part>)
        requires
            old(self).wf(),
        ensures
            final(self).wf(),
            final(self).chunk_sectors() == old(self).chunk_sectors(),
            old(self).view().len() == 0 ==> r is None && final(self).view() == old(self).view(),
            old(self).view().len() > 0 ==> r is Some && r->0.model() == old(self).view()[0]
                && final(self).view() == old(self).view().drop_first(),
    {
        if self.nr_sectors == 0 {
            return None;
        }
        let start_within_chunk = self.start_sector % self.chunk_size;
        let left_in_chunk = self.chunk_size - start_within_chunk;
        let to_read_from_chunk: u32 = if left_in_chunk < self.nr_sectors as u64 {
            left_in_chunk as u32
        } else {
            self.nr_sectors
        };
        proof {
            let cs = self.chunk_size as int;
            let s = self.start_sector as int;
            let last = s + self.nr_sectors - 1;
            vstd::arithmetic::div_mod::lemma_div_is_ordered(s, last, cs);
        }
        let file_num = (self.start_sector / self.chunk_size) as u32;
        let part = Part {
            file_num,
            start_sector: start_within_chunk,
            nr_sectors: to_read_from_chunk,
            buf_offset: self.buf_offset,
        };
        self.start_sector = self.start_sector + to_read_from_chunk as u64;
        self.nr_sectors = self.nr_sectors - to_read_from_chunk;
        self.buf_offset = self.buf_offset + to_read_from_chunk;
        Some(part)
    }
}

/// A request's parts end where the request ends, in the buffer.
pub proof fn lemma_parts_end(cs: nat, start: nat, nr: nat, buf: nat)
    requires
        cs > 0,
    ensures
        (part_list(cs, start, nr, buf).len() > 0) == (nr > 0),
        nr > 0 ==> part_list(cs, start, nr, buf).last().buf_offset + part_list(cs, start, nr, buf).last().nr_sectors
            == buf + nr,
    decreases nr,
{
    if nr > 0 {
        let within = start % cs;
        let take: nat = if cs - within < nr { (cs - within) as nat } else { nr };
        lemma_parts_end(cs, start + take, (nr - take) as nat, buf + take);
        let rest = part_list(cs, start + take, (nr - take) as nat, buf + take);
        let ps = part_list(cs, start, nr, buf);
        if rest.len() > 0 {
            assert(ps.last() == rest.last());
        }
    }
}

impl Parts {
    /// All the parts still to come, in order.
    pub fn collect(self) -> (v: Vec<Part>)
        requires
            self.wf(),
        ensures
            v@.len() == self.view().len(),
            forall|i: int| 0 <= i < v@.len() ==> #[trigger] v@[i].model() == self.view()[i],
    {
        let ghost all = self.view();
        let mut rest = self;
        let mut v: Vec<Part> = Vec::new();
        loop
            invariant
                rest.wf(),
                v@.len() + rest.view().len() == all.len(),
                forall|i: int| 0 <= i < v@.len() ==> #[trigger] v@[i].model() == all[i],
                rest.view() == all.subrange(v@.len() as int, all.len() as int),
            ensures
                v@.len() == all.len(),
                forall|i: int| 0 <= i < v@.len() ==> #[trigger] v@[i].model() == all[i],
            decreases rest.view().len(),
        {
            match rest.next() {
                Some(p) => {
                    v.push(p);
                    assert(rest.view() == all.subrange(v@.len() as int, all.len() as int));
                },
                None => {
                    break;
                },
            }
        }
        v
    }
}

/// The parts of the request that `desc` describes, with the chunk size of
/// `config`.
pub fn parts_for_event(config: &Config, desc: &ublksrv_io_desc) -> (r: Parts)
    requires
        routable((config.chunk_size / 512) as int, desc.start_sector as int, desc.nr_sectors as int, 0),
    ensures
        r.wf(),
        r.chunk_sectors() == config.chunk_size / 512,
        r.view() == part_list((config.chunk_size / 512) as nat, desc.start_sector as nat, desc.nr_sectors as nat, 0),
{
    Parts::new(config.chunk_size / 512, desc.start_sector, desc.nr_sectors)
}

} // verus!
