use blkchnkr::abi::{ublksrv_io_desc, UBLK_IO_F_FUA, UBLK_IO_F_NOUNMAP, UBLK_IO_OP_FLUSH, UBLK_IO_OP_READ, UBLK_IO_OP_WRITE, UBLK_IO_OP_WRITE_ZEROES};
use blkchnkr::file_index::FileIndexes;
use blkchnkr::parts::{Part, Parts};
use blkchnkr::request::{Request, Step};
use blkchnkr::sqes::IoSqe;
use blkchnkr::util::build_filepath;

const CHUNK: u64 = 33_554_432;

fn desc(op: u32, start: u64, nr: u32) -> ublksrv_io_desc {
    ublksrv_io_desc { op_flags: op, nr_sectors: nr, start_sector: start, addr: 0 }
}

#[test]
fn read_across_chunk_boundary_routes_to_two_parts() {
    let parts = Parts::new(65_536, 65_500, 100).collect();
    assert_eq!(parts.len(), 2);
    assert_eq!(parts[0], Part { file_num: 0, start_sector: 65_500, nr_sectors: 36, buf_offset: 0 });
    assert_eq!(parts[1], Part { file_num: 1, start_sector: 0, nr_sectors: 64, buf_offset: 36 });
}

#[test]
fn parts_cover_request_within_chunks() {
    let parts = Parts::new(8, 5, 20).collect();
    let total: u32 = parts.iter().map(|p| p.nr_sectors).sum();
    assert_eq!(total, 20);
    let mut expected_buf = 0;
    for p in &parts {
        assert!(p.start_sector + p.nr_sectors as u64 <= 8);
        assert_eq!(p.buf_offset, expected_buf);
        expected_buf += p.nr_sectors;
    }
    assert_eq!(parts.len(), 4);
    assert_eq!(parts[3], Part { file_num: 3, start_sector: 0, nr_sectors: 1, buf_offset: 19 });
}

#[test]
fn empty_request_has_no_parts() {
    let mut parts = Parts::new(8, 5, 0);
    assert!(parts.next().is_none());
    let r = Request::new(CHUNK, &desc(UBLK_IO_OP_READ, 0, 0)).ok().unwrap();
    assert_eq!(r.immediate_result(), Some(0));
}

#[test]
fn write_of_four_kib_at_sector_zero() {
    assert_eq!(build_filepath(&"/repo".to_string(), 0), "/repo/chunks/00/0");
    let mut table = FileIndexes::new();
    let mut r = Request::new(CHUNK, &desc(UBLK_IO_OP_WRITE, 0, 8)).ok().unwrap();
    assert_eq!(r.nr_parts(), 1);
    assert_eq!(r.chunk_of(0), 0);
    assert_eq!(table.get(0), None);
    let slot = table.next_slot().unwrap();
    assert_eq!(table.insert(0), slot);
    assert_eq!(slot, 1);
    let sqe = r.submit_part(slot);
    assert_eq!(
        sqe,
        IoSqe::Write { file_index: 1, buf_offset: 0, curr_offset: 0, len: 4096, offset: 0, rw_flags: 0 }
    );
    assert_eq!(r.on_completion(4096), Step::Complete(4096));
}

#[test]
fn short_write_is_resubmitted_for_the_rest() {
    let mut r = Request::new(CHUNK, &desc(UBLK_IO_OP_WRITE | UBLK_IO_F_FUA, 16, 8)).ok().unwrap();
    let first = r.submit_part(3);
    assert_eq!(
        first,
        IoSqe::Write { file_index: 3, buf_offset: 0, curr_offset: 0, len: 4096, offset: 8192, rw_flags: 2 }
    );
    let step = r.on_completion(2048);
    assert_eq!(
        step,
        Step::Resubmit(IoSqe::Write {
            file_index: 3,
            buf_offset: 0,
            curr_offset: 2048,
            len: 2048,
            offset: 10240,
            rw_flags: 2
        })
    );
    assert_eq!(r.on_completion(2048), Step::Complete(4096));
}

#[test]
fn interrupted_read_is_resubmitted_unchanged() {
    let mut r = Request::new(CHUNK, &desc(UBLK_IO_OP_READ, 0, 1)).ok().unwrap();
    let first = r.submit_part(1);
    assert_eq!(r.on_completion(-4), Step::Resubmit(first));
    assert_eq!(r.on_completion(512), Step::Complete(512));
}

#[test]
fn read_error_ends_request() {
    let mut r = Request::new(CHUNK, &desc(UBLK_IO_OP_READ, 0, 1)).ok().unwrap();
    r.submit_part(1);
    assert_eq!(r.on_completion(-28), Step::Complete(-28));
}

#[test]
fn completed_read_reports_all_bytes_of_every_part() {
    let mut r = Request::new(CHUNK, &desc(UBLK_IO_OP_READ, 65_500, 100)).ok().unwrap();
    assert_eq!(r.nr_parts(), 2);
    let a = r.submit_part(1);
    let b = r.submit_part(2);
    assert_eq!(a, IoSqe::Read { file_index: 1, buf_offset: 0, curr_offset: 0, len: 36 * 512, offset: 65_500 * 512 });
    assert_eq!(b, IoSqe::Read { file_index: 2, buf_offset: 36, curr_offset: 0, len: 64 * 512, offset: 0 });
    assert_eq!(r.on_completion(36 * 512), Step::Next);
    assert_eq!(r.on_completion(64 * 512), Step::Complete(100 << 9));
}

#[test]
fn flush_touches_every_chunk_and_returns_zero() {
    let mut r = Request::new(CHUNK, &desc(UBLK_IO_OP_FLUSH, 65_500, 100)).ok().unwrap();
    assert_eq!(r.submit_part(4), IoSqe::Fsync { file_index: 4 });
    assert_eq!(r.submit_part(5), IoSqe::Fsync { file_index: 5 });
    assert_eq!(r.on_completion(-4), Step::Resubmit(IoSqe::Fsync { file_index: 4 }));
    assert_eq!(r.on_completion(0), Step::Next);
    assert_eq!(r.on_completion(0), Step::Complete(0));
}

#[test]
fn write_zeroes_mode_follows_nounmap() {
    let mut r = Request::new(CHUNK, &desc(UBLK_IO_OP_WRITE_ZEROES, 8, 8)).ok().unwrap();
    assert_eq!(r.submit_part(1), IoSqe::Fallocate { file_index: 1, len: 4096, offset: 4096, mode: 1 | 2 });
    let mut r = Request::new(CHUNK, &desc(UBLK_IO_OP_WRITE_ZEROES | UBLK_IO_F_NOUNMAP, 8, 8)).ok().unwrap();
    assert_eq!(r.submit_part(1), IoSqe::Fallocate { file_index: 1, len: 4096, offset: 4096, mode: 1 | 16 });
    assert_eq!(r.on_completion(0), Step::Complete(0));
}

#[test]
fn unknown_operation_is_refused_with_eio() {
    assert_eq!(Request::new(CHUNK, &desc(3, 0, 8)).err(), Some(-5));
}

#[test]
fn request_beyond_sector_range_is_refused() {
    assert_eq!(Request::new(CHUNK, &desc(UBLK_IO_OP_READ, u64::MAX - 2, 8)).err(), Some(-5));
    assert_eq!(Request::new(0, &desc(UBLK_IO_OP_READ, 0, 8)).err(), Some(-5));
}

#[test]
fn chunk_slots_are_dense_and_distinct() {
    let mut t = FileIndexes::new();
    assert_eq!(t.insert(7), 1);
    assert_eq!(t.insert(3), 2);
    assert_eq!(t.insert(1000), 3);
    assert_eq!(t.get(7), Some(1));
    assert_eq!(t.get(3), Some(2));
    assert_eq!(t.get(1000), Some(3));
    assert_eq!(t.len(), 3);
    assert_eq!(t.next_slot(), Some(4));
}

#[test]
fn chunk_paths_use_hex_of_low_byte() {
    assert_eq!(build_filepath(&"/r/".to_string(), 300), "/r/chunks/2c/300");
    assert_eq!(build_filepath(&"/r".to_string(), 255), "/r/chunks/ff/255");
}

#[test]
fn error_is_reported_after_every_part_completed() {
    let mut r = Request::new(CHUNK, &desc(UBLK_IO_OP_READ, 65_500, 100)).ok().unwrap();
    r.submit_part(1);
    r.submit_part(2);
    assert_eq!(r.on_completion(-28), Step::Next);
    assert_eq!(r.on_completion(64 * 512), Step::Complete(-28));
}

#[test]
fn no_resubmission_after_an_error() {
    let mut r = Request::new(CHUNK, &desc(UBLK_IO_OP_WRITE, 65_500, 100)).ok().unwrap();
    r.submit_part(1);
    r.submit_part(2);
    assert_eq!(r.on_completion(-5), Step::Next);
    assert_eq!(r.on_completion(512), Step::Complete(-5));
    let mut f = Request::new(CHUNK, &desc(UBLK_IO_OP_FLUSH, 65_500, 100)).ok().unwrap();
    f.submit_part(1);
    f.submit_part(2);
    assert_eq!(f.on_completion(-5), Step::Next);
    assert_eq!(f.on_completion(-4), Step::Complete(-5));
}

#[test]
fn overlong_transfer_ends_with_eio_after_all_parts() {
    let mut r = Request::new(CHUNK, &desc(UBLK_IO_OP_READ, 65_500, 100)).ok().unwrap();
    r.submit_part(1);
    r.submit_part(2);
    assert_eq!(r.on_completion(37 * 512), Step::Next);
    assert_eq!(r.on_completion(64 * 512), Step::Complete(-5));
}

#[test]
fn long_flush_and_zeroing_are_served() {
    assert!(Request::new(CHUNK, &desc(UBLK_IO_OP_READ, 0, 4_194_304)).is_err());
    let mut z = Request::new(CHUNK, &desc(UBLK_IO_OP_WRITE_ZEROES, 0, 4_194_304)).ok().unwrap();
    assert_eq!(z.nr_parts(), 64);
    assert_eq!(z.submit_part(1), IoSqe::Fallocate { file_index: 1, len: 33_554_432, offset: 0, mode: 3 });
    let f = Request::new(CHUNK, &desc(UBLK_IO_OP_FLUSH, 0, u32::MAX));
    assert!(f.is_ok());
}

#[test]
fn giving_up_waits_for_submitted_parts() {
    let mut r = Request::new(CHUNK, &desc(UBLK_IO_OP_WRITE, 65_500, 100)).ok().unwrap();
    r.submit_part(1);
    assert_eq!(r.give_up(-5), None);
    assert_eq!(r.nr_parts(), 1);
    assert_eq!(r.on_completion(36 * 512), Step::Complete(-5));
    let mut q = Request::new(CHUNK, &desc(UBLK_IO_OP_WRITE, 0, 8)).ok().unwrap();
    assert_eq!(q.give_up(-5), Some(-5));
}
