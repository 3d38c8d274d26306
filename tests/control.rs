use blkchnkr::abi::{
    ublksrv_io_desc, UBLK_S_DEV_DEAD, UBLK_S_DEV_LIVE, UBLK_S_DEV_QUIESCED, UBLK_U_CMD_END_USER_RECOVERY,
    UBLK_U_CMD_START_DEV, UBLK_U_IO_COMMIT_AND_FETCH_REQ, UBLK_U_IO_FETCH_REQ,
};
use blkchnkr::config::{Config, QueueLimits};
use blkchnkr::control::{device_params, dev_attrs, new_dev_info, start_recover_dev_cmd, stop_dev_cmd};
use blkchnkr::io_buffers::{slot_size, IoBuffers};
use blkchnkr::io_descriptor_map::{len, offset};
use blkchnkr::queue_limits::{flag_limit, int_limit, limits_dir, limits_from_texts};
use blkchnkr::runtime::{tag_of_key, Mailbox, Sequencer, Waiter};
use blkchnkr::sqes::{io_cmd, IoSqe};
use blkchnkr::supervisor::{Action, Event, StartError, Supervisor};
use blkchnkr::task::{TagAction, TagTask};

#[test]
fn existing_quiesced_device_is_recovered() {
    let (mut s, first) = Supervisor::new();
    assert_eq!(first, Action::AddDevice);
    assert_eq!(s.step(Event::Added(-17)), Action::GetDeviceInfo);
    assert_eq!(s.step(Event::Info { result: 0, state: UBLK_S_DEV_QUIESCED }), Action::StartRecovery);
    assert_eq!(s.step(Event::RecoveryStarted(0)), Action::SpawnWorkers);
    assert_eq!(s.step(Event::WorkersSpawned(true)), Action::StartDevice { is_new_device: false });
    assert!(!s.is_new_device());
    assert_eq!(start_recover_dev_cmd(false, 3, 42).op, UBLK_U_CMD_END_USER_RECOVERY);
    assert_eq!(s.step(Event::Started(0)), Action::WaitForSignal);
    assert_eq!(s.step(Event::Signalled), Action::StopDevice);
    assert_eq!(s.step(Event::Stopped(-5)), Action::JoinWorkers);
    assert_eq!(s.step(Event::Joined), Action::DeleteDevice);
    assert_eq!(s.step(Event::Deleted(0)), Action::Finish);
}

#[test]
fn new_device_gets_parameters_then_starts() {
    let (mut s, _) = Supervisor::new();
    assert_eq!(s.step(Event::Added(0)), Action::SetParams);
    assert!(s.is_new_device());
    assert_eq!(s.step(Event::ParamsSet(0)), Action::SpawnWorkers);
    assert_eq!(s.step(Event::WorkersSpawned(true)), Action::StartDevice { is_new_device: true });
    assert_eq!(start_recover_dev_cmd(true, 3, 42).op, UBLK_U_CMD_START_DEV);
}

#[test]
fn live_or_dead_device_ends_start_up() {
    let (mut s, _) = Supervisor::new();
    s.step(Event::Added(-17));
    assert_eq!(s.step(Event::Info { result: 0, state: UBLK_S_DEV_LIVE }), Action::Fail(StartError::AlreadyRunning));
    let (mut s, _) = Supervisor::new();
    s.step(Event::Added(-17));
    assert_eq!(s.step(Event::Info { result: 0, state: UBLK_S_DEV_DEAD }), Action::Fail(StartError::Unrecoverable));
    let (mut s, _) = Supervisor::new();
    assert_eq!(s.step(Event::Added(-1)), Action::Fail(StartError::AddFailed(-1)));
    let (mut s, _) = Supervisor::new();
    assert_eq!(s.step(Event::Signalled), Action::Fail(StartError::UnexpectedEvent));
}

#[test]
fn control_command_layout() {
    let c = stop_dev_cmd(0x0102_0304);
    assert_eq!(c.cmd.len(), 80);
    assert_eq!(&c.cmd[0..8], &[4, 3, 2, 1, 0xff, 0xff, 0, 0]);
    assert!(c.cmd[8..].iter().all(|b| *b == 0));
    let s = start_recover_dev_cmd(true, 1, 0x1234);
    assert_eq!(&s.cmd[16..24], &[0x34, 0x12, 0, 0, 0, 0, 0, 0]);
}

#[test]
fn io_command_layout() {
    assert_eq!(io_cmd(1, 2, -5, 0x1122), vec![1, 0, 2, 0, 0xfb, 0xff, 0xff, 0xff, 0x22, 0x11, 0, 0, 0, 0, 0, 0]);
}

#[test]
fn tag_lifecycle() {
    let mut t = TagTask::new(5, 1, 0x1000);
    match t.fetch() {
        IoSqe::Cmd { file_index, op, cmd } => {
            assert_eq!(file_index, 0);
            assert_eq!(op, UBLK_U_IO_FETCH_REQ);
            assert_eq!(cmd, io_cmd(1, 5, 0, 0x1000));
        }
        _ => panic!("expected a command"),
    }
    assert_eq!(t.on_fetched(0), TagAction::Serve);
    match t.commit(None) {
        IoSqe::Cmd { op, cmd, .. } => {
            assert_eq!(op, UBLK_U_IO_COMMIT_AND_FETCH_REQ);
            assert_eq!(cmd, io_cmd(1, 5, -5, 0x1000));
        }
        _ => panic!("expected a command"),
    }
    assert_eq!(t.on_committed(-22), TagAction::ServeAfterCommitError(-22));
    t.commit(Some(4096));
    assert_eq!(t.on_committed(-19), TagAction::Exit);
    let mut u = TagTask::new(0, 0, 0);
    u.fetch();
    assert_eq!(u.on_fetched(-19), TagAction::Exit);
    let mut v = TagTask::new(0, 0, 0);
    v.fetch();
    assert_eq!(v.on_fetched(-1), TagAction::Fail(-1));
}

#[test]
fn user_data_keys_and_mailbox() {
    let mut seq = Sequencer::new(3);
    let k1 = seq.next_key();
    let k2 = seq.next_key();
    assert_eq!(k1, 259);
    assert_eq!(k2, 515);
    assert_eq!(tag_of_key(k2), 3);
    let mut mailbox = Mailbox::new();
    let mut w = Waiter::new(k1);
    assert_eq!(w.poll(&mut mailbox), None);
    assert_eq!(mailbox.deliver(k1, 4096), 3);
    assert_eq!(w.poll(&mut mailbox), Some(4096));
    assert_eq!(w.poll(&mut mailbox), Some(4096));
    let mut w2 = Waiter::new(k1);
    assert_eq!(w2.poll(&mut mailbox), None);
}

#[test]
fn buffer_and_table_addresses() {
    assert_eq!(slot_size(1_048_576, 4096), Some(1_048_576));
    assert_eq!(slot_size(1000, 4096), Some(4096));
    assert_eq!(slot_size(1000, 0), None);
    let b = IoBuffers::new(0x10_0000, 4096, 4);
    assert_eq!(b.get_buf_addr(2), 0x10_2000);
    assert_eq!(b.get_buf_with_offsets(2, 1, 8), 0x10_2208);
    assert_eq!(len(128, 4096), 4096);
    assert_eq!(len(4096, 4096), 98_304);
    assert_eq!(offset(0, 4096), 0);
    assert_eq!(offset(2, 4096), 196_608);
}

#[test]
fn descriptor_from_bytes() {
    let mut b = vec![0u8; 24];
    b[0] = 1;
    b[1] = 0x20;
    b[4] = 8;
    b[8] = 0x10;
    b[9] = 0x27;
    let d = ublksrv_io_desc::from_bytes(&b);
    assert_eq!(d.op_flags, 0x2001);
    assert_eq!(d.op(), 1);
    assert_eq!(d.flags(), 0x20);
    assert_eq!(d.nr_sectors, 8);
    assert_eq!(d.start_sector, 10_000);
    assert_eq!(d.addr, 0);
}

#[test]
fn limits_from_file_texts() {
    assert_eq!(int_limit(Some(" 4096\n"), 0), 4096);
    assert_eq!(int_limit(Some("junk\n"), 512), 512);
    assert_eq!(int_limit(None, 511), 511);
    assert!(flag_limit(Some("write back\n"), "write back", false));
    assert!(!flag_limit(Some("write through\n"), "write back", true));
    assert!(flag_limit(None, "1", true));
    assert_eq!(limits_dir((8 << 8) | 1).unwrap(), "/sys/dev/block/8:1/queue");
    assert_eq!(limits_dir(0x31), None);
}

#[test]
fn device_description_and_parameters() {
    let mut c = Config::new("/r".to_string(), None, 268_435_456, 33_554_432, None, None, None, None);
    let info = new_dev_info(&c, 4);
    assert_eq!(info.dev_id, u32::MAX);
    assert_eq!(info.nr_hw_queues, 4);
    assert_eq!(info.queue_depth, 128);
    assert_eq!(info.max_io_buf_bytes, 512 << 11);
    assert_eq!(info.flags, 8);
    assert!(device_params(&c, 1_048_576).is_err());
    c.queue_limits = Some(QueueLimits::default());
    assert_eq!(dev_attrs(&c), Ok(4));
    let p = device_params(&c, 1_048_576).unwrap();
    assert_eq!(p.attrs, 4);
    assert_eq!(p.types, 17);
    assert_eq!(p.logical_bs_shift, 9);
    assert_eq!(p.physical_bs_shift, 12);
    assert_eq!(p.io_min_shift, 9);
    assert_eq!(p.io_opt_shift, 12);
    assert_eq!(p.max_sectors, 2048);
    assert_eq!(p.dev_sectors, 524_288);
    assert_eq!(p.dma_alignment, 511);
}

#[test]
fn limits_from_all_texts() {
    let l = limits_from_texts(Some("4096\n"), None, Some("x"), Some("0\n"), Some(" 3 "), Some("write through\n"), Some("1\n"));
    assert_eq!(l.logical_block_size, 4096);
    assert_eq!(l.physical_block_size, 4096);
    assert_eq!(l.minimum_io_size, 512);
    assert_eq!(l.optimal_io_size, 0);
    assert_eq!(l.dma_alignment, 3);
    assert!(!l.write_cache);
    assert!(l.fua);
    let d = limits_from_texts(None, None, None, None, None, None, None);
    assert_eq!(d, QueueLimits::default());
    assert!(int_limit(Some("\u{3000}64\u{a0}"), 1) == 64);
}
