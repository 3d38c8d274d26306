use blkchnkr::cli::{init_sizes, parse_cli, CliError, Command, Expand, Flag};
use blkchnkr::commands::expand;
use blkchnkr::config::{Config, ConfigError, QueueLimits, Setting};

fn args(a: &[&str]) -> Vec<String> {
    a.iter().map(|s| s.to_string()).collect()
}

fn config_with(size: u64, chunk_size: u64) -> Config {
    Config::new("/repo".to_string(), None, size, chunk_size, None, None, None, None)
}

#[test]
fn init_with_minimum_sizes() {
    let c = parse_cli(&args(&["blkchnkr", "init", "--repository", "/tmp/r", "--size", "256M", "--chunk-size", "32M"]));
    match c {
        Ok(Command::Init(init)) => {
            assert_eq!(init.config.size, 268_435_456);
            assert_eq!(init.config.chunk_size, 33_554_432);
            assert_eq!(init.config.version, 1);
            assert_eq!(init.config.repository, "/tmp/r");
            assert_eq!(init.config.direct_io, None);
        }
        _ => panic!("expected init"),
    }
}

#[test]
fn init_rounds_sizes_up() {
    let c = parse_cli(&args(&[
        "blkchnkr", "init", "-r", "r", "--size", "300000000", "--chunk-size", "33554433", "--dev-id", "4",
        "--threads", "2", "--fsuid", "1000", "--fsgid", "100",
    ]));
    match c {
        Ok(Command::Init(init)) => {
            assert_eq!(init.config.chunk_size, 33_558_528);
            assert_eq!(init.config.size % init.config.chunk_size, 0);
            assert_eq!(init.config.size, 33_558_528 * 9);
            assert_eq!(init.config.dev_id, Some(4));
            assert_eq!(init.config.threads, Some(2));
            assert_eq!(init.config.fsuid, Some(1000));
            assert_eq!(init.config.fsgid, Some(100));
        }
        _ => panic!("expected init"),
    }
}

#[test]
fn init_sizes_keep_invariants() {
    let (s, c) = init_sizes(268_435_457, 33_554_432).unwrap();
    assert_eq!(c % 4096, 0);
    assert_eq!(s % c, 0);
    assert!(s >= 268_435_457);
    assert_eq!(s, 301_989_888);
    assert_eq!(init_sizes(268_435_455, 33_554_432), Err(CliError::SizeTooSmall));
    assert_eq!(init_sizes(268_435_456, 33_554_431), Err(CliError::ChunkSizeTooSmall));
    assert_eq!(init_sizes(u64::MAX, 33_554_432), Err(CliError::InvalidSize));
    assert_eq!(init_sizes(268_435_456, u64::MAX), Err(CliError::InvalidChunkSize));
}

#[test]
fn init_default_chunk_size() {
    match parse_cli(&args(&["b", "init", "-r", "/x", "--size", "1g"])) {
        Ok(Command::Init(init)) => {
            assert_eq!(init.config.chunk_size, 536_870_912);
            assert_eq!(init.config.size, 1_073_741_824);
        }
        _ => panic!("expected init"),
    }
}

#[test]
fn init_errors() {
    assert!(matches!(parse_cli(&args(&["b", "init", "--size", "1G"])), Err(CliError::Missing(Flag::Repository))));
    assert!(matches!(parse_cli(&args(&["b", "init", "-r", "/x"])), Err(CliError::Missing(Flag::Size))));
    assert!(matches!(parse_cli(&args(&["b", "init", "-r", "/x", "--size"])), Err(CliError::MissingValue(Flag::Size))));
    assert!(matches!(parse_cli(&args(&["b", "init", "-r", "/x", "--size", "12Q"])), Err(CliError::InvalidValue(Flag::Size))));
    assert!(matches!(parse_cli(&args(&["b", "init", "-r", "/x", "--size", "99999999T"])), Err(CliError::InvalidValue(Flag::Size))));
    assert!(matches!(parse_cli(&args(&["b", "init", "-r", "/x", "--size", "1M"])), Err(CliError::SizeTooSmall)));
    assert!(matches!(parse_cli(&args(&["b", "init", "-r", "/x", "--size", "1G", "--chunk-size", "1M"])), Err(CliError::ChunkSizeTooSmall)));
    assert!(matches!(parse_cli(&args(&["b", "init", "-r", "/x", "--size", "1G", "--threads", "70000"])), Err(CliError::InvalidValue(Flag::Threads))));
    assert!(matches!(parse_cli(&args(&["b", "init", "-r", ""])), Err(CliError::InvalidValue(Flag::Repository))));
    match parse_cli(&args(&["b", "init", "--bogus"])) {
        Err(CliError::UnknownFlag(f)) => assert_eq!(f, "--bogus"),
        _ => panic!("expected unknown flag"),
    }
}

#[test]
fn top_level_commands() {
    assert!(matches!(parse_cli(&args(&[])), Err(CliError::InvalidInvocation)));
    assert!(matches!(parse_cli(&args(&["b"])), Ok(Command::Help(_))));
    assert!(matches!(parse_cli(&args(&["b", "--version"])), Ok(Command::Version(_))));
    assert!(matches!(parse_cli(&args(&["b", "-v"])), Ok(Command::Version(_))));
    assert!(matches!(parse_cli(&args(&["b", "-h"])), Ok(Command::Help(_))));
    assert!(matches!(parse_cli(&args(&["b", "frobnicate"])), Err(CliError::NoCommand)));
    assert!(matches!(parse_cli(&args(&["b", "init", "--help"])), Ok(Command::Help(_))));
}

#[test]
fn start_and_expand_flags() {
    match parse_cli(&args(&["b", "start", "--repository", "/srv/r"])) {
        Ok(Command::Start(s)) => assert_eq!(s.repository, "/srv/r"),
        _ => panic!("expected start"),
    }
    assert!(matches!(parse_cli(&args(&["b", "start"])), Err(CliError::Missing(Flag::Repository))));
    assert!(matches!(parse_cli(&args(&["b", "start", "-r", "/x", "--bytes", "1"])), Err(CliError::UnknownFlag(_))));
    match parse_cli(&args(&["b", "expand", "-r", "/srv/r", "--bytes", "2T"])) {
        Ok(Command::Expand(e)) => {
            assert_eq!(e.repository, "/srv/r");
            assert_eq!(e.bytes, 2 * 1_099_511_627_776);
        }
        _ => panic!("expected expand"),
    }
    assert!(matches!(parse_cli(&args(&["b", "expand", "-r", "/x"])), Err(CliError::Missing(Flag::Bytes))));
    assert!(matches!(parse_cli(&args(&["b", "expand", "-r", "/x", "--bytes", "+5"])), Ok(Command::Expand(Expand { bytes: 5, .. }))));
}

#[test]
fn expand_by_one_byte_rounds_to_next_chunk() {
    let mut c = config_with(268_435_456, 33_554_432);
    assert_eq!(c.expand_size_by_bytes(1), Ok(()));
    assert_eq!(c.size, 301_989_888);
    assert_eq!(c.chunk_size, 33_554_432);
}

#[test]
fn expand_by_zero_keeps_size_and_overflow_fails() {
    let mut c = config_with(268_435_456, 33_554_432);
    assert_eq!(c.expand_size_by_bytes(0), Ok(()));
    assert_eq!(c.size, 268_435_456);
    assert_eq!(c.expand_size_by_bytes(u64::MAX), Err(ConfigError::InvalidFinalSize));
    assert_eq!(c.size, 268_435_456);
    let mut z = config_with(10, 0);
    assert_eq!(z.expand_size_by_bytes(1), Err(ConfigError::InvalidFinalSize));
}

#[test]
fn expand_command_reads_config_and_grows() {
    let e = Expand::new("/repo".to_string(), 1);
    let c = expand::run(&e, "version 1\nsize 268435456\nchunk-size 33554432\n").unwrap();
    assert_eq!(c.size, 301_989_888);
    assert_eq!(c.repository, "/repo");
    assert!(matches!(expand::run(&e, "version 1\n"), Err(ConfigError::Missing(Setting::Size))));
}

#[test]
fn config_file_round_trip() {
    let c = Config::new("/repo".to_string(), Some(3), 268_435_456, 33_554_432, Some(4), Some(1000), Some(1001), Some(true));
    let text = c.to_string();
    assert_eq!(
        text,
        "version 1\ndev-id 3\nsize 268435456\nchunk-size 33554432\nthreads 4\nfsuid 1000\nfsgid 1001\ndirect-io true\n"
    );
    let back = Config::from_repository("/repo".to_string(), &text).unwrap();
    assert_eq!(back.dev_id, Some(3));
    assert_eq!(back.size, 268_435_456);
    assert_eq!(back.chunk_size, 33_554_432);
    assert_eq!(back.threads, Some(4));
    assert_eq!(back.fsuid, Some(1000));
    assert_eq!(back.fsgid, Some(1001));
    assert_eq!(back.direct_io, Some(true));
    assert_eq!(back.version, 1);
    assert_eq!(config_with(5, 6).to_string(), "version 1\nsize 5\nchunk-size 6\n");
}

#[test]
fn config_file_comments_crlf_and_booleans() {
    let c = Config::from_repository("r".to_string(), "# made by hand\r\nversion 1\r\nsize 7\nchunk-size 8\ndirect-io off").unwrap();
    assert_eq!(c.size, 7);
    assert_eq!(c.chunk_size, 8);
    assert_eq!(c.direct_io, Some(false));
    assert!(!c.direct_io());
}

#[test]
fn config_file_errors() {
    let r = || "r".to_string();
    assert!(matches!(Config::from_repository(r(), "size 1\nchunk-size 2\n"), Err(ConfigError::Missing(Setting::Version))));
    assert!(matches!(Config::from_repository(r(), "version 1\nchunk-size 2\n"), Err(ConfigError::Missing(Setting::Size))));
    assert!(matches!(Config::from_repository(r(), "version 1\nsize 2\n"), Err(ConfigError::Missing(Setting::ChunkSize))));
    assert!(matches!(Config::from_repository(r(), "version 1\ncolour blue\n"), Err(ConfigError::UnknownSetting)));
    assert!(matches!(Config::from_repository(r(), "version\n"), Err(ConfigError::MissingValue)));
    assert!(matches!(Config::from_repository(r(), "version 1\n\nsize 1\n"), Err(ConfigError::MissingValue)));
    assert!(matches!(Config::from_repository(r(), "version 300\n"), Err(ConfigError::InvalidValue(Setting::Version))));
    assert!(matches!(Config::from_repository(r(), "direct-io yes\n"), Err(ConfigError::InvalidValue(Setting::DirectIo))));
    assert!(matches!(Config::from_repository(r(), "size -1\n"), Err(ConfigError::InvalidValue(Setting::Size))));
}

#[test]
fn config_getters_and_paths() {
    let mut c = config_with(268_435_456, 33_554_432);
    assert_eq!(c.dev_id(), u32::MAX);
    assert_eq!(c.threads(6), 6);
    assert_eq!(c.version(), 1);
    assert_eq!(c.config_path(), "/repo/config");
    assert_eq!(c.logical_bs_shift(), Err(ConfigError::LimitsNotLoaded));
    c.queue_limits = Some(QueueLimits::default());
    assert_eq!(c.logical_bs_shift(), Ok(9));
    assert_eq!(c.physical_bs_shift(), Ok(12));
    assert_eq!(c.io_min_shift(), Ok(9));
    assert_eq!(c.io_opt_shift(), Ok(12));
    assert_eq!(c.dma_alignment(), Ok(511));
    assert_eq!(c.write_cache(), Ok(true));
    assert_eq!(c.fua(), Ok(false));
    let mut l = QueueLimits::default();
    l.optimal_io_size = 0;
    l.physical_block_size = 6000;
    l.minimum_io_size = 0;
    c.queue_limits = Some(l);
    assert_eq!(c.io_opt_shift(), Ok(0));
    assert_eq!(c.physical_bs_shift(), Ok(12));
    assert_eq!(c.io_min_shift(), Err(ConfigError::InvalidLimit));
    let d = Config::new("/r/".to_string(), Some(9), 1, 1, Some(3), None, None, Some(true));
    assert_eq!(d.config_path(), "/r/config");
    assert_eq!(d.dev_id(), 9);
    assert_eq!(d.threads(6), 3);
    assert!(d.direct_io());
}
