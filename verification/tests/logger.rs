use mlogger::error::LookupError;
use mlogger::error::RangeError;
use mlogger::logger::MLogger;
use mlogger::logger::Verbosity;

#[test]
fn can_print_logs() {
    let logger = MLogger::init_default();
    logger.log("this is error!", Verbosity::Error).unwrap();
    logger.log("this is info!", Verbosity::Info).unwrap();
    println!("{}", logger.get_size().unwrap());
    assert_eq!(1, 1);
}

#[test]
fn can_print_verbos_logs() {
    let logger = MLogger::init(Verbosity::Warn, 100);
    logger.log("this is error!", Verbosity::Error).unwrap();
    logger.log("this is info! it will not show!", Verbosity::Info).unwrap();
    println!("{}", logger.get_size().unwrap());
    assert_eq!(1, 1);
}

#[test]
fn can_rewrite_logs() {
    let logger = MLogger::init(Verbosity::Debug, 3);
    logger.log("this is error! and it will be deleted!", Verbosity::Error).unwrap();
    logger.log("this is info! it will show!", Verbosity::Info).unwrap();
    logger.log("this is warning! it will show!", Verbosity::Warn).unwrap();
    logger.log("this is error2! it will show!", Verbosity::Error).unwrap();
    println!("{}", logger.get_size().unwrap());
    let logs = logger.get_log(Verbosity::Debug).unwrap();
    for log in logs {
        println!("msg: {} , code: {}", log.1, log.0);
    }

    assert_eq!(1, 1);
}

#[test]
fn prints_logs_correctly() {
    let logger = MLogger::init(Verbosity::Warn, 100);
    logger.log("this is error!", Verbosity::Error).unwrap();
    logger.log("this is info! it will not show!", Verbosity::Info).unwrap();
    logger.log("this is error! and it will be deleted!", Verbosity::Error).unwrap();
    logger.log("this is info! it will show!", Verbosity::Info).unwrap();
    logger.log("this is warning! it will show!", Verbosity::Warn).unwrap();
    logger.log("this is error2! it will show!", Verbosity::Error).unwrap();
    logger.print_log().unwrap();
    assert_eq!(1, 1);
}

#[test]
fn default_logger_echoes_everything_and_holds_a_thousand() {
    let logger = MLogger::init_default();
    assert_eq!(logger.get_size(), Ok(0));
    assert_eq!(logger.log("d", Verbosity::Debug), Ok(true));
    let mut n: u32 = 1;
    while n < 1005 {
        logger.log("more", Verbosity::Info).unwrap();
        n += 1;
    }
    assert_eq!(logger.get_size(), Ok(1000));
    assert_eq!(logger.get_entry(0).unwrap().0, 1004);
    assert_eq!(logger.get_entry(999).unwrap().0, 5);
}

#[test]
fn log_says_whether_the_entry_is_echoed() {
    let logger = MLogger::init(Verbosity::Warn, 100);
    assert_eq!(logger.log("e", Verbosity::Error), Ok(true));
    assert_eq!(logger.log("w", Verbosity::Warn), Ok(true));
    assert_eq!(logger.log("i", Verbosity::Info), Ok(false));
    assert_eq!(logger.log("d", Verbosity::Debug), Ok(false));
    assert_eq!(logger.log("s", Verbosity::Silent), Ok(true));
    assert_eq!(logger.get_size(), Ok(5));
}

#[test]
fn a_silent_threshold_echoes_nothing_but_silent() {
    let logger = MLogger::init(Verbosity::Silent, 4);
    assert_eq!(logger.log("e", Verbosity::Error), Ok(false));
    assert_eq!(logger.log("d", Verbosity::Debug), Ok(false));
    assert_eq!(logger.get_size(), Ok(2));
}

#[test]
fn logger_rewrites_the_oldest_entry() {
    let logger = MLogger::init(Verbosity::Debug, 3);
    logger.log("this is error! and it will be deleted!", Verbosity::Error).unwrap();
    logger.log("this is info! it will show!", Verbosity::Info).unwrap();
    logger.log("this is warning! it will show!", Verbosity::Warn).unwrap();
    logger.log("this is error2! it will show!", Verbosity::Error).unwrap();
    assert_eq!(logger.get_size(), Ok(3));
    let logs = logger.get_log(Verbosity::Debug).unwrap();
    assert_eq!(
        logs,
        vec![
            (3, "this is error2! it will show!".to_string(), Verbosity::Error),
            (2, "this is warning! it will show!".to_string(), Verbosity::Warn),
            (1, "this is info! it will show!".to_string(), Verbosity::Info),
        ]
    );
}

#[test]
fn logger_reads_by_position() {
    let logger = MLogger::init(Verbosity::Debug, 3);
    logger.log("a", Verbosity::Error).unwrap();
    logger.log("b", Verbosity::Info).unwrap();
    assert_eq!(logger.get_entry(0), Ok((1, "b".to_string(), Verbosity::Info)));
    assert_eq!(logger.get_entry(1), Ok((0, "a".to_string(), Verbosity::Error)));
    assert_eq!(logger.get_entry(2), Err(LookupError::IndexOutOfBounds));
}

#[test]
fn logger_reads_a_range() {
    let logger = MLogger::init(Verbosity::Debug, 10);
    logger.log("a", Verbosity::Error).unwrap();
    logger.log("b", Verbosity::Info).unwrap();
    logger.log("c", Verbosity::Warn).unwrap();
    logger.log("d", Verbosity::Debug).unwrap();
    assert_eq!(
        logger.get_entries(1, 3, Verbosity::Debug),
        Ok(vec![
            (2, "c".to_string(), Verbosity::Warn),
            (1, "b".to_string(), Verbosity::Info),
        ])
    );
    assert_eq!(
        logger.get_entries(0, 4, Verbosity::Warn),
        Ok(vec![
            (2, "c".to_string(), Verbosity::Warn),
            (0, "a".to_string(), Verbosity::Error),
        ])
    );
    assert_eq!(logger.get_entries(2, 2, Verbosity::Debug), Ok(vec![]));
    assert_eq!(logger.get_entries(0, 5, Verbosity::Debug), Err(RangeError::InvalidRange));
    assert_eq!(logger.get_entries(3, 2, Verbosity::Debug), Err(RangeError::InvalidRange));
}

#[test]
fn logger_lists_lines() {
    let logger = MLogger::init(Verbosity::Warn, 100);
    logger.log("this is error!", Verbosity::Error).unwrap();
    logger.log("this is info! it will not show!", Verbosity::Info).unwrap();
    logger.log("this is warning! it will show!", Verbosity::Warn).unwrap();
    assert_eq!(
        logger.print_log(),
        Ok(vec![
            "id:2 Warn this is warning! it will show!".to_string(),
            "id:1 Info this is info! it will not show!".to_string(),
            "id:0 Error this is error!".to_string(),
        ])
    );
    assert_eq!(
        logger.print_log_level(Verbosity::Info),
        Ok(vec!["1 Info this is info! it will not show!".to_string()])
    );
    assert_eq!(logger.print_log_level(Verbosity::Debug), Ok(vec![]));
}

#[test]
fn a_listing_is_exact_where_a_filter_is_a_threshold() {
    let logger = MLogger::init(Verbosity::Debug, 10);
    logger.log("e", Verbosity::Error).unwrap();
    logger.log("w", Verbosity::Warn).unwrap();
    assert_eq!(logger.print_log_level(Verbosity::Warn), Ok(vec!["1 Warn w".to_string()]));
    assert_eq!(
        logger.get_log(Verbosity::Warn),
        Ok(vec![(1, "w".to_string(), Verbosity::Warn), (0, "e".to_string(), Verbosity::Error)])
    );
}

#[test]
fn a_clone_of_a_handle_shares_the_pool() {
    let logger = MLogger::init(Verbosity::Debug, 2);
    let other = logger.clone();
    logger.log("from the first", Verbosity::Info).unwrap();
    other.log("from the second", Verbosity::Warn).unwrap();
    assert_eq!(logger.get_size(), Ok(2));
    assert_eq!(other.get_entry(0), Ok((1, "from the second".to_string(), Verbosity::Warn)));
    assert_eq!(logger.get_entry(1), Ok((0, "from the first".to_string(), Verbosity::Info)));
}

#[test]
fn two_loggers_do_not_share_a_pool() {
    let first = MLogger::init_default();
    let second = MLogger::init_default();
    first.log("only here", Verbosity::Info).unwrap();
    assert_eq!(first.get_size(), Ok(1));
    assert_eq!(second.get_size(), Ok(0));
}

#[test]
fn a_logger_without_room_keeps_nothing() {
    let logger = MLogger::init(Verbosity::Warn, 0);
    assert_eq!(logger.log("x", Verbosity::Error), Ok(true));
    assert_eq!(logger.get_size(), Ok(0));
    assert_eq!(logger.get_log(Verbosity::Debug), Ok(vec![]));
    assert_eq!(logger.get_entry(0), Err(LookupError::IndexOutOfBounds));
    assert_eq!(logger.get_entries(0, 1, Verbosity::Debug), Err(RangeError::InvalidRange));
    assert_eq!(logger.get_entries(0, 0, Verbosity::Debug), Ok(vec![]));
}

#[test]
fn a_handle_keeps_its_threshold_and_capacity() {
    let logger = MLogger::init(Verbosity::Warn, 7);
    assert_eq!(logger.threshold(), Verbosity::Warn);
    assert_eq!(logger.capacity(), 7);
    let other = logger.clone();
    assert_eq!(other.threshold(), Verbosity::Warn);
    assert_eq!(other.capacity(), 7);
    let mut n: usize = 0;
    while n < 20 {
        logger.log("m", Verbosity::Info).unwrap();
        n += 1;
        assert!(logger.get_size().unwrap() <= logger.capacity());
    }
    assert_eq!(logger.get_size(), Ok(7));
    assert_eq!(logger.threshold(), Verbosity::Warn);
    assert_eq!(logger.capacity(), 7);
}

#[test]
fn the_default_handle_has_the_threshold_debug_and_room_for_a_thousand() {
    let logger = MLogger::init_default();
    assert_eq!(logger.threshold(), Verbosity::Debug);
    assert_eq!(logger.capacity(), 1000);
    assert_eq!(logger.get_size(), Ok(0));
    assert_eq!(logger.get_log(Verbosity::Debug), Ok(vec![]));
}

#[test]
fn log_echoes_up_to_the_threshold_of_the_handle() {
    let levels = [Verbosity::Silent, Verbosity::Error, Verbosity::Warn, Verbosity::Info, Verbosity::Debug];
    for threshold in levels {
        let logger = MLogger::init(threshold, 2);
        for level in levels {
            assert_eq!(logger.log("m", level), Ok(level <= logger.threshold()));
        }
    }
}
