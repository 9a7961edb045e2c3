use futuresdr::config::{default_config, get, get_or_default, value_or, Config};
use futuresdr::logging::{init, level_for, LevelFilter};

#[test]
fn config() {
    let c = default_config();
    let a = get::<String>(&c, "buffer_size");
    assert!(a.is_some());
    assert_eq!(a.unwrap(), default_config().lookup("buffer_size").unwrap());

    let a = get::<usize>(&c, "buffer_size");
    assert!(a.is_some());
    assert_eq!(
        a.unwrap(),
        default_config().lookup("buffer_size").unwrap().parse::<usize>().unwrap()
    );

    let a = get_or_default::<usize>(&c, "foo", 123);
    assert_eq!(a, 123);
}

#[test]
fn runtime_init() {
    let c = default_config();
    assert_eq!(init(&c), LevelFilter::Debug);
    assert_eq!(init(&c), LevelFilter::Debug);
}

#[test]
fn defaults_have_their_values() {
    let c = default_config();
    assert_eq!(c.lookup("buffer_size"), Some("32768".to_string()));
    assert_eq!(c.lookup("queue_size"), Some("8192".to_string()));
    assert_eq!(c.lookup("tmp_dir"), None);
    assert_eq!(get::<usize>(&c, "buffer_size"), Some(32768));
    assert_eq!(get::<u32>(&c, "queue_size"), Some(8192));
    assert_eq!(get::<String>(&c, "tmp_dir"), None);
    assert_eq!(get_or_default::<String>(&c, "tmp_dir", "/tmp/".to_owned()), "/tmp/");
}

#[test]
fn later_setting_overrides_earlier() {
    let mut c = default_config();
    c.insert("buffer_size".to_owned(), "4096".to_owned());
    c.insert("tmp_dir".to_owned(), "/var/tmp".to_owned());
    assert_eq!(get::<usize>(&c, "buffer_size"), Some(4096));
    assert_eq!(get::<usize>(&c, "queue_size"), Some(8192));
    assert_eq!(get_or_default::<String>(&c, "tmp_dir", "/tmp/".to_owned()), "/var/tmp");
    c.insert("buffer_size".to_owned(), "many".to_owned());
    assert_eq!(get::<usize>(&c, "buffer_size"), None);
    assert_eq!(get_or_default::<usize>(&c, "buffer_size", 7), 7);
    assert_eq!(get::<String>(&c, "buffer_size"), Some("many".to_owned()));
}

#[test]
fn empty_settings_hold_nothing() {
    let c = Config::new();
    assert_eq!(c.lookup("buffer_size"), None);
    assert_eq!(get::<usize>(&c, "buffer_size"), None);
    assert_eq!(get_or_default::<usize>(&c, "buffer_size", 1), 1);
}

#[test]
fn each_level_has_its_name() {
    assert_eq!(level_for(&"off".to_owned()), LevelFilter::Off);
    assert_eq!(level_for(&"error".to_owned()), LevelFilter::Error);
    assert_eq!(level_for(&"warn".to_owned()), LevelFilter::Warn);
    assert_eq!(level_for(&"info".to_owned()), LevelFilter::Info);
    assert_eq!(level_for(&"debug".to_owned()), LevelFilter::Debug);
    assert_eq!(level_for(&"trace".to_owned()), LevelFilter::Trace);
    assert_eq!(level_for(&"loud".to_owned()), LevelFilter::Debug);
    assert_eq!(level_for(&"".to_owned()), LevelFilter::Debug);
}

#[test]
fn configured_level_is_used() {
    let mut c = default_config();
    c.insert("log_level".to_owned(), "warn".to_owned());
    assert_eq!(init(&c), LevelFilter::Warn);
    c.insert("log_level".to_owned(), "off".to_owned());
    assert_eq!(init(&c), LevelFilter::Off);
    c.insert("log_level".to_owned(), "verbose".to_owned());
    assert_eq!(init(&c), LevelFilter::Debug);
}

#[test]
fn value_that_was_read_wins_over_the_default() {
    assert_eq!(value_or(Some(5usize), 7), 5);
    assert_eq!(value_or(None, 7usize), 7);
    assert_eq!(value_or(Some("a".to_owned()), "b".to_owned()), "a");
    let c = default_config();
    assert_eq!(get_or_default::<usize>(&c, "queue_size", 1), 8192);
    assert_eq!(get_or_default::<usize>(&c, "queue_length", 1), 1);
}
