use blake2_rfc::blake2b::blake2b;
use irbisfs::server::config::Config;
use irbisfs::server::database::{checksum_file, Database, Fed, Ingest};
use irbisfs::types::ContentId;

#[test]
fn it_works() {
}

#[test]
fn empty() {
    let a = checksum_file(&[]);
    let b = blake2b(64, &[], b"");
    assert_eq!(a.as_slice(), b.as_bytes());
}

#[test]
fn z123() {
    let sample = b"123";
    let a = checksum_file(sample);
    let b = blake2b(64, &[], sample);

    assert_eq!(a.as_slice(), b.as_bytes());
}

#[test]
fn checksum_of_many_pieces() {
    let sample: Vec<u8> = (0..10_000u32).map(|i| (i % 251) as u8).collect();
    let a = checksum_file(&sample);
    let b = blake2b(64, &[], &sample);
    assert_eq!(a.len(), 64);
    assert_eq!(a.as_slice(), b.as_bytes());
    assert_ne!(a, checksum_file(&sample[1..]));
}

#[test]
fn ingest_of_an_empty_file() {
    let mut ingest = Ingest::new();
    assert_eq!(ingest.feed(&[]), Fed::End);
    let id = ingest.finish();
    assert_eq!(id.as_bytes(), blake2b(64, &[], b"").as_bytes());
    assert_eq!(
        id.to_string(),
        "786a02f742015903c6c6fd852552d272912f4740e15847618a86e217f71f5419\
         d25e1031afee585313896444934eb04b903a685b1448b755d56f701afe9be2ce"
    );
}

#[test]
fn ingest_of_123() {
    let mut ingest = Ingest::new();
    assert_eq!(ingest.feed(b"12"), Fed::More);
    assert_eq!(ingest.feed(b"3"), Fed::More);
    assert_eq!(ingest.feed(b""), Fed::End);
    let id = ingest.finish();
    assert_eq!(id.as_bytes(), blake2b(64, &[], b"123").as_bytes());
    assert_ne!(id.as_bytes(), blake2b(64, &[], b"").as_bytes());
}

#[test]
fn stored_file_lies_under_its_digest() {
    let db = Database::new(Config::new());
    let mut ingest = Ingest::new();
    ingest.feed(b"123");
    let id = ingest.finish();
    let hex = id.to_string();
    let (dir, file) = db.place(&id);
    assert_eq!(dir, format!("/srv/irbisfs/content/files/{}/{}", &hex[0..2], &hex[2..4]));
    assert_eq!(file, format!("{}/{}", dir, &hex[4..]));
    assert_eq!(file.len(), "/srv/irbisfs/content/files".len() + 3 + 128);
}

#[test]
fn make_path_fans_out_by_the_first_four_digits() {
    let mut config = Config::new();
    config.filesdir = "/data".to_owned();
    let db = Database::new(config);
    let (dir, file) = db.make_path("abcdef0123");
    assert_eq!(dir, "/data/ab/cd");
    assert_eq!(file, "/data/ab/cd/ef0123");
    let (dir, file) = db.make_path("01234");
    assert_eq!(dir, "/data/01/23");
    assert_eq!(file, "/data/01/23/4");
}

#[test]
fn new_database() {
    let db = Database::new(Config::default(99));
    assert_eq!(db.version, "0.0.0");
    assert_eq!(db.rustc_version, "");
    assert_eq!(db.config.port, 99);
    let other = Database::new(Config::default(99));
    assert_ne!(db.run_id, other.run_id);
}

#[test]
fn temporary_names_are_hyphenated_identifiers() {
    let name = Database::temp_name();
    assert_eq!(name.len(), 40);
    assert!(name.ends_with(".tmp"));
    for (i, c) in name[..36].chars().enumerate() {
        if i == 8 || i == 13 || i == 18 || i == 23 {
            assert_eq!(c, '-');
        } else {
            assert!(c.is_ascii_digit() || ('a'..='f').contains(&c));
        }
    }
    assert_ne!(name, Database::temp_name());
}

#[test]
fn content_id_in_hexadecimal() {
    let mut bytes = [0u8; 64];
    bytes[0] = 0x01;
    bytes[1] = 0xab;
    bytes[63] = 0x0f;
    let id = ContentId::from_slice(&bytes);
    let text = id.to_string();
    assert_eq!(text.len(), 128);
    assert!(text.starts_with("01ab00"));
    assert!(text.ends_with("000f"));
    assert_eq!(id.as_bytes(), &bytes[..]);
    assert_eq!(id.debug_string(), format!("ContentId ({})", text));
}

#[test]
fn default_server_settings() {
    let config = Config::new();
    assert_eq!(config.pidfile, "/var/run/irbis/ifsd.pid");
    assert_eq!(config.workdir, "/srv/irbisfs/content");
    assert_eq!(config.filesdir, "/srv/irbisfs/content/files");
    assert!(!config.daemonize);
    assert_eq!(config.hz, 10);
    assert!(config.bind.is_empty());
    assert_eq!(config.port, 1313);
    assert_eq!(config.tcp_keepalive, 0);
    assert_eq!(config.tcp_backlog, 511);
    assert_eq!(config.timeout, 0);
    assert_eq!(config.unixsocket, None);
    assert_eq!(config.unixsocketperm, 0o700);
    assert!(!config.syslog_enabled);
    assert_eq!(config.syslog_ident, "ifsd");
    assert_eq!(config.syslog_facility, "local0");
}

#[test]
fn addresses_default_to_the_local_host() {
    let mut config = Config::default(4000);
    assert_eq!(config.addresses(), vec![("127.0.0.1".to_owned(), 4000)]);
    config.bind = vec!["10.0.0.1".to_owned(), "::1".to_owned()];
    assert_eq!(
        config.addresses(),
        vec![("10.0.0.1".to_owned(), 4000), ("::1".to_owned(), 4000)]
    );
}

#[test]
fn zero_seconds_mean_no_limit() {
    let mut config = Config::new();
    assert_eq!(config.keepalive(), None);
    assert_eq!(config.stream_timeout(), None);
    config.tcp_keepalive = 30;
    config.timeout = 5;
    assert_eq!(config.keepalive(), Some(30));
    assert_eq!(config.stream_timeout(), Some(5));
}

#[test]
fn copy_from_places_content_under_its_digest() {
    let db = Database::new(Config::new());
    let (id, dir, file) = db.copy_from(b"123");
    assert_eq!(id.as_bytes(), blake2b(64, &[], b"123").as_bytes());
    let hex = id.to_string();
    assert_eq!(dir, format!("/srv/irbisfs/content/files/{}/{}", &hex[0..2], &hex[2..4]));
    assert_eq!(file, format!("{}/{}", dir, &hex[4..]));
    let (empty, _, empty_file) = db.copy_from(b"");
    assert_eq!(empty.as_bytes(), blake2b(64, &[], b"").as_bytes());
    assert!(empty_file.starts_with("/srv/irbisfs/content/files/78/6a/02f7"));
    assert_ne!(empty, id);
}
