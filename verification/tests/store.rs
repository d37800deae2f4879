use aes::cipher::{block_padding::Pkcs7, BlockEncryptMut, KeyIvInit};
use sc_dossier::error::Error;
use sc_dossier::json::Json;
use sc_dossier::store::{
    decrypt_store, decrypted_store, parse_credentials, split_store, KeyScan, SCAN_CHUNK, SCAN_OVERLAP,
};

fn s(v: &str) -> Json {
    Json::Str(v.to_string())
}

fn obj(entries: Vec<(&str, Json)>) -> Json {
    Json::Object(entries.into_iter().map(|(k, v)| (k.to_string(), v)).collect())
}

#[test]
fn parses_creds_from_store_shape() {
    let v = obj(vec![
        ("session", obj(vec![("key", s("X-Rsi-Token")), ("value", s("sess123"))])),
        ("device", obj(vec![("key", s("X-RSI-Device")), ("value", s("dev456"))])),
        ("application", obj(vec![("version", s("2.13.3"))])),
        (
            "library",
            obj(vec![(
                "defaults",
                Json::Array(vec![obj(vec![
                    ("gameId", s("SC")),
                    ("channelId", s("LIVE")),
                    ("platformId", s("prod")),
                ])]),
            )]),
        ),
    ]);
    let c = parse_credentials(&v).unwrap();
    assert_eq!(c.session_token, "sess123");
    assert_eq!(c.device_token, "dev456");
    assert_eq!(c.default_channel.as_deref(), Some("LIVE"));
    assert_eq!(c.platform_id.as_deref(), Some("prod"));
    assert_eq!(c.launcher_version.as_deref(), Some("2.13.3"));
}

#[test]
fn missing_session_errors() {
    let v = obj(vec![("device", obj(vec![("value", s("dev"))]))]);
    assert!(matches!(
        parse_credentials(&v),
        Err(Error::MissingCredential { what: "session token" })
    ));
}

#[test]
fn empty_device_token_errors() {
    let v = obj(vec![
        ("session", obj(vec![("value", s("sess"))])),
        ("device", obj(vec![("value", s(""))])),
    ]);
    assert!(matches!(
        parse_credentials(&v),
        Err(Error::MissingCredential { what: "device token" })
    ));
    // A non-string token counts as missing too.
    let v = obj(vec![
        ("session", obj(vec![("value", Json::Number("5".to_string()))])),
        ("device", obj(vec![("value", s("dev"))])),
    ]);
    assert!(matches!(
        parse_credentials(&v),
        Err(Error::MissingCredential { what: "session token" })
    ));
}

#[test]
fn picks_the_first_sc_default_and_tolerates_absent_fields() {
    let v = obj(vec![
        ("session", obj(vec![("value", s("a"))])),
        ("device", obj(vec![("value", s("b"))])),
        (
            "library",
            obj(vec![(
                "defaults",
                Json::Array(vec![
                    obj(vec![("gameId", s("SQ42")), ("channelId", s("X"))]),
                    obj(vec![("gameId", s("SC")), ("channelId", s("PTU")), ("platformId", s("ptu"))]),
                    obj(vec![("gameId", s("SC")), ("channelId", s("LIVE"))]),
                ]),
            )]),
        ),
    ]);
    let c = parse_credentials(&v).unwrap();
    assert_eq!(c.default_channel.as_deref(), Some("PTU"));
    assert_eq!(c.platform_id.as_deref(), Some("ptu"));
    assert_eq!(c.launcher_version, None);
}

#[test]
fn decrypt_store_rejects_bad_header() {
    let r = decrypt_store(b"too short", b"key");
    assert!(matches!(r, Err(Error::Store(m)) if m == "store file does not start with `[16-byte IV] :`"));
    let mut bytes = vec![0u8; 16];
    bytes.push(b';');
    bytes.extend_from_slice(&[0u8; 16]);
    assert!(matches!(decrypt_store(&bytes, b"key"), Err(Error::Store(_))));
}

#[test]
fn decrypt_store_reports_bad_padding() {
    // A well-formed header whose ciphertext is not a whole number of blocks.
    let mut bytes = b"0123456789abcdef:".to_vec();
    bytes.extend_from_slice(&[1u8; 5]);
    let r = decrypt_store(&bytes, b"key");
    assert!(matches!(r, Err(Error::Store(m)) if m == "AES-CBC decrypt failed: Unpad Error"));
}

#[test]
fn decrypt_store_round_trips_an_electron_store_file() {
    let key_text = b"abcdefghijklmnopqrstuvwxyzABCDEFGHIJKLMNOPQ=";
    let plaintext = br#"{"session":{"value":"t"}}"#;
    let file = encrypt_store(*b"fedcba9876543210", key_text, plaintext);
    assert_eq!(decrypt_store(&file, key_text).unwrap(), plaintext.to_vec());
}

#[test]
fn key_scan_finds_the_marker_across_chunks() {
    let key = "abcdefghijklmnopqrstuvwxyzABCDEFGHIJKLMNOPQ=";
    let text = format!("xxxx encryptionKey: \"{key}\" yyyy");
    let bytes = text.as_bytes();
    let mut scan = KeyScan::new();
    assert_eq!(scan.room(), SCAN_CHUNK + SCAN_OVERLAP);
    // Split the marker between two chunks.
    assert_eq!(scan.feed(&bytes[..15]).unwrap(), None);
    assert_eq!(scan.room(), SCAN_CHUNK + SCAN_OVERLAP - 15);
    assert_eq!(scan.feed(&bytes[15..]).unwrap(), Some(key.as_bytes().to_vec()));
}

#[test]
fn key_scan_reports_a_missing_marker_at_the_end() {
    let mut scan = KeyScan::new();
    assert_eq!(scan.feed(&[b'z'; 300]).unwrap(), None);
    // Only the overlap is carried.
    assert_eq!(scan.room(), SCAN_CHUNK);
    let r = scan.feed(&[]);
    assert!(matches!(r, Err(Error::Store(m)) if m.starts_with("encryptionKey marker not found")));
}

fn encrypt_store(iv: [u8; 16], key_text: &[u8], plaintext: &[u8]) -> Vec<u8> {
    // electron-store salts with the IV read as (lossy) UTF-8 text.
    let salt = String::from_utf8_lossy(&iv).into_owned().into_bytes();
    let mut key = [0u8; 32];
    pbkdf2::pbkdf2_hmac::<sha2::Sha512>(key_text, &salt, 10_000, &mut key);
    let ct = cbc::Encryptor::<aes::Aes256>::new(&key.into(), &iv.into())
        .encrypt_padded_vec_mut::<Pkcs7>(plaintext);
    let mut file = iv.to_vec();
    file.push(b':');
    file.extend_from_slice(&ct);
    file
}

#[test]
fn decrypt_store_salts_with_the_lossy_text_of_the_iv() {
    let iv = [0xffu8, 0xfe, b'a', 0x80, 1, 2, 3, 4, 5, 6, 7, 8, 9, 10, 11, 12];
    let file = encrypt_store(iv, b"k", b"hello store");
    assert_eq!(decrypt_store(&file, b"k").unwrap(), b"hello store".to_vec());
    // The wrong key text fails to unpad (or yields other bytes).
    assert_ne!(decrypt_store(&file, b"other").ok(), Some(b"hello store".to_vec()));
}

#[test]
fn split_store_and_decrypted_store() {
    let (iv, ct) = split_store(b"0123456789abcdef:xyz").unwrap();
    assert_eq!(iv, b"0123456789abcdef");
    assert_eq!(ct, b"xyz");
    let (_, ct) = split_store(b"0123456789abcdef:").unwrap();
    assert!(ct.is_empty());
    assert!(split_store(b"0123456789abcdef").is_err());
    assert_eq!(decrypted_store(Some(vec![1, 2])).unwrap(), vec![1, 2]);
    assert!(matches!(decrypted_store(None), Err(Error::Store(m)) if m == "AES-CBC decrypt failed: Unpad Error"));
}

#[test]
fn key_scan_take_capture_acts_on_the_capture() {
    let mut scan = KeyScan::new();
    assert_eq!(scan.take_capture(&[1, 2, 3], Some(Some(vec![9]))).unwrap(), Some(vec![9]));
    assert_eq!(scan.take_capture(&[7; 200], Some(None)).unwrap(), None);
    assert_eq!(scan.room(), SCAN_CHUNK);
    let mut scan = KeyScan::new();
    assert_eq!(scan.take_capture(&[7; 10], Some(None)).unwrap(), None);
    assert_eq!(scan.room(), SCAN_CHUNK + SCAN_OVERLAP - 10);
    assert!(matches!(scan.take_capture(&[], None), Err(Error::Invalid(_))));
}

#[test]
fn key_scan_sees_a_marker_reaching_back_into_the_overlap() {
    let key = "0123456789abcdefghijklmnopqrstuvwxyzABCDEFG=";
    let marker = format!("encryptionKey:'{key}'");
    // The first chunk holds filler and then all but the last byte of the
    // marker; its last byte arrives alone in the next chunk.
    let mut first = vec![b'.'; 400];
    first.extend_from_slice(&marker.as_bytes()[..marker.len() - 1]);
    let mut scan = KeyScan::new();
    assert_eq!(scan.feed(&first).unwrap(), None);
    let last = &marker.as_bytes()[marker.len() - 1..];
    assert_eq!(scan.feed(last).unwrap(), Some(key.as_bytes().to_vec()));
}
