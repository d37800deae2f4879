//! Credentials from the RSI launcher's `launcher store.json` (electron-store:
//! AES-256-CBC + PBKDF2-HMAC-SHA512, key read from the launcher's
//! `app.asar`): decrypting the store and reading the credential fields.
//!
//! Surfaced fields:
//! - `session.value` → `X-Rsi-Token` (platform session; may be expired)
//! - `device.value`  → `X-Rsi-Device` (device token)
//! - `library.defaults[SC]` → default channel + platform id
//! - `application.version`  → launcher version

use vstd::prelude::*;

use crate::error::Error;
use crate::json::{Json, JsonValue, opt_as_str, opt_get, elems_view, lemma_elems_view};
use crate::text::{non_empty, opt_to_owned, opt_view, str_eq};
use cbc::cipher::block_padding::Pkcs7;
use cbc::cipher::{BlockDecryptMut, KeyIvInit};
use vstd::slice::slice_to_vec;
use vstd::utf8::valid_utf8;

verus! {

/// Credentials and context pulled from the launcher store.
#[derive(Clone)]
pub struct Credentials {
    /// `X-Rsi-Token` — the platform session token. May be expired.
    pub session_token: String,
    /// `X-Rsi-Device` — the persistent device token.
    pub device_token: String,
    /// Default SC channel id (e.g. `"LIVE"`), if present.
    pub default_channel: Option<String>,
    /// Platform id for the default channel (`"prod"` / `"ptu"`), if present.
    pub platform_id: Option<String>,
    /// Launcher version (e.g. `"2.13.3"`).
    pub launcher_version: Option<String>,
}

/// The string at `/a/b` of the store document.
pub open spec fn store_str(v: JsonValue, a: Seq<char>, b: Seq<char>) -> Option<Seq<char>> {
    opt_as_str(opt_get(v.get(a), b))
}

/// The session token: a non-empty string at `/session/value`.
pub open spec fn store_session_token(v: JsonValue) -> Option<Seq<char>> {
    non_empty(store_str(v, "session"@, "value"@))
}

/// The device token: a non-empty string at `/device/value`.
pub open spec fn store_device_token(v: JsonValue) -> Option<Seq<char>> {
    non_empty(store_str(v, "device"@, "value"@))
}

/// The first entry of `entries` whose `gameId` is the string `"SC"`.
pub open spec fn first_sc_entry(entries: Seq<JsonValue>) -> Option<JsonValue>
    decreases entries.len(),
{
    if entries.len() == 0 {
        None
    } else if opt_as_str(entries[0].get("gameId"@)) == Some("SC"@) {
        Some(entries[0])
    } else {
        first_sc_entry(entries.subrange(1, entries.len() as int))
    }
}

/// The SC entry of the array at `/library/defaults`, if there is one.
pub open spec fn store_sc_default(v: JsonValue) -> Option<JsonValue> {
    match opt_get(v.get("library"@), "defaults"@) {
        Some(JsonValue::Array(entries)) => first_sc_entry(entries),
        _ => None,
    }
}

/// The `gameId` of a defaults entry is the string `"SC"`.
pub open spec fn is_sc_entry(e: JsonValue) -> bool {
    e.get("gameId"@) == Some(JsonValue::Str("SC"@))
}

/// The SC entry of the defaults is the first entry whose `gameId` is the
/// string `"SC"`; there is none exactly when no entry has that `gameId`.
pub proof fn law_first_sc_entry(entries: Seq<JsonValue>)
    ensures
        first_sc_entry(entries) is None <==> forall|k: int|
            0 <= k < entries.len() ==> !is_sc_entry(#[trigger] entries[k]),
        first_sc_entry(entries) is Some ==> exists|k: int|
            0 <= k < entries.len() && first_sc_entry(entries) == Some(#[trigger] entries[k])
                && is_sc_entry(entries[k]) && forall|j: int|
                0 <= j < k ==> !is_sc_entry(#[trigger] entries[j]),
    decreases entries.len(),
{
    if entries.len() > 0 {
        let rest = entries.subrange(1, entries.len() as int);
        law_first_sc_entry(rest);
        assert forall|k: int| 0 <= k < rest.len() implies #[trigger] rest[k] == entries[k + 1] by {}
        if is_sc_entry(entries[0]) {
            assert(opt_as_str(entries[0].get("gameId"@)) == Some("SC"@));
        } else {
            assert(opt_as_str(entries[0].get("gameId"@)) != Some("SC"@)) by {
                if opt_as_str(entries[0].get("gameId"@)) == Some("SC"@) {
                    assert(entries[0].get("gameId"@) == Some(JsonValue::Str("SC"@)));
                }
            }
            if first_sc_entry(rest) is None {
                assert forall|k: int| 0 <= k < entries.len() implies !is_sc_entry(
                    #[trigger] entries[k],
                ) by {
                    if k > 0 {
                        assert(rest[k - 1] == entries[k]);
                    }
                }
            } else {
                let k = choose|k: int|
                    0 <= k < rest.len() && first_sc_entry(rest) == Some(#[trigger] rest[k])
                        && is_sc_entry(rest[k]) && forall|j: int|
                        0 <= j < k ==> !is_sc_entry(#[trigger] rest[j]);
                assert(entries[k + 1] == rest[k]);
                assert forall|j: int| 0 <= j < k + 1 implies !is_sc_entry(#[trigger] entries[j]) by {
                    if j > 0 {
                        assert(rest[j - 1] == entries[j]);
                    }
                }
            }
            if exists|k: int| 0 <= k < entries.len() && is_sc_entry(#[trigger] entries[k]) {
                let k = choose|k: int| 0 <= k < entries.len() && is_sc_entry(#[trigger] entries[k]);
                assert(rest[k - 1] == entries[k]);
            }
        }
    }
}

/// The credentials a store document yields: both tokens are the non-empty
/// strings at `/session/value` and `/device/value`; the channel and platform
/// are the `channelId` and `platformId` strings of the first `"SC"` defaults
/// entry; the version is the string at `/application/version`.
pub proof fn law_credentials_fields(v: JsonValue, c: Credentials)
    requires
        store_credentials_match(v, c),
    ensures
        opt_get(v.get("session"@), "value"@) == Some(JsonValue::Str(c.session_token@)),
        c.session_token@.len() != 0,
        opt_get(v.get("device"@), "value"@) == Some(JsonValue::Str(c.device_token@)),
        c.device_token@.len() != 0,
        c.default_channel is Some ==> (store_sc_default(v) is Some && is_sc_entry(
            store_sc_default(v).unwrap(),
        ) && store_sc_default(v).unwrap().get("channelId"@) == Some(
            JsonValue::Str(c.default_channel.unwrap()@),
        )),
        c.platform_id is Some ==> (store_sc_default(v) is Some && is_sc_entry(
            store_sc_default(v).unwrap(),
        ) && store_sc_default(v).unwrap().get("platformId"@) == Some(
            JsonValue::Str(c.platform_id.unwrap()@),
        )),
        c.launcher_version is Some ==> opt_get(v.get("application"@), "version"@) == Some(
            JsonValue::Str(c.launcher_version.unwrap()@),
        ),
{
    match opt_get(v.get("library"@), "defaults"@) {
        Some(JsonValue::Array(entries)) => {
            law_first_sc_entry(entries);
            if first_sc_entry(entries) is Some {
                let k = choose|k: int|
                    0 <= k < entries.len() && first_sc_entry(entries) == Some(#[trigger] entries[k])
                        && is_sc_entry(entries[k]) && forall|j: int|
                        0 <= j < k ==> !is_sc_entry(#[trigger] entries[j]);
            }
        },
        _ => {},
    }
    match opt_get(v.get("session"@), "value"@) {
        Some(JsonValue::Str(x)) => {},
        _ => {},
    }
}

/// A store file's header is 16 IV bytes followed by `:`; the ciphertext is
/// what follows, and the salt is the IV read as lossy UTF-8.
pub proof fn law_store_layout(store: Seq<u8>, key_b64: Seq<u8>)
    ensures
        store_header_ok(store) <==> (store.len() >= 17 && store[16] == 58u8),
        store_plaintext(store, key_b64) == aes256_cbc_pkcs7_decrypt(
            pbkdf2_sha512(key_b64, utf8_lossy(store.subrange(0, 16)), 10000, 32),
            store.subrange(0, 16),
            store.subrange(17, store.len() as int),
        ),
{
}

/// The credentials that a store document yields, when it holds both tokens.
pub open spec fn store_credentials_match(v: JsonValue, c: Credentials) -> bool {
    &&& store_session_token(v) == Some(c.session_token@)
    &&& store_device_token(v) == Some(c.device_token@)
    &&& opt_view(c.default_channel) == opt_as_str(opt_get(store_sc_default(v), "channelId"@))
    &&& opt_view(c.platform_id) == opt_as_str(opt_get(store_sc_default(v), "platformId"@))
    &&& opt_view(c.launcher_version) == store_str(v, "application"@, "version"@)
}

/// The string at `/a/b`, if there is one.
fn str_at<'a>(v: &'a Json, a: &str, b: &str) -> (r: Option<&'a str>)
    ensures
        match r {
            Some(s) => store_str(v@, a@, b@) == Some(s@),
            None => store_str(v@, a@, b@) is None,
        },
{
    match v.get(a) {
        Some(x) => match x.get(b) {
            Some(y) => y.as_str(),
            None => None,
        },
        None => None,
    }
}

/// The SC entry of `/library/defaults`.
fn sc_default(v: &Json) -> (r: Option<&Json>)
    ensures
        match r {
            Some(d) => store_sc_default(v@) == Some(d@),
            None => store_sc_default(v@) is None,
        },
{
    let lib = match v.get("library") {
        Some(x) => x,
        None => return None,
    };
    let defaults = match lib.get("defaults") {
        Some(x) => x,
        None => return None,
    };
    let arr = match defaults.as_array() {
        Some(a) => a,
        None => return None,
    };
    let ghost entries = elems_view(arr@);
    proof {
        lemma_elems_view(arr@);
        assert(entries.subrange(0, entries.len() as int) =~= entries);
    }
    let mut i: usize = 0;
    while i < arr.len()
        invariant
            i <= arr@.len(),
            entries == elems_view(arr@),
            entries.len() == arr@.len(),
            forall|j: int| 0 <= j < arr@.len() ==> #[trigger] entries[j] == arr@[j]@,
            store_sc_default(v@) == first_sc_entry(entries.subrange(i as int, entries.len() as int)),
        decreases arr@.len() - i,
    {
        let ghost rest = entries.subrange(i as int, entries.len() as int);
        assert(rest.subrange(1, rest.len() as int) =~= entries.subrange(i + 1, entries.len() as int));
        assert(rest[0] == entries[i as int]);
        let e = &arr[i];
        let game = match e.get("gameId") {
            Some(g) => g.as_str(),
            None => None,
        };
        let is_sc = match game {
            Some(g) => str_eq(g, "SC"),
            None => false,
        };
        if is_sc {
            return Some(e);
        }
        i = i + 1;
    }
    None
}

/// Read the credential fields from the decrypted store document.
///
/// The session and device tokens must be non-empty strings at
/// `/session/value` and `/device/value`; the session token is checked first.
pub fn parse_credentials(v: &Json) -> (r: Result<Credentials, Error>)
    ensures
        match r {
            Ok(c) => store_credentials_match(v@, c),
            Err(e) => {
                ||| store_session_token(v@) is None && e.is_missing("session token"@)
                ||| store_session_token(v@) is Some && store_device_token(v@) is None
                    && e.is_missing("device token"@)
            },
        },
        r is Ok <==> store_session_token(v@) is Some && store_device_token(v@) is Some,
{
    let session_token = match str_at(v, "session", "value") {
        Some(s) if !s.is_empty() => s.to_owned(),
        _ => return Err(Error::MissingCredential { what: "session token" }),
    };
    let device_token = match str_at(v, "device", "value") {
        Some(s) if !s.is_empty() => s.to_owned(),
        _ => return Err(Error::MissingCredential { what: "device token" }),
    };
    let default = sc_default(v);
    let (default_channel, platform_id) = match default {
        Some(d) => {
            let ch = match d.get("channelId") {
                Some(x) => opt_to_owned(x.as_str()),
                None => None,
            };
            let pl = match d.get("platformId") {
                Some(x) => opt_to_owned(x.as_str()),
                None => None,
            };
            (ch, pl)
        },
        None => (None, None),
    };
    let launcher_version = opt_to_owned(str_at(v, "application", "version"));
    Ok(Credentials { session_token, device_token, default_channel, platform_id, launcher_version })
}

// ── Decryption (electron-store) ─────────────────────────────────────────────

/// What `String::from_utf8_lossy(bytes)` yields, as bytes.
pub uninterp spec fn utf8_lossy(bytes: Seq<u8>) -> Seq<u8>;

/// `String::from_utf8_lossy(bytes).into_owned().into_bytes()` (std). Claimed:
/// the result is the name [`utf8_lossy`] of the input, and (as std documents)
/// valid UTF-8 comes back unchanged.
#[verifier::external_body]
fn from_utf8_lossy_bytes(bytes: &[u8]) -> (r: Vec<u8>)
    ensures
        r@ == utf8_lossy(bytes@),
        valid_utf8(bytes@) ==> r@ == bytes@,
{
    String::from_utf8_lossy(bytes).into_owned().into_bytes()
}

/// The `len`-byte PBKDF2-HMAC-SHA512 key for `password`, `salt` and `rounds`.
pub uninterp spec fn pbkdf2_sha512(password: Seq<u8>, salt: Seq<u8>, rounds: u32, len: nat) -> Seq<u8>;

/// `pbkdf2::pbkdf2_hmac::<sha2::Sha512>` into a fresh `out_len`-byte buffer.
/// Claimed: the result is the name [`pbkdf2_sha512`] of the arguments and has
/// `out_len` bytes (the function fills the buffer it is given; it cannot fail
/// for HMAC, whose keys may have any length).
#[verifier::external_body]
fn pbkdf2_hmac_sha512(password: &[u8], salt: &[u8], rounds: u32, out_len: usize) -> (r: Vec<u8>)
    ensures
        r@ == pbkdf2_sha512(password@, salt@, rounds, out_len as nat),
        r@.len() == out_len,
{
    let mut out = vec![0u8; out_len];
    pbkdf2::pbkdf2_hmac::<sha2::Sha512>(password, salt, rounds, &mut out);
    out
}

/// The plaintext of AES-256-CBC with PKCS#7 padding under `key` and `iv`, or
/// `None` where the padding is malformed or the length is not a multiple of
/// the block size.
pub uninterp spec fn aes256_cbc_pkcs7_decrypt(key: Seq<u8>, iv: Seq<u8>, ct: Seq<u8>) -> Option<Seq<u8>>;

/// `cbc::Decryptor::<aes::Aes256>::new(key, iv).decrypt_padded_mut::<Pkcs7>`
/// on a copy of `ct`. Claimed: the result is the name
/// [`aes256_cbc_pkcs7_decrypt`] of the arguments, `None` standing for the
/// crate's `UnpadError`. The key and IV must have 32 and 16 bytes (the
/// conversions into fixed-size arrays panic otherwise).
#[verifier::external_body]
fn aes256_cbc_decrypt(key: &[u8], iv: &[u8], ct: &[u8]) -> (r: Option<Vec<u8>>)
    requires
        key@.len() == 32,
        iv@.len() == 16,
    ensures
        match r {
            Some(p) => aes256_cbc_pkcs7_decrypt(key@, iv@, ct@) == Some(p@),
            None => aes256_cbc_pkcs7_decrypt(key@, iv@, ct@) is None,
        },
{
    let mut buf = ct.to_vec();
    let dec = cbc::Decryptor::<aes::Aes256>::new(key.into(), iv.into());
    match dec.decrypt_padded_mut::<Pkcs7>(&mut buf) {
        Ok(p) => Some(p.to_vec()),
        Err(_) => None,
    }
}

/// PBKDF2 rounds electron-store uses.
pub const PBKDF2_ROUNDS: u32 = 10000;

/// A store file starts with a 16-byte IV followed by `:`.
pub open spec fn store_header_ok(store: Seq<u8>) -> bool {
    store.len() >= 17 && store[16] == 58u8
}

/// The plaintext of a store file under the launcher key `key_b64`: the AES key
/// is PBKDF2-HMAC-SHA512 of the key text, salted with the IV read as lossy
/// UTF-8 (as electron-store does in JavaScript).
pub open spec fn store_plaintext(store: Seq<u8>, key_b64: Seq<u8>) -> Option<Seq<u8>> {
    let iv = store.subrange(0, 16);
    let ct = store.subrange(17, store.len() as int);
    let key = pbkdf2_sha512(key_b64, utf8_lossy(iv), PBKDF2_ROUNDS, 32);
    aes256_cbc_pkcs7_decrypt(key, iv, ct)
}

/// Split a store file into its IV and ciphertext: `[16-byte IV] : ciphertext`.
pub fn split_store(store_bytes: &[u8]) -> (r: Result<(&[u8], &[u8]), Error>)
    ensures
        store_header_ok(store_bytes@) ==> (r matches Ok((iv, ct)) && iv@ == store_bytes@.subrange(
            0,
            16,
        ) && ct@ == store_bytes@.subrange(17, store_bytes@.len() as int)),
        !store_header_ok(store_bytes@) ==> (r matches Err(e) && e.is_store(
            "store file does not start with `[16-byte IV] :`"@,
        )),
{
    if store_bytes.len() < 17 || store_bytes[16] != 58u8 {
        return Err(Error::Store("store file does not start with `[16-byte IV] :`".to_owned()));
    }
    let (iv, rest) = store_bytes.split_at(16);
    let (_, ct) = rest.split_at(1);
    Ok((iv, ct))
}

/// The outcome of decrypting the store: the plaintext, or a store error for
/// malformed padding.
pub fn decrypted_store(plaintext: Option<Vec<u8>>) -> (r: Result<Vec<u8>, Error>)
    ensures
        match plaintext {
            Some(p) => r matches Ok(v) && v@ == p@,
            None => r matches Err(e) && e.is_store("AES-CBC decrypt failed: Unpad Error"@),
        },
{
    match plaintext {
        Some(p) => Ok(p),
        None => Err(Error::Store("AES-CBC decrypt failed: Unpad Error".to_owned())),
    }
}

/// Decrypt the launcher store (`[16-byte IV] : ciphertext`) with the key text
/// read from `app.asar`.
pub fn decrypt_store(store_bytes: &[u8], key_b64: &[u8]) -> (r: Result<Vec<u8>, Error>)
    ensures
        !store_header_ok(store_bytes@) ==> (r matches Err(e) && e.is_store(
            "store file does not start with `[16-byte IV] :`"@,
        )),
        store_header_ok(store_bytes@) ==> match store_plaintext(store_bytes@, key_b64@) {
            Some(p) => r matches Ok(v) && v@ == p,
            None => r matches Err(e) && e.is_store("AES-CBC decrypt failed: Unpad Error"@),
        },
{
    let (iv, ct) = split_store(store_bytes)?;
    // electron-store salts with `IV.toString('utf8')` from JS — lossy. Mirror it.
    let salt = from_utf8_lossy_bytes(iv);
    let derived = pbkdf2_hmac_sha512(key_b64, salt.as_slice(), PBKDF2_ROUNDS, 32);
    decrypted_store(aes256_cbc_decrypt(derived.as_slice(), iv, ct))
}

// ── Finding the key in app.asar ─────────────────────────────────────────────

/// The pattern that marks the store key inside `app.asar`; capture group 1 is
/// the key text.
pub const KEY_PATTERN: &'static str = "encryptionKey:\\s*[\"']([A-Za-z0-9+/]{43}=)[\"']";

/// Bytes read from `app.asar` per step.
pub const SCAN_CHUNK: usize = 1048576;

/// Bytes kept from one step to the next, so a marker across a boundary is seen.
pub const SCAN_OVERLAP: usize = 128;

/// `regex::bytes::Regex::new(pattern)` and, on `haystack`, capture group 1 of
/// its first match: `None` when the pattern does not compile, `Some(None)` when
/// nothing matches (or group 1 did not take part).
pub uninterp spec fn regex_first_capture(pattern: Seq<char>, haystack: Seq<u8>) -> Option<Option<Seq<u8>>>;

/// `regex::bytes::Regex::new(pattern)` then `captures(haystack)` and group 1.
/// Claimed: the result is the name [`regex_first_capture`] of the arguments.
#[verifier::external_body]
fn first_capture(pattern: &str, haystack: &[u8]) -> (r: Option<Option<Vec<u8>>>)
    ensures
        match r {
            Some(Some(k)) => regex_first_capture(pattern@, haystack@) == Some(Some(k@)),
            Some(None) => regex_first_capture(pattern@, haystack@) == Some(None::<Seq<u8>>),
            None => regex_first_capture(pattern@, haystack@) is None,
        },
{
    match regex::bytes::Regex::new(pattern) {
        Ok(re) => match re.captures(haystack) {
            Some(caps) => match caps.get(1) {
                Some(m) => Some(Some(m.as_bytes().to_vec())),
                None => Some(None),
            },
            None => Some(None),
        },
        Err(_) => None,
    }
}

/// What is kept of the scanned bytes for the next step: the last
/// [`SCAN_OVERLAP`] bytes, or all of them when there are fewer.
pub open spec fn scan_carry(scanned: Seq<u8>) -> Seq<u8> {
    if scanned.len() > SCAN_OVERLAP {
        scanned.subrange(scanned.len() - SCAN_OVERLAP, scanned.len() as int)
    } else {
        scanned
    }
}

/// Carrying the tail of a carried tail keeps the tail of everything fed.
proof fn lemma_carry_step(fed: Seq<u8>, chunk: Seq<u8>)
    ensures
        scan_carry(scan_carry(fed) + chunk) == scan_carry(fed + chunk),
{
    let c = scan_carry(fed);
    let a = c + chunk;
    let b = fed + chunk;
    if a.len() > SCAN_OVERLAP {
        assert(a.subrange(a.len() - SCAN_OVERLAP, a.len() as int) =~= b.subrange(
            b.len() - SCAN_OVERLAP,
            b.len() as int,
        ));
    } else if fed.len() > SCAN_OVERLAP {
        assert(chunk.len() == 0);
        assert(a =~= c);
        assert(b =~= fed);
    } else {
        assert(a =~= b);
    }
}

/// Where, in everything fed, the bytes carried into the next scan begin.
pub open spec fn carried_start(fed: Seq<u8>) -> int {
    fed.len() - scan_carry(fed).len()
}

/// Every run of the file that ends within a new chunk and begins no more than
/// [`SCAN_OVERLAP`] bytes before it lies inside the bytes that chunk's scan
/// searches: a marker straddling a chunk boundary is seen whole, provided at
/// most [`SCAN_OVERLAP`] of its bytes precede the boundary.
pub proof fn law_scan_sees_runs_across_the_boundary(fed: Seq<u8>, chunk: Seq<u8>, s: int, e: int)
    requires
        carried_start(fed) <= s <= e <= fed.len() + chunk.len(),
    ensures
        (fed + chunk).subrange(s, e) == (scan_carry(fed) + chunk).subrange(
            s - carried_start(fed),
            e - carried_start(fed),
        ),
{
    let start = carried_start(fed);
    assert(scan_carry(fed) =~= fed.subrange(start, fed.len() as int));
    assert((fed + chunk).subrange(s, e) =~= (scan_carry(fed) + chunk).subrange(s - start, e - start));
}

/// What a scan carries is the tail of the scanned bytes: all of them when
/// there are at most [`SCAN_OVERLAP`], else the last [`SCAN_OVERLAP`].
pub proof fn law_scan_carry_is_a_tail(scanned: Seq<u8>)
    ensures
        scan_carry(scanned).len() == if scanned.len() <= 128 {
            scanned.len()
        } else {
            128
        },
        forall|i: int|
            0 <= i < scan_carry(scanned).len() ==> #[trigger] scan_carry(scanned)[i] == scanned[i
                + scanned.len() - scan_carry(scanned).len()],
{
}

/// A streaming search for the store key in `app.asar`: fed the file chunk by
/// chunk, it scans the carried tail of what came before (the last
/// [`SCAN_OVERLAP`] bytes) together with the new chunk.
pub struct KeyScan {
    window: Vec<u8>,
    fed: Ghost<Seq<u8>>,
}

impl KeyScan {
    /// The bytes carried into the next scan.
    pub closed spec fn carried(&self) -> Seq<u8> {
        self.window@
    }

    /// Everything fed so far, in order.
    pub closed spec fn fed(&self) -> Seq<u8> {
        self.fed@
    }

    #[verifier::type_invariant]
    closed spec fn inv(&self) -> bool {
        self.window@ == scan_carry(self.fed@)
    }

    /// A scan that has seen nothing yet.
    pub fn new() -> (r: KeyScan)
        ensures
            r.carried() == Seq::<u8>::empty(),
            r.fed() == Seq::<u8>::empty(),
    {
        let window: Vec<u8> = Vec::new();
        assert(window@ =~= scan_carry(Seq::<u8>::empty()));
        KeyScan { window, fed: Ghost(Seq::empty()) }
    }

    /// How many bytes the next chunk may hold: the buffer holds
    /// `SCAN_CHUNK + SCAN_OVERLAP` bytes, the carried ones first.
    pub fn room(&self) -> (n: usize)
        ensures
            n == SCAN_CHUNK + SCAN_OVERLAP - self.carried().len(),
            n >= SCAN_CHUNK,
    {
        proof {
            use_type_invariant(self);
        }
        SCAN_CHUNK + SCAN_OVERLAP - self.window.len()
    }

    /// The bytes the next scan searches: the carried bytes, then `chunk`.
    fn scanned(&self, chunk: &[u8]) -> (r: Vec<u8>)
        ensures
            r@ == self.carried() + chunk@,
    {
        let mut scanned = Vec::new();
        scanned.extend_from_slice(self.window.as_slice());
        scanned.extend_from_slice(chunk);
        scanned
    }

    /// Feed the next chunk read from the file; an empty chunk is the end of the
    /// file. Returns the key when the marker is found, `None` to ask for more.
    /// The bytes searched are the run of the file from [`carried_start`] of
    /// what came before through the end of `chunk`.
    pub fn feed(&mut self, chunk: &[u8]) -> (r: Result<Option<Vec<u8>>, Error>)
        ensures
            chunk@.len() == 0 ==> (r matches Err(e) && e.is_store(
                "encryptionKey marker not found in app.asar (launcher updated / key rotated?)"@,
            )) && *final(self) == *old(self),
            chunk@.len() > 0 ==> {
                &&& old(self).carried() + chunk@ == final(self).fed().subrange(
                    carried_start(old(self).fed()),
                    final(self).fed().len() as int,
                )
                &&& final(self).fed() == old(self).fed() + chunk@
                &&& final(self).carried() == scan_carry(final(self).fed())
                &&& final(self).carried().len() <= SCAN_OVERLAP
                &&& capture_outcome(
                    regex_first_capture(KEY_PATTERN@, old(self).carried() + chunk@),
                    old(self).carried() + chunk@,
                    *final(self),
                    r,
                )
            },
    {
        proof {
            use_type_invariant(&*self);
        }
        if chunk.len() == 0 {
            return Err(
                Error::Store(
                    "encryptionKey marker not found in app.asar (launcher updated / key rotated?)".to_owned(),
                ),
            );
        }
        let scanned = self.scanned(chunk);
        let capture = first_capture(KEY_PATTERN, scanned.as_slice());
        proof {
            let ghost f = old(self).fed();
            let ghost start = carried_start(f);
            assert(old(self).carried() =~= f.subrange(start, f.len() as int));
            assert(old(self).carried() + chunk@ =~= (f + chunk@).subrange(start, (f + chunk@).len() as int));
        }
        self.take_capture(chunk, capture)
    }

    /// Take `chunk` with the key pattern's capture over the carried bytes and
    /// `chunk`: the key when there is one; otherwise carry the tail of the
    /// scanned bytes and ask for more.
    pub fn take_capture(&mut self, chunk: &[u8], capture: Option<Option<Vec<u8>>>) -> (r: Result<Option<Vec<u8>>, Error>)
        ensures
            final(self).fed() == old(self).fed() + chunk@,
            final(self).carried() == scan_carry(final(self).fed()),
            final(self).carried().len() <= SCAN_OVERLAP,
            capture_outcome(opt_opt_view(capture), old(self).carried() + chunk@, *final(self), r),
    {
        proof {
            use_type_invariant(&*self);
            lemma_carry_step(self.fed@, chunk@);
        }
        let scanned = self.scanned(chunk);
        let ghost fed = self.fed@ + chunk@;
        let n = scanned.len();
        let window = if n > SCAN_OVERLAP {
            let (_, tail) = scanned.as_slice().split_at(n - SCAN_OVERLAP);
            slice_to_vec(tail)
        } else {
            scanned
        };
        *self = KeyScan { window, fed: Ghost(fed) };
        match capture {
            Some(Some(k)) => Ok(Some(k)),
            Some(None) => Ok(None),
            None => Err(Error::Invalid("the encryption key pattern does not compile".to_owned())),
        }
    }
}

/// The bytes of a nested optional byte vector.
pub open spec fn opt_opt_view(c: Option<Option<Vec<u8>>>) -> Option<Option<Seq<u8>>> {
    match c {
        Some(Some(k)) => Some(Some(k@)),
        Some(None) => Some(None),
        None => None,
    }
}

/// What a scan step yields for the key pattern's capture over `scanned`: the
/// captured key; or, without a match, nothing yet with the tail of `scanned`
/// carried; or, if the pattern does not compile, an error.
pub open spec fn capture_outcome(
    capture: Option<Option<Seq<u8>>>,
    scanned: Seq<u8>,
    after: KeyScan,
    r: Result<Option<Vec<u8>>, Error>,
) -> bool {
    match capture {
        Some(Some(k)) => r matches Ok(Some(key)) && key@ == k,
        Some(None) => r matches Ok(None) && after.carried() == scan_carry(scanned),
        None => r matches Err(e) && e.is_invalid("the encryption key pattern does not compile"@),
    }
}

} // verus!
