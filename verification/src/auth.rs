//! Minting a game-services JWT by replaying the launcher flow:
//!
//!   1. `POST games/claims`  `{}`                          → opaque `claims`
//!   2. `POST games/release` `{claims, gameId, channelId}` → `servicesEndpoint`, version
//!   3. `POST games/token`   `{claims, gameId}`            → game JWT
//!
//! All three send `X-Rsi-Token` + `X-Rsi-Device` as headers. Envelope is
//! `{ success, data, code }`; `success != 1` → [`Error::Mint`].
//!
//! The HTTP exchange is the caller's: [`MintFlow`] says what to send next and
//! takes each reply's envelope.

use vstd::prelude::*;

use crate::error::Error;
use crate::json::{Json, JsonValue, opt_as_str};
use crate::store::Credentials;
use crate::text::{non_empty, opt_to_owned, opt_view, str_eq};

verus! {

/// RSI environment to mint against. Maps to the launcher v3 API base.
#[derive(Debug, Clone, Copy, PartialEq, Eq, Structural)]
pub enum Env {
    /// Live (`robertsspaceindustries.com`).
    Prod,
    /// PTU / EPTU (`ptu.cloudimperiumgames.com`).
    Ptu,
    /// Staging.
    Staging,
}

/// The launcher v3 API base of an environment.
pub open spec fn spec_api_base(env: Env) -> Seq<char> {
    match env {
        Env::Prod => "https://robertsspaceindustries.com/api/launcher/v3"@,
        Env::Ptu => "https://ptu.cloudimperiumgames.com/api/launcher/v3"@,
        Env::Staging => "https://staging.cloudimperiumgames.com/api/launcher/v3"@,
    }
}

impl Env {
    /// The launcher v3 API base.
    pub fn api_base(self) -> (r: &'static str)
        ensures
            r@ == spec_api_base(self),
    {
        match self {
            Env::Prod => "https://robertsspaceindustries.com/api/launcher/v3",
            Env::Ptu => "https://ptu.cloudimperiumgames.com/api/launcher/v3",
            Env::Staging => "https://staging.cloudimperiumgames.com/api/launcher/v3",
        }
    }

    /// Map a launcher `platformId` (`"prod"` / `"ptu"`) to an [`Env`]: `"ptu"`
    /// is PTU, anything else (or nothing) is live.
    pub fn from_platform_id(platform_id: Option<&str>) -> (r: Env)
        ensures
            r == (if platform_id matches Some(p) && p@ == "ptu"@ {
                Env::Ptu
            } else {
                Env::Prod
            }),
    {
        match platform_id {
            Some(p) => if str_eq(p, "ptu") {
                Env::Ptu
            } else {
                Env::Prod
            },
            None => Env::Prod,
        }
    }
}

/// Options for the mint flow. [`MintOptions::from_credentials`] derives
/// env / channel / User-Agent from the launcher store.
#[derive(Debug, Clone)]
pub struct MintOptions {
    /// Environment to mint against.
    pub env: Env,
    /// Game id. Defaults to `"SC"`.
    pub game: String,
    /// Channel id, e.g. `"LIVE"`.
    pub channel: String,
    /// User-Agent for the launcher v3 calls.
    pub user_agent: String,
}

impl MintOptions {
    /// Derive options from launcher credentials: env from the platform id,
    /// channel from the store default (else `"LIVE"`), User-Agent
    /// `RSI Launcher/<version>` (else version `2.13.3`).
    pub fn from_credentials(creds: &Credentials) -> (r: MintOptions)
        ensures
            r.env == (if opt_view(creds.platform_id) == Some("ptu"@) {
                Env::Ptu
            } else {
                Env::Prod
            }),
            r.game@ == "SC"@,
            r.channel@ == match creds.default_channel {
                Some(c) => c@,
                None => "LIVE"@,
            },
            r.user_agent@ == "RSI Launcher/"@ + match creds.launcher_version {
                Some(v) => v@,
                None => "2.13.3"@,
            },
    {
        let env = match &creds.platform_id {
            Some(p) => Env::from_platform_id(Some(p.as_str())),
            None => Env::from_platform_id(None),
        };
        let channel = match &creds.default_channel {
            Some(c) => c.clone(),
            None => "LIVE".to_owned(),
        };
        let version: &str = match &creds.launcher_version {
            Some(v) => v.as_str(),
            None => "2.13.3",
        };
        let user_agent = "RSI Launcher/".to_owned().concat(version);
        MintOptions { env, game: "SC".to_owned(), channel, user_agent }
    }
}

/// A minted game session: JWT plus services endpoint.
#[derive(Clone)]
pub struct Session {
    /// Account-scoped game JWT. Secret.
    pub jwt: String,
    /// Services endpoint, e.g.
    /// `https://pub-sc-alpha-480-11825000.test1.cloudimperiumgames.com:443`.
    pub services_endpoint: String,
    /// Launcher version label, e.g. `"4.8.0-live.11875683"`, when present.
    pub version_label: Option<String>,
}

/// A launcher v3 reply: `{ success, data, code }`, with absent fields at
/// their defaults (`0`, `null`, none).
pub struct Envelope {
    /// `1` on success.
    pub success: i64,
    /// The step's result.
    pub data: Json,
    /// CIG's error code, when present.
    pub code: Option<String>,
}

/// What to send for one step of the mint flow.
pub struct MintRequest {
    /// The launcher v3 endpoint (`games/claims` | `games/release` | `games/token`).
    pub step: &'static str,
    /// The URL to `POST` to.
    pub url: String,
    /// The request headers, in order.
    pub headers: Vec<(&'static str, String)>,
    /// The JSON body.
    pub payload: Json,
}

/// Where the mint flow stands: the step it waits on, with what the earlier
/// steps returned.
pub enum MintFlow {
    /// Waiting on `games/claims`.
    Claims,
    /// Waiting on `games/release`, holding the claims.
    Release {
        /// The opaque claims from step 1.
        claims: Json,
    },
    /// Waiting on `games/token`, holding the claims and the release results.
    Token {
        /// The opaque claims from step 1.
        claims: Json,
        /// The services endpoint from step 2.
        services_endpoint: String,
        /// The version label from step 2, if any.
        version_label: Option<String>,
    },
}

/// The result of feeding one envelope to the flow.
pub enum MintProgress {
    /// Send the next step.
    Next(MintFlow),
    /// The flow is complete.
    Done(Session),
}

/// The launcher v3 endpoint a flow state waits on.
pub open spec fn spec_step_name(flow: MintFlow) -> Seq<char> {
    match flow {
        MintFlow::Claims => "games/claims"@,
        MintFlow::Release { .. } => "games/release"@,
        MintFlow::Token { .. } => "games/token"@,
    }
}

/// A JSON string value.
pub open spec fn jstr(s: Seq<char>) -> JsonValue {
    JsonValue::Str(s)
}

/// The request body of a flow state: `{}`, then
/// `{channelId, claims, gameId}`, then `{claims, gameId}`.
pub open spec fn spec_payload(flow: MintFlow, opts: MintOptions) -> JsonValue {
    match flow {
        MintFlow::Claims => JsonValue::Object(Seq::empty()),
        MintFlow::Release { claims } => JsonValue::Object(
            seq![
                ("channelId"@, jstr(opts.channel@)),
                ("claims"@, claims@),
                ("gameId"@, jstr(opts.game@)),
            ],
        ),
        MintFlow::Token { claims, .. } => JsonValue::Object(
            seq![("claims"@, claims@), ("gameId"@, jstr(opts.game@))],
        ),
    }
}

/// The headers every step sends.
pub open spec fn spec_headers(creds: Credentials, opts: MintOptions) -> Seq<(Seq<char>, Seq<char>)> {
    seq![
        ("User-Agent"@, opts.user_agent@),
        ("Content-Type"@, "application/json"@),
        ("X-Rsi-Token"@, creds.session_token@),
        ("X-Rsi-Device"@, creds.device_token@),
    ]
}

/// The member `key` of the envelope data, as a string.
pub open spec fn data_str(data: Json, key: Seq<char>) -> Option<Seq<char>> {
    opt_as_str(data@.get(key))
}

/// A string member of `data`, owned.
fn data_string(data: &Json, key: &str) -> (r: Option<String>)
    ensures
        opt_view(r) == data_str(*data, key@),
{
    match data.get(key) {
        Some(v) => opt_to_owned(v.as_str()),
        None => None,
    }
}

/// A JSON string holding a copy of `s`.
fn json_str(s: &str) -> (r: Json)
    ensures
        r@ == jstr(s@),
{
    Json::Str(s.to_owned())
}

/// The opaque claims returned by `games/claims` are what `games/release` and
/// `games/token` send back: the flow states that hold them put them, unchanged,
/// under `claims` in their request bodies, beside the game id.
pub proof fn law_claims_are_sent_back(
    claims: Json,
    services_endpoint: String,
    version_label: Option<String>,
    opts: MintOptions,
)
    ensures
        spec_payload(MintFlow::Release { claims }, opts).get("claims"@) == Some(claims@),
        spec_payload(MintFlow::Release { claims }, opts).get("gameId"@) == Some(jstr(opts.game@)),
        spec_payload(MintFlow::Token { claims, services_endpoint, version_label }, opts).get(
            "claims"@,
        ) == Some(claims@),
        spec_payload(MintFlow::Token { claims, services_endpoint, version_label }, opts).get(
            "gameId"@,
        ) == Some(jstr(opts.game@)),
{
    reveal_strlit("channelId");
    reveal_strlit("claims");
    reveal_strlit("gameId");
    let r = spec_payload(MintFlow::Release { claims }, opts);
    let t = spec_payload(MintFlow::Token { claims, services_endpoint, version_label }, opts);
    let re = seq![
        ("channelId"@, jstr(opts.channel@)),
        ("claims"@, claims@),
        ("gameId"@, jstr(opts.game@)),
    ];
    let te = seq![("claims"@, claims@), ("gameId"@, jstr(opts.game@))];
    assert("channelId"@ =~= seq!['c', 'h', 'a', 'n', 'n', 'e', 'l', 'I', 'd']);
    assert("claims"@ =~= seq!['c', 'l', 'a', 'i', 'm', 's']);
    assert("gameId"@ =~= seq!['g', 'a', 'm', 'e', 'I', 'd']);
    assert("channelId"@[1] != "claims"@[1]);
    assert("channelId"@[0] != "gameId"@[0]);
    assert("claims"@[0] != "gameId"@[0]);
    assert(re.subrange(1, 3) =~= seq![("claims"@, claims@), ("gameId"@, jstr(opts.game@))]);
    assert(re.subrange(1, 3).subrange(1, 2) =~= seq![("gameId"@, jstr(opts.game@))]);
    assert(te.subrange(1, 2) =~= seq![("gameId"@, jstr(opts.game@))]);
    let g = seq![("gameId"@, jstr(opts.game@))];
    assert(crate::json::entries_lookup(g, "gameId"@) == Some(jstr(opts.game@)));
    assert(crate::json::entries_lookup(re.subrange(1, 3), "gameId"@) == crate::json::entries_lookup(
        re.subrange(1, 3).subrange(1, 2),
        "gameId"@,
    ));
    assert(crate::json::entries_lookup(re, "gameId"@) == crate::json::entries_lookup(
        re.subrange(1, 3),
        "gameId"@,
    ));
    assert(crate::json::entries_lookup(te, "gameId"@) == crate::json::entries_lookup(
        te.subrange(1, 2),
        "gameId"@,
    ));
}

/// Each flow state asks for its own step, in order — claims, release, token —
/// at `<api base>/<step>`, with the launcher's four headers: the User-Agent,
/// a JSON content type, the session token as `X-Rsi-Token` and the device
/// token as `X-Rsi-Device`. The claims body is the empty object; the release
/// body carries the channel under `channelId`.
pub proof fn law_mint_request_shape(
    claims: Json,
    services_endpoint: String,
    version_label: Option<String>,
    creds: Credentials,
    opts: MintOptions,
)
    ensures
        spec_step_name(MintFlow::Claims) == "games/claims"@,
        spec_step_name(MintFlow::Release { claims }) == "games/release"@,
        spec_step_name(
            MintFlow::Token { claims, services_endpoint, version_label },
        ) == "games/token"@,
        spec_api_base(Env::Prod) == "https://robertsspaceindustries.com/api/launcher/v3"@,
        spec_api_base(Env::Ptu) == "https://ptu.cloudimperiumgames.com/api/launcher/v3"@,
        spec_api_base(Env::Staging) == "https://staging.cloudimperiumgames.com/api/launcher/v3"@,
        spec_headers(creds, opts).len() == 4,
        spec_headers(creds, opts)[0] == ("User-Agent"@, opts.user_agent@),
        spec_headers(creds, opts)[1] == ("Content-Type"@, "application/json"@),
        spec_headers(creds, opts)[2] == ("X-Rsi-Token"@, creds.session_token@),
        spec_headers(creds, opts)[3] == ("X-Rsi-Device"@, creds.device_token@),
        spec_payload(MintFlow::Claims, opts) == JsonValue::Object(Seq::empty()),
        spec_payload(MintFlow::Release { claims }, opts).get("channelId"@) == Some(
            JsonValue::Str(opts.channel@),
        ),
{
}

impl MintFlow {
    /// The flow before any step.
    pub fn start() -> (r: MintFlow)
        ensures
            r is Claims,
    {
        MintFlow::Claims
    }

    /// The launcher v3 endpoint this state waits on.
    pub fn step_name(&self) -> (r: &'static str)
        ensures
            r@ == spec_step_name(*self),
    {
        match self {
            MintFlow::Claims => "games/claims",
            MintFlow::Release { .. } => "games/release",
            MintFlow::Token { .. } => "games/token",
        }
    }

    /// The request for the step this state waits on: `POST <api base>/<step>`
    /// with the launcher headers and the step's body.
    pub fn request(&self, creds: &Credentials, opts: &MintOptions) -> (r: MintRequest)
        ensures
            r.step@ == spec_step_name(*self),
            r.url@ == spec_api_base(opts.env) + "/"@ + spec_step_name(*self),
            r.headers@.len() == 4,
            forall|i: int|
                0 <= i < 4 ==> (#[trigger] r.headers@[i]).0@ == spec_headers(*creds, *opts)[i].0
                    && r.headers@[i].1@ == spec_headers(*creds, *opts)[i].1,
            r.payload@ == spec_payload(*self, *opts),
    {
        let step = self.step_name();
        let url = opts.env.api_base().to_owned().concat("/").concat(step);
        let mut headers: Vec<(&'static str, String)> = Vec::new();
        headers.push(("User-Agent", opts.user_agent.clone()));
        headers.push(("Content-Type", "application/json".to_owned()));
        headers.push(("X-Rsi-Token", creds.session_token.clone()));
        headers.push(("X-Rsi-Device", creds.device_token.clone()));
        let payload = match self {
            MintFlow::Claims => {
                let r = Json::Object(Vec::new());
                proof {
                    crate::json::lemma_entries_view(Seq::empty());
                }
                assert(r@ == JsonValue::Object(Seq::empty()));
                r
            },
            MintFlow::Release { claims } => {
                let mut v: Vec<(String, Json)> = Vec::new();
                v.push(("channelId".to_owned(), json_str(opts.channel.as_str())));
                v.push(("claims".to_owned(), claims.deep_clone()));
                v.push(("gameId".to_owned(), json_str(opts.game.as_str())));
                proof {
                    crate::json::lemma_entries_view(v@);
                }
                let r = Json::Object(v);
                assert(r@ == spec_payload(*self, *opts)) by {
                    assert(crate::json::entries_view(v@) =~= seq![
                        ("channelId"@, jstr(opts.channel@)),
                        ("claims"@, claims@),
                        ("gameId"@, jstr(opts.game@)),
                    ]);
                }
                r
            },
            MintFlow::Token { claims, .. } => {
                let mut v: Vec<(String, Json)> = Vec::new();
                v.push(("claims".to_owned(), claims.deep_clone()));
                v.push(("gameId".to_owned(), json_str(opts.game.as_str())));
                proof {
                    crate::json::lemma_entries_view(v@);
                }
                let r = Json::Object(v);
                assert(r@ == spec_payload(*self, *opts)) by {
                    assert(crate::json::entries_view(v@) =~= seq![
                        ("claims"@, claims@),
                        ("gameId"@, jstr(opts.game@)),
                    ]);
                }
                r
            },
        };
        MintRequest { step, url, headers, payload }
    }

    /// Take the envelope of the reply to the step this state waits on.
    ///
    /// A `success` other than 1 fails the flow with [`Error::Mint`]. After
    /// `games/claims` the flow keeps the data as the claims; after
    /// `games/release` it needs a non-empty `servicesEndpoint` string and keeps
    /// `versionLabel` if it is a string; after `games/token` it needs a
    /// non-empty `token` string and yields the [`Session`].
    pub fn advance(self, envelope: Envelope) -> (r: Result<MintProgress, Error>)
        ensures
            envelope.success != 1 ==> (r matches Err(e) && e.is_mint(
                spec_step_name(self),
                envelope.success,
                opt_view(envelope.code),
            )),
            envelope.success == 1 ==> match self {
                MintFlow::Claims => r matches Ok(MintProgress::Next(MintFlow::Release { claims }))
                    && claims@ == envelope.data@,
                MintFlow::Release { claims } => match non_empty(
                    data_str(envelope.data, "servicesEndpoint"@),
                ) {
                    Some(ep) => r matches Ok(
                        MintProgress::Next(MintFlow::Token { claims: c, services_endpoint, version_label }),
                    ) && c@ == claims@ && services_endpoint@ == ep && opt_view(version_label)
                        == data_str(envelope.data, "versionLabel"@),
                    None => r matches Err(e) && e.is_invalid(
                        "games/release returned no servicesEndpoint"@,
                    ),
                },
                MintFlow::Token { services_endpoint, version_label, .. } => match non_empty(
                    data_str(envelope.data, "token"@),
                ) {
                    Some(t) => r matches Ok(MintProgress::Done(s)) && s.jwt@ == t
                        && s.services_endpoint == services_endpoint && s.version_label
                        == version_label,
                    None => r matches Err(e) && e.is_invalid("games/token returned no token"@),
                },
            },
    {
        if envelope.success != 1 {
            let step = self.step_name();
            return Err(Error::Mint { step, success: envelope.success, code: envelope.code });
        }
        match self {
            MintFlow::Claims => Ok(MintProgress::Next(MintFlow::Release { claims: envelope.data })),
            MintFlow::Release { claims } => {
                let services_endpoint = match data_string(&envelope.data, "servicesEndpoint") {
                    Some(s) if !s.as_str().is_empty() => s,
                    _ => {
                        return Err(
                            Error::Invalid("games/release returned no servicesEndpoint".to_owned()),
                        )
                    },
                };
                let version_label = data_string(&envelope.data, "versionLabel");
                Ok(MintProgress::Next(MintFlow::Token { claims, services_endpoint, version_label }))
            },
            MintFlow::Token { claims: _, services_endpoint, version_label } => {
                let jwt = match data_string(&envelope.data, "token") {
                    Some(s) if !s.as_str().is_empty() => s,
                    _ => return Err(Error::Invalid("games/token returned no token".to_owned())),
                };
                Ok(MintProgress::Done(Session { jwt, services_endpoint, version_label }))
            },
        }
    }
}

} // verus!
