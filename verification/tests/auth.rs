use sc_dossier::auth::{Env, Envelope, MintFlow, MintOptions, MintProgress};
use sc_dossier::error::Error;
use sc_dossier::json::Json;
use sc_dossier::store::Credentials;

fn creds(platform: Option<&str>, channel: Option<&str>, version: Option<&str>) -> Credentials {
    Credentials {
        session_token: "sess".to_string(),
        device_token: "dev".to_string(),
        default_channel: channel.map(str::to_string),
        platform_id: platform.map(str::to_string),
        launcher_version: version.map(str::to_string),
    }
}

fn obj(entries: Vec<(&str, Json)>) -> Json {
    Json::Object(entries.into_iter().map(|(k, v)| (k.to_string(), v)).collect())
}

fn ok(data: Json) -> Envelope {
    Envelope { success: 1, data, code: None }
}

#[test]
fn env_from_platform_id() {
    assert_eq!(Env::from_platform_id(Some("ptu")), Env::Ptu);
    assert_eq!(Env::from_platform_id(Some("prod")), Env::Prod);
    assert_eq!(Env::from_platform_id(Some("PTU")), Env::Prod);
    assert_eq!(Env::from_platform_id(None), Env::Prod);
    assert_eq!(Env::Ptu.api_base(), "https://ptu.cloudimperiumgames.com/api/launcher/v3");
    assert_eq!(Env::Staging.api_base(), "https://staging.cloudimperiumgames.com/api/launcher/v3");
}

#[test]
fn mint_options_from_credentials() {
    let o = MintOptions::from_credentials(&creds(Some("ptu"), Some("PTU"), Some("2.14.0")));
    assert_eq!(o.env, Env::Ptu);
    assert_eq!(o.game, "SC");
    assert_eq!(o.channel, "PTU");
    assert_eq!(o.user_agent, "RSI Launcher/2.14.0");

    let o = MintOptions::from_credentials(&creds(None, None, None));
    assert_eq!(o.env, Env::Prod);
    assert_eq!(o.channel, "LIVE");
    assert_eq!(o.user_agent, "RSI Launcher/2.13.3");
}

#[test]
fn mint_flow_walks_the_three_steps() {
    let c = creds(None, None, None);
    let o = MintOptions::from_credentials(&c);
    let flow = MintFlow::start();
    let req = flow.request(&c, &o);
    assert_eq!(req.step, "games/claims");
    assert_eq!(req.url, "https://robertsspaceindustries.com/api/launcher/v3/games/claims");
    assert_eq!(req.headers[2], ("X-Rsi-Token", "sess".to_string()));
    assert_eq!(req.headers[3], ("X-Rsi-Device", "dev".to_string()));
    assert!(matches!(&req.payload, Json::Object(v) if v.is_empty()));

    let claims = obj(vec![("c", Json::Str("opaque".to_string()))]);
    let flow = match flow.advance(ok(claims)).unwrap() {
        MintProgress::Next(f) => f,
        MintProgress::Done(_) => panic!("not done yet"),
    };
    let req = flow.request(&c, &o);
    assert_eq!(req.step, "games/release");
    match &req.payload {
        Json::Object(v) => {
            let keys: Vec<&str> = v.iter().map(|(k, _)| k.as_str()).collect();
            assert_eq!(keys, vec!["channelId", "claims", "gameId"]);
            assert!(matches!(&v[1].1, Json::Object(c) if c[0].0 == "c"));
        }
        _ => panic!("object payload"),
    }

    let release = obj(vec![
        ("servicesEndpoint", Json::Str("https://svc:443".to_string())),
        ("versionLabel", Json::Str("4.8.0".to_string())),
    ]);
    let flow = match flow.advance(ok(release)).unwrap() {
        MintProgress::Next(f) => f,
        MintProgress::Done(_) => panic!("not done yet"),
    };
    assert_eq!(flow.request(&c, &o).step, "games/token");
    let token = obj(vec![("token", Json::Str("jwt!".to_string()))]);
    match flow.advance(ok(token)).unwrap() {
        MintProgress::Done(s) => {
            assert_eq!(s.jwt, "jwt!");
            assert_eq!(s.services_endpoint, "https://svc:443");
            assert_eq!(s.version_label.as_deref(), Some("4.8.0"));
        }
        MintProgress::Next(_) => panic!("should be done"),
    }
}

#[test]
fn mint_flow_reports_failed_envelopes_and_missing_fields() {
    let r = MintFlow::start().advance(Envelope { success: 0, data: Json::Null, code: Some("E42".to_string()) });
    assert!(matches!(r, Err(Error::Mint { step: "games/claims", success: 0, code: Some(ref c) }) if c == "E42"));

    let flow = MintFlow::Release { claims: Json::Null };
    let r = flow.advance(ok(obj(vec![("servicesEndpoint", Json::Str(String::new()))])));
    assert!(matches!(r, Err(Error::Invalid(ref m)) if m == "games/release returned no servicesEndpoint"));

    let flow = MintFlow::Token {
        claims: Json::Null,
        services_endpoint: "e".to_string(),
        version_label: None,
    };
    let r = flow.advance(ok(obj(vec![("token", Json::Bool(true))])));
    assert!(matches!(r, Err(Error::Invalid(ref m)) if m == "games/token returned no token"));
}
