use sc_dossier::blueprints::{
    Blueprint, BlueprintEntry, BlueprintPage, BlueprintProcessType, BlueprintSource, OwnedBlueprints,
};
use sc_dossier::client::BearerAuth;
use sc_dossier::entitlements::{
    Entitlement, EntitlementLedger, EntitlementMetadata, EntitlementRecord, EntitlementSource,
    EntitlementStatus,
};
use sc_dossier::error::Error;
use sc_dossier::identity::{current_player, CurrentPlayerReply, PlayerRecord};
use sc_dossier::pagination::{PageInfo, Timestamp};

fn entry(id: &str, last_used: Option<i64>) -> BlueprintEntry {
    BlueprintEntry {
        blueprint_id: id.to_string(),
        category_id: "cat".to_string(),
        item_class_id: "cls".to_string(),
        tier: 2,
        remaining_uses: -1,
        source: 1,
        process_type: 9,
        last_used_at: last_used.map(|s| Timestamp { seconds: s, nanos: 0 }),
    }
}

#[test]
fn blueprint_codes_decode() {
    assert_eq!(BlueprintSource::from_i32(2), BlueprintSource::Platform);
    assert_eq!(BlueprintSource::from_i32(-3), BlueprintSource::Unknown(-3));
    assert_eq!(BlueprintProcessType::from_i32(6), BlueprintProcessType::Research);
    assert_eq!(BlueprintProcessType::from_i32(7), BlueprintProcessType::Unknown(7));
}

#[test]
fn blueprint_from_entry() {
    let b = Blueprint::from_proto(&entry("bp", Some(0)));
    assert_eq!(b.blueprint_id, "bp");
    assert_eq!(b.remaining_uses, -1);
    assert_eq!(b.source, BlueprintSource::Gameplay);
    assert_eq!(b.process_type, BlueprintProcessType::Unknown(9));
    assert_eq!(b.last_used_at, None);
    assert_eq!(Blueprint::from_proto(&entry("bp", Some(1700))).last_used_at, Some(1700));
}

#[test]
fn blueprint_walk_follows_the_cursor() {
    let mut walk = OwnedBlueprints::new();
    let req = walk.request();
    assert_eq!(req.first, 50);
    assert_eq!(req.after, "");
    let more = walk.take_page(&BlueprintPage {
        results: vec![entry("a", None), entry("b", None)],
        page_info: Some(PageInfo { has_next_page: true, end_cursor: "n1".to_string() }),
    });
    assert!(more);
    assert_eq!(walk.request().after, "n1");
    // A further page reported under an empty cursor ends the walk.
    let more = walk.take_page(&BlueprintPage {
        results: vec![entry("c", None)],
        page_info: Some(PageInfo { has_next_page: true, end_cursor: String::new() }),
    });
    assert!(!more);
    let ids: Vec<String> = walk.finish().into_iter().map(|b| b.blueprint_id).collect();
    assert_eq!(ids, vec!["a", "b", "c"]);
}

#[test]
fn entitlement_from_record() {
    let rec = EntitlementRecord {
        urn: "urn:1".to_string(),
        source_type: 4,
        status: 0,
        entity_class_guid: "guid".to_string(),
        entity_geid: Some(8),
        metadata: None,
        rental_expiry: Some(Timestamp { seconds: 0, nanos: 5 }),
    };
    let e = Entitlement::from_proto(&rec);
    assert_eq!(e.source, EntitlementSource::Rental);
    assert_eq!(e.status, EntitlementStatus::Unknown(0));
    assert_eq!(e.stack_size, 0);
    assert!(!e.real_money);
    assert_eq!(e.rental_expiry, Some(0));
    assert_eq!(e.geid, Some(8));

    let mut ledger = EntitlementLedger::new();
    ledger.take_page(&vec![rec.clone()]);
    let rec2 = EntitlementRecord {
        metadata: Some(EntitlementMetadata { stack_size: 3, real_money: true }),
        status: 3,
        ..rec
    };
    ledger.take_page(&vec![rec2]);
    let all = ledger.finish();
    assert_eq!(all.len(), 2);
    assert_eq!(all[1].stack_size, 3);
    assert!(all[1].real_money);
    assert_eq!(all[1].status, EntitlementStatus::Delivered);
}

#[test]
fn current_player_needs_geid_and_jwt() {
    let p = current_player(CurrentPlayerReply { player: Some(PlayerRecord { geid: 5 }), jwt: "j".to_string() }).unwrap();
    assert_eq!(p.geid, 5);
    assert_eq!(p.jwt, "j");
    let r = current_player(CurrentPlayerReply { player: Some(PlayerRecord { geid: 0 }), jwt: "j".to_string() });
    assert!(matches!(r, Err(Error::NoCurrentPlayer)));
    let r = current_player(CurrentPlayerReply { player: Some(PlayerRecord { geid: 5 }), jwt: String::new() });
    assert!(matches!(r, Err(Error::NoCurrentPlayer)));
    let r = current_player(CurrentPlayerReply { player: None, jwt: "j".to_string() });
    assert!(matches!(r, Err(Error::NoCurrentPlayer)));
}

#[test]
fn bearer_auth_prefixes_and_validates() {
    let a = BearerAuth::new("abc.def").unwrap();
    assert_eq!(a.header(), "Bearer abc.def");
    assert!(matches!(BearerAuth::new("bad\nvalue"), Err(Error::Invalid(ref m)) if m == "JWT contains invalid header characters"));
    assert!(BearerAuth::new("tab\tok").is_ok());
    // Bytes above 0x7f pass, as they do through `http`'s header check.
    assert_eq!(BearerAuth::new("é").unwrap().header(), "Bearer é");
    assert!(BearerAuth::new("del\u{7f}").is_err());
}

