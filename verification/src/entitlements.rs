//! The entitlement ledger: the public [`Entitlement`] type — every owned-item
//! grant (web hangar + in-game) — its decoding from the backend's records, and
//! the concatenation of the server-streamed pages. Returns raw IDs;
//! GUID→name resolution is the consumer's responsibility.

use vstd::prelude::*;

use crate::pagination::Timestamp;

verus! {

/// Where an entitlement came from. `Unknown` covers `UNSPECIFIED` and any
/// future value.
#[derive(Debug, Clone, Copy, PartialEq, Eq, Structural)]
pub enum EntitlementSource {
    /// `..._PLATFORM` (1) — webstore / web hangar.
    Platform,
    /// `..._INGAME_PERSISTENT` (2).
    IngamePersistent,
    /// `..._INGAME_NONPERSISTENT` (3).
    IngameNonpersistent,
    /// `..._RENTAL` (4).
    Rental,
    /// `..._ARENA_COMMANDER` (5).
    ArenaCommander,
    /// A value not in the known schema.
    Unknown(i32),
}

/// The entitlement source a wire value names.
pub open spec fn spec_entitlement_source(v: i32) -> EntitlementSource {
    if v == 1 {
        EntitlementSource::Platform
    } else if v == 2 {
        EntitlementSource::IngamePersistent
    } else if v == 3 {
        EntitlementSource::IngameNonpersistent
    } else if v == 4 {
        EntitlementSource::Rental
    } else if v == 5 {
        EntitlementSource::ArenaCommander
    } else {
        EntitlementSource::Unknown(v)
    }
}

/// Decoding loses nothing: distinct wire values decode to distinct EntitlementSource
/// values, so every unknown value is carried as it came.
pub proof fn law_entitlement_source_decoding_is_injective(a: i32, b: i32)
    ensures
        spec_entitlement_source(a) == spec_entitlement_source(b) ==> a == b,
{
}

/// The entitlement source codes of the schema: 1 platform (web store / web
/// hangar), 2 in-game persistent, 3 in-game non-persistent, 4 rental, 5 Arena
/// Commander; every other value (unspecified 0 among them) is carried as
/// unknown.
pub proof fn law_entitlement_source_codes(v: i32)
    ensures
        spec_entitlement_source(1) == EntitlementSource::Platform,
        spec_entitlement_source(2) == EntitlementSource::IngamePersistent,
        spec_entitlement_source(3) == EntitlementSource::IngameNonpersistent,
        spec_entitlement_source(4) == EntitlementSource::Rental,
        spec_entitlement_source(5) == EntitlementSource::ArenaCommander,
        !(1 <= v <= 5) ==> spec_entitlement_source(v) == EntitlementSource::Unknown(v),
        spec_entitlement_source(v) is Unknown <==> !(1 <= v <= 5),
{
}

impl EntitlementSource {
    /// Decode the wire value.
    pub fn from_i32(v: i32) -> (r: EntitlementSource)
        ensures
            r == spec_entitlement_source(v),
    {
        match v {
            1 => EntitlementSource::Platform,
            2 => EntitlementSource::IngamePersistent,
            3 => EntitlementSource::IngameNonpersistent,
            4 => EntitlementSource::Rental,
            5 => EntitlementSource::ArenaCommander,
            other => EntitlementSource::Unknown(other),
        }
    }
}

/// Delivery status of an entitlement. `Unknown` covers `UNSPECIFIED` and any
/// future value.
#[derive(Debug, Clone, Copy, PartialEq, Eq, Structural)]
pub enum EntitlementStatus {
    /// `..._PACKAGED` (1).
    Packaged,
    /// `..._UNDELIVERED` (2).
    Undelivered,
    /// `..._DELIVERED` (3).
    Delivered,
    /// `..._REVOKED` (4).
    Revoked,
    /// `..._FAILED` (5).
    Failed,
    /// A value not in the known schema.
    Unknown(i32),
}

/// The delivery status a wire value names.
pub open spec fn spec_entitlement_status(v: i32) -> EntitlementStatus {
    if v == 1 {
        EntitlementStatus::Packaged
    } else if v == 2 {
        EntitlementStatus::Undelivered
    } else if v == 3 {
        EntitlementStatus::Delivered
    } else if v == 4 {
        EntitlementStatus::Revoked
    } else if v == 5 {
        EntitlementStatus::Failed
    } else {
        EntitlementStatus::Unknown(v)
    }
}

/// Decoding loses nothing: distinct wire values decode to distinct EntitlementStatus
/// values, so every unknown value is carried as it came.
pub proof fn law_entitlement_status_decoding_is_injective(a: i32, b: i32)
    ensures
        spec_entitlement_status(a) == spec_entitlement_status(b) ==> a == b,
{
}

/// The delivery status codes of the schema: 1 packaged, 2 undelivered, 3
/// delivered, 4 revoked, 5 failed; every other value (unspecified 0 among
/// them) is carried as unknown.
pub proof fn law_entitlement_status_codes(v: i32)
    ensures
        spec_entitlement_status(1) == EntitlementStatus::Packaged,
        spec_entitlement_status(2) == EntitlementStatus::Undelivered,
        spec_entitlement_status(3) == EntitlementStatus::Delivered,
        spec_entitlement_status(4) == EntitlementStatus::Revoked,
        spec_entitlement_status(5) == EntitlementStatus::Failed,
        !(1 <= v <= 5) ==> spec_entitlement_status(v) == EntitlementStatus::Unknown(v),
        spec_entitlement_status(v) is Unknown <==> !(1 <= v <= 5),
{
}

impl EntitlementStatus {
    /// Decode the wire value.
    pub fn from_i32(v: i32) -> (r: EntitlementStatus)
        ensures
            r == spec_entitlement_status(v),
    {
        match v {
            1 => EntitlementStatus::Packaged,
            2 => EntitlementStatus::Undelivered,
            3 => EntitlementStatus::Delivered,
            4 => EntitlementStatus::Revoked,
            5 => EntitlementStatus::Failed,
            other => EntitlementStatus::Unknown(other),
        }
    }
}

/// The metadata of an entitlement record.
#[derive(Debug, Clone, Copy, PartialEq, Eq, Structural)]
pub struct EntitlementMetadata {
    /// Stack size.
    pub stack_size: i32,
    /// Whether the grant was funded with real currency.
    pub real_money: bool,
}

/// One entitlement record as the backend sends it.
#[derive(Debug, Clone)]
pub struct EntitlementRecord {
    /// The entitlement record's URN.
    pub urn: String,
    /// Wire value of the source.
    pub source_type: i32,
    /// Wire value of the status.
    pub status: i32,
    /// The entitled item-class GUID.
    pub entity_class_guid: String,
    /// Instantiated entity geid, if any.
    pub entity_geid: Option<u64>,
    /// Metadata, if any.
    pub metadata: Option<EntitlementMetadata>,
    /// Rental expiry, if any.
    pub rental_expiry: Option<Timestamp>,
}

/// One entitlement (owned-item grant) as reported by the backend. Ids are
/// wire-native: `class_guid` is the full item-class GUID string.
#[derive(Debug, Clone, PartialEq, Eq)]
pub struct Entitlement {
    /// The entitlement record's URN.
    pub urn: String,
    /// Where the grant came from.
    pub source: EntitlementSource,
    /// Delivery status.
    pub status: EntitlementStatus,
    /// The entitled item-class GUID (full GUID string, wire-native).
    pub class_guid: String,
    /// Instantiated entity geid once materialised into the world; else `None`.
    pub geid: Option<u64>,
    /// Stack size from the entitlement metadata.
    pub stack_size: i32,
    /// Whether the grant was funded with real currency.
    pub real_money: bool,
    /// Rental expiry as Unix seconds, or `None` if not a rental / unset.
    pub rental_expiry: Option<i64>,
}

/// The entitlement a record describes; without metadata the stack size is 0
/// and the grant is not real-money.
pub open spec fn spec_entitlement(e: EntitlementRecord) -> Entitlement {
    Entitlement {
        urn: e.urn,
        source: spec_entitlement_source(e.source_type),
        status: spec_entitlement_status(e.status),
        class_guid: e.entity_class_guid,
        geid: e.entity_geid,
        stack_size: match e.metadata {
            Some(m) => m.stack_size,
            None => 0,
        },
        real_money: match e.metadata {
            Some(m) => m.real_money,
            None => false,
        },
        rental_expiry: match e.rental_expiry {
            Some(t) => Some(t.seconds),
            None => None,
        },
    }
}

/// Decoding a record keeps each field from its own wire field: the URN,
/// class GUID and geid unchanged; source and status decoded from their codes;
/// stack size and real-money flag from the metadata (0 and `false` without
/// it); the rental expiry as the timestamp's seconds.
pub proof fn law_entitlement_keeps_record_fields(e: EntitlementRecord)
    ensures
        spec_entitlement(e).urn == e.urn,
        spec_entitlement(e).class_guid == e.entity_class_guid,
        spec_entitlement(e).geid == e.entity_geid,
        spec_entitlement(e).source == spec_entitlement_source(e.source_type),
        spec_entitlement(e).status == spec_entitlement_status(e.status),
        e.metadata is Some ==> spec_entitlement(e).stack_size == e.metadata.unwrap().stack_size
            && spec_entitlement(e).real_money == e.metadata.unwrap().real_money,
        e.metadata is None ==> spec_entitlement(e).stack_size == 0 && !spec_entitlement(e).real_money,
        e.rental_expiry is Some ==> spec_entitlement(e).rental_expiry == Some(
            e.rental_expiry.unwrap().seconds,
        ),
        e.rental_expiry is None ==> spec_entitlement(e).rental_expiry is None,
{
}

impl Entitlement {
    /// Decode one backend record.
    pub fn from_proto(e: &EntitlementRecord) -> (r: Entitlement)
        ensures
            r == spec_entitlement(*e),
            r.urn == e.urn,
            r.class_guid == e.entity_class_guid,
            r.geid == e.entity_geid,
    {
        let (stack_size, real_money) = match e.metadata {
            Some(m) => (m.stack_size, m.real_money),
            None => (0, false),
        };
        let rental_expiry = match e.rental_expiry {
            Some(t) => Some(t.seconds),
            None => None,
        };
        Entitlement {
            urn: e.urn.clone(),
            source: EntitlementSource::from_i32(e.source_type),
            status: EntitlementStatus::from_i32(e.status),
            class_guid: e.entity_class_guid.clone(),
            geid: e.entity_geid,
            stack_size,
            real_money,
            rental_expiry,
        }
    }
}

/// The entitlements a sequence of records describes, in order.
pub open spec fn spec_entitlements(records: Seq<EntitlementRecord>) -> Seq<Entitlement> {
    records.map_values(|e: EntitlementRecord| spec_entitlement(e))
}

/// The ledger read so far from the entitlement stream: the concatenation of
/// the streamed pages.
pub struct EntitlementLedger {
    out: Vec<Entitlement>,
}

impl EntitlementLedger {
    /// The entitlements collected so far, in stream order.
    pub closed spec fn collected(&self) -> Seq<Entitlement> {
        self.out@
    }

    /// An empty ledger.
    pub fn new() -> (r: EntitlementLedger)
        ensures
            r.collected() == Seq::<Entitlement>::empty(),
    {
        EntitlementLedger { out: Vec::new() }
    }

    /// Append the entitlements of one streamed page.
    pub fn take_page(&mut self, results: &Vec<EntitlementRecord>)
        ensures
            final(self).collected() == old(self).collected() + spec_entitlements(results@),
    {
        let ghost before = self.out@;
        let mut i: usize = 0;
        while i < results.len()
            invariant
                i <= results@.len(),
                self.out@ == before + spec_entitlements(results@.subrange(0, i as int)),
            decreases results@.len() - i,
        {
            let e = Entitlement::from_proto(&results[i]);
            self.out.push(e);
            assert(spec_entitlements(results@.subrange(0, i + 1)) =~= spec_entitlements(
                results@.subrange(0, i as int),
            ).push(spec_entitlement(results@[i as int])));
            i = i + 1;
        }
        assert(results@.subrange(0, results@.len() as int) =~= results@);
    }

    /// Every entitlement collected, in stream order.
    pub fn finish(self) -> (r: Vec<Entitlement>)
        ensures
            r@ == self.collected(),
    {
        self.out
    }
}

} // verus!
