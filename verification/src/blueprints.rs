//! Owned blueprints: the public [`Blueprint`] type, its decoding from the
//! backend's entries, and the paginated walk that collects them. Returns raw
//! IDs; GUID→name resolution is the consumer's responsibility.

use vstd::prelude::*;

use crate::pagination::{PageArgs, PageInfo, Timestamp, next_cursor, spec_next_cursor};
use crate::text::opt_view;

verus! {

/// Page size for the blueprint cursor. Never 100: the backend silently drops
/// entries and mis-reports `has_next_page` at exactly 100. Always walk the
/// cursor.
pub const BLUEPRINT_PAGE_SIZE: u32 = 50;

/// Where a blueprint came from. `Unknown` carries any future/unrecognised value.
#[derive(Debug, Clone, Copy, PartialEq, Eq, Structural)]
pub enum BlueprintSource {
    /// `BLUEPRINT_SOURCE_UNSPECIFIED` (0).
    Unspecified,
    /// `BLUEPRINT_SOURCE_GAMEPLAY` (1).
    Gameplay,
    /// `BLUEPRINT_SOURCE_PLATFORM` (2).
    Platform,
    /// A value not in the known schema.
    Unknown(i32),
}

/// The blueprint source a wire value names.
pub open spec fn spec_blueprint_source(v: i32) -> BlueprintSource {
    if v == 0 {
        BlueprintSource::Unspecified
    } else if v == 1 {
        BlueprintSource::Gameplay
    } else if v == 2 {
        BlueprintSource::Platform
    } else {
        BlueprintSource::Unknown(v)
    }
}

/// Decoding loses nothing: distinct wire values decode to distinct BlueprintSource
/// values, so every unknown value is carried as it came.
pub proof fn law_blueprint_source_decoding_is_injective(a: i32, b: i32)
    ensures
        spec_blueprint_source(a) == spec_blueprint_source(b) ==> a == b,
{
}

/// The blueprint source codes of the schema: 0 is unspecified, 1 gameplay, 2
/// platform, and every other value is carried as unknown.
pub proof fn law_blueprint_source_codes(v: i32)
    ensures
        spec_blueprint_source(0) == BlueprintSource::Unspecified,
        spec_blueprint_source(1) == BlueprintSource::Gameplay,
        spec_blueprint_source(2) == BlueprintSource::Platform,
        !(0 <= v <= 2) ==> spec_blueprint_source(v) == BlueprintSource::Unknown(v),
        spec_blueprint_source(v) is Unknown <==> !(0 <= v <= 2),
{
}

impl BlueprintSource {
    /// Decode the wire value.
    pub fn from_i32(v: i32) -> (r: BlueprintSource)
        ensures
            r == spec_blueprint_source(v),
    {
        match v {
            0 => BlueprintSource::Unspecified,
            1 => BlueprintSource::Gameplay,
            2 => BlueprintSource::Platform,
            other => BlueprintSource::Unknown(other),
        }
    }
}

/// The crafting process a blueprint drives. `Unknown` carries any future value.
#[derive(Debug, Clone, Copy, PartialEq, Eq, Structural)]
pub enum BlueprintProcessType {
    /// `..._UNSPECIFIED` (0).
    Unspecified,
    /// `..._CREATE` (1).
    Create,
    /// `..._REFINE` (2).
    Refine,
    /// `..._REPAIR` (3).
    Repair,
    /// `..._UPGRADE` (4).
    Upgrade,
    /// `..._DISMANTLE` (5).
    Dismantle,
    /// `..._RESEARCH` (6).
    Research,
    /// A value not in the known schema.
    Unknown(i32),
}

/// The process type a wire value names.
pub open spec fn spec_process_type(v: i32) -> BlueprintProcessType {
    if v == 0 {
        BlueprintProcessType::Unspecified
    } else if v == 1 {
        BlueprintProcessType::Create
    } else if v == 2 {
        BlueprintProcessType::Refine
    } else if v == 3 {
        BlueprintProcessType::Repair
    } else if v == 4 {
        BlueprintProcessType::Upgrade
    } else if v == 5 {
        BlueprintProcessType::Dismantle
    } else if v == 6 {
        BlueprintProcessType::Research
    } else {
        BlueprintProcessType::Unknown(v)
    }
}

/// Decoding loses nothing: distinct wire values decode to distinct BlueprintProcessType
/// values, so every unknown value is carried as it came.
pub proof fn law_blueprint_process_type_decoding_is_injective(a: i32, b: i32)
    ensures
        spec_process_type(a) == spec_process_type(b) ==> a == b,
{
}

/// The process-type codes of the schema: 0 unspecified, 1 create, 2 refine,
/// 3 repair, 4 upgrade, 5 dismantle, 6 research, and every other value is
/// carried as unknown.
pub proof fn law_process_type_codes(v: i32)
    ensures
        spec_process_type(0) == BlueprintProcessType::Unspecified,
        spec_process_type(1) == BlueprintProcessType::Create,
        spec_process_type(2) == BlueprintProcessType::Refine,
        spec_process_type(3) == BlueprintProcessType::Repair,
        spec_process_type(4) == BlueprintProcessType::Upgrade,
        spec_process_type(5) == BlueprintProcessType::Dismantle,
        spec_process_type(6) == BlueprintProcessType::Research,
        !(0 <= v <= 6) ==> spec_process_type(v) == BlueprintProcessType::Unknown(v),
        spec_process_type(v) is Unknown <==> !(0 <= v <= 6),
{
}

impl BlueprintProcessType {
    /// Decode the wire value.
    pub fn from_i32(v: i32) -> (r: BlueprintProcessType)
        ensures
            r == spec_process_type(v),
    {
        match v {
            0 => BlueprintProcessType::Unspecified,
            1 => BlueprintProcessType::Create,
            2 => BlueprintProcessType::Refine,
            3 => BlueprintProcessType::Repair,
            4 => BlueprintProcessType::Upgrade,
            5 => BlueprintProcessType::Dismantle,
            6 => BlueprintProcessType::Research,
            other => BlueprintProcessType::Unknown(other),
        }
    }
}

/// One blueprint entry as the backend sends it.
#[derive(Debug, Clone)]
pub struct BlueprintEntry {
    /// The blueprint record id.
    pub blueprint_id: String,
    /// The blueprint's category id.
    pub category_id: String,
    /// The crafted item class id.
    pub item_class_id: String,
    /// Blueprint tier.
    pub tier: u32,
    /// Remaining uses; `-1` means unlimited.
    pub remaining_uses: i32,
    /// Wire value of the source.
    pub source: i32,
    /// Wire value of the process type.
    pub process_type: i32,
    /// Last-used time, if set.
    pub last_used_at: Option<Timestamp>,
}

/// One owned blueprint as reported by the backend. IDs are GUIDs.
#[derive(Debug, Clone, PartialEq, Eq)]
pub struct Blueprint {
    /// The blueprint record id.
    pub blueprint_id: String,
    /// The blueprint's category id.
    pub category_id: String,
    /// The crafted item class id.
    pub item_class_id: String,
    /// Blueprint tier.
    pub tier: u32,
    /// Remaining uses; **`-1` means unlimited**.
    pub remaining_uses: i32,
    /// Where the blueprint came from.
    pub source: BlueprintSource,
    /// The crafting process this blueprint drives.
    pub process_type: BlueprintProcessType,
    /// Last-used time as Unix seconds, or `None` if never used / unset.
    pub last_used_at: Option<i64>,
}

/// Unix seconds of a timestamp; a zero or absent timestamp counts as unset.
pub open spec fn spec_last_used(t: Option<Timestamp>) -> Option<i64> {
    match t {
        Some(t) => if t.seconds != 0 {
            Some(t.seconds)
        } else {
            None
        },
        None => None,
    }
}

/// The blueprint an entry describes.
pub open spec fn spec_blueprint(e: BlueprintEntry) -> Blueprint {
    Blueprint {
        blueprint_id: e.blueprint_id,
        category_id: e.category_id,
        item_class_id: e.item_class_id,
        tier: e.tier,
        remaining_uses: e.remaining_uses,
        source: spec_blueprint_source(e.source),
        process_type: spec_process_type(e.process_type),
        last_used_at: spec_last_used(e.last_used_at),
    }
}

/// Decoding an entry keeps each field from its own wire field: the three ids,
/// the tier and the remaining uses unchanged; the source and process type
/// decoded from their codes; and the last-used time as the timestamp's
/// seconds, unless it is absent or zero.
pub proof fn law_blueprint_keeps_entry_fields(e: BlueprintEntry)
    ensures
        spec_blueprint(e).blueprint_id == e.blueprint_id,
        spec_blueprint(e).category_id == e.category_id,
        spec_blueprint(e).item_class_id == e.item_class_id,
        spec_blueprint(e).tier == e.tier,
        spec_blueprint(e).remaining_uses == e.remaining_uses,
        spec_blueprint(e).source == spec_blueprint_source(e.source),
        spec_blueprint(e).process_type == spec_process_type(e.process_type),
        (e.last_used_at matches Some(t) && t.seconds != 0) ==> spec_blueprint(e).last_used_at
            == Some(e.last_used_at.unwrap().seconds),
        !(e.last_used_at matches Some(t) && t.seconds != 0) ==> spec_blueprint(e).last_used_at
            is None,
{
}

impl Blueprint {
    /// Decode one backend entry.
    pub fn from_proto(e: &BlueprintEntry) -> (r: Blueprint)
        ensures
            r == spec_blueprint(*e),
            r.blueprint_id == e.blueprint_id,
            r.category_id == e.category_id,
            r.item_class_id == e.item_class_id,
            r.tier == e.tier,
            r.remaining_uses == e.remaining_uses,
    {
        let last_used_at = match e.last_used_at {
            Some(t) => if t.seconds != 0 {
                Some(t.seconds)
            } else {
                None
            },
            None => None,
        };
        Blueprint {
            blueprint_id: e.blueprint_id.clone(),
            category_id: e.category_id.clone(),
            item_class_id: e.item_class_id.clone(),
            tier: e.tier,
            remaining_uses: e.remaining_uses,
            source: BlueprintSource::from_i32(e.source),
            process_type: BlueprintProcessType::from_i32(e.process_type),
            last_used_at,
        }
    }
}

/// One page of the blueprint query's reply.
pub struct BlueprintPage {
    /// The entries on this page.
    pub results: Vec<BlueprintEntry>,
    /// Cursor information, if any.
    pub page_info: Option<PageInfo>,
}

/// The blueprints a sequence of entries describes, in order.
pub open spec fn spec_blueprints(entries: Seq<BlueprintEntry>) -> Seq<Blueprint> {
    entries.map_values(|e: BlueprintEntry| spec_blueprint(e))
}

/// The walk over every owned blueprint: ask for a page, take the reply, and
/// repeat while the backend reports a further page under a non-empty cursor.
pub struct OwnedBlueprints {
    after: String,
    out: Vec<Blueprint>,
}

impl OwnedBlueprints {
    /// The cursor the next request continues after.
    pub closed spec fn cursor(&self) -> Seq<char> {
        self.after@
    }

    /// The blueprints collected so far, in page order.
    pub closed spec fn collected(&self) -> Seq<Blueprint> {
        self.out@
    }

    /// A walk that starts at the first page and has collected nothing.
    pub fn new() -> (r: OwnedBlueprints)
        ensures
            r.cursor() == Seq::<char>::empty(),
            r.collected() == Seq::<Blueprint>::empty(),
    {
        OwnedBlueprints { after: String::new(), out: Vec::new() }
    }

    /// The pagination arguments of the next request.
    pub fn request(&self) -> (r: PageArgs)
        ensures
            r.first == BLUEPRINT_PAGE_SIZE,
            r.after@ == self.cursor(),
    {
        PageArgs { first: BLUEPRINT_PAGE_SIZE, after: self.after.clone() }
    }

    /// Take the reply to the last request: append its blueprints, and return
    /// whether another page must be fetched (then after the page's cursor).
    pub fn take_page(&mut self, page: &BlueprintPage) -> (more: bool)
        ensures
            final(self).collected() == old(self).collected() + spec_blueprints(page.results@),
            more == spec_next_cursor(page.page_info) is Some,
            more ==> final(self).cursor() == spec_next_cursor(page.page_info).unwrap(),
    {
        let ghost before = self.out@;
        let mut i: usize = 0;
        while i < page.results.len()
            invariant
                i <= page.results@.len(),
                self.out@ == before + spec_blueprints(page.results@.subrange(0, i as int)),
            decreases page.results@.len() - i,
        {
            let b = Blueprint::from_proto(&page.results[i]);
            self.out.push(b);
            assert(spec_blueprints(page.results@.subrange(0, i + 1)) =~= spec_blueprints(
                page.results@.subrange(0, i as int),
            ).push(spec_blueprint(page.results@[i as int])));
            i = i + 1;
        }
        assert(page.results@.subrange(0, page.results@.len() as int) =~= page.results@);
        match next_cursor(&page.page_info) {
            Some(c) => {
                self.after = c;
                true
            },
            None => false,
        }
    }

    /// Every blueprint collected, in page order.
    pub fn finish(self) -> (r: Vec<Blueprint>)
        ensures
            r@ == self.collected(),
    {
        self.out
    }
}

} // verus!
