//! Stowed items and inventories: the public [`Item`] / [`Inventory`] types —
//! every stowed entity, each tagged with its [`Location`] — their decoding
//! from the entity graph, and the paged, de-duplicating walk over one
//! inventory after another. Returns raw IDs; CRC→name resolution is the
//! consumer's (see [`Item::class_crc`], [`Context`]).

use vstd::prelude::*;

use std::collections::{HashMap, HashSet};

use crate::pagination::{PageArgs, PageInfo, next_cursor, spec_next_cursor};
use crate::text::{decimal, decimal_string, opt_view, str_eq};

verus! {

broadcast use vstd::std_specs::hash::group_hash_axioms;

/// Inventory page size for the entity-graph cursor.
pub const ITEM_PAGE_SIZE: u32 = 250;

/// `name_crc` of the snapshot variable carrying the resource descriptor (cargo
/// only). See [`decode_resource`].
pub const RESOURCE_DESCRIPTOR_CRC: u32 = 4185637390;

/// Where an item or inventory lives. `Location`/`Hangar` carry a place-GUID CRC
/// (→ holotable `StarMapObject` by CRC); `Container` carries a ship geid.
#[derive(Debug, PartialEq, Eq)]
pub enum Context {
    /// The character's personal inventory (`"PlayerInventory"`).
    Player,
    /// Bound to an entitlement (`"Entitlement"`).
    Entitlement,
    /// A world location; the `u32` is a place-GUID CRC (`"Location"`).
    Location(u32),
    /// A hangar; the `u32` is a place-GUID CRC (`"Hangar"`).
    Hangar(u32),
    /// Inside a ship/container; the `u64` is the container's geid (`"Container"`).
    Container(u64),
    /// Any other / future context kind, carrying the raw `context` string.
    Other(String),
}

impl Clone for Context {
    fn clone(&self) -> (r: Self)
        ensures
            r == *self,
    {
        match self {
            Context::Player => Context::Player,
            Context::Entitlement => Context::Entitlement,
            Context::Location(c) => Context::Location(*c),
            Context::Hangar(c) => Context::Hangar(*c),
            Context::Container(g) => Context::Container(*g),
            Context::Other(s) => Context::Other(s.clone()),
        }
    }
}

/// The context an inventory node's `context` string, subject id and owner id
/// denote. `Location`/`Hangar` keep the low 32 bits of the subject id;
/// `Container` takes the owner id (the ship geid).
pub open spec fn is_context_of(r: Context, context: Seq<char>, subject_id: u64, owner_id: u64) -> bool {
    if context == "PlayerInventory"@ {
        r == Context::Player
    } else if context == "Entitlement"@ {
        r == Context::Entitlement
    } else if context == "Location"@ {
        r == Context::Location(subject_id as u32)
    } else if context == "Hangar"@ {
        r == Context::Hangar(subject_id as u32)
    } else if context == "Container"@ {
        r == Context::Container(owner_id)
    } else {
        r matches Context::Other(s) && s@ == context
    }
}

/// The known context kinds and what they carry: `"PlayerInventory"` is the
/// player, `"Entitlement"` an entitlement, `"Location"` and `"Hangar"` carry
/// the low 32 bits of the subject id, `"Container"` carries the owner id (the
/// ship geid, not the subject id); any other kind is kept as its text.
pub proof fn law_context_kinds(r: Context, context: Seq<char>, subject_id: u64, owner_id: u64)
    requires
        is_context_of(r, context, subject_id, owner_id),
    ensures
        context == "PlayerInventory"@ ==> r == Context::Player,
        context == "Entitlement"@ ==> r == Context::Entitlement,
        context == "Location"@ ==> r == Context::Location((subject_id % 0x1_0000_0000) as u32),
        context == "Hangar"@ ==> r == Context::Hangar((subject_id % 0x1_0000_0000) as u32),
        context == "Container"@ ==> r == Context::Container(owner_id),
        r matches Context::Other(s) ==> s@ == context,
        (r is Other) == !(context == "PlayerInventory"@ || context == "Entitlement"@ || context
            == "Location"@ || context == "Hangar"@ || context == "Container"@),
{
    assert((subject_id % 0x1_0000_0000) as u32 == subject_id as u32) by (bit_vector);
    reveal_strlit("PlayerInventory");
    reveal_strlit("Entitlement");
    reveal_strlit("Location");
    reveal_strlit("Hangar");
    reveal_strlit("Container");
    assert("PlayerInventory"@.len() == 15);
    assert("Entitlement"@.len() == 11);
    assert("Location"@.len() == 8);
    assert("Hangar"@.len() == 6);
    assert("Container"@.len() == 9);
}

impl Context {
    /// Classify an inventory node's `context` string. `"Container"` takes the
    /// ship geid from `owner_id`, not `subject_id`.
    pub fn from_inventory(context: &str, subject_id: u64, owner_id: u64) -> (r: Context)
        ensures
            is_context_of(r, context@, subject_id, owner_id),
    {
        if str_eq(context, "PlayerInventory") {
            Context::Player
        } else if str_eq(context, "Entitlement") {
            Context::Entitlement
        } else if str_eq(context, "Location") {
            Context::Location(subject_id as u32)
        } else if str_eq(context, "Hangar") {
            Context::Hangar(subject_id as u32)
        } else if str_eq(context, "Container") {
            Context::Container(owner_id)
        } else {
            Context::Other(context.to_owned())
        }
    }
}

/// Where a stowed item sits: the owning inventory's id plus its [`Context`].
#[derive(Debug, PartialEq, Eq)]
pub struct Location {
    /// The inventory's unique id (the entity-graph sharding key).
    pub inventory_id: String,
    /// The kind of place the inventory represents.
    pub context: Context,
}

impl Clone for Location {
    fn clone(&self) -> (r: Self)
        ensures
            r == *self,
    {
        Location { inventory_id: self.inventory_id.clone(), context: self.context.clone() }
    }
}

/// Material overlay for a cargo item. Only present on resource/material stacks.
#[derive(Debug, Clone, Copy, PartialEq, Eq, Structural)]
pub struct Resource {
    /// Resource-type id (→ holotable `ResourceType` by CRC).
    pub resource_id: u32,
    /// Quality, `0..=1000`.
    pub quality: u16,
    /// Quantity in millionths of an SCU (standard cargo unit).
    pub micro_scu: u32,
}

/// One stowed item (a single entity instance), tagged with its [`Location`].
#[derive(Debug, Clone, PartialEq, Eq)]
pub struct Item {
    /// Instance id (global entity id).
    pub geid: u64,
    /// Item-class GUID CRC (→ holotable item name by CRC).
    pub class_crc: u32,
    /// `EItemType` index — cheap pre-holotable filter (Cargo=16, WeaponGun=187).
    pub item_type_enum: i32,
    /// Where this item is stowed.
    pub location: Location,
    /// Quantity for discrete/stackable items (always at least 1).
    pub stack_size: u32,
    /// The entitlement URN this instance is bound to, if any.
    pub parent_urn: Option<String>,
    /// Material overlay, for cargo/resource stacks only.
    pub resource: Option<Resource>,
}

/// The kind of an inventory container.
#[derive(Debug, Clone, Copy, PartialEq, Eq, Structural)]
pub enum InventoryType {
    /// `..._INFINITE` (1) — infinite "bag of holding".
    Infinite,
    /// `..._PHYSICAL` (2) — has a volumetric capacity.
    Physical,
    /// A value not in the known schema.
    Unknown(i32),
}

/// The inventory type a wire value names.
pub open spec fn spec_inventory_type(v: i32) -> InventoryType {
    if v == 1 {
        InventoryType::Infinite
    } else if v == 2 {
        InventoryType::Physical
    } else {
        InventoryType::Unknown(v)
    }
}

/// Decoding loses nothing: distinct wire values decode to distinct InventoryType
/// values, so every unknown value is carried as it came.
pub proof fn law_inventory_type_decoding_is_injective(a: i32, b: i32)
    ensures
        spec_inventory_type(a) == spec_inventory_type(b) ==> a == b,
{
}

/// The inventory type codes of the schema: 1 infinite, 2 physical; every
/// other value is carried as unknown.
pub proof fn law_inventory_type_codes(v: i32)
    ensures
        spec_inventory_type(1) == InventoryType::Infinite,
        spec_inventory_type(2) == InventoryType::Physical,
        !(1 <= v <= 2) ==> spec_inventory_type(v) == InventoryType::Unknown(v),
        spec_inventory_type(v) is Unknown <==> !(1 <= v <= 2),
{
}

impl InventoryType {
    /// Decode the wire value.
    pub fn from_i32(v: i32) -> (r: InventoryType)
        ensures
            r == spec_inventory_type(v),
    {
        match v {
            1 => InventoryType::Infinite,
            2 => InventoryType::Physical,
            other => InventoryType::Unknown(other),
        }
    }
}

/// An inventory container (including empty ones), with type and capacity.
#[derive(Debug, Clone, PartialEq, Eq)]
pub struct Inventory {
    /// Where this inventory lives.
    pub location: Location,
    /// The legal owner's id (e.g. the ship geid for a container).
    pub owner_id: u64,
    /// The inventory kind (infinite / physical).
    pub inventory_type: InventoryType,
    /// Volumetric capacity, for physical inventories only.
    pub capacity: Option<i32>,
    /// Current volumetric occupancy, for physical inventories only.
    pub occupancy: Option<i32>,
}

// ── Entity-graph records as the backend sends them ──────────────────────────

/// The configuration of a physical inventory.
#[derive(Debug, Clone, Copy, PartialEq, Eq, Structural)]
pub struct PhysicalConfiguration {
    /// Volumetric capacity.
    pub capacity: i32,
    /// Current volumetric occupancy.
    pub occupancy: i32,
}

/// An inventory's configuration message; its one kind is physical.
#[derive(Debug, Clone, Copy, PartialEq, Eq, Structural)]
pub struct InventoryConfiguration {
    /// The physical configuration, if set.
    pub physical: Option<PhysicalConfiguration>,
}

/// The properties of an inventory node.
#[derive(Debug, Clone)]
pub struct InventoryNode {
    /// The inventory's unique id.
    pub id: String,
    /// The context kind, e.g. `"PlayerInventory"`.
    pub context: String,
    /// The subject id (a place-GUID CRC for locations and hangars).
    pub subject_id: u64,
    /// The legal owner's id.
    pub owner_id: u64,
    /// Wire value of the inventory type.
    pub inventory_type: i32,
    /// The configuration, if any.
    pub configuration: Option<InventoryConfiguration>,
}

/// The properties of an entity node.
#[derive(Debug, Clone)]
pub struct EntityNode {
    /// Global entity id.
    pub geid: u64,
    /// Item-class GUID CRC.
    pub class_guid_crc: u32,
    /// `EItemType` index.
    pub item_type_enum: i32,
    /// Stack size; 0 when unset.
    pub stack_size: u32,
    /// The bound entitlement URN; empty when none.
    pub parent_urn: String,
}

/// The properties a graph node carries.
#[derive(Debug, Clone)]
pub enum NodeProperties {
    /// An inventory.
    Inventory(InventoryNode),
    /// An entity.
    Entity(EntityNode),
}

/// A node of the entity graph.
#[derive(Debug, Clone)]
pub struct GraphNode {
    /// The node's properties, if set.
    pub properties: Option<NodeProperties>,
}

/// One variable of an entity snapshot.
#[derive(Debug, Clone)]
pub struct EntityVariable {
    /// CRC of the variable's name.
    pub name_crc: u32,
    /// The variable's type tag.
    pub var_type: i32,
    /// The variable's flags.
    pub flags: u32,
    /// The variable's raw bytes.
    pub snapshot: Vec<u8>,
}

/// A snapshot of one entity's variables.
#[derive(Debug, Clone)]
pub struct EntitySnapshot {
    /// The entity's geid.
    pub entity_id: u64,
    /// The snapshot variables.
    pub variables: Vec<EntityVariable>,
    /// The snapshot version.
    pub version: u32,
}

/// One page of the entity query's reply.
pub struct EntityQueryPage {
    /// The per-entity snapshots of this page.
    pub snapshots: Vec<EntitySnapshot>,
    /// The result graph's nodes, if there is a result graph.
    pub nodes: Option<Vec<GraphNode>>,
    /// Cursor information, if any.
    pub page_info: Option<PageInfo>,
}

// ── Decoding ────────────────────────────────────────────────────────────────

/// The location of an inventory node.
pub open spec fn is_location_of(l: Location, p: InventoryNode) -> bool {
    l.inventory_id == p.id && is_context_of(l.context, p.context@, p.subject_id, p.owner_id)
}

impl Location {
    /// The location of an inventory node: its id and classified context.
    pub fn of_inventory(p: &InventoryNode) -> (r: Location)
        ensures
            is_location_of(r, *p),
    {
        Location {
            inventory_id: p.id.clone(),
            context: Context::from_inventory(p.context.as_str(), p.subject_id, p.owner_id),
        }
    }
}

/// The inventory an inventory node describes; capacity and occupancy come
/// only with a physical configuration.
pub open spec fn is_inventory_of(r: Inventory, p: InventoryNode) -> bool {
    let phys = match p.configuration {
        Some(c) => c.physical,
        None => None,
    };
    &&& is_location_of(r.location, p)
    &&& r.owner_id == p.owner_id
    &&& r.inventory_type == spec_inventory_type(p.inventory_type)
    &&& r.capacity == match phys {
        Some(ph) => Some(ph.capacity),
        None => None,
    }
    &&& r.occupancy == match phys {
        Some(ph) => Some(ph.occupancy),
        None => None,
    }
}

/// The inventory of a node keeps the node's fields: its id and classified
/// context as location, its owner, its decoded type; capacity and occupancy
/// exactly when it has a physical configuration.
pub proof fn law_inventory_keeps_node_fields(r: Inventory, p: InventoryNode)
    requires
        is_inventory_of(r, p),
    ensures
        r.location.inventory_id == p.id,
        is_context_of(r.location.context, p.context@, p.subject_id, p.owner_id),
        r.owner_id == p.owner_id,
        r.inventory_type == spec_inventory_type(p.inventory_type),
        (p.configuration is Some && p.configuration.unwrap().physical is Some) ==> (r.capacity
            == Some(p.configuration.unwrap().physical.unwrap().capacity) && r.occupancy == Some(
            p.configuration.unwrap().physical.unwrap().occupancy,
        )),
        !(p.configuration is Some && p.configuration.unwrap().physical is Some) ==> (r.capacity
            is None && r.occupancy is None),
{
}

impl Inventory {
    /// Decode one inventory node.
    pub fn from_proto(p: &InventoryNode) -> (r: Inventory)
        ensures
            is_inventory_of(r, *p),
    {
        let phys = match p.configuration {
            Some(c) => c.physical,
            None => None,
        };
        let (capacity, occupancy) = match phys {
            Some(ph) => (Some(ph.capacity), Some(ph.occupancy)),
            None => (None, None),
        };
        Inventory {
            location: Location::of_inventory(p),
            owner_id: p.owner_id,
            inventory_type: InventoryType::from_i32(p.inventory_type),
            capacity,
            occupancy,
        }
    }
}

/// The inventory nodes among graph nodes, in order.
pub open spec fn spec_inventory_nodes(nodes: Seq<GraphNode>) -> Seq<InventoryNode>
    decreases nodes.len(),
{
    if nodes.len() == 0 {
        Seq::empty()
    } else {
        let prev = spec_inventory_nodes(nodes.drop_last());
        match nodes.last().properties {
            Some(NodeProperties::Inventory(p)) => prev.push(p),
            _ => prev,
        }
    }
}

/// The inventory a node carries, if it is an inventory node.
pub open spec fn node_inventory(n: GraphNode) -> Option<InventoryNode> {
    match n.properties {
        Some(NodeProperties::Inventory(p)) => Some(p),
        _ => None,
    }
}

/// The inventory nodes kept from a reply are exactly its inventory-typed
/// nodes, every one of them, in order, and nothing else: a filter-map of the
/// nodes by their inventory properties. A reply made only of inventory nodes
/// is kept whole.
pub proof fn law_inventory_nodes_keeps_every_inventory(nodes: Seq<GraphNode>)
    ensures
        spec_inventory_nodes(nodes) == nodes.filter_map(|n: GraphNode| node_inventory(n)),
        (forall|k: int| 0 <= k < nodes.len() ==> (#[trigger] nodes[k]).properties matches Some(
            NodeProperties::Inventory(_),
        )) ==> spec_inventory_nodes(nodes).len() == nodes.len() && forall|k: int|
            0 <= k < nodes.len() ==> Some(#[trigger] spec_inventory_nodes(nodes)[k])
                == node_inventory(nodes[k]),
    decreases nodes.len(),
{
    let f = |n: GraphNode| node_inventory(n);
    if nodes.len() > 0 {
        law_inventory_nodes_keeps_every_inventory(nodes.drop_last());
        match node_inventory(nodes.last()) {
            Some(p) => {
                assert(spec_inventory_nodes(nodes) =~= nodes.drop_last().filter_map(f) + seq![p]);
            },
            None => {},
        }
        if forall|k: int| 0 <= k < nodes.len() ==> (#[trigger] nodes[k]).properties matches Some(
            NodeProperties::Inventory(_),
        ) {
            let d = nodes.drop_last();
            assert forall|k: int| 0 <= k < d.len() implies (#[trigger] d[k]).properties matches Some(
                NodeProperties::Inventory(_),
            ) by {
                assert(d[k] == nodes[k]);
            }
            assert(nodes[nodes.len() - 1].properties matches Some(NodeProperties::Inventory(_)));
            assert forall|k: int| 0 <= k < nodes.len() implies Some(
                #[trigger] spec_inventory_nodes(nodes)[k],
            ) == node_inventory(nodes[k]) by {
                if k < nodes.len() - 1 {
                    assert(d[k] == nodes[k]);
                    assert(Some(spec_inventory_nodes(d)[k]) == node_inventory(d[k]));
                }
            }
        }
    }
}

/// Keep the inventory-typed nodes of a `GetInventories` reply, in order.
pub fn inventory_nodes(nodes: Vec<GraphNode>) -> (r: Vec<InventoryNode>)
    ensures
        r@ == spec_inventory_nodes(nodes@),
        r@ == nodes@.filter_map(|n: GraphNode| node_inventory(n)),
{
    let mut out: Vec<InventoryNode> = Vec::new();
    let mut i: usize = 0;
    while i < nodes.len()
        invariant
            i <= nodes@.len(),
            out@ == spec_inventory_nodes(nodes@.subrange(0, i as int)),
        decreases nodes@.len() - i,
    {
        assert(nodes@.subrange(0, i + 1).drop_last() =~= nodes@.subrange(0, i as int));
        match &nodes[i].properties {
            Some(NodeProperties::Inventory(p)) => out.push(p.clone_node()),
            _ => {},
        }
        i = i + 1;
    }
    assert(nodes@.subrange(0, nodes@.len() as int) =~= nodes@);
    proof {
        law_inventory_nodes_keeps_every_inventory(nodes@);
    }
    out
}

impl InventoryNode {
    /// A copy of this node.
    pub fn clone_node(&self) -> (r: InventoryNode)
        ensures
            r == *self,
    {
        InventoryNode {
            id: self.id.clone(),
            context: self.context.clone(),
            subject_id: self.subject_id,
            owner_id: self.owner_id,
            inventory_type: self.inventory_type,
            configuration: self.configuration,
        }
    }
}

/// The inventories of a sequence of inventory nodes, one for one.
pub fn inventories_of(nodes: &Vec<InventoryNode>) -> (r: Vec<Inventory>)
    ensures
        r@.len() == nodes@.len(),
        forall|i: int| 0 <= i < nodes@.len() ==> is_inventory_of(#[trigger] r@[i], nodes@[i]),
{
    let mut out: Vec<Inventory> = Vec::new();
    let mut i: usize = 0;
    while i < nodes.len()
        invariant
            i <= nodes@.len(),
            out@.len() == i,
            forall|j: int| 0 <= j < i ==> is_inventory_of(#[trigger] out@[j], nodes@[j]),
        decreases nodes@.len() - i,
    {
        out.push(Inventory::from_proto(&nodes[i]));
        i = i + 1;
    }
    out
}

/// The little-endian value of two bytes.
pub open spec fn le_u16(b0: u8, b1: u8) -> int {
    b0 + 256 * b1
}

/// The little-endian value of four bytes.
pub open spec fn le_u32(b0: u8, b1: u8, b2: u8, b3: u8) -> int {
    b0 + 256 * b1 + 65536 * b2 + 16777216 * b3
}

/// The first snapshot variable named by the resource-descriptor CRC.
pub open spec fn descriptor_var(vars: Seq<EntityVariable>) -> Option<EntityVariable>
    decreases vars.len(),
{
    if vars.len() == 0 {
        None
    } else if vars[0].name_crc == RESOURCE_DESCRIPTOR_CRC {
        Some(vars[0])
    } else {
        descriptor_var(vars.subrange(1, vars.len() as int))
    }
}

/// The resource a descriptor's bytes encode. Layout: `[0]=1` (version) |
/// `[1..5]` u32 LE resource_id | `[5..7]` u16 LE quality | `[7..11]` u32 LE
/// microSCU; shorter, another version, or a quality outside `0..=1000`
/// encodes nothing.
pub open spec fn spec_decode_descriptor(b: Seq<u8>) -> Option<Resource> {
    if b.len() < 11 || b[0] != 1 || le_u16(b[5], b[6]) > MAX_QUALITY {
        None
    } else {
        Some(
            Resource {
                resource_id: le_u32(b[1], b[2], b[3], b[4]) as u32,
                quality: le_u16(b[5], b[6]) as u16,
                micro_scu: le_u32(b[7], b[8], b[9], b[10]) as u32,
            },
        )
    }
}

/// The resource a snapshot carries: its first descriptor variable, decoded.
pub open spec fn spec_decode_resource(s: EntitySnapshot) -> Option<Resource> {
    match descriptor_var(s.variables@) {
        Some(v) => spec_decode_descriptor(v.snapshot@),
        None => None,
    }
}

/// The highest quality a resource can have.
pub const MAX_QUALITY: u16 = 1000;

/// A descriptor decodes exactly when it has at least 11 bytes, version byte 1
/// and a quality of at most 1000; its fields are then the little-endian
/// values at bytes 1..5, 5..7 and 7..11.
pub proof fn law_descriptor_layout(b: Seq<u8>)
    ensures
        spec_decode_descriptor(b) is Some <==> (b.len() >= 11 && b[0] == 1 && b[5] as int + b[6]
            as int * 256 <= 1000),
        spec_decode_descriptor(b) is Some ==> ({
            let r = spec_decode_descriptor(b).unwrap();
            &&& r.resource_id == b[1] as int + b[2] as int * 0x100 + b[3] as int * 0x10000 + b[4]
                as int * 0x1000000
            &&& r.quality == b[5] as int + b[6] as int * 0x100
            &&& r.micro_scu == b[7] as int + b[8] as int * 0x100 + b[9] as int * 0x10000 + b[10]
                as int * 0x1000000
        }),
{
}

/// The descriptor variable of a snapshot is its first variable named by
/// [`RESOURCE_DESCRIPTOR_CRC`]; there is none exactly when no variable has
/// that name.
pub proof fn law_descriptor_var_is_first(vars: Seq<EntityVariable>)
    ensures
        descriptor_var(vars) is None <==> forall|k: int|
            0 <= k < vars.len() ==> (#[trigger] vars[k]).name_crc != RESOURCE_DESCRIPTOR_CRC,
        descriptor_var(vars) is Some ==> exists|k: int|
            0 <= k < vars.len() && descriptor_var(vars) == Some(#[trigger] vars[k])
                && vars[k].name_crc == RESOURCE_DESCRIPTOR_CRC && forall|j: int|
                0 <= j < k ==> (#[trigger] vars[j]).name_crc != RESOURCE_DESCRIPTOR_CRC,
    decreases vars.len(),
{
    if vars.len() > 0 {
        let rest = vars.subrange(1, vars.len() as int);
        law_descriptor_var_is_first(rest);
        if vars[0].name_crc != RESOURCE_DESCRIPTOR_CRC {
            if descriptor_var(rest) is Some {
                let k = choose|k: int|
                    0 <= k < rest.len() && descriptor_var(rest) == Some(#[trigger] rest[k])
                        && rest[k].name_crc == RESOURCE_DESCRIPTOR_CRC && forall|j: int|
                        0 <= j < k ==> (#[trigger] rest[j]).name_crc != RESOURCE_DESCRIPTOR_CRC;
                assert(vars[k + 1] == rest[k]);
                assert forall|j: int| 0 <= j < k + 1 implies (#[trigger] vars[j]).name_crc
                    != RESOURCE_DESCRIPTOR_CRC by {
                    if j > 0 {
                        assert(rest[j - 1] == vars[j]);
                    }
                }
            } else {
                assert forall|k: int| 0 <= k < vars.len() implies (#[trigger] vars[k]).name_crc
                    != RESOURCE_DESCRIPTOR_CRC by {
                    if k > 0 {
                        assert(rest[k - 1] == vars[k]);
                    }
                }
            }
            if exists|k: int| 0 <= k < vars.len() && (#[trigger] vars[k]).name_crc == RESOURCE_DESCRIPTOR_CRC {
                let k = choose|k: int| 0 <= k < vars.len() && (#[trigger] vars[k]).name_crc == RESOURCE_DESCRIPTOR_CRC;
                assert(rest[k - 1] == vars[k]);
            }
        }
    }
}

/// Decode the material/resource descriptor from a snapshot's variables.
/// Absent, shorter than 11 bytes, `version != 1`, or a quality above 1000
/// ⇒ `None`.
pub fn decode_resource(snapshot: &EntitySnapshot) -> (r: Option<Resource>)
    ensures
        r == spec_decode_resource(*snapshot),
        r matches Some(res) ==> res.quality <= MAX_QUALITY,
{
    let vars = &snapshot.variables;
    let mut i: usize = 0;
    assert(vars@.subrange(0, vars@.len() as int) =~= vars@);
    while i < vars.len()
        invariant
            *vars == snapshot.variables,
            i <= vars@.len(),
            descriptor_var(vars@) == descriptor_var(vars@.subrange(i as int, vars@.len() as int)),
        decreases vars@.len() - i,
    {
        let ghost rest = vars@.subrange(i as int, vars@.len() as int);
        assert(rest.subrange(1, rest.len() as int) =~= vars@.subrange(i + 1, vars@.len() as int));
        assert(rest[0] == vars@[i as int]);
        if vars[i].name_crc == RESOURCE_DESCRIPTOR_CRC {
            let b = &vars[i].snapshot;
            if b.len() < 11 || b[0] != 1 {
                return None;
            }
            let resource_id: u32 = b[1] as u32 + 256 * (b[2] as u32) + 65536 * (b[3] as u32)
                + 16777216 * (b[4] as u32);
            let quality: u16 = b[5] as u16 + 256 * (b[6] as u16);
            if quality > MAX_QUALITY {
                return None;
            }
            let micro_scu: u32 = b[7] as u32 + 256 * (b[8] as u32) + 65536 * (b[9] as u32)
                + 16777216 * (b[10] as u32);
            return Some(Resource { resource_id, quality, micro_scu });
        }
        i = i + 1;
    }
    None
}

// ── Items ────────────────────────────────────────────────────────────────────

/// The item an entity node describes at `location`: the stack size is at
/// least 1, and an empty parent URN means none.
pub open spec fn spec_item(e: EntityNode, location: Location, resource: Option<Resource>) -> Item {
    Item {
        geid: e.geid,
        class_crc: e.class_guid_crc,
        item_type_enum: e.item_type_enum,
        location: location,
        stack_size: if e.stack_size >= 1 {
            e.stack_size
        } else {
            1
        },
        parent_urn: if e.parent_urn@.len() > 0 {
            Some(e.parent_urn)
        } else {
            None
        },
        resource: resource,
    }
}

/// The item built from an entity node keeps the node's fields: its geid,
/// class GUID CRC and item type unchanged, the given location and resource,
/// its stack size (an unset 0 counting as 1), and its parent URN unless empty.
pub proof fn law_item_keeps_node_fields(e: EntityNode, location: Location, resource: Option<Resource>)
    ensures
        spec_item(e, location, resource).geid == e.geid,
        spec_item(e, location, resource).class_crc == e.class_guid_crc,
        spec_item(e, location, resource).item_type_enum == e.item_type_enum,
        spec_item(e, location, resource).location == location,
        spec_item(e, location, resource).resource == resource,
        e.stack_size == 0 ==> spec_item(e, location, resource).stack_size == 1,
        e.stack_size != 0 ==> spec_item(e, location, resource).stack_size == e.stack_size,
        e.parent_urn@.len() == 0 ==> spec_item(e, location, resource).parent_urn is None,
        e.parent_urn@.len() != 0 ==> spec_item(e, location, resource).parent_urn == Some(
            e.parent_urn,
        ),
{
}

/// Build the item for an entity node at `location` with its resource overlay.
pub fn item_from_proto(e: &EntityNode, location: &Location, resource: Option<Resource>) -> (r: Item)
    ensures
        r == spec_item(*e, *location, resource),
        r.geid == e.geid,
        r.class_crc == e.class_guid_crc,
        r.item_type_enum == e.item_type_enum,
        r.location == *location,
        r.resource == resource,
        e.stack_size == 0 ==> r.stack_size == 1,
        e.stack_size != 0 ==> r.stack_size == e.stack_size,
{
    Item {
        geid: e.geid,
        class_crc: e.class_guid_crc,
        item_type_enum: e.item_type_enum,
        location: location.clone(),
        stack_size: if e.stack_size >= 1 {
            e.stack_size
        } else {
            1
        },
        parent_urn: if !e.parent_urn.as_str().is_empty() {
            Some(e.parent_urn.clone())
        } else {
            None
        },
        resource,
    }
}

/// The resource a page's snapshots give an entity: the last snapshot of that
/// entity that carries a descriptor.
pub open spec fn spec_page_resource(snaps: Seq<EntitySnapshot>, geid: u64) -> Option<Resource>
    decreases snaps.len(),
{
    if snaps.len() == 0 {
        None
    } else if snaps.last().entity_id == geid && spec_decode_resource(snaps.last()) is Some {
        spec_decode_resource(snaps.last())
    } else {
        spec_page_resource(snaps.drop_last(), geid)
    }
}

/// The resource a page gives an entity is the decoded descriptor of the last
/// snapshot of that entity that carries one; none exactly when no snapshot of
/// that entity carries one.
pub proof fn law_page_resource_is_last(snaps: Seq<EntitySnapshot>, geid: u64)
    ensures
        spec_page_resource(snaps, geid) is None <==> forall|k: int|
            0 <= k < snaps.len() ==> !((#[trigger] snaps[k]).entity_id == geid
                && spec_decode_resource(snaps[k]) is Some),
        spec_page_resource(snaps, geid) is Some ==> exists|k: int|
            0 <= k < snaps.len() && (#[trigger] snaps[k]).entity_id == geid && spec_page_resource(
                snaps,
                geid,
            ) == spec_decode_resource(snaps[k]) && forall|j: int|
                k < j < snaps.len() ==> !((#[trigger] snaps[j]).entity_id == geid
                    && spec_decode_resource(snaps[j]) is Some),
    decreases snaps.len(),
{
    if snaps.len() > 0 {
        let d = snaps.drop_last();
        let n = snaps.len() - 1;
        law_page_resource_is_last(d, geid);
        assert forall|k: int| 0 <= k < d.len() implies #[trigger] d[k] == snaps[k] by {}
        if !(snaps[n].entity_id == geid && spec_decode_resource(snaps[n]) is Some) {
            if spec_page_resource(d, geid) is Some {
                let k = choose|k: int|
                    0 <= k < d.len() && (#[trigger] d[k]).entity_id == geid && spec_page_resource(
                        d,
                        geid,
                    ) == spec_decode_resource(d[k]) && forall|j: int|
                        k < j < d.len() ==> !((#[trigger] d[j]).entity_id == geid
                            && spec_decode_resource(d[j]) is Some);
                assert(snaps[k] == d[k]);
                assert forall|j: int| k < j < snaps.len() implies !((#[trigger] snaps[j]).entity_id
                    == geid && spec_decode_resource(snaps[j]) is Some) by {
                    if j < n {
                        assert(snaps[j] == d[j]);
                    }
                }
            } else {
                assert forall|k: int| 0 <= k < snaps.len() implies !((#[trigger] snaps[k]).entity_id
                    == geid && spec_decode_resource(snaps[k]) is Some) by {
                    if k < n {
                        assert(snaps[k] == d[k]);
                    }
                }
            }
        } else {
            assert(snaps.last() == snaps[n]);
        }
    }
}

/// The geids of a sequence of items.
pub open spec fn geids(items: Seq<Item>) -> Set<u64> {
    items.map_values(|i: Item| i.geid).to_set()
}

/// No two items share a geid.
pub open spec fn distinct_geids(items: Seq<Item>) -> bool {
    forall|i: int, j: int|
        0 <= i < items.len() && 0 <= j < items.len() && i != j ==> #[trigger] items[i].geid
            != #[trigger] items[j].geid
}

/// The items a page's nodes add at `location`, given the geids already
/// collected: each entity node whose geid has not been seen before (earlier
/// pages or earlier on this page), in node order.
pub open spec fn spec_page_items(
    nodes: Seq<GraphNode>,
    seen: Set<u64>,
    location: Location,
    snaps: Seq<EntitySnapshot>,
) -> Seq<Item>
    decreases nodes.len(),
{
    if nodes.len() == 0 {
        Seq::empty()
    } else {
        let prev = spec_page_items(nodes.drop_last(), seen, location, snaps);
        match nodes.last().properties {
            Some(NodeProperties::Entity(e)) => if seen.contains(e.geid) || geids(prev).contains(
                e.geid,
            ) {
                prev
            } else {
                prev.push(spec_item(e, location, spec_page_resource(snaps, e.geid)))
            },
            _ => prev,
        }
    }
}

/// A resource a page's snapshots give has a quality of at most 1000.
proof fn lemma_page_resource_quality(snaps: Seq<EntitySnapshot>, geid: u64)
    ensures
        spec_page_resource(snaps, geid) matches Some(r) ==> r.quality <= MAX_QUALITY,
    decreases snaps.len(),
{
    if snaps.len() > 0 {
        lemma_page_resource_quality(snaps.drop_last(), geid);
    }
}

/// Every item a page adds is new: its geid was not collected before, no two
/// of them share a geid, each sits at the page's location, each has a stack
/// size of at least 1, and any resource on it has a quality of at most 1000.
pub proof fn law_page_items_are_fresh(
    nodes: Seq<GraphNode>,
    seen: Set<u64>,
    location: Location,
    snaps: Seq<EntitySnapshot>,
)
    ensures
        ({
            let items = spec_page_items(nodes, seen, location, snaps);
            &&& distinct_geids(items)
            &&& forall|i: int| 0 <= i < items.len() ==> !seen.contains(#[trigger] items[i].geid)
            &&& forall|i: int| 0 <= i < items.len() ==> (#[trigger] items[i]).location == location
                && items[i].stack_size >= 1
            &&& forall|i: int|
                0 <= i < items.len() ==> ((#[trigger] items[i]).resource matches Some(r)
                    ==> r.quality <= MAX_QUALITY)
        }),
    decreases nodes.len(),
{
    if nodes.len() > 0 {
        let prev = spec_page_items(nodes.drop_last(), seen, location, snaps);
        law_page_items_are_fresh(nodes.drop_last(), seen, location, snaps);
        match nodes.last().properties {
            Some(NodeProperties::Entity(e)) => {
                if !(seen.contains(e.geid) || geids(prev).contains(e.geid)) {
                    lemma_page_resource_quality(snaps, e.geid);
                    let items = prev.push(spec_item(e, location, spec_page_resource(snaps, e.geid)));
                    assert forall|a: int, b: int|
                        0 <= a < items.len() && 0 <= b < items.len() && a != b implies #[trigger] items[a].geid
                            != #[trigger] items[b].geid by {
                        if a == prev.len() {
                            assert(prev.map_values(|i: Item| i.geid)[b] == prev[b].geid);
                        } else if b == prev.len() {
                            assert(prev.map_values(|i: Item| i.geid)[a] == prev[a].geid);
                        }
                    }
                }
            },
            _ => {},
        }
    }
}

/// The entity a node carries, if it is an entity node.
pub open spec fn node_entity(n: GraphNode) -> Option<EntityNode> {
    match n.properties {
        Some(NodeProperties::Entity(e)) => Some(e),
        _ => None,
    }
}

/// The geids of the entity nodes among `nodes`.
pub open spec fn entity_geids(nodes: Seq<GraphNode>) -> Set<u64> {
    Set::new(
        |g: u64|
            exists|k: int|
                0 <= k < nodes.len() && #[trigger] node_entity(nodes[k]) is Some && node_entity(
                    nodes[k],
                ).unwrap().geid == g,
    )
}

proof fn lemma_entity_geids_step(nodes: Seq<GraphNode>)
    requires
        nodes.len() > 0,
    ensures
        entity_geids(nodes) == match node_entity(nodes.last()) {
            Some(e) => entity_geids(nodes.drop_last()).insert(e.geid),
            None => entity_geids(nodes.drop_last()),
        },
{
    let d = nodes.drop_last();
    let target = match node_entity(nodes.last()) {
        Some(e) => entity_geids(d).insert(e.geid),
        None => entity_geids(d),
    };
    assert forall|g: u64| entity_geids(nodes).contains(g) <==> target.contains(g) by {
        if entity_geids(nodes).contains(g) {
            let k = choose|k: int|
                0 <= k < nodes.len() && #[trigger] node_entity(nodes[k]) is Some && node_entity(
                    nodes[k],
                ).unwrap().geid == g;
            if k < nodes.len() - 1 {
                assert(d[k] == nodes[k]);
            }
        }
        if entity_geids(d).contains(g) {
            let k = choose|k: int|
                0 <= k < d.len() && #[trigger] node_entity(d[k]) is Some && node_entity(
                    d[k],
                ).unwrap().geid == g;
            assert(d[k] == nodes[k]);
        }
        if node_entity(nodes.last()) is Some && node_entity(nodes.last()).unwrap().geid == g {
            assert(node_entity(nodes[nodes.len() - 1]) is Some);
        }
    }
    assert(entity_geids(nodes) =~= target);
}

/// `k` is the first node of `nodes` that is an entity with geid `g`.
pub open spec fn first_entity_node(nodes: Seq<GraphNode>, k: int, g: u64) -> bool {
    &&& 0 <= k < nodes.len()
    &&& node_entity(nodes[k]) is Some
    &&& node_entity(nodes[k]).unwrap().geid == g
    &&& forall|j: int|
        0 <= j < k ==> !(node_entity(#[trigger] nodes[j]) is Some && node_entity(nodes[j]).unwrap().geid
            == g)
}

/// `it` is the item of the first entity node of `nodes` with its geid, at
/// `location`, with the resource the page's snapshots give that geid.
pub open spec fn built_from_page(it: Item, nodes: Seq<GraphNode>, location: Location, snaps: Seq<EntitySnapshot>) -> bool {
    exists|k: int|
        #[trigger] first_entity_node(nodes, k, it.geid) && it == spec_item(
            node_entity(nodes[k]).unwrap(),
            location,
            spec_page_resource(snaps, it.geid),
        )
}

proof fn lemma_first_entity_node_extends(nodes: Seq<GraphNode>, k: int, g: u64)
    requires
        nodes.len() > 0,
        first_entity_node(nodes.drop_last(), k, g),
    ensures
        first_entity_node(nodes, k, g),
{
    let d = nodes.drop_last();
    assert(nodes[k] == d[k]);
    assert forall|j: int| 0 <= j < k implies !(node_entity(#[trigger] nodes[j]) is Some
        && node_entity(nodes[j]).unwrap().geid == g) by {
        assert(nodes[j] == d[j]);
    }
}

/// A page is taken completely and faithfully: the geids collected after it
/// are those collected before together with the geids of every entity node
/// on the page; and each item it adds is built from the first entity node of
/// the page with that geid, at the page's location, with the resource the
/// page's snapshots give that geid.
pub proof fn law_page_items_are_complete(
    nodes: Seq<GraphNode>,
    seen: Set<u64>,
    location: Location,
    snaps: Seq<EntitySnapshot>,
)
    ensures
        seen.union(geids(spec_page_items(nodes, seen, location, snaps))) == seen.union(
            entity_geids(nodes),
        ),
        forall|i: int|
            0 <= i < spec_page_items(nodes, seen, location, snaps).len() ==> built_from_page(
                #[trigger] spec_page_items(nodes, seen, location, snaps)[i],
                nodes,
                location,
                snaps,
            ),
    decreases nodes.len(),
{
    let items = spec_page_items(nodes, seen, location, snaps);
    if nodes.len() == 0 {
        assert(items =~= Seq::<Item>::empty());
        assert(geids(items) =~= Set::<u64>::empty()) by {
            assert(items.map_values(|i: Item| i.geid) =~= Seq::<u64>::empty());
        }
        assert(entity_geids(nodes) =~= Set::<u64>::empty());
        assert(seen.union(geids(items)) =~= seen.union(entity_geids(nodes)));
    } else {
        let d = nodes.drop_last();
        let prev = spec_page_items(d, seen, location, snaps);
        law_page_items_are_complete(d, seen, location, snaps);
        lemma_entity_geids_step(nodes);
        let n = nodes.len() - 1;
        assert(nodes.last() == nodes[n]);
        assert forall|i: int| 0 <= i < prev.len() implies built_from_page(
            #[trigger] prev[i],
            nodes,
            location,
            snaps,
        ) by {
            assert(built_from_page(prev[i], d, location, snaps));
            let k = choose|k: int|
                #[trigger] first_entity_node(d, k, prev[i].geid) && prev[i] == spec_item(
                    node_entity(d[k]).unwrap(),
                    location,
                    spec_page_resource(snaps, prev[i].geid),
                );
            lemma_first_entity_node_extends(nodes, k, prev[i].geid);
            assert(nodes[k] == d[k]);
        }
        match node_entity(nodes.last()) {
            Some(e) => {
                if !(seen.contains(e.geid) || geids(prev).contains(e.geid)) {
                    let it = spec_item(e, location, spec_page_resource(snaps, e.geid));
                    lemma_geids_push(prev, it);
                    assert(items == prev.push(it));
                    assert(geids(items) == geids(prev).insert(e.geid));
                    assert(entity_geids(nodes) == entity_geids(d).insert(e.geid));
                    assert forall|x: u64| #[trigger] seen.union(geids(items)).contains(x)
                        == seen.union(entity_geids(nodes)).contains(x) by {
                        assert(seen.union(geids(prev)).contains(x) == seen.union(
                            entity_geids(d),
                        ).contains(x));
                    }
                    assert(seen.union(geids(items)) =~= seen.union(entity_geids(nodes)));
                    assert(first_entity_node(nodes, n, e.geid)) by {
                        assert forall|j: int| 0 <= j < n implies !(node_entity(#[trigger] nodes[j])
                            is Some && node_entity(nodes[j]).unwrap().geid == e.geid) by {
                            assert(nodes[j] == d[j]);
                            if node_entity(d[j]) is Some && node_entity(d[j]).unwrap().geid == e.geid {
                                assert(entity_geids(d).contains(e.geid));
                                assert(seen.union(entity_geids(d)).contains(e.geid));
                                assert(seen.union(geids(prev)).contains(e.geid));
                            }
                        }
                    }
                    assert(built_from_page(it, nodes, location, snaps));
                    assert forall|i: int| 0 <= i < items.len() implies built_from_page(
                        #[trigger] items[i],
                        nodes,
                        location,
                        snaps,
                    ) by {
                        if i < prev.len() {
                            assert(items[i] == prev[i]);
                        }
                    }
                } else {
                    assert(items == prev);
                    assert(seen.union(entity_geids(d)).contains(e.geid));
                    assert(entity_geids(nodes) == entity_geids(d).insert(e.geid));
                    assert forall|x: u64| #[trigger] seen.union(geids(items)).contains(x)
                        == seen.union(entity_geids(nodes)).contains(x) by {
                        assert(seen.union(geids(prev)).contains(x) == seen.union(
                            entity_geids(d),
                        ).contains(x));
                    }
                    assert(seen.union(geids(items)) =~= seen.union(entity_geids(nodes)));
                }
            },
            None => {
                assert(items == prev);
                assert(seen.union(geids(items)) =~= seen.union(entity_geids(nodes)));
            },
        }
    }
}

/// The nodes of a page's result graph; none without a graph.
pub open spec fn page_nodes(page: EntityQueryPage) -> Seq<GraphNode> {
    match page.nodes {
        Some(v) => v@,
        None => Seq::empty(),
    }
}

proof fn lemma_geids_push(items: Seq<Item>, it: Item)
    ensures
        geids(items.push(it)) == geids(items).insert(it.geid),
{
    let f = |i: Item| i.geid;
    assert(items.push(it).map_values(f) =~= items.map_values(f).push(it.geid));
    assert(geids(items.push(it)) =~= geids(items).insert(it.geid)) by {
        assert forall|g: u64| geids(items.push(it)).contains(g) <==> geids(items).insert(it.geid).contains(g) by {
            if geids(items).contains(g) {
                let k = choose|k: int| 0 <= k < items.map_values(f).len() && items.map_values(f)[k] == g;
                assert(items.push(it).map_values(f)[k] == g);
            }
            if geids(items.push(it)).contains(g) && g != it.geid {
                let k = choose|k: int| 0 <= k < items.push(it).map_values(f).len() && items.push(it).map_values(f)[k] == g;
                assert(items.map_values(f)[k] == g);
            }
            if g == it.geid {
                assert(items.push(it).map_values(f)[items.len() as int] == g);
            }
        }
    }
}

/// The resources a page's snapshots carry, by entity id (later snapshots win).
fn page_resources(snaps: &Vec<EntitySnapshot>) -> (r: HashMap<u64, Resource>)
    ensures
        forall|g: u64| #![trigger r@.contains_key(g)]
            (r@.contains_key(g) <==> spec_page_resource(snaps@, g) is Some) && (r@.contains_key(g)
                ==> spec_page_resource(snaps@, g) == Some(r@[g])),
{
    let mut m: HashMap<u64, Resource> = HashMap::new();
    let mut i: usize = 0;
    while i < snaps.len()
        invariant
            i <= snaps@.len(),
            forall|g: u64| #![trigger m@.contains_key(g)]
                (m@.contains_key(g) <==> spec_page_resource(snaps@.subrange(0, i as int), g) is Some)
                    && (m@.contains_key(g) ==> spec_page_resource(snaps@.subrange(0, i as int), g)
                    == Some(m@[g])),
        decreases snaps@.len() - i,
    {
        assert(snaps@.subrange(0, i + 1).drop_last() =~= snaps@.subrange(0, i as int));
        assert(snaps@.subrange(0, i + 1).last() == snaps@[i as int]);
        match decode_resource(&snaps[i]) {
            Some(res) => {
                m.insert(snaps[i].entity_id, res);
            },
            None => {},
        }
        i = i + 1;
    }
    assert(snaps@.subrange(0, snaps@.len() as int) =~= snaps@);
    m
}

/// The walk over stowed items, one inventory after another and one page after
/// another: every entity is kept once, at the first place it shows up (the
/// inclusive cursor re-emits boundary rows).
pub struct StowedItems {
    out: Vec<Item>,
    seen: HashSet<u64>,
}

impl StowedItems {
    /// The items collected so far, in walk order.
    pub closed spec fn collected(&self) -> Seq<Item> {
        self.out@
    }

    #[verifier::type_invariant]
    closed spec fn inv(&self) -> bool {
        &&& self.seen@ == geids(self.out@)
        &&& distinct_geids(self.out@)
    }

    /// A walk that has collected nothing.
    pub fn new() -> (r: StowedItems)
        ensures
            r.collected() == Seq::<Item>::empty(),
    {
        let out: Vec<Item> = Vec::new();
        let seen: HashSet<u64> = HashSet::new();
        assert(geids(out@) =~= Set::<u64>::empty());
        StowedItems { out, seen }
    }

    /// The request for the page of `location`'s items after `after`.
    pub fn request(location: &Location, after: String) -> (r: EntityQuery)
        ensures
            is_entity_query(r, location.inventory_id@, after@),
    {
        entity_query_request(location.inventory_id.as_str(), after)
    }

    /// Take one page of the items stowed at `location`: append each entity not
    /// collected before, with the resource its page's snapshots give it, and
    /// return the walk with the cursor to continue after, or `None` when this
    /// inventory is done.
    pub fn take_page(self, location: &Location, page: &EntityQueryPage) -> (r: (StowedItems, Option<String>))
        ensures
            r.0.collected() == self.collected() + spec_page_items(
                page_nodes(*page),
                geids(self.collected()),
                *location,
                page.snapshots@,
            ),
            distinct_geids(r.0.collected()),
            geids(r.0.collected()) == geids(self.collected()).union(entity_geids(page_nodes(*page))),
            forall|i: int|
                self.collected().len() <= i < r.0.collected().len() ==> built_from_page(
                    #[trigger] r.0.collected()[i],
                    page_nodes(*page),
                    *location,
                    page.snapshots@,
                ),
            opt_view(r.1) == spec_next_cursor(page.page_info),
    {
        proof {
            use_type_invariant(&self);
        }
        let resources = page_resources(&page.snapshots);
        let StowedItems { mut out, mut seen } = self;
        let ghost before = out@;
        let ghost seen0 = geids(before);
        match &page.nodes {
            Some(nodes) => {
                let mut i: usize = 0;
                while i < nodes.len()
                    invariant
                        i <= nodes@.len(),
                        page_nodes(*page) == nodes@,
                        seen0 == geids(before),
                        seen@ == geids(out@),
                        distinct_geids(out@),
                        out@ == before + spec_page_items(
                            nodes@.subrange(0, i as int),
                            seen0,
                            *location,
                            page.snapshots@,
                        ),
                        forall|g: u64| #![trigger resources@.contains_key(g)]
                            (resources@.contains_key(g) <==> spec_page_resource(page.snapshots@, g) is Some)
                                && (resources@.contains_key(g) ==> spec_page_resource(
                                page.snapshots@,
                                g,
                            ) == Some(resources@[g])),
                    decreases nodes@.len() - i,
                {
                    let ghost prefix = nodes@.subrange(0, i + 1);
                    assert(prefix.drop_last() =~= nodes@.subrange(0, i as int));
                    assert(prefix.last() == nodes@[i as int]);
                    let ghost prev = spec_page_items(nodes@.subrange(0, i as int), seen0, *location, page.snapshots@);
                    proof {
                        lemma_geids_concat(before, prev);
                    }
                    match &nodes[i].properties {
                        Some(NodeProperties::Entity(e)) => {
                            if seen.insert(e.geid) {
                                let res = match resources.get(&e.geid) {
                                    Some(r) => Some(*r),
                                    None => None,
                                };
                                let it = item_from_proto(e, location, res);
                                let ghost old_out = out@;
                                out.push(it);
                                proof {
                                    lemma_geids_push(old_out, it);
                                    assert forall|a: int, b: int|
                                        0 <= a < out@.len() && 0 <= b < out@.len() && a != b
                                            implies #[trigger] out@[a].geid != #[trigger] out@[b].geid by {
                                        if a == old_out.len() {
                                            assert(geids(old_out).contains(old_out[b].geid)) by {
                                                assert(old_out.map_values(|i: Item| i.geid)[b] == old_out[b].geid);
                                            }
                                        } else if b == old_out.len() {
                                            assert(geids(old_out).contains(old_out[a].geid)) by {
                                                assert(old_out.map_values(|i: Item| i.geid)[a] == old_out[a].geid);
                                            }
                                        }
                                    }
                                }
                            }
                        },
                        _ => {},
                    }
                    i = i + 1;
                }
                assert(nodes@.subrange(0, nodes@.len() as int) =~= nodes@);
            },
            None => {},
        }
        proof {
            let added = spec_page_items(page_nodes(*page), seen0, *location, page.snapshots@);
            law_page_items_are_complete(page_nodes(*page), seen0, *location, page.snapshots@);
            lemma_geids_concat(before, added);
            assert(out@ == before + added);
            assert forall|i: int| before.len() <= i < out@.len() implies built_from_page(
                #[trigger] out@[i],
                page_nodes(*page),
                *location,
                page.snapshots@,
            ) by {
                assert(out@[i] == added[i - before.len()]);
            }
        }
        (StowedItems { out, seen }, next_cursor(&page.page_info))
    }

    /// Every item collected, in walk order; no two share a geid.
    pub fn finish(self) -> (r: Vec<Item>)
        ensures
            r@ == self.collected(),
            distinct_geids(r@),
    {
        proof {
            use_type_invariant(&self);
        }
        self.out
    }
}

proof fn lemma_geids_concat(a: Seq<Item>, b: Seq<Item>)
    ensures
        geids(a + b) == geids(a).union(geids(b)),
{
    let f = |i: Item| i.geid;
    assert((a + b).map_values(f) =~= a.map_values(f) + b.map_values(f));
    assert forall|g: u64| geids(a + b).contains(g) <==> geids(a).union(geids(b)).contains(g) by {
        if geids(a).contains(g) {
            let k = choose|k: int| 0 <= k < a.map_values(f).len() && a.map_values(f)[k] == g;
            assert((a + b).map_values(f)[k] == g);
        }
        if geids(b).contains(g) {
            let k = choose|k: int| 0 <= k < b.map_values(f).len() && b.map_values(f)[k] == g;
            assert((a + b).map_values(f)[a.len() + k] == g);
        }
        if geids(a + b).contains(g) {
            let k = choose|k: int| 0 <= k < (a + b).map_values(f).len() && (a + b).map_values(f)[k] == g;
            if k < a.len() {
                assert(a.map_values(f)[k] == g);
            } else {
                assert(b.map_values(f)[k - a.len()] == g);
            }
        }
    }
    assert(geids(a + b) =~= geids(a).union(geids(b)));
}

// ── Requests ─────────────────────────────────────────────────────────────────

/// The scope of an entity query.
#[derive(Debug, Clone, Copy, PartialEq, Eq, Structural)]
pub enum QueryScope {
    /// The global scope.
    Global,
}

/// The entity query for one page of one inventory's stowed items: an edge
/// filter on `"STOWED_IN"` with the inventory id, in GLOBAL scope with the
/// inventory id echoed, projecting snapshots (for the resource descriptor)
/// and a disabled tree, without entity classes.
pub struct EntityQuery {
    /// The query scope.
    pub scope: QueryScope,
    /// The shard id; empty.
    pub shard_id: String,
    /// The edge type the filter follows.
    pub edge_type: String,
    /// The edge filter's values.
    pub edge_values: Vec<String>,
    /// Pagination.
    pub pagination: PageArgs,
    /// Whether a (default, disabled) tree projection is sent; it must be
    /// present or validation fails.
    pub tree_projection: bool,
    /// Whether snapshots are projected.
    pub snapshots: bool,
    /// Whether entity classes are projected.
    pub entity_classes: bool,
    /// The inventory id, required for GLOBAL scope.
    pub inventory_id: String,
    /// The response language.
    pub language: String,
}

/// `q` is the entity query for the page of `inventory_id`'s items after
/// `after`.
pub open spec fn is_entity_query(q: EntityQuery, inventory_id: Seq<char>, after: Seq<char>) -> bool {
    &&& q.scope == QueryScope::Global
    &&& q.shard_id@ == Seq::<char>::empty()
    &&& q.edge_type@ == "STOWED_IN"@
    &&& q.edge_values@.len() == 1
    &&& q.edge_values@[0]@ == inventory_id
    &&& q.pagination.first == ITEM_PAGE_SIZE
    &&& q.pagination.after@ == after
    &&& q.tree_projection
    &&& q.snapshots
    &&& !q.entity_classes
    &&& q.inventory_id@ == inventory_id
    &&& q.language@ == "en"@
}

/// The `GetInventories` request: the inventories owned by a character.
pub struct InventoriesRequest {
    /// The owner's geid, as decimal text.
    pub owner_id: String,
}

/// The `GetInventories` request for the character `geid`.
pub fn inventories_request(geid: u64) -> (r: InventoriesRequest)
    ensures
        r.owner_id@ == decimal(geid as nat),
{
    InventoriesRequest { owner_id: decimal_string(geid) }
}

/// The entity query for a page of an inventory's items follows the
/// `"STOWED_IN"` edge from that inventory, in GLOBAL scope with no shard and
/// the inventory id echoed, 250 rows after the given cursor, projecting
/// snapshots and a (disabled) tree but no entity classes, in English.
pub proof fn law_entity_query_shape(q: EntityQuery, inventory_id: Seq<char>, after: Seq<char>)
    requires
        is_entity_query(q, inventory_id, after),
    ensures
        q.scope == QueryScope::Global,
        q.shard_id@.len() == 0,
        q.edge_type@ == "STOWED_IN"@,
        q.edge_values@.len() == 1 && q.edge_values@[0]@ == inventory_id,
        q.inventory_id@ == inventory_id,
        q.pagination.first == 250,
        q.pagination.after@ == after,
        q.tree_projection && q.snapshots && !q.entity_classes,
        q.language@ == "en"@,
{
}

/// Build the entity query for one page of one inventory's stowed items.
pub fn entity_query_request(inventory_id: &str, after: String) -> (r: EntityQuery)
    ensures
        is_entity_query(r, inventory_id@, after@),
{
    let mut edge_values: Vec<String> = Vec::new();
    edge_values.push(inventory_id.to_owned());
    EntityQuery {
        scope: QueryScope::Global,
        shard_id: String::new(),
        edge_type: "STOWED_IN".to_owned(),
        edge_values,
        pagination: PageArgs { first: ITEM_PAGE_SIZE, after },
        tree_projection: true,
        snapshots: true,
        entity_classes: false,
        inventory_id: inventory_id.to_owned(),
        language: "en".to_owned(),
    }
}

} // verus!
