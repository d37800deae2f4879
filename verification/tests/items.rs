use sc_dossier::items::{
    decode_resource, entity_query_request, inventories_request, inventory_nodes, item_from_proto,
    Context, EntityNode, EntityQueryPage, EntitySnapshot, EntityVariable, GraphNode, Inventory,
    InventoryConfiguration, InventoryNode, InventoryType, Location, NodeProperties,
    PhysicalConfiguration, Resource, StowedItems, RESOURCE_DESCRIPTOR_CRC,
};
use sc_dossier::pagination::PageInfo;

fn descriptor_var(bytes: Vec<u8>) -> EntitySnapshot {
    EntitySnapshot {
        entity_id: 1,
        variables: vec![EntityVariable {
            name_crc: RESOURCE_DESCRIPTOR_CRC,
            var_type: 0,
            flags: 0,
            snapshot: bytes,
        }],
        version: 0,
    }
}

#[test]
fn decode_resource_reads_le_fields() {
    // version=1, resource_id=0x04030201, quality=1000 (0x03E8), microSCU=2_000_000.
    let mut bytes = vec![1u8];
    bytes.extend_from_slice(&0x04030201u32.to_le_bytes());
    bytes.extend_from_slice(&1000u16.to_le_bytes());
    bytes.extend_from_slice(&2_000_000u32.to_le_bytes());

    let r = decode_resource(&descriptor_var(bytes)).expect("decodes");
    assert_eq!(r.resource_id, 0x04030201);
    assert_eq!(r.quality, 1000);
    assert_eq!(r.micro_scu as f64 / 1_000_000.0, 2.0);
}

#[test]
fn decode_resource_rejects_bad_version_and_short() {
    let mut wrong_version = vec![2u8];
    wrong_version.extend_from_slice(&[0u8; 10]);
    assert!(decode_resource(&descriptor_var(wrong_version)).is_none());

    assert!(decode_resource(&descriptor_var(vec![1, 0, 0])).is_none());
}

#[test]
fn decode_resource_absent_variable() {
    let snapshot = EntitySnapshot { entity_id: 1, variables: vec![], version: 0 };
    assert!(decode_resource(&snapshot).is_none());
}

#[test]
fn context_classifies_known_kinds() {
    assert_eq!(Context::from_inventory("PlayerInventory", 0, 0), Context::Player);
    assert_eq!(Context::from_inventory("Entitlement", 0, 0), Context::Entitlement);
    assert_eq!(Context::from_inventory("Location", 42, 0), Context::Location(42));
    assert_eq!(Context::from_inventory("Hangar", 7, 0), Context::Hangar(7));
    // Container uses owner_id (ship geid), not subject_id.
    assert_eq!(Context::from_inventory("Container", 1, 99), Context::Container(99));
    assert_eq!(
        Context::from_inventory("Weird", 0, 0),
        Context::Other("Weird".to_string())
    );
}

#[test]
fn context_keeps_low_bits_of_subject() {
    assert_eq!(
        Context::from_inventory("Location", 0x1_0000_0005, 0),
        Context::Location(5)
    );
    // Matching is exact: case matters.
    assert_eq!(
        Context::from_inventory("player", 0, 0),
        Context::Other("player".to_string())
    );
}

#[test]
fn decode_resource_uses_first_descriptor_and_ignores_others() {
    let snapshot = EntitySnapshot {
        entity_id: 9,
        variables: vec![
            EntityVariable { name_crc: 1, var_type: 0, flags: 0, snapshot: vec![1; 11] },
            EntityVariable {
                name_crc: RESOURCE_DESCRIPTOR_CRC,
                var_type: 0,
                flags: 0,
                snapshot: vec![1, 0xff, 0xff, 0xff, 0xff, 0xe8, 0x03, 0, 0, 0, 1, 99],
            },
            EntityVariable {
                name_crc: RESOURCE_DESCRIPTOR_CRC,
                var_type: 0,
                flags: 0,
                snapshot: vec![2; 11],
            },
        ],
        version: 0,
    };
    let r = decode_resource(&snapshot).unwrap();
    assert_eq!(
        r,
        Resource { resource_id: u32::MAX, quality: 1000, micro_scu: 0x0100_0000 }
    );
}

#[test]
fn decode_resource_rejects_quality_above_1000() {
    let mut bytes = vec![1u8, 0, 0, 0, 0];
    bytes.extend_from_slice(&1001u16.to_le_bytes());
    bytes.extend_from_slice(&[0u8; 4]);
    assert!(decode_resource(&descriptor_var(bytes)).is_none());
    assert!(decode_resource(&descriptor_var(vec![1, 0, 0, 0, 0, 0xff, 0xff, 0, 0, 0, 0])).is_none());
    let mut bytes = vec![1u8, 0, 0, 0, 0];
    bytes.extend_from_slice(&0u16.to_le_bytes());
    bytes.extend_from_slice(&[0u8; 4]);
    assert_eq!(decode_resource(&descriptor_var(bytes)).unwrap().quality, 0);
}

fn inv_node(id: &str, context: &str, physical: Option<(i32, i32)>) -> InventoryNode {
    InventoryNode {
        id: id.to_string(),
        context: context.to_string(),
        subject_id: 77,
        owner_id: 1234,
        inventory_type: if physical.is_some() { 2 } else { 1 },
        configuration: Some(InventoryConfiguration {
            physical: physical.map(|(c, o)| PhysicalConfiguration { capacity: c, occupancy: o }),
        }),
    }
}

fn entity(geid: u64, stack: u32, urn: &str) -> GraphNode {
    GraphNode {
        properties: Some(NodeProperties::Entity(EntityNode {
            geid,
            class_guid_crc: 42,
            item_type_enum: 16,
            stack_size: stack,
            parent_urn: urn.to_string(),
        })),
    }
}

#[test]
fn inventory_decodes_physical_configuration() {
    let inv = Inventory::from_proto(&inv_node("inv-1", "Hangar", Some((100, 40))));
    assert_eq!(inv.location.inventory_id, "inv-1");
    assert_eq!(inv.location.context, Context::Hangar(77));
    assert_eq!(inv.owner_id, 1234);
    assert_eq!(inv.inventory_type, InventoryType::Physical);
    assert_eq!(inv.capacity, Some(100));
    assert_eq!(inv.occupancy, Some(40));

    let inv = Inventory::from_proto(&inv_node("inv-2", "PlayerInventory", None));
    assert_eq!(inv.inventory_type, InventoryType::Infinite);
    assert_eq!(inv.capacity, None);
    assert_eq!(inv.occupancy, None);
    assert_eq!(InventoryType::from_i32(7), InventoryType::Unknown(7));
}

#[test]
fn inventory_nodes_keeps_only_inventories() {
    let nodes = vec![
        entity(1, 1, ""),
        GraphNode { properties: Some(NodeProperties::Inventory(inv_node("a", "Location", None))) },
        GraphNode { properties: None },
        GraphNode { properties: Some(NodeProperties::Inventory(inv_node("b", "Container", None))) },
    ];
    let kept = inventory_nodes(nodes);
    assert_eq!(kept.len(), 2);
    assert_eq!(kept[0].id, "a");
    assert_eq!(kept[1].id, "b");
}

#[test]
fn item_stack_size_at_least_one_and_empty_urn_is_none() {
    let loc = Location { inventory_id: "inv".to_string(), context: Context::Player };
    let e = EntityNode { geid: 5, class_guid_crc: 3, item_type_enum: 187, stack_size: 0, parent_urn: String::new() };
    let it = item_from_proto(&e, &loc, None);
    assert_eq!(it.stack_size, 1);
    assert_eq!(it.parent_urn, None);
    assert_eq!(it.location, loc);
    let e = EntityNode { geid: 5, class_guid_crc: 3, item_type_enum: 187, stack_size: 7, parent_urn: "urn:x".to_string() };
    let it = item_from_proto(&e, &loc, None);
    assert_eq!(it.stack_size, 7);
    assert_eq!(it.parent_urn.as_deref(), Some("urn:x"));
}

#[test]
fn stowed_items_dedupes_across_pages_and_inventories() {
    let hangar = Location { inventory_id: "h".to_string(), context: Context::Hangar(1) };
    let ship = Location { inventory_id: "s".to_string(), context: Context::Container(2) };

    let mut descriptor = vec![1u8, 7, 0, 0, 0, 0xe8, 0x03];
    descriptor.extend_from_slice(&500_000u32.to_le_bytes());
    let page1 = EntityQueryPage {
        snapshots: vec![EntitySnapshot {
            entity_id: 11,
            variables: vec![EntityVariable { name_crc: RESOURCE_DESCRIPTOR_CRC, var_type: 0, flags: 0, snapshot: descriptor }],
            version: 1,
        }],
        nodes: Some(vec![entity(10, 1, ""), entity(11, 3, ""), entity(10, 1, "")]),
        page_info: Some(PageInfo { has_next_page: true, end_cursor: "c1".to_string() }),
    };
    let walk = StowedItems::new();
    let (walk, next) = walk.take_page(&hangar, &page1);
    assert_eq!(next.as_deref(), Some("c1"));

    // The inclusive cursor re-emits geid 11 on the next page.
    let page2 = EntityQueryPage {
        snapshots: vec![],
        nodes: Some(vec![entity(11, 3, ""), entity(12, 1, "urn:e")]),
        page_info: Some(PageInfo { has_next_page: false, end_cursor: "c2".to_string() }),
    };
    let (walk, next) = walk.take_page(&hangar, &page2);
    assert_eq!(next, None);

    // Another inventory that reports geid 12 again.
    let page3 = EntityQueryPage {
        snapshots: vec![],
        nodes: Some(vec![entity(12, 1, ""), entity(13, 1, "")]),
        page_info: Some(PageInfo { has_next_page: true, end_cursor: String::new() }),
    };
    let (walk, next) = walk.take_page(&ship, &page3);
    assert_eq!(next, None);

    let items = walk.finish();
    let geids: Vec<u64> = items.iter().map(|i| i.geid).collect();
    assert_eq!(geids, vec![10, 11, 12, 13]);
    assert_eq!(items[1].resource, Some(Resource { resource_id: 7, quality: 1000, micro_scu: 500_000 }));
    assert_eq!(items[0].resource, None);
    assert_eq!(items[2].location, hangar);
    assert_eq!(items[2].parent_urn.as_deref(), Some("urn:e"));
    assert_eq!(items[3].location, ship);
}

#[test]
fn stowed_items_page_without_graph_adds_nothing() {
    let loc = Location { inventory_id: "h".to_string(), context: Context::Player };
    let page = EntityQueryPage { snapshots: vec![], nodes: None, page_info: None };
    let (walk, next) = StowedItems::new().take_page(&loc, &page);
    assert_eq!(next, None);
    assert!(walk.finish().is_empty());
}

#[test]
fn entity_query_has_the_required_shape() {
    let q = entity_query_request("inv-9", "cur".to_string());
    assert_eq!(q.edge_type, "STOWED_IN");
    assert_eq!(q.edge_values, vec!["inv-9".to_string()]);
    assert_eq!(q.inventory_id, "inv-9");
    assert_eq!(q.pagination.first, 250);
    assert_eq!(q.pagination.after, "cur");
    assert!(q.tree_projection && q.snapshots && !q.entity_classes);
    assert_eq!(q.language, "en");
    assert!(q.shard_id.is_empty());
}

#[test]
fn inventories_request_writes_geid_in_decimal() {
    assert_eq!(inventories_request(0).owner_id, "0");
    assert_eq!(inventories_request(1234567890123).owner_id, "1234567890123");
    assert_eq!(inventories_request(u64::MAX).owner_id, u64::MAX.to_string());
}
