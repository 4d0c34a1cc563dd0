use sims_core::cache::DataCache;
use sims_core::data::{ItemInfo, ShelfInfo};

fn item(id: &str, shelf: &str) -> ItemInfo {
    ItemInfo {
        object_id: id.to_string(),
        shelf_id: shelf.to_string(),
        description: format!("item {}", id),
        price: 100,
        stock: 5,
    }
}

#[test]
fn grouping_splits_by_shelf_preserving_order() {
    let mut cache = DataCache::new();
    cache.replace_all_items(vec![item("1", "A"), item("2", "B"), item("3", "A")]);
    let groups = cache.groups();
    assert_eq!(groups.len(), 2);
    assert_eq!(groups[0].shelf_id, "A");
    assert_eq!(groups[0].items.len(), 2);
    assert_eq!(groups[0].items[0].object_id, "1");
    assert_eq!(groups[0].items[1].object_id, "3");
    assert_eq!(groups[1].shelf_id, "B");
    assert_eq!(groups[1].items.len(), 1);
    assert_eq!(groups[1].items[0].object_id, "2");
}

#[test]
fn grouping_keeps_every_item_exactly_once() {
    let mut cache = DataCache::new();
    let flat = vec![
        item("1", "A"),
        item("2", "B"),
        item("3", "A"),
        item("4", "C"),
        item("5", "B"),
    ];
    let total = flat.len();
    cache.replace_all_items(flat);
    let mut seen: Vec<String> = Vec::new();
    for g in cache.groups() {
        for i in &g.items {
            assert!(!seen.contains(&i.object_id));
            seen.push(i.object_id.clone());
        }
    }
    assert_eq!(seen.len(), total);
}

#[test]
fn grouping_an_empty_fetch_empties_the_groups() {
    let mut cache = DataCache::new();
    cache.replace_all_items(vec![item("1", "A")]);
    cache.replace_all_items(Vec::new());
    assert!(cache.groups().is_empty());
}

#[test]
fn grouping_replaces_previous_groups_wholesale() {
    let mut cache = DataCache::new();
    cache.replace_all_items(vec![item("1", "A")]);
    cache.replace_all_items(vec![item("9", "Z")]);
    let groups = cache.groups();
    assert_eq!(groups.len(), 1);
    assert_eq!(groups[0].shelf_id, "Z");
}

#[test]
fn scoped_fetch_replaces_only_that_shelf() {
    let mut cache = DataCache::new();
    cache.replace_all_items(vec![item("1", "A"), item("2", "B")]);
    cache.set_shelf_items("A".to_string(), vec![item("7", "A"), item("8", "A")]);
    let a = cache.items_for(&"A".to_string()).expect("shelf A present");
    assert_eq!(a.len(), 2);
    assert_eq!(a[0].object_id, "7");
    let b = cache.items_for(&"B".to_string()).expect("shelf B present");
    assert_eq!(b.len(), 1);
    assert_eq!(b[0].object_id, "2");
}

#[test]
fn scoped_fetch_adds_a_missing_shelf() {
    let mut cache = DataCache::new();
    cache.set_shelf_items("N".to_string(), vec![item("1", "N")]);
    let n = cache.items_for(&"N".to_string()).expect("shelf N present");
    assert_eq!(n.len(), 1);
    assert!(cache.items_for(&"M".to_string()).is_none());
}

#[test]
fn shelf_list_is_replaced_wholesale() {
    let mut cache = DataCache::new();
    cache.set_shelves(vec![
        ShelfInfo { shelf_id: "A".to_string(), shelf_count: 3 },
        ShelfInfo { shelf_id: "B".to_string(), shelf_count: 1 },
    ]);
    cache.set_shelves(vec![ShelfInfo { shelf_id: "C".to_string(), shelf_count: 9 }]);
    let shelves = cache.shelves();
    assert_eq!(shelves.len(), 1);
    assert_eq!(shelves[0].shelf_id, "C");
    assert_eq!(shelves[0].shelf_count, 9);
}
