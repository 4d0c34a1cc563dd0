use sims_core::edit::{EditTarget, SubmitOutcome};
use sims_core::numerals::parse_u32;

fn new_shelf(name: &str, slots: &str) -> EditTarget {
    EditTarget::NewShelf {
        shelf_name: name.to_string(),
        slots: slots.to_string(),
        error_message: None,
    }
}

fn new_item(shelf: &str, name: &str, count: &str) -> EditTarget {
    EditTarget::NewItem {
        shelf_id: shelf.to_string(),
        item_name: name.to_string(),
        item_count: count.to_string(),
        error_message: None,
    }
}

#[test]
fn parse_u32_accepts_numerals() {
    assert_eq!(parse_u32("0"), Some(0));
    assert_eq!(parse_u32("42"), Some(42));
    assert_eq!(parse_u32("007"), Some(7));
    assert_eq!(parse_u32("+123"), Some(123));
    assert_eq!(parse_u32("4294967295"), Some(u32::MAX));
}

#[test]
fn parse_u32_rejects_everything_else() {
    assert_eq!(parse_u32(""), None);
    assert_eq!(parse_u32("+"), None);
    assert_eq!(parse_u32("-1"), None);
    assert_eq!(parse_u32("12a"), None);
    assert_eq!(parse_u32(" 12"), None);
    assert_eq!(parse_u32("4294967296"), None);
    assert_eq!(parse_u32("99999999999999999999"), None);
}

#[test]
fn zero_slots_is_rejected_and_the_draft_kept() {
    let draft = new_shelf("pantry", "0");
    let (kept, outcome) = draft.submit();
    assert!(matches!(outcome, SubmitOutcome::Rejected));
    match kept.expect("draft is kept") {
        EditTarget::NewShelf { shelf_name, slots, error_message } => {
            assert_eq!(shelf_name, "pantry");
            assert_eq!(slots, "0");
            assert_eq!(error_message.as_deref(), Some("shelf must have at least 1 slot"));
        },
        _ => panic!("draft changed variant"),
    }
}

#[test]
fn unparseable_slots_are_rejected() {
    let draft = new_shelf("pantry", "lots");
    let (kept, outcome) = draft.submit();
    assert!(matches!(outcome, SubmitOutcome::Rejected));
    match kept.expect("draft is kept") {
        EditTarget::NewShelf { error_message, .. } => {
            assert_eq!(error_message.as_deref(), Some("slots must be a natural number"));
        },
        _ => panic!("draft changed variant"),
    }
}

#[test]
fn valid_shelf_draft_submits_and_clears() {
    let draft = new_shelf("pantry", "4");
    let (kept, outcome) = draft.submit();
    assert!(kept.is_none());
    match outcome {
        SubmitOutcome::CreateShelf { shelf_id, slot_count } => {
            assert_eq!(shelf_id, "pantry");
            assert_eq!(slot_count, 4);
        },
        _ => panic!("expected a create-shelf outcome"),
    }
}

#[test]
fn item_without_a_shelf_is_rejected() {
    let draft = new_item("", "bolts", "3");
    let (kept, outcome) = draft.submit();
    assert!(matches!(outcome, SubmitOutcome::Rejected));
    match kept.expect("draft is kept") {
        EditTarget::NewItem { error_message, .. } => {
            assert_eq!(error_message.as_deref(), Some("you must select a shelf"));
        },
        _ => panic!("draft changed variant"),
    }
}

#[test]
fn item_with_unparseable_count_is_rejected_first() {
    let draft = new_item("", "bolts", "many");
    let (kept, outcome) = draft.submit();
    assert!(matches!(outcome, SubmitOutcome::Rejected));
    match kept.expect("draft is kept") {
        EditTarget::NewItem { error_message, .. } => {
            assert_eq!(error_message.as_deref(), Some("slots must be a natural number"));
        },
        _ => panic!("draft changed variant"),
    }
}

#[test]
fn valid_item_draft_submits_and_clears() {
    let draft = new_item("A", "bolts", "12");
    let (kept, outcome) = draft.submit();
    assert!(kept.is_none());
    match outcome {
        SubmitOutcome::CreateItem { shelf_id, item_name, count } => {
            assert_eq!(shelf_id, "A");
            assert_eq!(item_name, "bolts");
            assert_eq!(count, 12);
        },
        _ => panic!("expected a create-item outcome"),
    }
}

#[test]
fn edit_variants_are_not_submittable() {
    let draft = EditTarget::EditShelf { shelf_id: "A".to_string() };
    let (kept, outcome) = draft.submit();
    assert!(matches!(outcome, SubmitOutcome::NotSubmittable));
    assert!(matches!(kept, Some(EditTarget::EditShelf { .. })));
}

#[test]
fn count_keystrokes_route_to_the_matching_field() {
    let shelf_draft = new_shelf("pantry", "0");
    match shelf_draft.with_count_draft("8".to_string()) {
        EditTarget::NewShelf { slots, .. } => assert_eq!(slots, "8"),
        _ => panic!("variant changed"),
    }
    let item_draft = new_item("A", "bolts", "0");
    match item_draft.with_count_draft("9".to_string()) {
        EditTarget::NewItem { item_count, .. } => assert_eq!(item_count, "9"),
        _ => panic!("variant changed"),
    }
}

#[test]
fn keystrokes_on_a_mismatched_variant_are_ignored() {
    let draft = EditTarget::EditSlot { shelf_id: "A".to_string(), slot_id: "1".to_string() };
    match draft.with_count_draft("8".to_string()) {
        EditTarget::EditSlot { shelf_id, slot_id } => {
            assert_eq!(shelf_id, "A");
            assert_eq!(slot_id, "1");
        },
        _ => panic!("variant changed"),
    }
    match draft.with_picked_shelf("B".to_string()) {
        EditTarget::EditSlot { shelf_id, .. } => assert_eq!(shelf_id, "A"),
        _ => panic!("variant changed"),
    }
}

#[test]
fn name_keystrokes_and_shelf_picks_route() {
    let draft = new_item("", "", "0");
    let draft = draft.with_name_draft("bolts".to_string());
    let draft = draft.with_picked_shelf("A".to_string());
    match draft {
        EditTarget::NewItem { shelf_id, item_name, .. } => {
            assert_eq!(shelf_id, "A");
            assert_eq!(item_name, "bolts");
        },
        _ => panic!("variant changed"),
    }
}
