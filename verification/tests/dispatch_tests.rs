use sims_core::data::{
    GetItemsResponse, ItemInfo, Items, RpcCallResult, ShelfInfo, Shelves, TabId, Token,
};
use sims_core::dispatch::{Action, ClientState, Message};
use sims_core::frontend::{classify_items_response, AuthFlow, AuthStep, CallFlow, CallStep};
use sims_core::data::LoginResult;

fn item(id: &str, shelf: &str) -> ItemInfo {
    ItemInfo {
        object_id: id.to_string(),
        shelf_id: shelf.to_string(),
        description: String::new(),
        price: 1,
        stock: 1,
    }
}

fn logged_in_client() -> ClientState {
    let mut c = ClientState::new();
    c.update(Message::UsernameInputChanged("ada".to_string()));
    c.update(Message::PasswordInputChanged("secret".to_string()));
    c.update(Message::LoginButtonClicked);
    c.update(Message::Authenticated(Ok(Token { token: "tok".to_string() })));
    c
}

#[test]
fn the_title_names_the_system() {
    let c = ClientState::new();
    assert_eq!(c.title(), "SIMS Inventory Management System");
}

#[test]
fn opening_a_shelf_registers_it_and_queues_the_visit() {
    let mut c = logged_in_client();
    let tab = TabId::ShelfView("A".to_string());
    let actions = c.update(Message::OpenShelf(tab.clone()));
    assert_eq!(actions.len(), 1);
    match &actions[0] {
        Action::SelectTab(t) => assert!(*t == tab),
        _ => panic!("expected a tab visit"),
    }
    let tabs = c.tabs();
    assert_eq!(tabs.len(), 3);
    assert!(tabs[2] == tab);
}

#[test]
fn selecting_a_shelf_tab_fetches_only_that_shelf() {
    let mut c = logged_in_client();
    let tab = TabId::ShelfView("A".to_string());
    c.update(Message::OpenShelf(tab.clone()));
    let actions = c.update(Message::TabSelected(tab.clone()));
    assert!(c.current_tab() == tab);
    assert_eq!(actions.len(), 1);
    match &actions[0] {
        Action::FetchItems { shelf_id, username, token } => {
            assert_eq!(shelf_id.as_deref(), Some("A"));
            assert_eq!(username, "ada");
            assert_eq!(token, "tok");
        },
        _ => panic!("expected an item fetch"),
    }
}

#[test]
fn selecting_the_singleton_tabs_fetches_their_scope() {
    let mut c = logged_in_client();
    let actions = c.update(Message::TabSelected(TabId::AllShelves));
    assert!(matches!(&actions[0], Action::FetchShelves { shelf_id: None, .. }));
    let actions = c.update(Message::TabSelected(TabId::AllItems));
    assert!(matches!(&actions[0], Action::FetchItems { shelf_id: None, .. }));
}

#[test]
fn closing_a_shelf_takes_it_off_the_screen() {
    let mut c = logged_in_client();
    let tab = TabId::ShelfView("A".to_string());
    c.update(Message::OpenShelf(tab.clone()));
    c.update(Message::TabSelected(tab.clone()));
    let actions = c.update(Message::CloseShelf(tab.clone()));
    assert!(actions.is_empty());
    assert_eq!(c.tabs().len(), 2);
    assert!(c.current_tab() == TabId::AllShelves);
}

#[test]
fn a_shelf_fetch_result_replaces_the_shelf_list() {
    let mut c = logged_in_client();
    let actions = c.update(Message::UpdatedShelves(Ok(Shelves {
        shelves: vec![ShelfInfo { shelf_id: "A".to_string(), shelf_count: 2 }],
    })));
    assert!(actions.is_empty());
    assert_eq!(c.cache().shelves().len(), 1);
    assert_eq!(c.cache().shelves()[0].shelf_id, "A");
}

#[test]
fn a_failed_shelf_fetch_leaves_the_cache_untouched() {
    let mut c = logged_in_client();
    c.update(Message::UpdatedShelves(Ok(Shelves {
        shelves: vec![ShelfInfo { shelf_id: "A".to_string(), shelf_count: 2 }],
    })));
    let actions = c.update(Message::UpdatedShelves(Err(RpcCallResult::CallFailed(
        "boom".to_string(),
    ))));
    assert!(actions.is_empty());
    assert_eq!(c.cache().shelves().len(), 1);
}

#[test]
fn a_flat_item_result_is_regrouped() {
    let mut c = logged_in_client();
    c.update(Message::UpdatedItems(Ok(GetItemsResponse::AllItems(Items {
        items: vec![item("1", "A"), item("2", "B"), item("3", "A")],
    }))));
    let groups = c.cache().groups();
    assert_eq!(groups.len(), 2);
    assert_eq!(groups[0].shelf_id, "A");
    assert_eq!(groups[0].items.len(), 2);
    assert_eq!(groups[1].shelf_id, "B");
}

#[test]
fn a_scoped_item_result_replaces_one_entry() {
    let mut c = logged_in_client();
    c.update(Message::UpdatedItems(Ok(GetItemsResponse::AllItems(Items {
        items: vec![item("1", "A"), item("2", "B")],
    }))));
    c.update(Message::UpdatedItems(Ok(GetItemsResponse::ShelfItems(
        "A".to_string(),
        Items { items: vec![item("7", "A")] },
    ))));
    let a = c.cache().items_for(&"A".to_string()).expect("shelf A present");
    assert_eq!(a.len(), 1);
    assert_eq!(a[0].object_id, "7");
    assert_eq!(c.cache().items_for(&"B".to_string()).expect("shelf B present").len(), 1);
}

#[test]
fn a_failed_item_fetch_leaves_the_cache_untouched() {
    let mut c = logged_in_client();
    c.update(Message::UpdatedItems(Ok(GetItemsResponse::AllItems(Items {
        items: vec![item("1", "A")],
    }))));
    c.update(Message::UpdatedItems(Err(RpcCallResult::NotConnected)));
    assert_eq!(c.cache().groups().len(), 1);
}

#[test]
fn submitting_a_valid_shelf_draft_launches_the_mutation() {
    let mut c = logged_in_client();
    c.update(Message::StartEditing(sims_core::edit::EditTarget::NewShelf {
        shelf_name: "pantry".to_string(),
        slots: "0".to_string(),
        error_message: None,
    }));
    c.update(Message::ShelfSlotCountInputChanged("4".to_string()));
    let actions = c.update(Message::CreateTarget);
    assert!(c.edit_target().is_none());
    assert_eq!(actions.len(), 1);
    match &actions[0] {
        Action::CreateShelf { shelf_id, slot_count, username, token } => {
            assert_eq!(shelf_id, "pantry");
            assert_eq!(*slot_count, 4);
            assert_eq!(username, "ada");
            assert_eq!(token, "tok");
        },
        _ => panic!("expected a create-shelf action"),
    }
}

#[test]
fn submitting_an_invalid_draft_launches_nothing() {
    let mut c = logged_in_client();
    c.update(Message::StartEditing(sims_core::edit::EditTarget::NewItem {
        shelf_id: String::new(),
        item_name: "bolts".to_string(),
        item_count: "3".to_string(),
        error_message: None,
    }));
    let actions = c.update(Message::CreateTarget);
    assert!(actions.is_empty());
    match c.edit_target() {
        Some(sims_core::edit::EditTarget::NewItem { error_message, .. }) => {
            assert_eq!(error_message.as_deref(), Some("you must select a shelf"));
        },
        _ => panic!("draft should be kept with its error"),
    }
}

#[test]
fn submitting_with_no_draft_does_nothing() {
    let mut c = logged_in_client();
    let actions = c.update(Message::CreateTarget);
    assert!(actions.is_empty());
}

#[test]
fn stop_editing_clears_the_draft() {
    let mut c = logged_in_client();
    c.update(Message::StartEditing(sims_core::edit::EditTarget::EditShelf {
        shelf_id: "A".to_string(),
    }));
    assert!(c.edit_target().is_some());
    c.update(Message::StopEditing);
    assert!(c.edit_target().is_none());
}

#[test]
fn an_auth_flow_connects_registers_and_exchanges() {
    let mut f = AuthFlow::new(true);
    assert!(matches!(f.on_slot(false), AuthStep::Connect));
    assert!(matches!(f.on_connect_finished(true), AuthStep::Register));
    assert!(matches!(f.on_register_result(true), AuthStep::Auth));
    let out = f.on_auth_result(Ok(Token { token: "t".to_string() }));
    assert!(matches!(out, Ok(Token { .. })));
}

#[test]
fn an_auth_flow_fails_without_a_connection() {
    let mut f = AuthFlow::new(false);
    assert!(matches!(f.on_slot(false), AuthStep::Connect));
    assert!(matches!(
        f.on_connect_finished(false),
        AuthStep::Fail(LoginResult::NotConnected)
    ));
}

#[test]
fn a_registration_failure_short_circuits() {
    let mut f = AuthFlow::new(true);
    assert!(matches!(f.on_slot(true), AuthStep::Register));
    assert!(matches!(
        f.on_register_result(false),
        AuthStep::Fail(LoginResult::RegisterFailed)
    ));
}

#[test]
fn a_rejected_exchange_carries_the_status() {
    let mut f = AuthFlow::new(false);
    assert!(matches!(f.on_slot(true), AuthStep::Auth));
    match f.on_auth_result(Err("denied".to_string())) {
        Err(LoginResult::ServerError(s)) => assert_eq!(s, "denied"),
        _ => panic!("expected a server rejection"),
    }
}

#[test]
fn a_call_flow_reaches_the_call_or_fails_unconnected() {
    let mut f = CallFlow::new();
    assert!(matches!(f.on_slot(true), CallStep::Call));
    let mut f = CallFlow::new();
    assert!(matches!(f.on_slot(false), CallStep::Connect));
    assert!(matches!(
        f.on_connect_finished(false),
        CallStep::Fail(RpcCallResult::NotConnected)
    ));
    let mut f = CallFlow::new();
    f.on_slot(false);
    assert!(matches!(f.on_connect_finished(true), CallStep::Call));
    match f.on_call_error("boom".to_string()) {
        RpcCallResult::CallFailed(m) => assert_eq!(m, "boom"),
        _ => panic!("expected a call failure"),
    }
}

#[test]
fn item_responses_are_tagged_by_their_scope() {
    let scoped = classify_items_response(
        Some("A".to_string()),
        Items { items: vec![item("1", "A")] },
    );
    match scoped {
        GetItemsResponse::ShelfItems(sid, items) => {
            assert_eq!(sid, "A");
            assert_eq!(items.items.len(), 1);
        },
        _ => panic!("expected a scoped response"),
    }
    let unscoped = classify_items_response(None, Items { items: vec![] });
    assert!(matches!(unscoped, GetItemsResponse::AllItems(_)));
}

#[test]
fn refresh_requests_carry_the_session() {
    let mut c = logged_in_client();
    let actions = c.update(Message::UpdateShelves(None));
    assert!(matches!(&actions[0], Action::FetchShelves { shelf_id: None, .. }));
    let actions = c.update(Message::UpdateItems(Some("A".to_string())));
    match &actions[0] {
        Action::FetchItems { shelf_id, .. } => assert_eq!(shelf_id.as_deref(), Some("A")),
        _ => panic!("expected an item fetch"),
    }
}
