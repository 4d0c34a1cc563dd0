//! Plain data carried through the client core: tab identities, shelf and
//! item records, RPC request/response shapes, session states, events and the
//! asynchronous actions the dispatcher asks its driver to launch.

use vstd::prelude::*;

verus! {

/// Identity of an open tab.  `AllShelves` and `AllItems` are singletons that
/// exist from startup and cannot be closed; `ShelfView` carries the id of the
/// shelf it shows.
#[derive(Debug, Hash)]
pub enum TabId {
    AllShelves,
    AllItems,
    ShelfView(String),
}

/// Mathematical value of a [`TabId`]: the shelf id reduced to its character
/// sequence.
pub enum TabView {
    AllShelves,
    AllItems,
    ShelfView(Seq<char>),
}

impl View for TabId {
    type V = TabView;

    open spec fn view(&self) -> TabView {
        match self {
            TabId::AllShelves => TabView::AllShelves,
            TabId::AllItems => TabView::AllItems,
            TabId::ShelfView(s) => TabView::ShelfView(s@),
        }
    }
}

impl DeepView for TabId {
    type V = TabView;

    open spec fn deep_view(&self) -> TabView {
        self.view()
    }
}

impl PartialEq for TabId {
    fn eq(&self, other: &Self) -> (r: bool) {
        match (self, other) {
            (TabId::AllShelves, TabId::AllShelves) => true,
            (TabId::AllItems, TabId::AllItems) => true,
            (TabId::ShelfView(a), TabId::ShelfView(b)) => *a == *b,
            _ => false,
        }
    }
}

impl vstd::std_specs::cmp::PartialEqSpecImpl for TabId {
    open spec fn obeys_eq_spec() -> bool {
        true
    }

    open spec fn eq_spec(&self, other: &Self) -> bool {
        self@ == other@
    }
}

impl Eq for TabId {

}

impl Clone for TabId {
    fn clone(&self) -> (r: Self)
        ensures
            r@ == self@,
    {
        match self {
            TabId::AllShelves => TabId::AllShelves,
            TabId::AllItems => TabId::AllItems,
            TabId::ShelfView(s) => TabId::ShelfView(s.clone()),
        }
    }
}

/// One shelf as reported by the service.
#[derive(Debug)]
pub struct ShelfInfo {
    pub shelf_id: String,
    pub shelf_count: u32,
}

/// Mathematical value of a [`ShelfInfo`].
pub struct ShelfInfoView {
    pub shelf_id: Seq<char>,
    pub shelf_count: u32,
}

impl View for ShelfInfo {
    type V = ShelfInfoView;

    open spec fn view(&self) -> ShelfInfoView {
        ShelfInfoView { shelf_id: self.shelf_id@, shelf_count: self.shelf_count }
    }
}

impl DeepView for ShelfInfo {
    type V = ShelfInfoView;

    open spec fn deep_view(&self) -> ShelfInfoView {
        self.view()
    }
}

impl Clone for ShelfInfo {
    fn clone(&self) -> (r: Self)
        ensures
            r@ == self@,
    {
        ShelfInfo { shelf_id: self.shelf_id.clone(), shelf_count: self.shelf_count }
    }
}

/// One stocked item as reported by the service.
#[derive(Debug)]
pub struct ItemInfo {
    pub object_id: String,
    pub shelf_id: String,
    pub description: String,
    pub price: u32,
    pub stock: u32,
}

/// Mathematical value of an [`ItemInfo`].
pub struct ItemInfoView {
    pub object_id: Seq<char>,
    pub shelf_id: Seq<char>,
    pub description: Seq<char>,
    pub price: u32,
    pub stock: u32,
}

impl View for ItemInfo {
    type V = ItemInfoView;

    open spec fn view(&self) -> ItemInfoView {
        ItemInfoView {
            object_id: self.object_id@,
            shelf_id: self.shelf_id@,
            description: self.description@,
            price: self.price,
            stock: self.stock,
        }
    }
}

impl DeepView for ItemInfo {
    type V = ItemInfoView;

    open spec fn deep_view(&self) -> ItemInfoView {
        self.view()
    }
}

impl Clone for ItemInfo {
    fn clone(&self) -> (r: Self)
        ensures
            r@ == self@,
    {
        ItemInfo {
            object_id: self.object_id.clone(),
            shelf_id: self.shelf_id.clone(),
            description: self.description.clone(),
            price: self.price,
            stock: self.stock,
        }
    }
}

/// Response body of a shelf-list fetch.
#[derive(Debug)]
pub struct Shelves {
    pub shelves: Vec<ShelfInfo>,
}

/// Response body of an item-list fetch: a flat list, one entry per item,
/// each naming the shelf it sits on.
#[derive(Debug)]
pub struct Items {
    pub items: Vec<ItemInfo>,
}

/// Response body of a successful credential exchange.
#[derive(Debug)]
pub struct Token {
    pub token: String,
}

impl Clone for Token {
    fn clone(&self) -> (r: Self)
        ensures
            r.token@ == self.token@,
    {
        Token { token: self.token.clone() }
    }
}

impl DeepView for Shelves {
    type V = Seq<ShelfInfoView>;

    open spec fn deep_view(&self) -> Seq<ShelfInfoView> {
        self.shelves.deep_view()
    }
}

impl DeepView for Items {
    type V = Seq<ItemInfoView>;

    open spec fn deep_view(&self) -> Seq<ItemInfoView> {
        self.items.deep_view()
    }
}

impl DeepView for Token {
    type V = Seq<char>;

    open spec fn deep_view(&self) -> Seq<char> {
        self.token@
    }
}

/// Why a data call failed.
#[derive(Debug)]
pub enum RpcCallResult {
    /// No connection handle was available for the call.
    NotConnected,
    /// The call itself came back with an error, rendered as text.
    CallFailed(String),
}

/// Mathematical value of an [`RpcCallResult`].
pub enum RpcCallView {
    NotConnected,
    CallFailed(Seq<char>),
}

impl DeepView for RpcCallResult {
    type V = RpcCallView;

    open spec fn deep_view(&self) -> RpcCallView {
        match self {
            RpcCallResult::NotConnected => RpcCallView::NotConnected,
            RpcCallResult::CallFailed(m) => RpcCallView::CallFailed(m@),
        }
    }
}

/// Why a login attempt failed.
#[derive(Debug)]
pub enum LoginResult {
    /// The server declined the credentials; carries a rendering of its status.
    ServerError(String),
    /// No connection handle was available and establishment failed.
    NotConnected,
    /// The registration step of a register-and-login flow failed.
    RegisterFailed,
}

/// Mathematical value of a [`LoginResult`].
pub enum LoginResultView {
    ServerError(Seq<char>),
    NotConnected,
    RegisterFailed,
}

impl DeepView for LoginResult {
    type V = LoginResultView;

    open spec fn deep_view(&self) -> LoginResultView {
        match self {
            LoginResult::ServerError(s) => LoginResultView::ServerError(s@),
            LoginResult::NotConnected => LoginResultView::NotConnected,
            LoginResult::RegisterFailed => LoginResultView::RegisterFailed,
        }
    }
}

/// Result of an item fetch, tagged by the scope that was asked for.
#[derive(Debug)]
pub enum GetItemsResponse {
    /// An unscoped fetch: every item on every shelf.
    AllItems(Items),
    /// A fetch scoped to one shelf, named first.
    ShelfItems(String, Items),
}

/// Mathematical value of a [`GetItemsResponse`].
pub enum GetItemsView {
    AllItems(Seq<ItemInfoView>),
    ShelfItems(Seq<char>, Seq<ItemInfoView>),
}

impl DeepView for GetItemsResponse {
    type V = GetItemsView;

    open spec fn deep_view(&self) -> GetItemsView {
        match self {
            GetItemsResponse::AllItems(items) => GetItemsView::AllItems(items.deep_view()),
            GetItemsResponse::ShelfItems(sid, items) => GetItemsView::ShelfItems(
                sid@,
                items.deep_view(),
            ),
        }
    }
}

} // verus!
