//! The command dispatcher: the single synchronization point of the client.
//!
//! Every event — user input and the results of asynchronous operations —
//! enters through [`ClientState::update`], which applies it to the session,
//! the workspace registry, the data cache and the edit draft, and returns
//! the asynchronous operations to launch in response.  The whole behaviour
//! is the spec transition [`spec_update`]: `update` promises to perform
//! exactly that transition.

use vstd::prelude::*;

use crate::cache::{group_view, CacheView, DataCache, ItemGroupView};
use crate::data::{
    GetItemsResponse, GetItemsView, LoginResult, LoginResultView, RpcCallResult, RpcCallView,
    ShelfInfoView, Shelves, TabId, TabView, Token,
};
use crate::edit::{spec_pick_shelf, spec_set_count, spec_set_name, spec_submit, EditTarget,
    EditView, SubmitOutcome, SubmitView};
use crate::session::{spec_login_error_text, login_error_text, Session, SessionView};
use crate::workspace::{ws_init, ws_step, Workspace, WorkspaceOp, WorkspaceView};

verus! {

/// An event entering the dispatcher: user input, or the result of an
/// asynchronous operation launched earlier.
#[derive(Debug)]
pub enum Message {
    LoginButtonClicked,
    RegisterButtonClicked,
    UsernameInputChanged(String),
    PasswordInputChanged(String),
    Authenticated(Result<Token, LoginResult>),
    TabSelected(TabId),
    CloseShelf(TabId),
    OpenShelf(TabId),
    StartEditing(EditTarget),
    StopEditing,
    UpdatedShelves(Result<Shelves, RpcCallResult>),
    UpdateShelves(Option<String>),
    UpdateItems(Option<String>),
    UpdatedItems(Result<GetItemsResponse, RpcCallResult>),
    SlotPicked(String),
    CreateTarget,
    ShelfSlotCountInputChanged(String),
    CreateObjectNameInputChanged(String),
}

/// Mathematical value of a [`Message`].
#[verifier::ext_equal]
pub enum MessageView {
    LoginButtonClicked,
    RegisterButtonClicked,
    UsernameInputChanged(Seq<char>),
    PasswordInputChanged(Seq<char>),
    Authenticated(Result<Seq<char>, LoginResultView>),
    TabSelected(TabView),
    CloseShelf(TabView),
    OpenShelf(TabView),
    StartEditing(EditView),
    StopEditing,
    UpdatedShelves(Result<Seq<ShelfInfoView>, RpcCallView>),
    UpdateShelves(Option<Seq<char>>),
    UpdateItems(Option<Seq<char>>),
    UpdatedItems(Result<GetItemsView, RpcCallView>),
    SlotPicked(Seq<char>),
    CreateTarget,
    ShelfSlotCountInputChanged(Seq<char>),
    CreateObjectNameInputChanged(Seq<char>),
}

impl DeepView for Message {
    type V = MessageView;

    open spec fn deep_view(&self) -> MessageView {
        match self {
            Message::LoginButtonClicked => MessageView::LoginButtonClicked,
            Message::RegisterButtonClicked => MessageView::RegisterButtonClicked,
            Message::UsernameInputChanged(s) => MessageView::UsernameInputChanged(s@),
            Message::PasswordInputChanged(s) => MessageView::PasswordInputChanged(s@),
            Message::Authenticated(r) => MessageView::Authenticated(
                match r {
                    Ok(t) => Ok(t.deep_view()),
                    Err(e) => Err(e.deep_view()),
                },
            ),
            Message::TabSelected(t) => MessageView::TabSelected(t@),
            Message::CloseShelf(t) => MessageView::CloseShelf(t@),
            Message::OpenShelf(t) => MessageView::OpenShelf(t@),
            Message::StartEditing(e) => MessageView::StartEditing(e@),
            Message::StopEditing => MessageView::StopEditing,
            Message::UpdatedShelves(r) => MessageView::UpdatedShelves(
                match r {
                    Ok(s) => Ok(s.deep_view()),
                    Err(e) => Err(e.deep_view()),
                },
            ),
            Message::UpdateShelves(s) => MessageView::UpdateShelves(s.deep_view()),
            Message::UpdateItems(s) => MessageView::UpdateItems(s.deep_view()),
            Message::UpdatedItems(r) => MessageView::UpdatedItems(
                match r {
                    Ok(i) => Ok(i.deep_view()),
                    Err(e) => Err(e.deep_view()),
                },
            ),
            Message::SlotPicked(s) => MessageView::SlotPicked(s@),
            Message::CreateTarget => MessageView::CreateTarget,
            Message::ShelfSlotCountInputChanged(s) => MessageView::ShelfSlotCountInputChanged(s@),
            Message::CreateObjectNameInputChanged(s) => MessageView::CreateObjectNameInputChanged(
                s@,
            ),
        }
    }
}

/// An asynchronous operation the dispatcher asks its driver to launch.  The
/// driver performs it and feeds the outcome back as a [`Message`].
#[derive(Debug)]
pub enum Action {
    /// Run a login flow (registering first if asked) with these
    /// credentials against the configured address; the outcome re-enters
    /// as `Message::Authenticated`.
    Login { username: String, password: String, register_first: bool },
    /// Fetch the shelf list, optionally scoped; the outcome re-enters as
    /// `Message::UpdatedShelves`.
    FetchShelves { shelf_id: Option<String>, username: String, token: String },
    /// Fetch items, optionally scoped to one shelf; the outcome re-enters
    /// as `Message::UpdatedItems`.
    FetchItems { shelf_id: Option<String>, username: String, token: String },
    /// Create a shelf; on completion an unscoped shelf refresh re-enters
    /// as `Message::UpdateShelves(None)`.
    CreateShelf { shelf_id: String, slot_count: u32, username: String, token: String },
    /// Create an item; on completion a refresh scoped to its shelf
    /// re-enters as `Message::UpdateItems(Some(shelf_id))`.
    CreateItem { shelf_id: String, item_name: String, count: u32, username: String, token: String },
    /// Visit a tab: re-enters as `Message::TabSelected`.
    SelectTab(TabId),
}

/// Mathematical value of an [`Action`].
#[verifier::ext_equal]
pub enum ActionView {
    Login { username: Seq<char>, password: Seq<char>, register_first: bool },
    FetchShelves { shelf_id: Option<Seq<char>>, username: Seq<char>, token: Seq<char> },
    FetchItems { shelf_id: Option<Seq<char>>, username: Seq<char>, token: Seq<char> },
    CreateShelf { shelf_id: Seq<char>, slot_count: u32, username: Seq<char>, token: Seq<char> },
    CreateItem {
        shelf_id: Seq<char>,
        item_name: Seq<char>,
        count: u32,
        username: Seq<char>,
        token: Seq<char>,
    },
    SelectTab(TabView),
}

impl DeepView for Action {
    type V = ActionView;

    open spec fn deep_view(&self) -> ActionView {
        match self {
            Action::Login { username, password, register_first } => ActionView::Login {
                username: username@,
                password: password@,
                register_first: *register_first,
            },
            Action::FetchShelves { shelf_id, username, token } => ActionView::FetchShelves {
                shelf_id: shelf_id.deep_view(),
                username: username@,
                token: token@,
            },
            Action::FetchItems { shelf_id, username, token } => ActionView::FetchItems {
                shelf_id: shelf_id.deep_view(),
                username: username@,
                token: token@,
            },
            Action::CreateShelf { shelf_id, slot_count, username, token } => {
                ActionView::CreateShelf {
                    shelf_id: shelf_id@,
                    slot_count: *slot_count,
                    username: username@,
                    token: token@,
                }
            },
            Action::CreateItem { shelf_id, item_name, count, username, token } => {
                ActionView::CreateItem {
                    shelf_id: shelf_id@,
                    item_name: item_name@,
                    count: *count,
                    username: username@,
                    token: token@,
                }
            },
            Action::SelectTab(t) => ActionView::SelectTab(t@),
        }
    }
}

/// Mathematical state of the whole client.
#[verifier::ext_equal]
pub struct ClientView {
    pub username: Seq<char>,
    pub session: SessionView,
    pub workspace: WorkspaceView,
    pub edit: Option<EditView>,
    pub cache: CacheView,
}

impl ClientView {
    /// The token of an authenticated session.
    pub open spec fn token(self) -> Seq<char> {
        match self.session {
            SessionView::Authenticated { token } => token,
            _ => Seq::empty(),
        }
    }

    /// The cache keeps one entry per shelf.
    pub open spec fn inv(self) -> bool {
        self.cache.wf()
    }
}

/// The refresh an arriving tab asks for: the shelf list for `AllShelves`,
/// the full item mapping for `AllItems`, one shelf's items for a shelf tab.
pub open spec fn spec_refresh_action(t: TabView, username: Seq<char>, token: Seq<char>)
    -> ActionView {
    match t {
        TabView::AllShelves => ActionView::FetchShelves { shelf_id: None, username, token },
        TabView::AllItems => ActionView::FetchItems { shelf_id: None, username, token },
        TabView::ShelfView(sid) => ActionView::FetchItems { shelf_id: Some(sid), username, token },
    }
}

/// When the dispatcher accepts a message: events that launch a data fetch
/// or a mutation need an authenticated session, because the calls carry the
/// session's token.
pub open spec fn spec_update_enabled(c: ClientView, m: MessageView) -> bool {
    match m {
        MessageView::TabSelected(_) => c.session is Authenticated,
        MessageView::UpdateShelves(_) => c.session is Authenticated,
        MessageView::UpdateItems(_) => c.session is Authenticated,
        MessageView::CreateTarget => match c.edit {
            Some(e) => (spec_submit(e).1 is CreateShelf || spec_submit(e).1 is CreateItem)
                ==> c.session is Authenticated,
            None => true,
        },
        _ => true,
    }
}

/// What one event does: the client state afterwards, and the operations to
/// launch.  This is the dispatcher's whole specification; the pieces are
/// the component transitions it composes.
pub open spec fn spec_update(c: ClientView, m: MessageView) -> (ClientView, Seq<ActionView>) {
    match m {
        MessageView::UsernameInputChanged(s) => (
            if c.session is Unauthenticated {
                ClientView { username: s, ..c }
            } else {
                c
            },
            Seq::empty(),
        ),
        MessageView::PasswordInputChanged(s) => (
            match c.session {
                SessionView::Unauthenticated { password, error_message } => ClientView {
                    session: SessionView::Unauthenticated { password: s, error_message },
                    ..c
                },
                _ => c,
            },
            Seq::empty(),
        ),
        MessageView::LoginButtonClicked => spec_login_clicked(c, false),
        MessageView::RegisterButtonClicked => spec_login_clicked(c, true),
        MessageView::Authenticated(r) => match r {
            Ok(token) => match c.session {
                SessionView::Authenticating => (
                    ClientView { session: SessionView::Authenticated { token }, ..c },
                    seq![
                        ActionView::FetchShelves {
                            shelf_id: None,
                            username: c.username,
                            token,
                        },
                    ],
                ),
                SessionView::Authenticated { .. } => (
                    ClientView { session: SessionView::Authenticated { token }, ..c },
                    Seq::empty(),
                ),
                SessionView::Unauthenticated { .. } => (c, Seq::empty()),
            },
            Err(e) => (
                ClientView {
                    username: Seq::empty(),
                    session: SessionView::Unauthenticated {
                        password: Seq::empty(),
                        error_message: Some(spec_login_error_text(e)),
                    },
                    ..c
                },
                Seq::empty(),
            ),
        },
        MessageView::TabSelected(t) => (
            ClientView { workspace: ws_step(c.workspace, WorkspaceOp::Navigate(t)), ..c },
            seq![spec_refresh_action(t, c.username, c.token())],
        ),
        MessageView::OpenShelf(t) => (
            ClientView { workspace: ws_step(c.workspace, WorkspaceOp::Open(t)), ..c },
            seq![ActionView::SelectTab(t)],
        ),
        MessageView::CloseShelf(t) => (
            ClientView { workspace: ws_step(c.workspace, WorkspaceOp::Close(t)), ..c },
            Seq::empty(),
        ),
        MessageView::StartEditing(e) => (ClientView { edit: Some(e), ..c }, Seq::empty()),
        MessageView::StopEditing => (ClientView { edit: None, ..c }, Seq::empty()),
        MessageView::SlotPicked(s) => (
            match c.edit {
                Some(e) => ClientView { edit: Some(spec_pick_shelf(e, s)), ..c },
                None => c,
            },
            Seq::empty(),
        ),
        MessageView::ShelfSlotCountInputChanged(s) => (
            match c.edit {
                Some(e) => ClientView { edit: Some(spec_set_count(e, s)), ..c },
                None => c,
            },
            Seq::empty(),
        ),
        MessageView::CreateObjectNameInputChanged(s) => (
            match c.edit {
                Some(e) => ClientView { edit: Some(spec_set_name(e, s)), ..c },
                None => c,
            },
            Seq::empty(),
        ),
        MessageView::CreateTarget => match c.edit {
            None => (c, Seq::empty()),
            Some(e) => {
                let c2 = ClientView { edit: spec_submit(e).0, ..c };
                match spec_submit(e).1 {
                    SubmitView::CreateShelf { shelf_id, slot_count } => (
                        c2,
                        seq![
                            ActionView::CreateShelf {
                                shelf_id,
                                slot_count,
                                username: c.username,
                                token: c.token(),
                            },
                        ],
                    ),
                    SubmitView::CreateItem { shelf_id, item_name, count } => (
                        c2,
                        seq![
                            ActionView::CreateItem {
                                shelf_id,
                                item_name,
                                count,
                                username: c.username,
                                token: c.token(),
                            },
                        ],
                    ),
                    _ => (c2, Seq::empty()),
                }
            },
        },
        MessageView::UpdateShelves(shelf_id) => (
            c,
            seq![
                ActionView::FetchShelves { shelf_id, username: c.username, token: c.token() },
            ],
        ),
        MessageView::UpdateItems(shelf_id) => (
            c,
            seq![
                ActionView::FetchItems { shelf_id, username: c.username, token: c.token() },
            ],
        ),
        MessageView::UpdatedShelves(r) => (
            match r {
                Ok(shelves) => ClientView {
                    cache: CacheView { shelves, groups: c.cache.groups },
                    ..c
                },
                Err(_) => c,
            },
            Seq::empty(),
        ),
        MessageView::UpdatedItems(r) => (
            match r {
                Ok(GetItemsView::ShelfItems(sid, items)) => ClientView {
                    cache: CacheView {
                        shelves: c.cache.shelves,
                        groups: if c.cache.has_group(sid) {
                            c.cache.groups.update(
                                c.cache.group_index(sid),
                                (ItemGroupView { shelf_id: sid, items }),
                            )
                        } else {
                            c.cache.groups.push((ItemGroupView { shelf_id: sid, items }))
                        },
                    },
                    ..c
                },
                Ok(GetItemsView::AllItems(items)) => ClientView {
                    cache: CacheView { shelves: c.cache.shelves, groups: group_view(items) },
                    ..c
                },
                Err(_) => c,
            },
            Seq::empty(),
        ),
    }
}

/// What clicking login (or register-and-login) does: only an
/// unauthenticated session starts a flow, which carries the credential
/// drafts; the session turns `Authenticating`.
pub open spec fn spec_login_clicked(c: ClientView, register_first: bool) -> (
    ClientView,
    Seq<ActionView>,
) {
    match c.session {
        SessionView::Unauthenticated { password, .. } => (
            ClientView { session: SessionView::Authenticating, ..c },
            seq![
                ActionView::Login { username: c.username, password, register_first },
            ],
        ),
        _ => (c, Seq::empty()),
    }
}

/// No event can unseat the singleton tabs or register a tab twice: every
/// dispatcher transition keeps the workspace registry well formed.
pub proof fn lemma_update_keeps_workspace_wf(c: ClientView, m: MessageView)
    requires
        c.workspace.wf(),
    ensures
        spec_update(c, m).0.workspace.wf(),
{
    match m {
        MessageView::TabSelected(t) => {
            crate::workspace::lemma_ws_step_wf(c.workspace, WorkspaceOp::Navigate(t));
        },
        MessageView::OpenShelf(t) => {
            crate::workspace::lemma_ws_step_wf(c.workspace, WorkspaceOp::Open(t));
        },
        MessageView::CloseShelf(t) => {
            crate::workspace::lemma_ws_step_wf(c.workspace, WorkspaceOp::Close(t));
        },
        _ => {
        },
    }
}

/// A failed login attempt, whenever its result arrives, clears the
/// password and username drafts and surfaces a non-empty message (provided
/// a server rejection carries a non-empty rendering), and launches
/// nothing.
pub proof fn lemma_failed_login_clears_drafts(c: ClientView, e: LoginResultView)
    requires
        e matches LoginResultView::ServerError(s) ==> s.len() > 0,
    ensures
        spec_update(c, MessageView::Authenticated(Err(e))).0.username.len() == 0,
        spec_update(c, MessageView::Authenticated(Err(e))).0.session matches
            SessionView::Unauthenticated { password, error_message } && password.len() == 0
            && (error_message matches Some(m) && m.len() > 0),
        spec_update(c, MessageView::Authenticated(Err(e))).1 == Seq::<ActionView>::empty(),
{
    reveal_strlit("could not connect");
    reveal_strlit("failed to register");
}

/// A successful login, arriving while the exchange is awaited, enters the
/// authenticated state with the received token and launches exactly one
/// unscoped shelf-list refresh carrying it.
pub proof fn lemma_successful_login(c: ClientView, token: Seq<char>)
    requires
        c.session is Authenticating,
    ensures
        spec_update(c, MessageView::Authenticated(Ok(token))).0.session
            == (SessionView::Authenticated { token }),
        spec_update(c, MessageView::Authenticated(Ok(token))).1 == seq![
            ActionView::FetchShelves { shelf_id: None, username: c.username, token },
        ],
{
}

/// The whole client: all state, and the dispatcher that owns it.
pub struct ClientState {
    username: String,
    session: Session,
    workspace: Workspace,
    edit_item: Option<EditTarget>,
    cache: DataCache,
}

impl View for ClientState {
    type V = ClientView;

    closed spec fn view(&self) -> ClientView {
        ClientView {
            username: self.username@,
            session: self.session@,
            workspace: self.workspace@,
            edit: self.edit_item.deep_view(),
            cache: self.cache@,
        }
    }
}

impl ClientState {
    /// The client at startup: no credentials, logged out, the two
    /// singleton tabs open, nothing cached, nothing being edited.
    pub fn new() -> (c: ClientState)
        ensures
            c@.username == Seq::<char>::empty(),
            c@.session == (SessionView::Unauthenticated {
                password: Seq::<char>::empty(),
                error_message: None::<Seq<char>>,
            }),
            c@.workspace == ws_init(),
            c@.edit is None,
            c@.cache.shelves == Seq::<ShelfInfoView>::empty(),
            c@.cache.groups == Seq::<ItemGroupView>::empty(),
            c@.inv(),
    {
        ClientState {
            username: String::new(),
            session: Session::Unauthenticated { password: String::new(), error_message: None },
            workspace: Workspace::new(),
            edit_item: None,
            cache: DataCache::new(),
        }
    }

    /// The window title.
    pub fn title(&self) -> (t: String)
        ensures
            t@ == "SIMS Inventory Management System"@,
    {
        String::from_str("SIMS Inventory Management System")
    }

    /// Apply one event and decide what to launch; exactly the transition
    /// [`spec_update`].
    pub fn update(&mut self, message: Message) -> (actions: Vec<Action>)
        requires
            spec_update_enabled(old(self)@, message.deep_view()),
            old(self)@.inv(),
        ensures
            final(self)@ == spec_update(old(self)@, message.deep_view()).0,
            actions.deep_view() == spec_update(old(self)@, message.deep_view()).1,
            final(self)@.inv(),
    {
        let ghost pre = self@;
        let ghost mv = message.deep_view();
        let mut actions: Vec<Action> = Vec::new();
        match message {
            Message::UsernameInputChanged(s) => {
                match &self.session {
                    Session::Unauthenticated { .. } => {
                        self.username = s;
                    },
                    _ => {
                    },
                }
            },
            Message::PasswordInputChanged(s) => {
                match &self.session {
                    Session::Unauthenticated { password: _, error_message } => {
                        let err = match error_message {
                            None => None,
                            Some(e) => Some(e.clone()),
                        };
                        self.session = Session::Unauthenticated { password: s, error_message: err };
                    },
                    _ => {
                    },
                }
            },
            Message::LoginButtonClicked => {
                let a = self.login_clicked(false);
                match a {
                    Some(action) => {
                        actions.push(action);
                    },
                    None => {
                    },
                }
            },
            Message::RegisterButtonClicked => {
                let a = self.login_clicked(true);
                match a {
                    Some(action) => {
                        actions.push(action);
                    },
                    None => {
                    },
                }
            },
            Message::Authenticated(result) => {
                match result {
                    Ok(token) => {
                        match &self.session {
                            Session::Authenticating => {
                                let t = token.token.clone();
                                self.session = Session::Authenticated { token: token.token };
                                actions.push(
                                    Action::FetchShelves {
                                        shelf_id: None,
                                        username: self.username.clone(),
                                        token: t,
                                    },
                                );
                            },
                            Session::Authenticated { .. } => {
                                self.session = Session::Authenticated { token: token.token };
                            },
                            Session::Unauthenticated { .. } => {
                            },
                        }
                    },
                    Err(e) => {
                        let text = login_error_text(&e);
                        self.username = String::new();
                        self.session = Session::Unauthenticated {
                            password: String::new(),
                            error_message: Some(text),
                        };
                    },
                }
            },
            Message::TabSelected(tab) => {
                let username = self.username.clone();
                let token = self.token_clone();
                let refresh = match &tab {
                    TabId::AllShelves => Action::FetchShelves { shelf_id: None, username, token },
                    TabId::AllItems => Action::FetchItems { shelf_id: None, username, token },
                    TabId::ShelfView(sid) => Action::FetchItems {
                        shelf_id: Some(sid.clone()),
                        username,
                        token,
                    },
                };
                self.workspace.navigate_to(tab);
                actions.push(refresh);
            },
            Message::OpenShelf(tab) => {
                let again = tab.clone();
                self.workspace.open(tab);
                actions.push(Action::SelectTab(again));
            },
            Message::CloseShelf(tab) => {
                self.workspace.close(&tab);
            },
            Message::StartEditing(target) => {
                self.edit_item = Some(target);
            },
            Message::StopEditing => {
                self.edit_item = None;
            },
            Message::SlotPicked(s) => {
                let next = match &self.edit_item {
                    Some(t) => Some(t.with_picked_shelf(s)),
                    None => None,
                };
                self.edit_item = next;
            },
            Message::ShelfSlotCountInputChanged(s) => {
                let next = match &self.edit_item {
                    Some(t) => Some(t.with_count_draft(s)),
                    None => None,
                };
                self.edit_item = next;
            },
            Message::CreateObjectNameInputChanged(s) => {
                let next = match &self.edit_item {
                    Some(t) => Some(t.with_name_draft(s)),
                    None => None,
                };
                self.edit_item = next;
            },
            Message::CreateTarget => {
                match &self.edit_item {
                    None => {
                    },
                    Some(target) => {
                        let (next, outcome) = target.submit();
                        self.edit_item = next;
                        match outcome {
                            SubmitOutcome::CreateShelf { shelf_id, slot_count } => {
                                let username = self.username.clone();
                                let token = self.token_clone();
                                actions.push(
                                    Action::CreateShelf { shelf_id, slot_count, username, token },
                                );
                            },
                            SubmitOutcome::CreateItem { shelf_id, item_name, count } => {
                                let username = self.username.clone();
                                let token = self.token_clone();
                                actions.push(
                                    Action::CreateItem {
                                        shelf_id,
                                        item_name,
                                        count,
                                        username,
                                        token,
                                    },
                                );
                            },
                            SubmitOutcome::Rejected => {
                            },
                            SubmitOutcome::NotSubmittable => {
                            },
                        }
                    },
                }
            },
            Message::UpdateShelves(shelf_id) => {
                let username = self.username.clone();
                let token = self.token_clone();
                actions.push(Action::FetchShelves { shelf_id, username, token });
            },
            Message::UpdateItems(shelf_id) => {
                let username = self.username.clone();
                let token = self.token_clone();
                actions.push(Action::FetchItems { shelf_id, username, token });
            },
            Message::UpdatedShelves(result) => {
                match result {
                    Ok(shelves) => {
                        self.cache.set_shelves(shelves.shelves);
                    },
                    Err(_) => {
                    },
                }
            },
            Message::UpdatedItems(result) => {
                match result {
                    Ok(GetItemsResponse::ShelfItems(sid, items)) => {
                        self.cache.set_shelf_items(sid, items.items);
                    },
                    Ok(GetItemsResponse::AllItems(items)) => {
                        self.cache.replace_all_items(items.items);
                    },
                    Err(_) => {
                    },
                }
            },
        }
        proof {
            assert(self@ =~= spec_update(pre, mv).0);
            assert(actions.deep_view() =~= spec_update(pre, mv).1);
        }
        actions
    }

    /// The registered tabs, in insertion order (for rendering).
    pub fn tabs(&self) -> (v: Vec<TabId>)
        ensures
            v.deep_view() == self@.workspace.tabs,
    {
        self.workspace.tabs_in_order()
    }

    /// The currently rendered tab.
    pub fn current_tab(&self) -> (t: TabId)
        ensures
            t@ == self@.workspace.current(),
    {
        self.workspace.current()
    }

    /// The session, for rendering.
    pub fn session(&self) -> (s: &Session)
        ensures
            s@ == self@.session,
    {
        &self.session
    }

    /// The username draft, for rendering.
    pub fn username(&self) -> (u: &String)
        ensures
            u@ == self@.username,
    {
        &self.username
    }

    /// The edit draft, for rendering.
    pub fn edit_target(&self) -> (e: &Option<EditTarget>)
        ensures
            e.deep_view() == self@.edit,
    {
        &self.edit_item
    }

    /// The cache, for rendering.
    pub fn cache(&self) -> (c: &DataCache)
        ensures
            c@ == self@.cache,
    {
        &self.cache
    }

    /// Clicking login (or register-and-login): see [`spec_login_clicked`].
    fn login_clicked(&mut self, register_first: bool) -> (a: Option<Action>)
        ensures
            final(self)@ == spec_login_clicked(old(self)@, register_first).0,
            match a {
                Some(action) => spec_login_clicked(old(self)@, register_first).1 == seq![
                    action.deep_view(),
                ],
                None => spec_login_clicked(old(self)@, register_first).1 == Seq::<
                    ActionView,
                >::empty(),
            },
    {
        match &self.session {
            Session::Unauthenticated { password, .. } => {
                let action = Action::Login {
                    username: self.username.clone(),
                    password: password.clone(),
                    register_first,
                };
                self.session = Session::Authenticating;
                proof {
                    assert(self@ =~= spec_login_clicked(old(self)@, register_first).0);
                }
                Some(action)
            },
            _ => None,
        }
    }

    /// The token of the authenticated session.
    fn token_clone(&self) -> (t: String)
        requires
            self@.session is Authenticated,
        ensures
            t@ == self@.token(),
    {
        match &self.session {
            Session::Authenticated { token } => token.clone(),
            _ => vstd::pervasive::unreached(),
        }
    }
}

} // verus!
