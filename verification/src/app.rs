//! Application state machine and view controller: owns the current view, the
//! session token, the catalog snapshots and the focused selections, routes
//! each drained result to exactly the matching snapshot slot, and decides the
//! requests that user actions and the auto-login step emit.

use vstd::prelude::*;
use crate::bridge::{PendingRequest, RequestResult, TwitchMessage};
use crate::twitch::{error_text, Stream, TwitchCategory};

verus! {

/// The screens the client can show.
#[derive(Clone, Copy, Debug, PartialEq, Eq, Structural)]
pub enum AppView {
    Login,
    Categories,
    Streams,
    FollowedLive,
    Settings,
    CategoryView,
}

/// A side-panel selection.
#[derive(Clone, Copy, Debug, PartialEq, Eq, Structural)]
pub enum MenuChoice {
    Categories,
    Streams,
    FollowedLive,
    Settings,
    Logout,
}

/// The single-writer state record of the render loop: the session token, the
/// per-frame flags, the current view, the error banner, the catalog snapshots
/// (each independently "not yet fetched"), and the focused selections.
pub struct App {
    pub token: String,
    pub login_pending: bool,
    pub current_view: AppView,
    pub error_message: Option<String>,
    pub categories: Option<Vec<TwitchCategory>>,
    pub streams: Option<Vec<Stream>>,
    pub followed_streams: Option<Vec<Stream>>,
    pub focused_stream: Option<Stream>,
    pub focused_category: Option<TwitchCategory>,
    pub focused_category_streams: Option<Vec<Stream>>,
}

/// Every catalog snapshot slot is empty: nothing fetched survives.
pub open spec fn snapshots_empty(app: App) -> bool {
    &&& app.categories is None
    &&& app.streams is None
    &&& app.followed_streams is None
    &&& app.focused_category_streams is None
}

/// Both focused selections are cleared.
pub open spec fn selection_cleared(app: App) -> bool {
    &&& app.focused_stream is None
    &&& app.focused_category is None
}

/// A result that carries a successfully fetched catalog payload. Applying one
/// fills its snapshot slot; every other result leaves all slots as they were.
pub open spec fn is_successful_fetch(r: RequestResult) -> bool {
    match r {
        RequestResult::LoginResult(_) => false,
        RequestResult::TopCategoriesResult(res) => res is Ok,
        RequestResult::StreamsResult(res) => res is Ok,
        RequestResult::FollowedStreamsResult(res) => res is Ok,
        RequestResult::CategoryStreamsResult(res) => res is Ok,
    }
}

impl App {
    /// Fresh state at startup: the saved token (empty when none was saved),
    /// the auto-login step armed, the login view, and nothing fetched.
    pub fn new(saved_token: Option<String>) -> (app: App)
        ensures
            saved_token matches Some(t) ==> app.token == t,
            saved_token is None ==> app.token@ == Seq::<char>::empty(),
            app.login_pending,
            app.current_view is Login,
            app.error_message is None,
            snapshots_empty(app),
            selection_cleared(app),
    {
        let token = match saved_token {
            Some(t) => t,
            None => String::new(),
        };
        App {
            token,
            login_pending: true,
            current_view: AppView::Login,
            error_message: None,
            categories: None,
            streams: None,
            followed_streams: None,
            focused_stream: None,
            focused_category: None,
            focused_category_streams: None,
        }
    }

    /// Logout is a full reset: the token is cleared, every snapshot slot and
    /// both focused selections are emptied, and the view returns to Login.
    /// Only the error banner outlives it.
    pub fn logout(&mut self)
        ensures
            final(self).token@ == Seq::<char>::empty(),
            !final(self).login_pending,
            final(self).current_view is Login,
            snapshots_empty(*final(self)),
            selection_cleared(*final(self)),
            final(self).error_message == old(self).error_message,
    {
        self.token = String::new();
        self.login_pending = false;
        self.current_view = AppView::Login;
        self.categories = None;
        self.streams = None;
        self.followed_streams = None;
        self.focused_stream = None;
        self.focused_category = None;
        self.focused_category_streams = None;
    }

    /// One step of the frame's auto-login: on the first frame with a saved,
    /// non-empty token it emits a login check carrying that token; either way
    /// the pending flag is lowered, so the step runs at most once per start.
    pub fn poll_auto_login(&mut self) -> (req: Option<TwitchMessage>)
        ensures
            *final(self) == (App { login_pending: false, ..*old(self) }),
            (old(self).login_pending && old(self).token@.len() != 0) ==> req == Some(
                TwitchMessage {
                    token: Some(old(self).token),
                    opt: PendingRequest::LoginCheck,
                },
            ),
            !(old(self).login_pending && old(self).token@.len() != 0) ==> req is None,
    {
        let fire = self.login_pending && !self.token.as_str().is_empty();
        self.login_pending = false;
        if fire {
            Some(TwitchMessage { token: Some(self.token.clone()), opt: PendingRequest::LoginCheck })
        } else {
            None
        }
    }

    /// The streams request under the current token, first page.
    pub fn request_streams(&self) -> (msg: TwitchMessage)
        ensures
            msg == (TwitchMessage { token: Some(self.token), opt: PendingRequest::GetStreams(None) }),
    {
        TwitchMessage { token: Some(self.token.clone()), opt: PendingRequest::GetStreams(None) }
    }

    /// The top-categories request under the current token, first page.
    pub fn request_categories(&self) -> (msg: TwitchMessage)
        ensures
            msg == (TwitchMessage {
                token: Some(self.token),
                opt: PendingRequest::GetTopCategories(None),
            }),
    {
        TwitchMessage {
            token: Some(self.token.clone()),
            opt: PendingRequest::GetTopCategories(None),
        }
    }

    /// The followed-streams request under the current token.
    pub fn request_followed(&self) -> (msg: TwitchMessage)
        ensures
            msg == (TwitchMessage {
                token: Some(self.token),
                opt: PendingRequest::GetFollowedStreams,
            }),
    {
        TwitchMessage { token: Some(self.token.clone()), opt: PendingRequest::GetFollowedStreams }
    }

    /// The explicit login request for the token currently in the text box.
    pub fn request_login(&self) -> (msg: TwitchMessage)
        ensures
            msg == (TwitchMessage { token: Some(self.token), opt: PendingRequest::LoginCheck }),
    {
        TwitchMessage { token: Some(self.token.clone()), opt: PendingRequest::LoginCheck }
    }

    /// A side-panel selection: sets the chosen view and emits the matching
    /// fetch request under the current token. Settings changes only the view;
    /// Logout performs the full reset and emits nothing.
    pub fn menu_select(&mut self, choice: MenuChoice) -> (req: Option<TwitchMessage>)
        ensures
            choice is Categories ==> *final(self) == (App {
                current_view: AppView::Categories,
                ..*old(self)
            }) && req == Some(
                TwitchMessage {
                    token: Some(old(self).token),
                    opt: PendingRequest::GetTopCategories(None),
                },
            ),
            choice is Streams ==> *final(self) == (App {
                current_view: AppView::Streams,
                ..*old(self)
            }) && req == Some(
                TwitchMessage {
                    token: Some(old(self).token),
                    opt: PendingRequest::GetStreams(None),
                },
            ),
            choice is FollowedLive ==> *final(self) == (App {
                current_view: AppView::FollowedLive,
                ..*old(self)
            }) && req == Some(
                TwitchMessage {
                    token: Some(old(self).token),
                    opt: PendingRequest::GetFollowedStreams,
                },
            ),
            choice is Settings ==> *final(self) == (App {
                current_view: AppView::Settings,
                ..*old(self)
            }) && req is None,
            choice is Logout ==> {
                &&& final(self).token@ == Seq::<char>::empty()
                &&& !final(self).login_pending
                &&& final(self).current_view is Login
                &&& snapshots_empty(*final(self))
                &&& selection_cleared(*final(self))
                &&& final(self).error_message == old(self).error_message
                &&& req is None
            },
    {
        match choice {
            MenuChoice::Categories => {
                self.current_view = AppView::Categories;
                Some(self.request_categories())
            },
            MenuChoice::Streams => {
                self.current_view = AppView::Streams;
                Some(self.request_streams())
            },
            MenuChoice::FollowedLive => {
                self.current_view = AppView::FollowedLive;
                Some(self.request_followed())
            },
            MenuChoice::Settings => {
                self.current_view = AppView::Settings;
                None
            },
            MenuChoice::Logout => {
                self.logout();
                None
            },
        }
    }

    /// Selecting a category: enter the category-detail view focused on it,
    /// drop the stale category-streams snapshot, and emit the matching
    /// category-streams fetch under the current token.
    pub fn select_category(&mut self, category: TwitchCategory) -> (msg: TwitchMessage)
        ensures
            *final(self) == (App {
                current_view: AppView::CategoryView,
                focused_category: Some(category),
                focused_category_streams: None,
                ..*old(self)
            }),
            msg == (TwitchMessage {
                token: Some(old(self).token),
                opt: PendingRequest::GetCategoryStreams(category.id),
            }),
    {
        let id = category.id.clone();
        self.current_view = AppView::CategoryView;
        self.focused_category = Some(category);
        self.focused_category_streams = None;
        TwitchMessage { token: Some(self.token.clone()), opt: PendingRequest::GetCategoryStreams(id) }
    }

    /// Opening a stream's side panel.
    pub fn focus_stream(&mut self, stream: Stream)
        ensures
            *final(self) == (App { focused_stream: Some(stream), ..*old(self) }),
    {
        self.focused_stream = Some(stream);
    }

    /// Closing the stream side panel.
    pub fn close_stream(&mut self)
        ensures
            *final(self) == (App { focused_stream: None, ..*old(self) }),
    {
        self.focused_stream = None;
    }

    /// Per-frame self-healing: rendering the category-detail view with no
    /// selected category always forces the view back to Categories; any other
    /// state is left untouched.
    pub fn heal_view(&mut self)
        ensures
            (old(self).current_view is CategoryView && old(self).focused_category is None)
                ==> *final(self) == (App { current_view: AppView::Categories, ..*old(self) }),
            !(old(self).current_view is CategoryView && old(self).focused_category is None)
                ==> *final(self) == *old(self),
    {
        if matches!(self.current_view, AppView::CategoryView) && self.focused_category.is_none() {
            self.current_view = AppView::Categories;
        }
    }

    /// Routes one drained result. Each variant updates exactly the matching
    /// snapshot slot; a failed payload touches only the error banner; a login
    /// result is honoured only in the Login view, where success clears the
    /// banner, moves to FollowedLive and emits the follow-up followed-streams
    /// fetch. A reset state stays reset under every result that is not a
    /// successful fetch — and only a successful pre-logout fetch, applied
    /// late, can fill a slot again.
    pub fn apply_result(&mut self, r: RequestResult) -> (follow: Option<TwitchMessage>)
        ensures
            r matches RequestResult::LoginResult(ok) ==> (if old(self).current_view is Login {
                if ok {
                    *final(self) == (App {
                        current_view: AppView::FollowedLive,
                        error_message: None,
                        ..*old(self)
                    }) && follow == Some(
                        TwitchMessage {
                            token: Some(old(self).token),
                            opt: PendingRequest::GetFollowedStreams,
                        },
                    )
                } else {
                    (final(self).error_message matches Some(m) && m@ == "login failed"@)
                        && *final(self) == (App {
                        error_message: final(self).error_message,
                        ..*old(self)
                    }) && follow is None
                }
            } else {
                *final(self) == *old(self) && follow is None
            }),
            r matches RequestResult::TopCategoriesResult(res) ==> (match res {
                Ok(items) => *final(self) == (App { categories: Some(items), ..*old(self) }),
                Err(e) => (final(self).error_message matches Some(m) && m@ == error_text(e))
                    && *final(self) == (App {
                    error_message: final(self).error_message,
                    ..*old(self)
                }),
            }) && follow is None,
            r matches RequestResult::StreamsResult(res) ==> (match res {
                Ok(items) => *final(self) == (App { streams: Some(items), ..*old(self) }),
                Err(e) => (final(self).error_message matches Some(m) && m@ == error_text(e))
                    && *final(self) == (App {
                    error_message: final(self).error_message,
                    ..*old(self)
                }),
            }) && follow is None,
            r matches RequestResult::FollowedStreamsResult(res) ==> (match res {
                Ok(items) => *final(self) == (App {
                    followed_streams: Some(items),
                    ..*old(self)
                }),
                Err(e) => (final(self).error_message matches Some(m) && m@ == error_text(e))
                    && *final(self) == (App {
                    error_message: final(self).error_message,
                    ..*old(self)
                }),
            }) && follow is None,
            r matches RequestResult::CategoryStreamsResult(res) ==> (match res {
                Ok(items) => *final(self) == (App {
                    focused_category_streams: Some(items),
                    ..*old(self)
                }),
                Err(e) => (final(self).error_message matches Some(m) && m@ == error_text(e))
                    && *final(self) == (App {
                    error_message: final(self).error_message,
                    ..*old(self)
                }),
            }) && follow is None,
            snapshots_empty(*old(self)) && !is_successful_fetch(r) ==> snapshots_empty(
                *final(self),
            ),
    {
        match r {
            RequestResult::LoginResult(ok) => {
                if matches!(self.current_view, AppView::Login) {
                    if ok {
                        self.error_message = None;
                        self.current_view = AppView::FollowedLive;
                        Some(self.request_followed())
                    } else {
                        self.error_message = Some("login failed".to_owned());
                        None
                    }
                } else {
                    None
                }
            },
            RequestResult::TopCategoriesResult(res) => {
                match res {
                    Ok(items) => self.categories = Some(items),
                    Err(e) => self.error_message = Some(e.describe().to_owned()),
                }
                None
            },
            RequestResult::StreamsResult(res) => {
                match res {
                    Ok(items) => self.streams = Some(items),
                    Err(e) => self.error_message = Some(e.describe().to_owned()),
                }
                None
            },
            RequestResult::FollowedStreamsResult(res) => {
                match res {
                    Ok(items) => self.followed_streams = Some(items),
                    Err(e) => self.error_message = Some(e.describe().to_owned()),
                }
                None
            },
            RequestResult::CategoryStreamsResult(res) => {
                match res {
                    Ok(items) => self.focused_category_streams = Some(items),
                    Err(e) => self.error_message = Some(e.describe().to_owned()),
                }
                None
            },
        }
    }
}

} // verus!
