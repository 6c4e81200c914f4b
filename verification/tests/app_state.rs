use streamgui::app::{App, AppView, MenuChoice};
use streamgui::bridge::{PendingRequest, RequestResult, TwitchMessage};
use streamgui::twitch::{Stream, TwitchCategory, TwitchError};

fn fresh_app() -> App {
    App::new(Some("tok".to_owned()))
}

fn a_stream() -> Stream {
    Stream {
        user_name: "alice".to_owned(),
        title: "making things".to_owned(),
    }
}

fn a_category() -> TwitchCategory {
    TwitchCategory {
        id: "509658".to_owned(),
        name: "Just Chatting".to_owned(),
    }
}

#[test]
fn new_app_starts_on_login_with_nothing_fetched() {
    let app = fresh_app();
    assert_eq!(app.token, "tok");
    assert!(app.login_pending);
    assert!(matches!(app.current_view, AppView::Login));
    assert!(app.error_message.is_none());
    assert!(app.categories.is_none());
    assert!(app.streams.is_none());
    assert!(app.followed_streams.is_none());
    assert!(app.focused_stream.is_none());
    assert!(app.focused_category.is_none());
    assert!(app.focused_category_streams.is_none());

    let app2 = App::new(None);
    assert_eq!(app2.token, "");
}

#[test]
fn logout_is_a_full_reset() {
    let mut app = fresh_app();
    app.current_view = AppView::Streams;
    app.categories = Some(vec![a_category()]);
    app.streams = Some(vec![a_stream()]);
    app.followed_streams = Some(vec![a_stream()]);
    app.focused_stream = Some(a_stream());
    app.focused_category = Some(a_category());
    app.focused_category_streams = Some(vec![a_stream()]);

    app.logout();

    assert_eq!(app.token, "");
    assert!(!app.login_pending);
    assert!(matches!(app.current_view, AppView::Login));
    assert!(app.categories.is_none());
    assert!(app.streams.is_none());
    assert!(app.followed_streams.is_none());
    assert!(app.focused_stream.is_none());
    assert!(app.focused_category.is_none());
    assert!(app.focused_category_streams.is_none());
}

#[test]
fn stale_result_after_logout_refills_a_slot() {
    // A request dispatched before logout completes afterwards: the design
    // applies it unconditionally, so the drained result fills the slot again
    // even though the session was fully reset.
    let mut app = fresh_app();
    app.streams = Some(vec![a_stream()]);
    app.logout();
    assert!(app.streams.is_none());

    let stale = RequestResult::StreamsResult(Ok(vec![a_stream()]));
    let follow = app.apply_result(stale);
    assert!(follow.is_none());
    assert_eq!(app.streams, Some(vec![a_stream()]));
}

#[test]
fn non_fetch_results_after_logout_keep_the_reset() {
    let mut app = fresh_app();
    app.categories = Some(vec![a_category()]);
    app.logout();

    // A failed stale fetch touches only the banner; the reset survives.
    let follow = app.apply_result(RequestResult::CategoryStreamsResult(Err(
        TwitchError::ClientError,
    )));
    assert!(follow.is_none());
    assert!(app.categories.is_none());
    assert!(app.streams.is_none());
    assert!(app.followed_streams.is_none());
    assert!(app.focused_category_streams.is_none());
    assert_eq!(app.error_message, Some("client request failed".to_owned()));
}

#[test]
fn category_detail_without_selection_heals_to_categories() {
    let mut app = fresh_app();
    app.current_view = AppView::CategoryView;
    app.focused_category = None;

    app.heal_view();

    assert!(matches!(app.current_view, AppView::Categories));
}

#[test]
fn category_detail_with_selection_stays() {
    let mut app = fresh_app();
    app.current_view = AppView::CategoryView;
    app.focused_category = Some(a_category());

    app.heal_view();

    assert!(matches!(app.current_view, AppView::CategoryView));
}

#[test]
fn auto_login_fires_once_with_saved_token() {
    let mut app = fresh_app();
    let req = app.poll_auto_login();
    assert_eq!(
        req,
        Some(TwitchMessage {
            token: Some("tok".to_owned()),
            opt: PendingRequest::LoginCheck,
        })
    );
    assert!(!app.login_pending);
    assert_eq!(app.poll_auto_login(), None);
}

#[test]
fn auto_login_skips_empty_token() {
    let mut app = App::new(None);
    assert_eq!(app.poll_auto_login(), None);
    assert!(!app.login_pending);
}

#[test]
fn successful_login_moves_to_followed_and_fetches() {
    let mut app = fresh_app();
    app.error_message = Some("login failed".to_owned());

    let follow = app.apply_result(RequestResult::LoginResult(true));

    assert!(matches!(app.current_view, AppView::FollowedLive));
    assert!(app.error_message.is_none());
    assert_eq!(
        follow,
        Some(TwitchMessage {
            token: Some("tok".to_owned()),
            opt: PendingRequest::GetFollowedStreams,
        })
    );
}

#[test]
fn failed_login_sets_banner_and_stays() {
    let mut app = fresh_app();
    let follow = app.apply_result(RequestResult::LoginResult(false));
    assert!(follow.is_none());
    assert!(matches!(app.current_view, AppView::Login));
    assert_eq!(app.error_message, Some("login failed".to_owned()));
}

#[test]
fn login_result_outside_login_view_is_ignored() {
    let mut app = fresh_app();
    app.current_view = AppView::Settings;
    let follow = app.apply_result(RequestResult::LoginResult(true));
    assert!(follow.is_none());
    assert!(matches!(app.current_view, AppView::Settings));
    assert!(app.error_message.is_none());
}

#[test]
fn each_result_updates_exactly_its_slot() {
    let mut app = fresh_app();
    app.current_view = AppView::Streams;

    app.apply_result(RequestResult::TopCategoriesResult(Ok(vec![a_category()])));
    assert_eq!(app.categories, Some(vec![a_category()]));
    assert!(app.streams.is_none());

    app.apply_result(RequestResult::StreamsResult(Ok(vec![a_stream()])));
    assert_eq!(app.streams, Some(vec![a_stream()]));

    app.apply_result(RequestResult::FollowedStreamsResult(Ok(vec![])));
    assert_eq!(app.followed_streams, Some(vec![]));

    app.apply_result(RequestResult::CategoryStreamsResult(Ok(vec![a_stream()])));
    assert_eq!(app.focused_category_streams, Some(vec![a_stream()]));

    // Slots are replaced wholesale, never merged.
    app.apply_result(RequestResult::StreamsResult(Ok(vec![])));
    assert_eq!(app.streams, Some(vec![]));
}

#[test]
fn failed_fetch_sets_banner_and_keeps_slot() {
    let mut app = fresh_app();
    app.followed_streams = Some(vec![a_stream()]);
    app.apply_result(RequestResult::FollowedStreamsResult(Err(
        TwitchError::UserIdError,
    )));
    assert_eq!(app.followed_streams, Some(vec![a_stream()]));
    assert_eq!(app.error_message, Some("no user id for token".to_owned()));
}

#[test]
fn menu_selection_sets_view_and_request() {
    let mut app = fresh_app();

    let req = app.menu_select(MenuChoice::Categories);
    assert!(matches!(app.current_view, AppView::Categories));
    assert_eq!(
        req,
        Some(TwitchMessage {
            token: Some("tok".to_owned()),
            opt: PendingRequest::GetTopCategories(None),
        })
    );

    let req = app.menu_select(MenuChoice::Streams);
    assert!(matches!(app.current_view, AppView::Streams));
    assert_eq!(
        req,
        Some(TwitchMessage {
            token: Some("tok".to_owned()),
            opt: PendingRequest::GetStreams(None),
        })
    );

    let req = app.menu_select(MenuChoice::FollowedLive);
    assert!(matches!(app.current_view, AppView::FollowedLive));
    assert_eq!(
        req,
        Some(TwitchMessage {
            token: Some("tok".to_owned()),
            opt: PendingRequest::GetFollowedStreams,
        })
    );

    let req = app.menu_select(MenuChoice::Settings);
    assert!(matches!(app.current_view, AppView::Settings));
    assert!(req.is_none());

    let req = app.menu_select(MenuChoice::Logout);
    assert!(req.is_none());
    assert!(matches!(app.current_view, AppView::Login));
    assert_eq!(app.token, "");
}

#[test]
fn selecting_a_category_enters_detail_and_fetches() {
    let mut app = fresh_app();
    app.focused_category_streams = Some(vec![a_stream()]);

    let msg = app.select_category(a_category());

    assert!(matches!(app.current_view, AppView::CategoryView));
    assert_eq!(app.focused_category, Some(a_category()));
    assert!(app.focused_category_streams.is_none());
    assert_eq!(
        msg,
        TwitchMessage {
            token: Some("tok".to_owned()),
            opt: PendingRequest::GetCategoryStreams("509658".to_owned()),
        }
    );
}

#[test]
fn focus_and_close_stream_panel() {
    let mut app = fresh_app();
    app.focus_stream(a_stream());
    assert_eq!(app.focused_stream, Some(a_stream()));
    app.close_stream();
    assert!(app.focused_stream.is_none());
}
