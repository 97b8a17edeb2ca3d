use blog_feed::controller::{Controller, ControllerState};

const FEED_A: &str = r#"<urlset>
  <url><title>a</title><loc>u1</loc><lastmod>1000</lastmod></url>
</urlset>"#;

const FEED_B: &str = r#"<urlset>
  <url><title>b</title><loc>u2</loc><lastmod>2000</lastmod></url>
</urlset>"#;

const FEED_A_AGAIN: &str = r#"<urlset>
  <url><title>a-renamed</title><loc>u1-moved</loc><lastmod>1000</lastmod></url>
</urlset>"#;

#[test]
fn create_starts_fetching_with_resolved_url() {
    let (controller, request) = Controller::create("en").expect("en is supported");
    assert!(matches!(controller.current_state(), ControllerState::Fetching));
    assert_eq!(
        request.url,
        "https://another-s347.github.io/blogs-en/custom_sitemap.xml"
    );
    assert_eq!(request.token, 0);
    let (_, request_zh) = Controller::create("zh").expect("zh is supported");
    assert_eq!(
        request_zh.url,
        "http://another-s347.github.io/blogs/custom_sitemap.xml"
    );
}

#[test]
fn unknown_locale_is_config_error_not_a_crash() {
    match Controller::create("fr") {
        Err(e) => assert_eq!(e.locale, "fr"),
        Ok(_) => panic!("fr must not be supported"),
    }
}

#[test]
fn successful_fetch_becomes_ready() {
    let (mut controller, request) = Controller::create("en").unwrap();
    let changed = controller.on_fetch_complete(request.token, Ok(String::from(FEED_A)));
    assert!(changed);
    match controller.current_state() {
        ControllerState::Ready(feed) => {
            assert_eq!(feed.last_update, 1000);
            assert_eq!(feed.blogs.len(), 1);
            assert_eq!(feed.blogs[0].title, "a");
        }
        other => panic!("expected Ready, got {:?}", other),
    }
}

#[test]
fn transport_error_becomes_failed() {
    let (mut controller, request) = Controller::create("en").unwrap();
    let changed = controller.on_fetch_complete(request.token, Err(String::from("network down")));
    assert!(changed);
    match controller.current_state() {
        ControllerState::Failed(message) => assert_eq!(message, "network down"),
        other => panic!("expected Failed, got {:?}", other),
    }
}

#[test]
fn parse_error_becomes_failed() {
    let (mut controller, request) = Controller::create("en").unwrap();
    let changed = controller.on_fetch_complete(
        request.token,
        Ok(String::from("<urlset><url>stray</url></urlset>")),
    );
    assert!(changed);
    match controller.current_state() {
        ControllerState::Failed(message) => {
            assert_eq!(message, "unexpected document structure")
        }
        other => panic!("expected Failed, got {:?}", other),
    }
}

#[test]
fn reconciliation_is_idempotent_on_same_last_update() {
    let (mut controller, request) = Controller::create("en").unwrap();
    let first = controller.on_fetch_complete(request.token, Ok(String::from(FEED_A)));
    assert!(first);
    let second = controller.on_fetch_complete(request.token, Ok(String::from(FEED_A_AGAIN)));
    assert!(!second, "a feed with the same last_update reports no state change");
    match controller.current_state() {
        ControllerState::Ready(feed) => {
            assert_eq!(feed.blogs[0].title, "a", "the adopted feed is unchanged");
            assert_eq!(feed.blogs[0].link, "u1");
        }
        other => panic!("expected Ready, got {:?}", other),
    }
}

#[test]
fn newer_feed_is_adopted() {
    let (mut controller, request) = Controller::create("en").unwrap();
    assert!(controller.on_fetch_complete(request.token, Ok(String::from(FEED_A))));
    let changed = controller.on_fetch_complete(request.token, Ok(String::from(FEED_B)));
    assert!(changed);
    match controller.current_state() {
        ControllerState::Ready(feed) => assert_eq!(feed.last_update, 2000),
        other => panic!("expected Ready, got {:?}", other),
    }
}

#[test]
fn same_locale_change_is_a_no_op() {
    let (mut controller, _request) = Controller::create("en").unwrap();
    let outcome = controller.on_locale_changed("en").expect("en stays supported");
    assert!(outcome.is_none(), "no new fetch, no redraw");
}

#[test]
fn locale_change_to_unknown_is_config_error() {
    let (mut controller, _request) = Controller::create("en").unwrap();
    match controller.on_locale_changed("de") {
        Err(e) => assert_eq!(e.locale, "de"),
        Ok(_) => panic!("de must not be supported"),
    }
    assert!(matches!(controller.current_state(), ControllerState::Fetching));
}

#[test]
fn locale_change_issues_new_fetch_with_bumped_token() {
    let (mut controller, request) = Controller::create("en").unwrap();
    let new_request = controller
        .on_locale_changed("zh")
        .expect("zh is supported")
        .expect("a different locale issues a fetch");
    assert_eq!(new_request.token, request.token + 1);
    assert_eq!(
        new_request.url,
        "http://another-s347.github.io/blogs/custom_sitemap.xml"
    );
    assert!(matches!(controller.current_state(), ControllerState::Fetching));
}

#[test]
fn stale_completion_after_locale_change_is_discarded() {
    let (mut controller, original_request) = Controller::create("en").unwrap();
    let new_request = controller.on_locale_changed("zh").unwrap().unwrap();
    let changed = controller.on_fetch_complete(original_request.token, Ok(String::from(FEED_A)));
    assert!(!changed, "the superseded fetch's completion is discarded");
    assert!(
        matches!(controller.current_state(), ControllerState::Fetching),
        "state is untouched by the stale completion"
    );
    let applied = controller.on_fetch_complete(new_request.token, Ok(String::from(FEED_B)));
    assert!(applied, "the newest fetch's completion is applied");
    match controller.current_state() {
        ControllerState::Ready(feed) => assert_eq!(feed.last_update, 2000),
        other => panic!("expected Ready, got {:?}", other),
    }
}
