use fansly_sync::client;

#[test]
fn status_success_is_exactly_the_2xx_range() {
    assert!(client::status_is_success(200));
    assert!(client::status_is_success(204));
    assert!(client::status_is_success(299));
    assert!(!client::status_is_success(199));
    assert!(!client::status_is_success(300));
    assert!(!client::status_is_success(404));
    assert!(!client::status_is_success(500));
}

#[test]
fn decimal_rendering_is_exact() {
    assert_eq!(client::u64_to_decimal(0), "0");
    assert_eq!(client::u64_to_decimal(7), "7");
    assert_eq!(client::u64_to_decimal(10), "10");
    assert_eq!(client::u64_to_decimal(100), "100");
    assert_eq!(client::u64_to_decimal(12345), "12345");
    assert_eq!(client::u64_to_decimal(u64::MAX), "18446744073709551615");
}

#[test]
fn follower_page_url_is_exact() {
    assert_eq!(
        client::followers_request_url("acct1", 200),
        "https://apiv3.fansly.com/api/v1/account/acct1/followers?ngsw-bypass=true&limit=100&offset=200"
    );
    assert_eq!(
        client::followers_request_url("x", 0),
        "https://apiv3.fansly.com/api/v1/account/x/followers?ngsw-bypass=true&limit=100&offset=0"
    );
}

#[test]
fn subscriber_page_url_is_exact() {
    assert_eq!(
        client::subscribers_request_url(300),
        "https://apiv3.fansly.com/api/v1/subscribers?status=3,4&limit=100&offset=300&ngsw-bypass=true"
    );
}

#[test]
fn fixed_endpoints_and_identity() {
    assert_eq!(client::profile_url(), "https://apiv3.fansly.com/api/v1/account/me");
    assert_eq!(client::publish_url(), "https://paste.fanslycreatorbot.com");
    assert_eq!(client::auto_sync_upload_url(), "https://botapi.fanslycreatorbot.com/sync");
    assert_eq!(
        client::check_sync_token_url(),
        "https://botapi.fanslycreatorbot.com/checkSyncToken"
    );
    assert_eq!(
        client::default_user_agent(),
        "FanslySync/0.1.0 tanner@fanslycreatorbot.com"
    );
    assert_eq!(
        client::page_user_agent(),
        "FanslySync/1.0.0 (tanner@fanslycreatorbot.com)"
    );
}
