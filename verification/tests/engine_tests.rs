use fansly_sync::engine::{SyncAction, SyncEngine, SyncPhase};
use fansly_sync::records::{
    Account, AccountPermissionFlags, EarningsWallet, FanslyAccountResponse, FanslyBaseResponse,
    FanslyFollowersResponse, OpaqueValue, Permissions, Streaming, Subscription, TimelineStats,
};

fn opaque() -> OpaqueValue {
    OpaqueValue { raw: "null".to_string() }
}

fn account(follow_count: i64, subscriber_count: i64) -> Account {
    Account {
        id: "acct1".to_string(),
        email: String::new(),
        username: String::new(),
        display_name: String::new(),
        flags: 0,
        version: 0,
        created_at: 0,
        follow_count,
        subscriber_count,
        permissions: Permissions {
            account_permission_flags: AccountPermissionFlags { flags: 0 },
        },
        timeline_stats: TimelineStats {
            account_id: String::new(),
            image_count: 0,
            video_count: 0,
            bundle_count: 0,
            bundle_image_count: 0,
            bundle_video_count: 0,
            fetched_at: 0,
        },
        profile_access_flags: 0,
        profile_flags: 0,
        about: String::new(),
        location: String::new(),
        profile_socials: vec![],
        status_id: 0,
        last_seen_at: 0,
        post_likes: 0,
        streaming: Streaming {
            account_id: String::new(),
            channel: opaque(),
            enabled: false,
        },
        account_media_likes: 0,
        earnings_wallet: EarningsWallet {
            id: String::new(),
            account_id: String::new(),
            balance: 0,
            type_field: 0,
            wallet_version: 0,
            flags: 0,
        },
        subscription_tiers: vec![],
        profile_access: false,
    }
}

fn profile(success: bool, follow_count: i64, subscriber_count: i64) -> FanslyBaseResponse<FanslyAccountResponse> {
    FanslyBaseResponse {
        success,
        response: FanslyAccountResponse {
            account: account(follow_count, subscriber_count),
            correlation_id: String::new(),
            check_token: opaque(),
        },
    }
}

fn follower_page(n: usize) -> Vec<FanslyFollowersResponse> {
    (0..n)
        .map(|i| FanslyFollowersResponse { follower_id: format!("f{}", i) })
        .collect()
}

fn subscription(id: &str) -> Subscription {
    Subscription {
        id: id.to_string(),
        history_id: String::new(),
        subscriber_id: String::new(),
        subscription_tier_id: String::new(),
        subscription_tier_name: String::new(),
        subscription_tier_color: String::new(),
        plan_id: String::new(),
        promo_id: None,
        gift_code_id: opaque(),
        payment_method_id: String::new(),
        status: 3,
        price: 0,
        renew_price: 0,
        renew_correlation_id: String::new(),
        auto_renew: 0,
        billing_cycle: 0,
        duration: 0,
        renew_date: 0,
        version: 0,
        created_at: 0,
        updated_at: 0,
        ends_at: 0,
        promo_price: opaque(),
        promo_duration: opaque(),
        promo_status: opaque(),
        promo_starts_at: opaque(),
        promo_ends_at: opaque(),
    }
}

fn subscriber_page(n: usize) -> Vec<Subscription> {
    (0..n).map(|i| subscription(&format!("s{}", i))).collect()
}

#[test]
fn pagination_converges_on_a_short_last_page() {
    // 250 followers arrive as pages of 100, 100 and 50 at offsets 0, 100
    // and 200; the engine must stop there, with no request at offset 300.
    let mut e = SyncEngine::new(true);
    e.on_profile(profile(true, 250, 0));
    assert_eq!(e.next_action(), SyncAction::FetchFollowers { offset: 0 });
    e.on_followers_page(follower_page(100));
    assert_eq!(e.next_action(), SyncAction::FetchFollowers { offset: 100 });
    e.on_followers_page(follower_page(100));
    assert_eq!(e.next_action(), SyncAction::FetchFollowers { offset: 200 });
    e.on_followers_page(follower_page(50));
    assert_eq!(e.followers.len(), 250);
    assert_eq!(e.next_action(), SyncAction::Finish);
    let snapshot = e.into_result().expect("a complete run yields a snapshot");
    assert_eq!(snapshot.followers.len(), 250);
    assert_eq!(snapshot.subscribers.len(), 0);
    assert_eq!(snapshot.sync_data_url, "");
}

#[test]
fn zero_follow_count_fetches_nothing() {
    let mut e = SyncEngine::new(true);
    e.on_profile(profile(true, 0, 0));
    // No follower (or subscriber) request at all: the run is complete at once.
    assert_eq!(e.next_action(), SyncAction::Finish);
    let snapshot = e.into_result().expect("an empty run is still a valid run");
    assert_eq!(snapshot.followers.len(), 0);
    assert_eq!(snapshot.subscribers.len(), 0);
}

#[test]
fn backoff_occurs_after_every_tenth_request() {
    // 13 follower pages plus 10 subscriber pages: 23 paginated requests,
    // so exactly two backoffs, after request 10 and request 20.
    let mut e = SyncEngine::new(true);
    e.on_profile(profile(true, 1300, 1000));
    let mut requests = 0u64;
    let mut sleeps_after: Vec<u64> = vec![];
    loop {
        match e.next_action() {
            SyncAction::FetchFollowers { offset } => {
                assert_eq!(offset, e.follower_offset);
                e.on_followers_page(follower_page(100));
                requests += 1;
            }
            SyncAction::FetchSubscribers { offset } => {
                assert_eq!(offset, e.subscriber_offset);
                e.on_subscribers_page(subscriber_page(100));
                requests += 1;
            }
            SyncAction::Sleep { seconds } => {
                assert_eq!(seconds, 5);
                sleeps_after.push(requests);
                e.on_slept();
            }
            SyncAction::Finish => break,
            other => panic!("unexpected action {:?}", other),
        }
    }
    assert_eq!(requests, 23);
    assert_eq!(sleeps_after, vec![10, 20]);
    assert_eq!(e.followers.len(), 1300);
    assert_eq!(e.subscribers.len(), 1000);
}

#[test]
fn auto_run_never_publishes_and_reference_stays_empty() {
    let mut e = SyncEngine::new(true);
    e.on_profile(profile(true, 100, 100));
    loop {
        match e.next_action() {
            SyncAction::FetchFollowers { .. } => e.on_followers_page(follower_page(100)),
            SyncAction::FetchSubscribers { .. } => e.on_subscribers_page(subscriber_page(100)),
            SyncAction::Sleep { .. } => e.on_slept(),
            SyncAction::Finish => break,
            SyncAction::Publish => panic!("an auto run must never publish"),
            other => panic!("unexpected action {:?}", other),
        }
    }
    let snapshot = e.into_result().expect("a complete run yields a snapshot");
    assert_eq!(snapshot.sync_data_url, "");
}

#[test]
fn manual_run_publishes_exactly_once_after_completion() {
    let mut e = SyncEngine::new(false);
    e.on_profile(profile(true, 150, 50));
    let mut publishes = 0;
    loop {
        match e.next_action() {
            SyncAction::FetchFollowers { .. } => e.on_followers_page(follower_page(100)),
            SyncAction::FetchSubscribers { .. } => e.on_subscribers_page(subscriber_page(100)),
            SyncAction::Sleep { .. } => e.on_slept(),
            SyncAction::Publish => {
                // Both collections must already be complete.
                assert!(e.followers.len() >= 150);
                assert!(e.subscribers.len() >= 50);
                publishes += 1;
                e.on_published("https://paste.fanslycreatorbot.com/abc".to_string());
            }
            SyncAction::Finish => break,
            other => panic!("unexpected action {:?}", other),
        }
    }
    assert_eq!(publishes, 1);
    let snapshot = e.into_result().expect("a complete run yields a snapshot");
    assert_eq!(snapshot.sync_data_url, "https://paste.fanslycreatorbot.com/abc");
    assert_eq!(snapshot.followers.len(), 200);
    assert_eq!(snapshot.subscribers.len(), 100);
}

#[test]
fn subscriber_failure_on_second_page_yields_error_and_no_snapshot() {
    let mut e = SyncEngine::new(false);
    e.on_profile(profile(true, 0, 150));
    assert_eq!(e.next_action(), SyncAction::FetchSubscribers { offset: 0 });
    e.on_subscribers_page(subscriber_page(100));
    assert_eq!(e.next_action(), SyncAction::FetchSubscribers { offset: 100 });
    e.on_fetch_error("connection reset by peer".to_string());
    assert_eq!(e.next_action(), SyncAction::Fail);
    let err = e.into_result().expect_err("a failed run yields no snapshot");
    assert_eq!(err, "connection reset by peer");
}

#[test]
fn unsuccessful_profile_envelope_fails_the_run_at_once() {
    let mut e = SyncEngine::new(false);
    assert_eq!(e.next_action(), SyncAction::FetchProfile);
    e.on_profile(profile(false, 9999, 9999));
    assert_eq!(e.next_action(), SyncAction::Fail);
    let err = e.into_result().expect_err("a failed run yields no snapshot");
    assert_eq!(err, "Failed to fetch profile");
}

#[test]
fn negative_counts_are_treated_as_zero_targets() {
    let mut e = SyncEngine::new(true);
    e.on_profile(profile(true, -5, -1));
    assert_eq!(e.target_followers, 0);
    assert_eq!(e.target_subscribers, 0);
    assert_eq!(e.next_action(), SyncAction::Finish);
}

#[test]
fn manual_run_with_empty_targets_still_publishes() {
    let mut e = SyncEngine::new(false);
    e.on_profile(profile(true, 0, 0));
    assert_eq!(e.next_action(), SyncAction::Publish);
    e.on_published("ref".to_string());
    assert_eq!(e.next_action(), SyncAction::Finish);
    assert_eq!(e.phase, SyncPhase::Done);
    let snapshot = e.into_result().expect("a complete run yields a snapshot");
    assert_eq!(snapshot.sync_data_url, "ref");
}
