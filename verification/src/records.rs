//! Data model of the remote platform's responses and of the sync snapshot.
//!
//! Fields whose shape the remote API does not keep stable are carried as
//! [`OpaqueValue`]: the raw text of that part of the response, never
//! interpreted by the engine.

use vstd::prelude::*;

verus! {

/// An untyped part of a remote response, carried verbatim as the raw text
/// it was received as. The engine never reads it.
#[derive(Clone, Debug, PartialEq, Eq)]
pub struct OpaqueValue {
    pub raw: String,
}

/// Envelope of a remote call that returns a single record.
#[derive(Clone, Debug, PartialEq, Eq)]
pub struct FanslyBaseResponse<T> {
    pub success: bool,
    pub response: T,
}

/// Envelope of a remote call that returns a list of records.
#[derive(Clone, Debug, PartialEq, Eq)]
pub struct FanslyBaseResponseList<T> {
    pub success: bool,
    pub response: Vec<T>,
}

/// A single follower: one opaque identifier.
#[derive(Clone, Debug, PartialEq, Eq)]
pub struct FanslyFollowersResponse {
    pub follower_id: String,
}

/// Aggregate counts reported beside a page of subscriptions.
#[derive(Clone, Debug, PartialEq, Eq)]
pub struct SubscriptionsStats {
    pub total_active: i64,
    pub total_expired: i64,
    pub total: i64,
}

/// One active or expired subscription relationship.
#[derive(Clone, Debug, PartialEq, Eq)]
pub struct Subscription {
    pub id: String,
    pub history_id: String,
    pub subscriber_id: String,
    pub subscription_tier_id: String,
    pub subscription_tier_name: String,
    pub subscription_tier_color: String,
    pub plan_id: String,
    pub promo_id: Option<String>,
    pub gift_code_id: OpaqueValue,
    pub payment_method_id: String,
    pub status: i64,
    pub price: i64,
    pub renew_price: i64,
    pub renew_correlation_id: String,
    pub auto_renew: i64,
    pub billing_cycle: i64,
    pub duration: i64,
    pub renew_date: i64,
    pub version: i64,
    pub created_at: i64,
    pub updated_at: i64,
    pub ends_at: i64,
    pub promo_price: OpaqueValue,
    pub promo_duration: OpaqueValue,
    pub promo_status: OpaqueValue,
    pub promo_starts_at: OpaqueValue,
    pub promo_ends_at: OpaqueValue,
}

/// Body of a page of subscriptions.
#[derive(Clone, Debug, PartialEq, Eq)]
pub struct FanslySubscriptionsResponse {
    pub stats: SubscriptionsStats,
    pub subscriptions: Vec<Subscription>,
}

/// Body of the account-identity endpoint.
#[derive(Clone, Debug, PartialEq, Eq)]
pub struct FanslyAccountResponse {
    pub account: Account,
    pub correlation_id: String,
    pub check_token: OpaqueValue,
}

/// The authenticated account. `follow_count` and `subscriber_count` are the
/// authoritative targets for the two pagination loops of a sync run.
#[derive(Clone, Debug, PartialEq, Eq)]
pub struct Account {
    pub id: String,
    pub email: String,
    pub username: String,
    pub display_name: String,
    pub flags: i64,
    pub version: i64,
    pub created_at: i64,
    pub follow_count: i64,
    pub subscriber_count: i64,
    pub permissions: Permissions,
    pub timeline_stats: TimelineStats,
    pub profile_access_flags: i64,
    pub profile_flags: i64,
    pub about: String,
    pub location: String,
    pub profile_socials: Vec<OpaqueValue>,
    pub status_id: i64,
    pub last_seen_at: i64,
    pub post_likes: i64,
    pub streaming: Streaming,
    pub account_media_likes: i64,
    pub earnings_wallet: EarningsWallet,
    pub subscription_tiers: Vec<SubscriptionTier>,
    pub profile_access: bool,
}

#[derive(Clone, Debug, PartialEq, Eq)]
pub struct Permissions {
    pub account_permission_flags: AccountPermissionFlags,
}

#[derive(Clone, Debug, PartialEq, Eq)]
pub struct AccountPermissionFlags {
    pub flags: i64,
}

#[derive(Clone, Debug, PartialEq, Eq)]
pub struct TimelineStats {
    pub account_id: String,
    pub image_count: i64,
    pub video_count: i64,
    pub bundle_count: i64,
    pub bundle_image_count: i64,
    pub bundle_video_count: i64,
    pub fetched_at: i64,
}

#[derive(Clone, Debug, PartialEq, Eq)]
pub struct MainWallet {
    pub id: String,
    pub account_id: String,
    pub balance: i64,
    pub type_field: i64,
    pub wallet_version: i64,
    pub flags: i64,
}

#[derive(Clone, Debug, PartialEq, Eq)]
pub struct Streaming {
    pub account_id: String,
    pub channel: OpaqueValue,
    pub enabled: bool,
}

#[derive(Clone, Debug, PartialEq, Eq)]
pub struct EarningsWallet {
    pub id: String,
    pub account_id: String,
    pub balance: i64,
    pub type_field: i64,
    pub wallet_version: i64,
    pub flags: i64,
}

#[derive(Clone, Debug, PartialEq, Eq)]
pub struct SubscriptionTier {
    pub id: String,
    pub account_id: String,
    pub name: String,
    pub color: String,
    pub pos: i64,
    pub price: i64,
    pub max_subscribers: i64,
    pub subscription_benefits: Vec<String>,
    pub included_tier_ids: Vec<OpaqueValue>,
    pub plans: Vec<Plan>,
}

#[derive(Clone, Debug, PartialEq, Eq)]
pub struct Plan {
    pub id: String,
    pub status: i64,
    pub billing_cycle: i64,
    pub price: i64,
    pub use_amounts: i64,
    pub promos: Vec<OpaqueValue>,
    pub uses: i64,
}

/// The work product of one sync run: both collections in the order the
/// remote returned them, and the external reference handed back by the
/// publish endpoint (empty until published, and always empty on auto runs).
#[derive(Clone, Debug, PartialEq, Eq)]
pub struct SyncDataResponse {
    pub followers: Vec<FanslyFollowersResponse>,
    pub subscribers: Vec<Subscription>,
    pub sync_data_url: String,
}

} // verus!
