//! The synchronization engine: every decision of one sync run.
//!
//! A run fetches the account profile, paginates the follower and the
//! subscriber collections to their authoritative target counts, inserts a
//! fixed backoff after every tenth page request, and finally either
//! publishes the assembled snapshot (a manual run) or hands it back
//! unpublished (an auto run).
//!
//! The engine is a state machine. The caller that owns the transport asks
//! [`SyncEngine::next_action`] what to perform, performs it, and feeds the
//! outcome back through the `on_*` methods; when the action is
//! [`SyncAction::Finish`] or [`SyncAction::Fail`], the run is over and
//! [`SyncEngine::into_result`] yields the snapshot or the error. Every
//! transition — what a page appends, when the offsets advance, when the
//! backoff is owed, when publishing is allowed — is decided and verified
//! here; the caller only moves bytes.

use vstd::prelude::*;

use crate::records::{
    FanslyAccountResponse, FanslyBaseResponse, FanslyFollowersResponse, Subscription,
    SyncDataResponse,
};

verus! {

/// Records fetched per page request, and the amount the offset advances by
/// after every page, however many records the page actually held.
pub const PAGE_LIMIT: u64 = 100;

/// Page requests per rate-limit window: every time the run's request
/// counter reaches a multiple of this, one backoff is owed before the next
/// action.
pub const RATE_LIMIT_WINDOW: u64 = 10;

/// Seconds of one rate-limit backoff.
pub const BACKOFF_SECONDS: u64 = 5;

/// Where a run stands.
#[derive(Clone, Copy, Debug, PartialEq, Eq, Structural)]
pub enum SyncPhase {
    /// Nothing fetched yet; the profile is owed.
    NeedProfile,
    /// The follower collection is still short of its target.
    Followers,
    /// The follower collection is complete; the subscriber collection is
    /// still short of its target.
    Subscribers,
    /// Both collections are complete and the snapshot awaits publishing (a
    /// manual run only).
    Publish,
    /// The run is complete.
    Done,
    /// A step failed; the run is over with an error and no snapshot.
    Failed,
}

/// What the caller must perform next.
#[derive(Clone, Copy, Debug, PartialEq, Eq, Structural)]
pub enum SyncAction {
    /// Fetch the account profile and feed back
    /// [`SyncEngine::on_profile`] or [`SyncEngine::on_fetch_error`].
    FetchProfile,
    /// Fetch one page of followers at this offset for the engine's
    /// account, and feed back [`SyncEngine::on_followers_page`] or
    /// [`SyncEngine::on_fetch_error`].
    FetchFollowers { offset: u64 },
    /// Fetch one page of subscriptions at this offset, and feed back
    /// [`SyncEngine::on_subscribers_page`] or
    /// [`SyncEngine::on_fetch_error`].
    FetchSubscribers { offset: u64 },
    /// Suspend for this many seconds, then feed back
    /// [`SyncEngine::on_slept`].
    Sleep { seconds: u64 },
    /// Upload the assembled snapshot, and feed back
    /// [`SyncEngine::on_published`] or [`SyncEngine::on_fetch_error`].
    Publish,
    /// The run is complete: [`SyncEngine::into_result`] yields the
    /// snapshot.
    Finish,
    /// The run failed: [`SyncEngine::into_result`] yields the error.
    Fail,
}

/// One sync run's state.
pub struct SyncEngine {
    /// Whether this is an auto run: auto runs never publish.
    pub auto: bool,
    pub phase: SyncPhase,
    /// The authenticated account's identifier, once the profile arrived.
    pub account_id: String,
    /// The profile's follower count: how many follower records the run
    /// accumulates at least.
    pub target_followers: u64,
    /// The profile's subscriber count: the subscriber collection's target.
    pub target_subscribers: u64,
    pub followers: Vec<FanslyFollowersResponse>,
    pub subscribers: Vec<Subscription>,
    /// Offset of the next follower page: advances by [`PAGE_LIMIT`] per
    /// fetched page.
    pub follower_offset: u64,
    /// Offset of the next subscriber page.
    pub subscriber_offset: u64,
    /// Page requests performed so far, across both collections.
    pub total_requests: u64,
    /// Whether a rate-limit backoff is owed before the next action.
    pub pending_sleep: bool,
    /// What publishing returned; empty until then, and forever on auto
    /// runs.
    pub external_reference: String,
    /// Why the run failed, when it did.
    pub error: String,
}

/// A reported target count as a pagination target: a negative count is
/// treated as zero, like a zero one — nothing to fetch.
pub open spec fn count_target(n: i64) -> u64 {
    if n >= 0 {
        n as u64
    } else {
        0
    }
}

impl SyncEngine {
    /// The follower collection has reached its target.
    pub open spec fn followers_done(self) -> bool {
        self.followers@.len() >= self.target_followers
    }

    /// The subscriber collection has reached its target.
    pub open spec fn subscribers_done(self) -> bool {
        self.subscribers@.len() >= self.target_subscribers
    }

    /// Every state a run can actually be in. Constructed by
    /// [`SyncEngine::new`] and preserved by every transition.
    pub open spec fn wf(self) -> bool {
        &&& self.phase == SyncPhase::NeedProfile ==> {
            &&& self.followers@.len() == 0
            &&& self.subscribers@.len() == 0
            &&& self.follower_offset == 0
            &&& self.subscriber_offset == 0
            &&& self.total_requests == 0
            &&& !self.pending_sleep
        }
        &&& self.phase == SyncPhase::Followers ==> !self.followers_done()
        &&& self.phase == SyncPhase::Subscribers ==> self.followers_done()
            && !self.subscribers_done()
        &&& (self.phase == SyncPhase::Publish || self.phase == SyncPhase::Done)
            ==> self.followers_done() && self.subscribers_done()
        &&& self.auto ==> self.phase != SyncPhase::Publish
        &&& self.phase != SyncPhase::Done ==> self.external_reference@.len() == 0
        &&& self.phase == SyncPhase::Done ==> (self.auto ==> self.external_reference@.len() == 0)
        &&& self.pending_sleep ==> self.total_requests > 0 && self.total_requests
            % RATE_LIMIT_WINDOW == 0
        &&& self.follower_offset % PAGE_LIMIT == 0
        &&& self.subscriber_offset % PAGE_LIMIT == 0
        &&& self.total_requests == self.follower_offset / PAGE_LIMIT + self.subscriber_offset
            / PAGE_LIMIT
    }

    /// What the caller must perform next, as a function of the state: a
    /// failed run reports first, an owed backoff comes before any further
    /// request, and otherwise the phase decides.
    pub open spec fn next_action_spec(self) -> SyncAction {
        if self.phase == SyncPhase::Failed {
            SyncAction::Fail
        } else if self.pending_sleep {
            SyncAction::Sleep { seconds: BACKOFF_SECONDS }
        } else {
            match self.phase {
                SyncPhase::NeedProfile => SyncAction::FetchProfile,
                SyncPhase::Followers => SyncAction::FetchFollowers {
                    offset: self.follower_offset,
                },
                SyncPhase::Subscribers => SyncAction::FetchSubscribers {
                    offset: self.subscriber_offset,
                },
                SyncPhase::Publish => SyncAction::Publish,
                SyncPhase::Done => SyncAction::Finish,
                SyncPhase::Failed => SyncAction::Fail,
            }
        }
    }

    /// A fresh run: nothing fetched, the profile owed.
    pub fn new(auto: bool) -> (e: SyncEngine)
        ensures
            e.wf(),
            e.auto == auto,
            e.phase == SyncPhase::NeedProfile,
            e.followers@.len() == 0,
            e.subscribers@.len() == 0,
            e.total_requests == 0,
            e.external_reference@.len() == 0,
    {
        SyncEngine {
            auto,
            phase: SyncPhase::NeedProfile,
            account_id: String::new(),
            target_followers: 0,
            target_subscribers: 0,
            followers: Vec::new(),
            subscribers: Vec::new(),
            follower_offset: 0,
            subscriber_offset: 0,
            total_requests: 0,
            pending_sleep: false,
            external_reference: String::new(),
            error: String::new(),
        }
    }

    /// What the caller must perform next.
    pub fn next_action(&self) -> (a: SyncAction)
        ensures
            a == self.next_action_spec(),
    {
        if self.phase == SyncPhase::Failed {
            SyncAction::Fail
        } else if self.pending_sleep {
            SyncAction::Sleep { seconds: BACKOFF_SECONDS }
        } else {
            match self.phase {
                SyncPhase::NeedProfile => SyncAction::FetchProfile,
                SyncPhase::Followers => SyncAction::FetchFollowers {
                    offset: self.follower_offset,
                },
                SyncPhase::Subscribers => SyncAction::FetchSubscribers {
                    offset: self.subscriber_offset,
                },
                SyncPhase::Publish => SyncAction::Publish,
                SyncPhase::Done => SyncAction::Finish,
                SyncPhase::Failed => SyncAction::Fail,
            }
        }
    }

    /// Consumes the profile envelope. An envelope whose `success` flag is
    /// down fails the run at once, with no look at its fields; otherwise
    /// the account's counts become the two pagination targets, and the run
    /// moves to the first collection that has anything to fetch — or
    /// straight to publishing (manual) or completion (auto) when both
    /// targets are zero.
    pub fn on_profile(&mut self, profile: FanslyBaseResponse<FanslyAccountResponse>)
        requires
            old(self).wf(),
            old(self).phase == SyncPhase::NeedProfile,
        ensures
            final(self).wf(),
            final(self).auto == old(self).auto,
            !profile.success ==> {
                &&& final(self).phase == SyncPhase::Failed
                &&& final(self).error@ == "Failed to fetch profile"@
            },
            profile.success ==> {
                &&& final(self).account_id == profile.response.account.id
                &&& final(self).target_followers == count_target(
                    profile.response.account.follow_count,
                )
                &&& final(self).target_subscribers == count_target(
                    profile.response.account.subscriber_count,
                )
                &&& final(self).followers@.len() == 0
                &&& final(self).subscribers@.len() == 0
                &&& final(self).total_requests == 0
                &&& final(self).phase == (if final(self).target_followers > 0 {
                    SyncPhase::Followers
                } else if final(self).target_subscribers > 0 {
                    SyncPhase::Subscribers
                } else if !old(self).auto {
                    SyncPhase::Publish
                } else {
                    SyncPhase::Done
                })
            },
    {
        if !profile.success {
            self.phase = SyncPhase::Failed;
            self.error = "Failed to fetch profile".to_owned();
            return ;
        }
        let account = profile.response.account;
        self.account_id = account.id;
        self.target_followers = if account.follow_count >= 0 {
            account.follow_count as u64
        } else {
            0
        };
        self.target_subscribers = if account.subscriber_count >= 0 {
            account.subscriber_count as u64
        } else {
            0
        };
        if self.target_followers > 0 {
            self.phase = SyncPhase::Followers;
        } else if self.target_subscribers > 0 {
            self.phase = SyncPhase::Subscribers;
        } else if !self.auto {
            self.phase = SyncPhase::Publish;
        } else {
            self.phase = SyncPhase::Done;
        }
    }

    /// Consumes one fetched page of followers: the whole page is appended
    /// (the engine does not deduplicate), the offset advances by exactly
    /// [`PAGE_LIMIT`] however many records the page held, the request
    /// counter ticks, and a backoff becomes owed on every
    /// [`RATE_LIMIT_WINDOW`]th request. The run leaves the follower phase
    /// the moment the accumulated count reaches the target.
    pub fn on_followers_page(&mut self, page: Vec<FanslyFollowersResponse>)
        requires
            old(self).wf(),
            old(self).phase == SyncPhase::Followers,
            !old(self).pending_sleep,
            old(self).follower_offset <= u64::MAX - PAGE_LIMIT,
        ensures
            final(self).wf(),
            final(self).followers@ == old(self).followers@ + page@,
            final(self).subscribers == old(self).subscribers,
            final(self).follower_offset == old(self).follower_offset + PAGE_LIMIT,
            final(self).subscriber_offset == old(self).subscriber_offset,
            final(self).total_requests == old(self).total_requests + 1,
            final(self).pending_sleep == ((old(self).total_requests + 1) % (
            RATE_LIMIT_WINDOW as int) == 0),
            final(self).auto == old(self).auto,
            final(self).account_id == old(self).account_id,
            final(self).target_followers == old(self).target_followers,
            final(self).target_subscribers == old(self).target_subscribers,
            final(self).external_reference == old(self).external_reference,
            final(self).phase == (if old(self).followers@.len() + page@.len() < old(
                self,
            ).target_followers {
                SyncPhase::Followers
            } else if old(self).subscribers@.len() < old(self).target_subscribers {
                SyncPhase::Subscribers
            } else if !old(self).auto {
                SyncPhase::Publish
            } else {
                SyncPhase::Done
            }),
    {
        let mut page = page;
        self.followers.append(&mut page);
        proof {
            let fo = old(self).follower_offset;
            assert((fo + PAGE_LIMIT) / (PAGE_LIMIT as int) == fo / PAGE_LIMIT + 1)
                by (nonlinear_arith)
                requires
                    fo % PAGE_LIMIT == 0,
                    fo <= u64::MAX - PAGE_LIMIT,
            ;
        }
        self.follower_offset = self.follower_offset + PAGE_LIMIT;
        self.total_requests = self.total_requests + 1;
        self.pending_sleep = self.total_requests % RATE_LIMIT_WINDOW == 0;
        if (self.followers.len() as u64) < self.target_followers {
            self.phase = SyncPhase::Followers;
        } else if (self.subscribers.len() as u64) < self.target_subscribers {
            self.phase = SyncPhase::Subscribers;
        } else if !self.auto {
            self.phase = SyncPhase::Publish;
        } else {
            self.phase = SyncPhase::Done;
        }
    }

    /// Consumes one fetched page of subscriptions, with exactly the rules
    /// of [`SyncEngine::on_followers_page`], and completes the run — to
    /// publishing on a manual run, to completion on an auto run — the
    /// moment the subscriber target is reached.
    pub fn on_subscribers_page(&mut self, page: Vec<Subscription>)
        requires
            old(self).wf(),
            old(self).phase == SyncPhase::Subscribers,
            !old(self).pending_sleep,
            old(self).subscriber_offset <= u64::MAX - PAGE_LIMIT,
        ensures
            final(self).wf(),
            final(self).subscribers@ == old(self).subscribers@ + page@,
            final(self).followers == old(self).followers,
            final(self).subscriber_offset == old(self).subscriber_offset + PAGE_LIMIT,
            final(self).follower_offset == old(self).follower_offset,
            final(self).total_requests == old(self).total_requests + 1,
            final(self).pending_sleep == ((old(self).total_requests + 1) % (
            RATE_LIMIT_WINDOW as int) == 0),
            final(self).auto == old(self).auto,
            final(self).account_id == old(self).account_id,
            final(self).target_followers == old(self).target_followers,
            final(self).target_subscribers == old(self).target_subscribers,
            final(self).external_reference == old(self).external_reference,
            final(self).phase == (if old(self).subscribers@.len() + page@.len() < old(
                self,
            ).target_subscribers {
                SyncPhase::Subscribers
            } else if !old(self).auto {
                SyncPhase::Publish
            } else {
                SyncPhase::Done
            }),
    {
        let mut page = page;
        self.subscribers.append(&mut page);
        proof {
            let so = old(self).subscriber_offset;
            assert((so + PAGE_LIMIT) / (PAGE_LIMIT as int) == so / PAGE_LIMIT + 1)
                by (nonlinear_arith)
                requires
                    so % PAGE_LIMIT == 0,
                    so <= u64::MAX - PAGE_LIMIT,
            ;
        }
        self.subscriber_offset = self.subscriber_offset + PAGE_LIMIT;
        self.total_requests = self.total_requests + 1;
        self.pending_sleep = self.total_requests % RATE_LIMIT_WINDOW == 0;
        if (self.subscribers.len() as u64) < self.target_subscribers {
            self.phase = SyncPhase::Subscribers;
        } else if !self.auto {
            self.phase = SyncPhase::Publish;
        } else {
            self.phase = SyncPhase::Done;
        }
    }

    /// A fetch or the publish upload failed: the run is over with this
    /// error, the collections as they were, and no snapshot to come. No
    /// retry: the engine never asks for the failed request again.
    pub fn on_fetch_error(&mut self, error: String)
        requires
            old(self).wf(),
            old(self).phase != SyncPhase::Done,
            old(self).phase != SyncPhase::Failed,
        ensures
            final(self).wf(),
            final(self).phase == SyncPhase::Failed,
            final(self).error == error,
            final(self).followers == old(self).followers,
            final(self).subscribers == old(self).subscribers,
            final(self).total_requests == old(self).total_requests,
            final(self).auto == old(self).auto,
    {
        self.phase = SyncPhase::Failed;
        self.error = error;
    }

    /// The owed rate-limit backoff was taken; requests may resume.
    pub fn on_slept(&mut self)
        requires
            old(self).wf(),
            old(self).pending_sleep,
        ensures
            final(self).wf(),
            *final(self) == (SyncEngine { pending_sleep: false, ..*old(self) }),
    {
        self.pending_sleep = false;
    }

    /// Publishing succeeded: the run is complete and the snapshot will
    /// carry this external reference.
    pub fn on_published(&mut self, reference: String)
        requires
            old(self).wf(),
            old(self).phase == SyncPhase::Publish,
            !old(self).pending_sleep,
        ensures
            final(self).wf(),
            final(self).phase == SyncPhase::Done,
            final(self).external_reference == reference,
            final(self).followers == old(self).followers,
            final(self).subscribers == old(self).subscribers,
            final(self).auto == old(self).auto,
    {
        self.phase = SyncPhase::Done;
        self.external_reference = reference;
    }

    /// The run's outcome: the assembled snapshot of a complete run — with
    /// an empty external reference on an auto run — or the error of a
    /// failed one. Never a partial snapshot.
    pub fn into_result(self) -> (r: Result<SyncDataResponse, String>)
        requires
            self.wf(),
            self.phase == SyncPhase::Done || self.phase == SyncPhase::Failed,
        ensures
            self.phase == SyncPhase::Done ==> (r matches Ok(s) && {
                &&& s.followers == self.followers
                &&& s.subscribers == self.subscribers
                &&& s.sync_data_url == self.external_reference
                &&& self.auto ==> s.sync_data_url@.len() == 0
                &&& s.followers@.len() >= self.target_followers
                &&& s.subscribers@.len() >= self.target_subscribers
            }),
            self.phase == SyncPhase::Failed ==> r == Result::<SyncDataResponse, String>::Err(
                self.error,
            ),
    {
        let SyncEngine { phase, followers, subscribers, external_reference, error, .. } = self;
        if phase == SyncPhase::Done {
            Ok(SyncDataResponse { followers, subscribers, sync_data_url: external_reference })
        } else {
            Err(error)
        }
    }
}

/// An auto run never asks for the publish upload, in any reachable state.
pub proof fn lemma_auto_run_never_publishes(e: SyncEngine)
    requires
        e.wf(),
        e.auto,
    ensures
        e.next_action_spec() != SyncAction::Publish,
{
}

/// Once the follower collection has reached its target — and so always
/// when the target is zero — no further follower page is ever requested.
pub proof fn lemma_follower_requests_stop_at_target(e: SyncEngine)
    requires
        e.wf(),
        e.followers@.len() >= e.target_followers,
    ensures
        !(e.next_action_spec() matches SyncAction::FetchFollowers { .. }),
{
}

/// Once the subscriber collection has reached its target — and so always
/// when the target is zero — no further subscriber page is ever requested.
pub proof fn lemma_subscriber_requests_stop_at_target(e: SyncEngine)
    requires
        e.wf(),
        e.subscribers@.len() >= e.target_subscribers,
    ensures
        !(e.next_action_spec() matches SyncAction::FetchSubscribers { .. }),
{
}

/// A backoff is asked for only when one is owed: right after a request
/// whose number is a multiple of the window, and before anything further.
pub proof fn lemma_backoff_only_on_window(e: SyncEngine)
    requires
        e.wf(),
        e.phase != SyncPhase::Failed,
        e.pending_sleep,
    ensures
        e.next_action_spec() == (SyncAction::Sleep { seconds: BACKOFF_SECONDS }),
        e.total_requests > 0,
        e.total_requests % RATE_LIMIT_WINDOW == 0,
{
}

/// A manual run asks for the publish upload exactly when both collections
/// are complete and any owed backoff was taken; by then nothing more is
/// fetched.
pub proof fn lemma_publish_only_when_complete(e: SyncEngine)
    requires
        e.wf(),
        e.next_action_spec() == SyncAction::Publish,
    ensures
        !e.auto,
        e.followers@.len() >= e.target_followers,
        e.subscribers@.len() >= e.target_subscribers,
{
}

} // verus!
