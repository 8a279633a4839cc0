//! The remote API surface: the fixed endpoints, the identity sent with
//! every request, the exact text of the paginated request URLs, and the
//! success test applied to every HTTP status.
//!
//! The transport that performs the requests lives outside; it takes the
//! URLs and header values from here, so that what is asked of the remote
//! is pinned down in the library.

use vstd::prelude::*;

verus! {

/// The product identity carried on the client's default headers.
pub fn default_user_agent() -> (s: &'static str)
    ensures
        s@ == "FanslySync/0.1.0 tanner@fanslycreatorbot.com"@,
{
    "FanslySync/0.1.0 tanner@fanslycreatorbot.com"
}

/// The product identity carried on the paginated page requests.
pub fn page_user_agent() -> (s: &'static str)
    ensures
        s@ == "FanslySync/1.0.0 (tanner@fanslycreatorbot.com)"@,
{
    "FanslySync/1.0.0 (tanner@fanslycreatorbot.com)"
}

/// The account-identity endpoint.
pub fn profile_url() -> (s: &'static str)
    ensures
        s@ == "https://apiv3.fansly.com/api/v1/account/me"@,
{
    "https://apiv3.fansly.com/api/v1/account/me"
}

/// The snapshot publish endpoint of a manual run.
pub fn publish_url() -> (s: &'static str)
    ensures
        s@ == "https://paste.fanslycreatorbot.com"@,
{
    "https://paste.fanslycreatorbot.com"
}

/// The companion backend's endpoint for pushing auto-sync data.
pub fn auto_sync_upload_url() -> (s: &'static str)
    ensures
        s@ == "https://botapi.fanslycreatorbot.com/sync"@,
{
    "https://botapi.fanslycreatorbot.com/sync"
}

/// The companion backend's endpoint for validating a sync token.
pub fn check_sync_token_url() -> (s: &'static str)
    ensures
        s@ == "https://botapi.fanslycreatorbot.com/checkSyncToken"@,
{
    "https://botapi.fanslycreatorbot.com/checkSyncToken"
}

/// Whether an HTTP status code counts as success: exactly the 2xx range.
/// Any other status fails the call that received it.
pub fn status_is_success(code: u16) -> (r: bool)
    ensures
        r == (200 <= code && code < 300),
{
    200 <= code && code < 300
}

/// The decimal digit characters.
pub open spec fn dec_digit(d: int) -> char
    recommends
        0 <= d < 10,
{
    if d == 0 {
        '0'
    } else if d == 1 {
        '1'
    } else if d == 2 {
        '2'
    } else if d == 3 {
        '3'
    } else if d == 4 {
        '4'
    } else if d == 5 {
        '5'
    } else if d == 6 {
        '6'
    } else if d == 7 {
        '7'
    } else if d == 8 {
        '8'
    } else {
        '9'
    }
}

/// The usual decimal representation of a number: no sign, no leading
/// zeros except for the number zero itself.
pub open spec fn dec_rep(n: nat) -> Seq<char>
    decreases n,
{
    if n < 10 {
        seq![dec_digit(n as int)]
    } else {
        dec_rep(n / 10) + seq![dec_digit((n % 10) as int)]
    }
}

/// One decimal digit as text.
fn digit_str(d: u8) -> (s: &'static str)
    requires
        d < 10,
    ensures
        s@.len() == 1,
        s@[0] == dec_digit(d as int),
{
    let s: &'static str = if d == 0 {
        "0"
    } else if d == 1 {
        "1"
    } else if d == 2 {
        "2"
    } else if d == 3 {
        "3"
    } else if d == 4 {
        "4"
    } else if d == 5 {
        "5"
    } else if d == 6 {
        "6"
    } else if d == 7 {
        "7"
    } else if d == 8 {
        "8"
    } else {
        "9"
    };
    proof {
        reveal_strlit("0");
        reveal_strlit("1");
        reveal_strlit("2");
        reveal_strlit("3");
        reveal_strlit("4");
        reveal_strlit("5");
        reveal_strlit("6");
        reveal_strlit("7");
        reveal_strlit("8");
        reveal_strlit("9");
    }
    s
}

/// A number as its decimal text.
pub fn u64_to_decimal(n: u64) -> (s: String)
    ensures
        s@ == dec_rep(n as nat),
    decreases n,
{
    let last = digit_str((n % 10) as u8);
    if n < 10 {
        proof {
            assert(last@ =~= dec_rep(n as nat));
        }
        last.to_owned()
    } else {
        let mut s = u64_to_decimal(n / 10);
        s.append(last);
        proof {
            assert(last@ =~= seq![dec_digit((n % 10) as int)]);
            assert(s@ =~= dec_rep(n as nat));
        }
        s
    }
}

/// The exact text of a follower page request: the followers of the given
/// account, a page of up to 100 records at the given offset.
pub fn followers_request_url(account_id: &str, offset: u64) -> (s: String)
    ensures
        s@ == "https://apiv3.fansly.com/api/v1/account/"@ + account_id@
            + "/followers?ngsw-bypass=true&limit=100&offset="@ + dec_rep(offset as nat),
{
    let mut s = "https://apiv3.fansly.com/api/v1/account/".to_owned();
    s.append(account_id);
    s.append("/followers?ngsw-bypass=true&limit=100&offset=");
    let num = u64_to_decimal(offset);
    s.append(num.as_str());
    s
}

/// The exact text of a subscription page request: active and expired
/// subscriptions, a page of up to 100 records at the given offset.
pub fn subscribers_request_url(offset: u64) -> (s: String)
    ensures
        s@ == "https://apiv3.fansly.com/api/v1/subscribers?status=3,4&limit=100&offset="@
            + dec_rep(offset as nat) + "&ngsw-bypass=true"@,
{
    let mut s = "https://apiv3.fansly.com/api/v1/subscribers?status=3,4&limit=100&offset=".to_owned();
    let num = u64_to_decimal(offset);
    s.append(num.as_str());
    s.append("&ngsw-bypass=true");
    s
}

} // verus!
