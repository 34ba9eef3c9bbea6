//! The fetched data, modelled as plain values.
//!
//! The remote directory hands back applications, each with a display
//! name, an identifier, and two lists of credentials (secrets and
//! certificates). A credential's expiry is held as a Unix timestamp in
//! seconds; the code that talks to the remote service converts its
//! wire-format dates into this form before anything here sees them.

use vstd::prelude::*;

verus! {

/// Seconds in a day, the unit in which remaining lifetime is reported.
pub const SECONDS_PER_DAY: u64 = 86400;

/// One credential (a secret or a certificate) of an application.
pub struct Credential {
    /// Expiry instant, as seconds since the Unix epoch.
    pub end_timestamp: i64,
}

impl View for Credential {
    type V = int;

    open spec fn view(&self) -> int {
        self.end_timestamp as int
    }
}

impl DeepView for Credential {
    type V = int;

    open spec fn deep_view(&self) -> int {
        self@
    }
}

/// The mathematical value of an application record: its identifiers as
/// character sequences and each credential as its expiry timestamp.
pub struct ApplicationView {
    pub app_id: Seq<char>,
    pub display_name: Seq<char>,
    pub password_credentials: Seq<int>,
    pub key_credentials: Seq<int>,
}

/// One application of the directory, with its secrets and certificates.
pub struct Application {
    pub app_id: String,
    pub display_name: String,
    pub password_credentials: Vec<Credential>,
    pub key_credentials: Vec<Credential>,
}

impl View for Application {
    type V = ApplicationView;

    open spec fn view(&self) -> ApplicationView {
        ApplicationView {
            app_id: self.app_id@,
            display_name: self.display_name@,
            password_credentials: self.password_credentials.deep_view(),
            key_credentials: self.key_credentials.deep_view(),
        }
    }
}

impl DeepView for Application {
    type V = ApplicationView;

    open spec fn deep_view(&self) -> ApplicationView {
        self@
    }
}

/// A whole fetch result: the list of applications the directory returned.
pub struct Applications {
    pub value: Vec<Application>,
}

impl View for Applications {
    type V = Seq<ApplicationView>;

    open spec fn view(&self) -> Seq<ApplicationView> {
        self.value.deep_view()
    }
}

/// Whole days from `now` until `end`, both in seconds since the epoch;
/// zero once the expiry is now or in the past.
pub open spec fn spec_days_remaining(now: int, end: int) -> int {
    if now > end {
        0
    } else {
        (end - now) / (SECONDS_PER_DAY as int)
    }
}

/// Whole days until the expiry instant `end`, seen from `now`; a
/// credential expiring now or already expired has `0` days remaining,
/// never a negative count.
pub fn days_remaining(now: i64, end: i64) -> (d: u64)
    ensures
        d == spec_days_remaining(now as int, end as int),
        now >= end ==> d == 0,
{
    if now > end {
        0
    } else {
        let diff: i128 = end as i128 - now as i128;
        let diff_u: u128 = diff as u128;
        assert(diff_u == end - now);
        let days: u128 = diff_u / (SECONDS_PER_DAY as u128);
        assert(days <= diff_u) by (nonlinear_arith)
            requires
                days == diff_u / 86400,
        ;
        days as u64
    }
}

} // verus!
