//! Issuing access tokens.

use vstd::prelude::*;
use crate::auth::Claims;
use crate::clock::{duration_since_epoch, system_now, whole_secs};

verus! {

/// How long a token stays valid unless asked otherwise: 90 days, in
/// seconds.
pub const DEFAULT_EXPIRE: u64 = 7776000;

/// Whom a token is for and how long it stays valid, in seconds.
#[derive(Debug)]
pub struct Args {
    pub id: i32,
    pub expire: u64,
}

/// The current time in whole seconds since the Unix epoch, or none when the
/// clock reads earlier than the epoch.
pub fn get_current_timestamp() -> Option<u64> {
    let now = system_now();
    match duration_since_epoch(&now) {
        Some(d) => Some(whole_secs(&d)),
        None => None,
    }
}

/// The claims of a token issued at `now` (seconds since the epoch): the
/// user's id, and an expiry `expire` seconds later.
pub fn claims_for(args: &Args, now: u64) -> (c: Claims)
    requires
        args.expire + now <= u64::MAX,
    ensures
        c == (Claims { id: args.id, exp: (args.expire + now) as u64 }),
{
    Claims { id: args.id, exp: args.expire + now }
}

} // verus!
