//! The development web server: where it listens, what it serves, and what it
//! tells its clients.

use vstd::prelude::*;
use crate::paths::{path_join, std_path_join};

verus! {

/// The port the development server listens on (on the loopback address).
pub const SERVER_PORT: u16 = 4000;

/// How many reload messages wait for slow clients before the oldest is lost.
pub const RELOAD_CHANNEL_CAPACITY: usize = 100;

/// The directory served for a web build:
/// `<target>/bevy_web/<profile>/<binary>`.
pub open spec fn bundle_dir(target_dir: Seq<char>, profile: Seq<char>, bin_name: Seq<char>) -> Seq<
    char,
> {
    std_path_join(std_path_join(std_path_join(target_dir, "bevy_web"@), profile), bin_name)
}

/// The directory served for a web build.
pub fn web_bundle_dir(target_dir: &String, profile: &String, bin_name: &String) -> (r: String)
    ensures
        r@ == bundle_dir(target_dir@, profile@, bin_name@),
{
    let web = String::from_str("bevy_web");
    let base = path_join(target_dir.as_str(), web.as_str());
    let with_profile = path_join(base.as_str(), profile.as_str());
    path_join(with_profile.as_str(), bin_name.as_str())
}

/// The message that asks the web clients to reload: the JSON object
/// `{"type":"reload"}`.
pub fn reload_message() -> (r: String)
    ensures
        r@ == "{\"type\":\"reload\"}"@,
{
    String::from_str("{\"type\":\"reload\"}")
}

} // verus!
