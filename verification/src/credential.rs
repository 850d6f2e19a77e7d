//! Composition of the credential headers: the cookie line every outbound
//! request carries, built from the opaque session token and the generated
//! device identifier.

use vstd::prelude::*;
use crate::observer::push_str;

verus! {

/// The cookie header line: the session token and the device identifier in
/// the fixed field layout every request uses.
pub open spec fn spec_cookie_header(token: Seq<char>, device_id: Seq<char>) -> Seq<char> {
    "new_bbs_serviceToken="@ + token + ";versionCode=500411;versionName=5.4.11;deviceId="@
        + device_id + ";"@
}

/// Compose the cookie header from a token and a device identifier.
pub fn cookie_header(token: &str, device_id: &str) -> (r: String)
    ensures
        r@ == spec_cookie_header(token@, device_id@),
{
    let mut line = "new_bbs_serviceToken=".to_owned();
    push_str(&mut line, token);
    push_str(&mut line, ";versionCode=500411;versionName=5.4.11;deviceId=");
    push_str(&mut line, device_id);
    push_str(&mut line, ";");
    proof {
        assert(line@ =~= spec_cookie_header(token@, device_id@));
    }
    line
}

} // verus!
