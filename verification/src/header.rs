//! The one custom header this client knows: switching off the service's
//! notifications for a write.

use vstd::prelude::*;
use vstd::string::*;

use crate::client::spec_header_views;

verus! {

/// The name of the header that switches notifications off.
pub fn disable_notification_header_name() -> (r: &'static str)
    ensures
        r@ == "X-TD-DISABLE-NOTIFICATIONS"@,
{
    "X-TD-DISABLE-NOTIFICATIONS"
}

/// Append the notification-disabling header, valued with the plain words
/// `true` or `false`.
pub fn disable_notifications_header(headers: &mut Vec<(String, String)>, disable: bool)
    ensures
        spec_header_views(final(headers)@) == spec_header_views(old(headers)@).push(
            ("X-TD-DISABLE-NOTIFICATIONS"@, if disable {
                "true"@
            } else {
                "false"@
            }),
        ),
{
    let value = if disable {
        String::from_str("true")
    } else {
        String::from_str("false")
    };
    headers.push((String::from_str("X-TD-DISABLE-NOTIFICATIONS"), value));
    proof {
        assert(spec_header_views(headers@) =~= spec_header_views(old(headers)@).push(
            ("X-TD-DISABLE-NOTIFICATIONS"@, if disable {
                "true"@
            } else {
                "false"@
            }),
        ));
    }
}

} // verus!
