use vstd::prelude::*;

verus! {

/// A notification as this backend hands it to the OS facility: a title
/// and a body, forwarded unchanged.
pub struct NotificationRequest {
    pub title: String,
    pub body: String,
}

/// Packages a notification for the host to dispatch. The host's show
/// call may fail (for instance when the OS denies permission); that
/// failure reaches the caller as a `NotificationError`, and the request
/// itself carries the two texts untouched.
pub fn notification_request(title: String, body: String) -> (n: NotificationRequest)
    ensures
        n.title == title,
        n.body == body,
{
    NotificationRequest { title, body }
}

} // verus!
