use vstd::prelude::*;

verus! {

/// The failures this backend distinguishes: the credential document
/// could not be opened or flushed, the OS rejected a notification, or a
/// window operation failed. Each carries the host's own description.
pub enum AdapterError {
    Storage(String),
    Notification(String),
    Window(String),
}

impl AdapterError {
    /// The human-readable text a command hands back to the UI layer in
    /// place of the error: exactly the host's description. Tray event
    /// handlers never surface it — there a failure is dropped, keeping
    /// the event loop alive.
    pub fn message(&self) -> (s: &str)
        ensures
            s@ == match *self {
                AdapterError::Storage(ref m) => m@,
                AdapterError::Notification(ref m) => m@,
                AdapterError::Window(ref m) => m@,
            },
    {
        match self {
            AdapterError::Storage(m) => m.as_str(),
            AdapterError::Notification(m) => m.as_str(),
            AdapterError::Window(m) => m.as_str(),
        }
    }
}

} // verus!
