//! What the client asks the desktop to show.

use vstd::prelude::*;

verus! {

/// A notification for the desktop: a title, a body and, where wanted, the
/// name of an icon.
#[derive(Debug)]
pub struct NotificationData {
    pub title: String,
    pub body: String,
    pub icon: Option<String>,
}

} // verus!
