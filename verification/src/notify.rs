//! What a desktop alert for a notification says.

use crate::github::{Notification, NotificationView};
use vstd::prelude::*;

verus! {

/// The name under which the alerts introduce the program to the desktop.
pub const APPLICATION_NAME: &'static str = "Github Desktop";

/// What stands between the category and the title in an alert's body.
pub const BODY_SEPARATOR: &'static str = ": ";

/// The timeout of an alert that stays until it is dismissed.
pub const NEVER_EXPIRES: i32 = 0;

/// A desktop alert, ready to be shown.
#[derive(Debug)]
pub struct Alert {
    pub summary: String,
    pub body: String,
    pub timeout: i32,
}

/// An alert as contracts see it.
pub struct AlertView {
    pub summary: Seq<char>,
    pub body: Seq<char>,
    pub timeout: int,
}

impl View for Alert {
    type V = AlertView;

    open spec fn view(&self) -> AlertView {
        AlertView { summary: self.summary@, body: self.body@, timeout: self.timeout as int }
    }
}

/// The alert for a notification: the repository's full name as the summary, the category
/// and the title as the body, and no timeout.
pub open spec fn alert_for(n: NotificationView) -> AlertView {
    AlertView {
        summary: n.repository.full_name,
        body: n.subject.category + BODY_SEPARATOR@ + n.subject.title,
        timeout: NEVER_EXPIRES as int,
    }
}

/// Whether the desktop still has to be told who is alerting. `ready` remembers that it was:
/// the answer is yes on the first call and no on every later one.
pub fn maybe_init_notifications(ready: &mut bool) -> (first: bool)
    ensures
        first == !*old(ready),
        *final(ready),
{
    let first = !*ready;
    *ready = true;
    first
}

/// The alert that shows a notification.
pub fn display_notification(n: &Notification) -> (alert: Alert)
    ensures
        alert@ == alert_for(n@),
{
    let body = n.subject.category.clone().concat(BODY_SEPARATOR).concat(n.subject.title.as_str());
    Alert { summary: n.repository.full_name.clone(), body, timeout: NEVER_EXPIRES }
}

} // verus!
