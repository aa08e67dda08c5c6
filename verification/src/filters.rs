//! Which notifications are worth an alert.

use crate::github::{notification_views, Notification, NotificationView};
use vstd::prelude::*;
use vstd::utf8::encode_utf8;

verus! {

/// The shape of a dependency bump in a subject title: `chore(dep)`, `chore(deps)`,
/// `chore(dep-dev)` or `chore(deps-dev)`, anywhere in the title.
pub const DEP_BUMP_PATTERN: &'static str = "chore\\((deps?(-dev)?)\\)";

/// What the `regex` crate answers for a pattern and a haystack: `None` where
/// `regex::bytes::Regex::new` refuses the pattern, else what `Regex::is_match` says, that is
/// whether the pattern matches anywhere in the haystack.
pub uninterp spec fn regex_search(pattern: Seq<char>, haystack: Seq<u8>) -> Option<bool>;

/// Compiles `pattern` with `regex::bytes::Regex::new` and asks `Regex::is_match` about
/// `haystack`. Trusted: the answer depends on the two texts alone, so it has a name. What
/// the answer is for given texts is not claimed here.
#[verifier::external_body]
fn search(pattern: &str, haystack: &[u8]) -> (found: Option<bool>)
    ensures
        found == regex_search(pattern@, haystack@),
{
    match regex::bytes::Regex::new(pattern) {
        Ok(re) => Some(re.is_match(haystack)),
        Err(_) => None,
    }
}

/// A search counts as a hit only where the engine took the pattern and found a match.
pub open spec fn is_hit(found: Option<bool>) -> bool {
    found == Some(true)
}

/// Whether a search result is a hit.
pub fn hit(found: Option<bool>) -> (b: bool)
    ensures
        b == is_hit(found),
{
    match found {
        Some(matched) => matched,
        None => false,
    }
}

/// A notification is a dependency bump when its title holds the bump pattern.
pub open spec fn is_dep_bump_spec(n: NotificationView) -> bool {
    is_hit(regex_search(DEP_BUMP_PATTERN@, encode_utf8(n.subject.title)))
}

/// Every repository is allowed for now: the allow-list is not enforced yet.
pub open spec fn allowed_repo_spec(n: NotificationView) -> bool {
    true
}

/// A notification is kept when it is no dependency bump and its repository is allowed.
pub open spec fn retain_spec(n: NotificationView) -> bool {
    !is_dep_bump_spec(n) && allowed_repo_spec(n)
}

/// Whether the notification's title marks a dependency bump.
pub fn is_dep_bump(n: &Notification) -> (bump: bool)
    ensures
        bump == is_dep_bump_spec(n@),
{
    hit(search(DEP_BUMP_PATTERN, n.subject.title.as_str().as_bytes()))
}

/// Whether the notification comes from a repository we care about.
pub fn allowed_repo(_n: &Notification) -> (allowed: bool)
    ensures
        allowed == allowed_repo_spec(_n@),
{
    true
}

/// The whole filter: keep what is no dependency bump and comes from an allowed repository.
pub fn retain(n: &Notification) -> (keep: bool)
    ensures
        keep == retain_spec(n@),
        keep == (!is_dep_bump_spec(n@) && allowed_repo_spec(n@)),
{
    !is_dep_bump(n) && allowed_repo(n)
}

/// The kept ones among `items`, in the same order.
pub open spec fn retained_spec(items: Seq<NotificationView>) -> Seq<NotificationView> {
    items.filter(|n: NotificationView| retain_spec(n))
}

/// Runs the filter over a fetched list: what is kept stays in fetch order, the rest is dropped.
pub fn retained(fetched: Vec<Notification>) -> (kept: Vec<Notification>)
    ensures
        notification_views(kept@) == retained_spec(notification_views(fetched@)),
{
    let ghost all = notification_views(fetched@);
    let ghost keep = |n: NotificationView| retain_spec(n);
    let mut kept: Vec<Notification> = Vec::new();
    for n in it: fetched.into_iter()
        invariant
            all == notification_views(fetched@),
            keep == |n: NotificationView| retain_spec(n),
            notification_views(kept@) == all.take(it.index() as int).filter(keep),
    {
        proof {
            let i = it.index() as int;
            assert(all.take(i + 1) =~= all.take(i).push(n@));
            all.take(i).lemma_filter_push(n@, keep);
        }
        if retain(&n) {
            kept.push(n);
        }
    }
    assert(all.take(all.len() as int) =~= all);
    kept
}

} // verus!
