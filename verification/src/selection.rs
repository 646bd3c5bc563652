//! The user's last proxy-group selection.
//!
//! The selection is persisted whenever the user picks a proxy through
//! the engine's control API and restored, best-effort, after every
//! successful start.  Reading and writing the selection file and
//! querying the engine are the application's outside work; the
//! decision whether to reissue the selection — only when a selection
//! was saved, the group could be queried, and the saved member still
//! exists — is made here.

use vstd::prelude::*;

verus! {

/// A persisted selection: the proxy group and the member chosen in it.
pub struct LastProxySelection {
    pub group: String,
    pub name: String,
}

/// `name` occurs among `members`.
pub open spec fn member_of(members: Seq<String>, name: Seq<char>) -> bool {
    exists|i: int| 0 <= i < members.len() && #[trigger] members[i]@ == name
}

/// Whether `name` occurs in the member list.
pub fn contains_member(members: &Vec<String>, name: &String) -> (r: bool)
    ensures
        r == member_of(members@, name@),
{
    let n = members.len();
    let mut i: usize = 0;
    while i < n
        invariant
            n == members@.len(),
            0 <= i <= n,
            forall|j: int| 0 <= j < i ==> #[trigger] members@[j]@ != name@,
        decreases n - i,
    {
        if members[i].eq(name) {
            return true;
        }
        i += 1;
    }
    false
}

/// Decide whether to reissue a restored selection.  `members` is the
/// queried member list of the saved group, or `None` when there is no
/// saved selection to query for or the group could not be queried.
/// The selection is reissued — by name — exactly when it was saved
/// and its member still exists; every other case is a silent no-op.
pub fn restore_decision(saved: &Option<LastProxySelection>, members: &Option<Vec<String>>) -> (r:
    Option<String>)
    ensures
        r is Some <==> (saved matches Some(s) && members matches Some(m) && member_of(m@, s.name@)),
        r matches Some(n) ==> n@ == saved->Some_0.name@,
{
    match (saved, members) {
        (Option::Some(s), Option::Some(m)) => {
            if contains_member(m, &s.name) {
                Option::Some(s.name.clone())
            } else {
                Option::None
            }
        },
        _ => Option::None,
    }
}

} // verus!
