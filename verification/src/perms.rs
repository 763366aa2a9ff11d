//! The permission model of ticket channels.
//!
//! A ticket channel's visibility is governed by a set of permission
//! overwrites: one per subject, where a subject is either the default
//! `@everyone` role or a specific member. The policy is deny-by-default —
//! the everyone role is denied the view permission — while the owner and
//! every added member are allowed to view the channel, send messages and
//! read its history.
//!
//! [`OverwriteSet`] models the channel's overwrites as the platform holds
//! them: an ordered list with at most one entry per subject. Adding a member
//! is an idempotent upsert of the fixed member grant; removing a member
//! deletes that member's entry, after which no overwrite for the member
//! remains.

use vstd::prelude::*;
use crate::text::str_eq;

verus! {

/// The channel permissions the ticket workflow manages.
#[derive(Clone, Copy, Debug, PartialEq, Eq, Structural)]
pub struct PermSet {
    pub view_channel: bool,
    pub send_messages: bool,
    pub read_message_history: bool,
}

/// No permissions.
pub open spec fn no_perms() -> PermSet {
    PermSet { view_channel: false, send_messages: false, read_message_history: false }
}

/// The grant every ticket participant receives: view, send and
/// read-history.
pub open spec fn member_perms() -> PermSet {
    PermSet { view_channel: true, send_messages: true, read_message_history: true }
}

/// The denial applied to the everyone role: view only.
pub open spec fn view_only() -> PermSet {
    PermSet { view_channel: true, send_messages: false, read_message_history: false }
}

/// Who a permission overwrite applies to.
#[derive(Clone, Copy, Debug, PartialEq, Eq, Structural)]
pub enum Subject {
    /// The default role implicitly held by every member of the server.
    Everyone { role_id: u64 },
    /// One specific member.
    Member { user_id: u64 },
}

/// One per-subject allow/deny rule on a channel.
#[derive(Clone, Copy, Debug, PartialEq, Eq, Structural)]
pub struct Overwrite {
    pub subject: Subject,
    pub allow: PermSet,
    pub deny: PermSet,
}

/// The overwrite granting a member full ticket participation.
pub open spec fn spec_member_overwrite(user_id: u64) -> Overwrite {
    Overwrite {
        subject: Subject::Member { user_id },
        allow: member_perms(),
        deny: no_perms(),
    }
}

/// The overwrite hiding the channel from the everyone role.
pub open spec fn spec_everyone_overwrite(role_id: u64) -> Overwrite {
    Overwrite {
        subject: Subject::Everyone { role_id },
        allow: no_perms(),
        deny: view_only(),
    }
}

/// The overwrite granting `user_id` full ticket participation.
pub fn member_overwrite(user_id: u64) -> (r: Overwrite)
    ensures
        r == spec_member_overwrite(user_id),
{
    Overwrite {
        subject: Subject::Member { user_id },
        allow: PermSet { view_channel: true, send_messages: true, read_message_history: true },
        deny: PermSet { view_channel: false, send_messages: false, read_message_history: false },
    }
}

/// The overwrite denying the everyone role the view permission.
pub fn everyone_overwrite(role_id: u64) -> (r: Overwrite)
    ensures
        r == spec_everyone_overwrite(role_id),
{
    Overwrite {
        subject: Subject::Everyone { role_id },
        allow: PermSet { view_channel: false, send_messages: false, read_message_history: false },
        deny: PermSet { view_channel: true, send_messages: false, read_message_history: false },
    }
}

/// Whether some overwrite in `s` applies to `subj`.
pub open spec fn contains_subject(s: Seq<Overwrite>, subj: Subject) -> bool {
    exists|i: int| 0 <= i < s.len() && (#[trigger] s[i]).subject == subj
}

/// Whether no two overwrites in `s` share a subject.
pub open spec fn subjects_unique(s: Seq<Overwrite>) -> bool {
    forall|i: int, j: int|
        0 <= i < j < s.len() ==> (#[trigger] s[i]).subject != (#[trigger] s[j]).subject
}

/// The index of the overwrite for `subj`; meaningful when `s` contains
/// exactly one such overwrite.
pub open spec fn subject_index(s: Seq<Overwrite>, subj: Subject) -> int {
    choose|i: int| 0 <= i < s.len() && (#[trigger] s[i]).subject == subj
}

/// What adding a member leaves the overwrites at: the member's entry is
/// replaced by the full participation grant if one exists, and appended
/// otherwise.
pub open spec fn spec_add_member(s: Seq<Overwrite>, user_id: u64) -> Seq<Overwrite> {
    let subj = Subject::Member { user_id };
    if contains_subject(s, subj) {
        s.update(subject_index(s, subj), spec_member_overwrite(user_id))
    } else {
        s.push(spec_member_overwrite(user_id))
    }
}

/// What removing a member leaves the overwrites at: the member's entry is
/// deleted if one exists, and nothing changes otherwise.
pub open spec fn spec_remove_member(s: Seq<Overwrite>, user_id: u64) -> Seq<Overwrite> {
    let subj = Subject::Member { user_id };
    if contains_subject(s, subj) {
        s.remove(subject_index(s, subj))
    } else {
        s
    }
}

/// A channel's permission overwrites: an ordered list with at most one
/// entry per subject.
pub struct OverwriteSet {
    entries: Vec<Overwrite>,
}

impl View for OverwriteSet {
    type V = Seq<Overwrite>;

    closed spec fn view(&self) -> Seq<Overwrite> {
        self.entries@
    }
}

impl OverwriteSet {
    /// At most one overwrite per subject.
    pub open spec fn wf(self) -> bool {
        subjects_unique(self@)
    }

    /// An empty overwrite set.
    pub fn empty() -> (r: OverwriteSet)
        ensures
            r.wf(),
            r@ == Seq::<Overwrite>::empty(),
    {
        OverwriteSet { entries: Vec::new() }
    }

    pub fn len(&self) -> (n: usize)
        ensures
            n == self@.len(),
    {
        self.entries.len()
    }

    pub fn get(&self, i: usize) -> (r: Overwrite)
        requires
            i < self@.len(),
        ensures
            r == self@[i as int],
    {
        self.entries[i]
    }

    /// The index of the overwrite for `subject`, if one exists.
    fn find_index(&self, subject: Subject) -> (r: Option<usize>)
        ensures
            r matches Some(i) ==> i < self@.len() && self@[i as int].subject == subject,
            r is None ==> !contains_subject(self@, subject),
    {
        let n = self.entries.len();
        let mut i: usize = 0;
        while i < n
            invariant
                n == self@.len(),
                0 <= i <= n,
                forall|j: int| 0 <= j < i ==> (#[trigger] self@[j]).subject != subject,
            decreases n - i,
        {
            if self.entries[i].subject == subject {
                return Some(i);
            }
            i = i + 1;
        }
        None
    }

    /// Grant `user_id` full participation in the channel: an idempotent
    /// upsert of the member's overwrite.
    pub fn add_member(&mut self, user_id: u64)
        requires
            old(self).wf(),
        ensures
            final(self).wf(),
            final(self)@ == spec_add_member(old(self)@, user_id),
            contains_subject(final(self)@, Subject::Member { user_id }),
    {
        let subj = Subject::Member { user_id };
        let ow = member_overwrite(user_id);
        match self.find_index(subj) {
            Some(i) => {
                proof {
                    let s = self@;
                    assert(contains_subject(s, subj));
                    let k = subject_index(s, subj);
                    assert(0 <= k < s.len() && s[k].subject == subj);
                    if k != i as int {
                        assert(s[k].subject != s[i as int].subject);
                        assert(false);
                    }
                }
                self.entries[i] = ow;
                proof {
                    let s = self@;
                    assert forall|a: int, b: int| 0 <= a < b < s.len() implies (#[trigger] s[a]).subject
                        != (#[trigger] s[b]).subject by {
                        assert(old(self)@[a].subject != old(self)@[b].subject);
                    }
                    assert(s[i as int].subject == subj);
                }
            },
            None => {
                self.entries.push(ow);
                proof {
                    let s = self@;
                    let olds = old(self)@;
                    assert forall|a: int, b: int| 0 <= a < b < s.len() implies (#[trigger] s[a]).subject
                        != (#[trigger] s[b]).subject by {
                        if b < olds.len() {
                            assert(olds[a].subject != olds[b].subject);
                        } else {
                            assert(s[b].subject == subj);
                            assert(olds[a].subject != subj);
                        }
                    }
                    assert(s[s.len() - 1].subject == subj);
                }
            },
        }
    }

    /// Delete the overwrite for `user_id`, if one exists; afterwards no
    /// overwrite for the member remains.
    pub fn remove_member(&mut self, user_id: u64)
        requires
            old(self).wf(),
        ensures
            final(self).wf(),
            final(self)@ == spec_remove_member(old(self)@, user_id),
            !contains_subject(final(self)@, Subject::Member { user_id }),
    {
        let subj = Subject::Member { user_id };
        match self.find_index(subj) {
            Some(i) => {
                proof {
                    let s = self@;
                    let k = subject_index(s, subj);
                    assert(0 <= k < s.len() && s[k].subject == subj);
                    if k != i as int {
                        assert(s[k].subject != s[i as int].subject);
                        assert(false);
                    }
                }
                self.entries.remove(i);
                proof {
                    let s = self@;
                    let olds = old(self)@;
                    assert forall|a: int, b: int| 0 <= a < b < s.len() implies (#[trigger] s[a]).subject
                        != (#[trigger] s[b]).subject by {
                        let a0 = if a < i as int { a } else { a + 1 };
                        let b0 = if b < i as int { b } else { b + 1 };
                        assert(s[a] == olds[a0]);
                        assert(s[b] == olds[b0]);
                        assert(olds[a0].subject != olds[b0].subject);
                    }
                    assert forall|a: int| 0 <= a < s.len() implies (#[trigger] s[a]).subject != subj by {
                        let a0 = if a < i as int { a } else { a + 1 };
                        assert(s[a] == olds[a0]);
                        if a0 != i as int {
                            assert(olds[a0].subject != olds[i as int].subject);
                        }
                    }
                }
            },
            None => {},
        }
    }
}

/// The overwrites a fresh ticket channel is created with: the owner's full
/// participation grant and the everyone role's view denial, nothing else.
pub open spec fn initial_overwrites(owner_id: u64, everyone_role_id: u64) -> Seq<Overwrite> {
    seq![spec_member_overwrite(owner_id), spec_everyone_overwrite(everyone_role_id)]
}

/// Build the initial visibility rules of a ticket channel: deny the
/// everyone role the view permission, allow the owner to view the channel,
/// send messages and read its history, and grant nothing else.
pub fn build_initial_overwrites(owner_id: u64, everyone_role_id: u64) -> (r: OverwriteSet)
    ensures
        r.wf(),
        r@ == initial_overwrites(owner_id, everyone_role_id),
{
    let mut set = OverwriteSet::empty();
    let owner = member_overwrite(owner_id);
    let everyone = everyone_overwrite(everyone_role_id);
    set.entries.push(owner);
    set.entries.push(everyone);
    proof {
        assert(set@ =~= initial_overwrites(owner_id, everyone_role_id));
    }
    set
}

/// Adding a member who had no overwrite and then removing the same member
/// returns a channel's overwrite set to exactly its earlier content.
pub proof fn lemma_add_then_remove_restores(s: Seq<Overwrite>, user_id: u64)
    requires
        !contains_subject(s, Subject::Member { user_id }),
    ensures
        spec_remove_member(spec_add_member(s, user_id), user_id) == s,
{
    let subj = Subject::Member { user_id };
    let added = spec_add_member(s, user_id);
    assert(added == s.push(spec_member_overwrite(user_id)));
    assert(added[s.len() as int].subject == subj);
    assert(contains_subject(added, subj));
    let k = subject_index(added, subj);
    assert(0 <= k < added.len() && added[k].subject == subj);
    if k < s.len() {
        assert(added[k] == s[k]);
        assert(false);
    }
    assert(k == s.len());
    assert(added.remove(k) =~= s);
}

/// One role of a server, as the lookup of the everyone role reads it.
pub struct Role {
    pub id: u64,
    pub name: String,
}

/// The literal name of the default role.
pub open spec fn everyone_role_name() -> Seq<char> {
    "@everyone"@
}

/// Whether the role list holds a role literally named `@everyone`.
pub open spec fn has_everyone_role(roles: Seq<Role>) -> bool {
    exists|i: int| 0 <= i < roles.len() && (#[trigger] roles[i]).name@ == everyone_role_name()
}

/// Locate the default role: the first role literally named `@everyone`.
/// Absence of such a role is reported so the caller can abort the
/// operation.
pub fn find_everyone_role(roles: &Vec<Role>) -> (r: Option<u64>)
    ensures
        r is Some <==> has_everyone_role(roles@),
        r matches Some(id) ==> exists|i: int|
            {
                &&& 0 <= i < roles@.len()
                &&& (#[trigger] roles@[i]).name@ == everyone_role_name()
                &&& roles@[i].id == id
                &&& forall|j: int| 0 <= j < i ==> (#[trigger] roles@[j]).name@ != everyone_role_name()
            },
{
    let n = roles.len();
    let mut i: usize = 0;
    while i < n
        invariant
            n == roles@.len(),
            0 <= i <= n,
            forall|j: int| 0 <= j < i ==> (#[trigger] roles@[j]).name@ != everyone_role_name(),
        decreases n - i,
    {
        if str_eq(roles[i].name.as_str(), "@everyone") {
            return Some(roles[i].id);
        }
        i = i + 1;
    }
    None
}

} // verus!
