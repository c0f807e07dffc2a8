//! Who may see and add what: every permission is a group membership,
//! reached through the group itself, a thread of it, a post of one of its
//! threads, or a correction of such a post.

use vstd::prelude::*;

verus! {

/// The membership that a permission query looks for, by the id it starts
/// from.
#[derive(Debug, Clone, Copy, PartialEq, Eq, Structural)]
pub enum Membership {
    /// Membership in the group.
    Group(u64),
    /// Membership in the group that the thread belongs to.
    Thread(u64),
    /// Membership in the group of the thread that the post belongs to.
    Post(u64),
    /// Membership in the group of the thread of the post that the
    /// correction corrects.
    Correction(u64),
}

/// What a user asks to do.
#[derive(Debug, Clone, Copy, PartialEq, Eq, Structural)]
pub enum Action {
    ViewGroup(u64),
    AddThread(u64),
    ViewThread(u64),
    AddTranslation(u64),
    ViewPost(u64),
    AddCorrection(u64),
    ViewCorrection(u64),
}

/// The membership that each action needs: adding a thread needs what viewing
/// its group needs, adding a translation what viewing its thread needs, and
/// adding a correction what viewing its post needs.
pub open spec fn required_membership(a: Action) -> Membership {
    match a {
        Action::ViewGroup(g) => Membership::Group(g),
        Action::AddThread(g) => Membership::Group(g),
        Action::ViewThread(t) => Membership::Thread(t),
        Action::AddTranslation(t) => Membership::Thread(t),
        Action::ViewPost(p) => Membership::Post(p),
        Action::AddCorrection(p) => Membership::Post(p),
        Action::ViewCorrection(p) => Membership::Correction(p),
    }
}

impl Action {
    /// The membership query that decides the action.
    pub fn requirement(&self) -> (m: Membership)
        ensures
            m == required_membership(*self),
    {
        match self {
            Action::ViewGroup(g) => Membership::Group(*g),
            Action::AddThread(g) => Membership::Group(*g),
            Action::ViewThread(t) => Membership::Thread(*t),
            Action::AddTranslation(t) => Membership::Thread(*t),
            Action::ViewPost(p) => Membership::Post(*p),
            Action::AddCorrection(p) => Membership::Post(*p),
            Action::ViewCorrection(p) => Membership::Correction(*p),
        }
    }
}

/// A membership query grants the permission exactly when it finds a row.
pub fn row_exists(first_row: Option<u64>) -> (granted: bool)
    ensures
        granted == first_row is Some,
{
    first_row.is_some()
}

/// Every action is decided by membership reached through the very object it
/// names, by the same id: a group for viewing it or adding a thread to it, a
/// thread for viewing it or adding a translation to it, a post for viewing it
/// or adding a correction to it, and a correction for viewing it.
pub proof fn lemma_requirement_names_the_object(id: u64)
    ensures
        required_membership(Action::ViewGroup(id)) == Membership::Group(id),
        required_membership(Action::AddThread(id)) == Membership::Group(id),
        required_membership(Action::ViewThread(id)) == Membership::Thread(id),
        required_membership(Action::AddTranslation(id)) == Membership::Thread(id),
        required_membership(Action::ViewPost(id)) == Membership::Post(id),
        required_membership(Action::AddCorrection(id)) == Membership::Post(id),
        required_membership(Action::ViewCorrection(id)) == Membership::Correction(id),
{
}

/// Adding under a group, a thread or a post is allowed to exactly those
/// who may view it.
pub proof fn lemma_adding_needs_viewing(id: u64)
    ensures
        required_membership(Action::AddThread(id)) == required_membership(Action::ViewGroup(id)),
        required_membership(Action::AddTranslation(id)) == required_membership(
            Action::ViewThread(id),
        ),
        required_membership(Action::AddCorrection(id)) == required_membership(
            Action::ViewPost(id),
        ),
{
}

} // verus!
