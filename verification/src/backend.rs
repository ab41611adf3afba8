//! What the authorization back end computes from the permissions it looks
//! up: the permissions of a user, and whether one of them is held.
use vstd::prelude::*;
use std::collections::HashSet;
use std::hash::Hash;
use vstd::std_specs::hash::obeys_key_model;
use vstd::std_specs::hash::builds_valid_hashers;

verus! {

broadcast use vstd::std_specs::hash::group_hash_axioms;

/// `Extend::extend` of a `HashSet` by the items of another set: afterwards
/// the set holds its own items and those of the other, as a set union
/// (stated, as `vstd` states `HashSet::insert`, for keys that follow the
/// hash-table key model).
#[verifier::external_body]
fn extend_set<P: Hash + Eq>(set: &mut HashSet<P>, items: HashSet<P>)
    ensures
        obeys_key_model::<P>() && builds_valid_hashers::<std::hash::RandomState>() ==> final(set)@
            == old(set)@.union(items@),
{
    set.extend(items)
}

/// All the permissions of a user: those granted to the user directly,
/// together with those of the user's groups.
pub fn all_permissions<P: Hash + Eq>(user_permissions: HashSet<P>, group_permissions: HashSet<P>) -> (all: HashSet<P>)
    ensures
        obeys_key_model::<P>() ==> all@ == user_permissions@.union(group_permissions@),
{
    let mut all = HashSet::new();
    extend_set(&mut all, user_permissions);
    extend_set(&mut all, group_permissions);
    proof {
        assert(Set::<P>::empty().union(user_permissions@) =~= user_permissions@);
    }
    all
}

/// Whether a permission is among the permissions of a user.
pub fn has_permission<P: Hash + Eq>(all: &HashSet<P>, permission: &P) -> (held: bool)
    ensures
        obeys_key_model::<P>() ==> held == all@.contains(*permission),
{
    all.contains(permission)
}

/// A permission is held exactly when the user has it directly or through a
/// group.
pub proof fn law_permission_from_user_or_group<P>(user: Set<P>, group: Set<P>, permission: P)
    ensures
        user.union(group).contains(permission) <==> user.contains(permission) || group.contains(
            permission,
        ),
{
}

/// Where the gathering of a user's permissions stands: the user's own
/// permissions are awaited, or they are in and the group permissions are
/// awaited.
pub enum PermissionQuery<P> {
    AwaitingUser,
    AwaitingGroup(HashSet<P>),
}

/// What the gathering does next: look up the user's own permissions, look up
/// those of the user's groups, or finish with this answer.
pub enum PermissionStep<P, E> {
    FetchUser,
    FetchGroup,
    Finish(Result<HashSet<P>, E>),
}

/// The first step of gathering a user's permissions: the user's own are
/// looked up first.
pub fn start_permission_query<P, E>() -> (r: (PermissionQuery<P>, PermissionStep<P, E>))
    ensures
        r.0 is AwaitingUser,
        r.1 is FetchUser,
{
    (PermissionQuery::AwaitingUser, PermissionStep::FetchUser)
}

/// The next step of gathering a user's permissions, once a lookup has
/// answered. A failed lookup ends the gathering with its error (the group
/// permissions are not looked up after the user's own failed); the user's
/// own permissions are kept while the group permissions are looked up; and
/// the group permissions complete the answer, the union of both.
pub fn permission_step<P: Hash + Eq, E>(state: PermissionQuery<P>, answer: Result<HashSet<P>, E>) -> (r: (
    PermissionQuery<P>,
    PermissionStep<P, E>,
))
    ensures
        answer matches Err(e) ==> (r.1 matches PermissionStep::Finish(Err(f)) && f == e),
        state is AwaitingUser && answer is Ok ==> r.1 is FetchGroup && r.0 == PermissionQuery::<
            P,
        >::AwaitingGroup(answer->Ok_0),
        state is AwaitingGroup && answer is Ok ==> (r.1 matches PermissionStep::Finish(Ok(all)) && (
        obeys_key_model::<P>() ==> all@ == state->AwaitingGroup_0@.union(answer->Ok_0@))),
{
    match answer {
        Err(e) => (PermissionQuery::AwaitingUser, PermissionStep::Finish(Err(e))),
        Ok(found) => match state {
            PermissionQuery::AwaitingUser => (
                PermissionQuery::AwaitingGroup(found),
                PermissionStep::FetchGroup,
            ),
            PermissionQuery::AwaitingGroup(user_permissions) => (
                PermissionQuery::AwaitingUser,
                PermissionStep::Finish(Ok(all_permissions(user_permissions, found))),
            ),
        },
    }
}

} // verus!
