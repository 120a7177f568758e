use vstd::prelude::*;
use crate::config::RoleRule;
use crate::reaction::{
    ReactionEvent,
    MemberKey,
    concerns,
    lookup_key,
    is_message_relevant_for_bot,
    member_lookup_key,
};

verus! {

/// Whether a reaction was added or removed.
#[derive(Clone, Copy, Debug, PartialEq, Eq, Structural)]
pub enum ReactionKind {
    Added,
    Removed,
}

/// What to do with the rule's role on a member.
#[derive(Clone, Copy, Debug, PartialEq, Eq, Structural)]
pub enum RoleChange {
    Grant,
    Revoke,
}

/// One call to the platform that changes a member's roles.
#[derive(Clone, Copy, Debug, PartialEq, Eq, Structural)]
pub struct RoleRequest {
    pub change: RoleChange,
    pub guild_id: u64,
    pub user_id: u64,
    pub role_id: u64,
}

/// The next thing the caller does while handling one reaction.
///
/// `LookUpMember` asks the caller to fetch the member and report the outcome
/// to [`after_member_lookup`]; `UpdateRole` asks it to issue the request and
/// log a failure. Every other step ends the handling of the event.
#[derive(Clone, Copy, Debug, PartialEq, Eq, Structural)]
pub enum Step {
    /// The reaction does not concern the rule.
    Ignore,
    /// The reaction names no user; logged as a warning.
    MissingUser,
    /// The reaction names no guild; logged as a warning.
    MissingGuild,
    LookUpMember(MemberKey),
    /// The member lookup failed; logged as a warning.
    MemberUnavailable,
    UpdateRole(RoleRequest),
}

/// The role change that a reaction of `kind` calls for.
pub open spec fn change_for(kind: ReactionKind) -> RoleChange {
    match kind {
        ReactionKind::Added => RoleChange::Grant,
        ReactionKind::Removed => RoleChange::Revoke,
    }
}

/// The first step for a reaction: ignore it unless it concerns the rule,
/// stop when the user or the guild is missing, else look the member up.
pub open spec fn first_step(rule: RoleRule, reaction: ReactionEvent) -> Step {
    if !concerns(rule, reaction) {
        Step::Ignore
    } else if reaction.user_id is None {
        Step::MissingUser
    } else if reaction.guild_id is None {
        Step::MissingGuild
    } else {
        Step::LookUpMember(lookup_key(reaction)->Some_0)
    }
}

/// The step after a member lookup: change the rule's role on the member that
/// was found, or stop when none was.
pub open spec fn step_after_lookup(rule: RoleRule, kind: ReactionKind, found: Option<MemberKey>) -> Step {
    match found {
        Some(member) => Step::UpdateRole(
            RoleRequest {
                change: change_for(kind),
                guild_id: member.guild_id,
                user_id: member.user_id,
                role_id: rule.role_id,
            },
        ),
        None => Step::MemberUnavailable,
    }
}

/// Starts the handling of a reaction, added or removed alike.
pub fn begin_reaction(rule: &RoleRule, reaction: &ReactionEvent) -> (r: Step)
    ensures
        r == first_step(*rule, *reaction),
        !concerns(*rule, *reaction) <==> r == Step::Ignore,
        (reaction.user_id is None || reaction.guild_id is None) ==> !(r is LookUpMember),
        r matches Step::LookUpMember(k) ==> lookup_key(*reaction) == Some(k),
{
    if !is_message_relevant_for_bot(rule, reaction) {
        return Step::Ignore;
    }
    if reaction.user_id.is_none() {
        return Step::MissingUser;
    }
    match member_lookup_key(reaction) {
        Some(key) => Step::LookUpMember(key),
        None => Step::MissingGuild,
    }
}

/// Continues the handling of a reaction of `kind` once the member lookup
/// has come back, with the member that was found or `None` on failure.
pub fn after_member_lookup(rule: &RoleRule, kind: ReactionKind, found: Option<MemberKey>) -> (r: Step)
    ensures
        r == step_after_lookup(*rule, kind, found),
        found is None <==> r == Step::MemberUnavailable,
        r matches Step::UpdateRole(req) ==> req.role_id == rule.role_id && req.change == change_for(
            kind,
        ) && found == Some(MemberKey { guild_id: req.guild_id, user_id: req.user_id }),
{
    match found {
        Some(member) => {
            let change = match kind {
                ReactionKind::Added => RoleChange::Grant,
                ReactionKind::Removed => RoleChange::Revoke,
            };
            Step::UpdateRole(
                RoleRequest {
                    change,
                    guild_id: member.guild_id,
                    user_id: member.user_id,
                    role_id: rule.role_id,
                },
            )
        },
        None => Step::MemberUnavailable,
    }
}

} // verus!
