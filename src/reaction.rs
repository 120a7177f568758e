use vstd::prelude::*;
use crate::config::RoleRule;

verus! {

/// The emoji of a reaction: one of a guild's own emojis, known by its id,
/// or a standard emoji given as its text.
#[derive(Debug)]
pub enum Emoji {
    Custom { id: u64, name: Option<String>, animated: bool },
    Unicode(String),
}

impl Emoji {
    /// The text of a standard emoji; `None` for a guild's own emoji.
    pub open spec fn codepoints(self) -> Option<Seq<char>> {
        match self {
            Emoji::Unicode(s) => Some(s@),
            Emoji::Custom { .. } => None,
        }
    }

    /// Whether this is a standard emoji whose text is exactly `other`.
    /// A guild's own emoji never matches.
    pub fn unicode_eq(&self, other: &String) -> (r: bool)
        ensures
            r == (self.codepoints() == Some(other@)),
    {
        match self {
            Emoji::Unicode(s) => s.eq(other),
            Emoji::Custom { .. } => false,
        }
    }
}

/// A reaction added to or removed from a message, as delivered by the
/// gateway. The user and the guild are not always known.
#[derive(Debug)]
pub struct ReactionEvent {
    pub message_id: u64,
    pub emoji: Emoji,
    pub user_id: Option<u64>,
    pub guild_id: Option<u64>,
}

/// The member a reaction came from, named by guild and user.
#[derive(Clone, Copy, Debug, PartialEq, Eq, Structural)]
pub struct MemberKey {
    pub guild_id: u64,
    pub user_id: u64,
}

/// A reaction concerns the rule when it sits on the rule's message and its
/// emoji is the rule's emoji, compared by text.
pub open spec fn concerns(rule: RoleRule, reaction: ReactionEvent) -> bool {
    &&& reaction.message_id == rule.message_id
    &&& reaction.emoji.codepoints() == Some(rule.emoji@)
}

/// The member to look up for a reaction: present only when both the user
/// and the guild are known.
pub open spec fn lookup_key(reaction: ReactionEvent) -> Option<MemberKey> {
    match (reaction.user_id, reaction.guild_id) {
        (Some(user_id), Some(guild_id)) => Some(MemberKey { guild_id, user_id }),
        _ => None,
    }
}

/// Whether `reaction` is one the rule acts on.
pub fn is_message_relevant_for_bot(rule: &RoleRule, reaction: &ReactionEvent) -> (r: bool)
    ensures
        r == concerns(*rule, *reaction),
{
    if reaction.message_id != rule.message_id {
        return false;
    }
    if !reaction.emoji.unicode_eq(&rule.emoji) {
        return false;
    }
    true
}

/// The guild member to fetch for `reaction`, or `None` when the user or the
/// guild is missing from it.
pub fn member_lookup_key(reaction: &ReactionEvent) -> (r: Option<MemberKey>)
    ensures
        r == lookup_key(*reaction),
        r is None <==> (reaction.user_id is None || reaction.guild_id is None),
        r matches Some(k) ==> reaction.user_id == Some(k.user_id) && reaction.guild_id == Some(
            k.guild_id,
        ),
{
    match (reaction.user_id, reaction.guild_id) {
        (Some(user_id), Some(guild_id)) => Some(MemberKey { guild_id, user_id }),
        _ => None,
    }
}

/// A reaction on any message but the rule's is never acted on.
pub proof fn lemma_other_message_not_relevant(rule: RoleRule, reaction: ReactionEvent)
    requires
        reaction.message_id != rule.message_id,
    ensures
        !concerns(rule, reaction),
{
}

/// A reaction whose emoji is not the rule's emoji, by text, is never acted
/// on, even on the rule's message.
pub proof fn lemma_other_emoji_not_relevant(rule: RoleRule, reaction: ReactionEvent)
    requires
        reaction.emoji.codepoints() != Some(rule.emoji@),
    ensures
        !concerns(rule, reaction),
{
}

/// A reaction on the rule's message with exactly the rule's emoji is acted
/// on.
pub proof fn lemma_matching_reaction_relevant(rule: RoleRule, reaction: ReactionEvent)
    requires
        reaction.message_id == rule.message_id,
        reaction.emoji.codepoints() == Some(rule.emoji@),
    ensures
        concerns(rule, reaction),
{
}

} // verus!
