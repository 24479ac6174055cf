//! The reaction-sync handler: the decision core of the long-lived
//! listener that watches reaction-added and reaction-removed
//! notifications and keeps the participant role of each event in step
//! with the reactions on its announcement message.
//!
//! The listener loop itself lives outside the library; it hands every
//! notification to [`BacchusHandler`] as plain values and performs the
//! role mutation the handler decides on.

use crate::events::{manifest_lookup, EventRow, Registry, RegistryError};
use crate::events::get_event_by_manifest;
use vstd::prelude::*;

verus! {

/// The join marker, as a sequence of characters: the one emoji whose
/// reactions on an announcement message signal intent to join.
pub open spec fn join_marker_spec() -> Seq<char> {
    "\u{2705}"@
}

/// The join marker as an owned string.
pub fn join_marker() -> (r: String)
    ensures
        r@ == join_marker_spec(),
{
    "\u{2705}".to_owned()
}

/// One reaction notification from the messaging platform's live event
/// stream.  A notification without a server identifier did not happen
/// inside a server; a notification without a user identifier names no
/// reacting user.
pub struct ReactionNotice {
    pub emoji: String,
    pub message_id: u64,
    pub guild_id: Option<u64>,
    pub user_id: Option<u64>,
}

/// What the handler decides to do about one notification.
#[derive(Clone, Copy, PartialEq, Eq, Structural, Debug)]
pub enum RoleMutation {
    /// No role mutation and no error surfaced: the reaction used some
    /// other emoji, happened outside a server, or sits on a message
    /// that is not a tracked announcement.
    Ignored,
    /// The notification resolved to a tracked announcement but names no
    /// reacting user: fatal for this one notification only.
    MissingUser,
    /// Grant the role to the user inside the server.
    Grant { guild_id: u64, user_id: u64, role_id: u64 },
    /// Revoke the role from the user inside the server.
    Revoke { guild_id: u64, user_id: u64, role_id: u64 },
}

/// The decision the handler owes for a notification: filter out
/// foreign emoji and server-less reactions, resolve the event through
/// its announcement-message identifier, then toggle the event's
/// participant role for the reacting user.
pub open spec fn reaction_outcome(
    reg: Registry,
    added: bool,
    emoji: Seq<char>,
    message_id: u64,
    guild_id: Option<u64>,
    user_id: Option<u64>,
) -> RoleMutation {
    if emoji != join_marker_spec() {
        RoleMutation::Ignored
    } else {
        match guild_id {
            None => RoleMutation::Ignored,
            Some(g) => match manifest_lookup(reg.events@, message_id) {
                None => RoleMutation::Ignored,
                Some(row) => match user_id {
                    None => RoleMutation::MissingUser,
                    Some(u) => if added {
                        RoleMutation::Grant {
                            guild_id: g,
                            user_id: u,
                            role_id: row.data.participant_role_id,
                        }
                    } else {
                        RoleMutation::Revoke {
                            guild_id: g,
                            user_id: u,
                            role_id: row.data.participant_role_id,
                        }
                    },
                },
            },
        }
    }
}

/// The long-lived reaction-sync listener.  It holds no state of its
/// own: each notification is judged against the registry alone, so a
/// reaction arriving for an event deleted moments earlier simply fails
/// to resolve and is dropped.
pub struct BacchusHandler;

impl BacchusHandler {
    /// Decides one notification; `added` tells a reaction-added
    /// notification from a reaction-removed one.
    fn decide(reg: &Registry, notice: &ReactionNotice, added: bool) -> (r: RoleMutation)
        requires
            reg.wf(),
        ensures
            r == reaction_outcome(
                *reg,
                added,
                notice.emoji@,
                notice.message_id,
                notice.guild_id,
                notice.user_id,
            ),
    {
        let marker = join_marker();
        if notice.emoji != marker {
            return RoleMutation::Ignored;
        }
        let g = match notice.guild_id {
            None => {
                return RoleMutation::Ignored;
            },
            Some(g) => g,
        };
        let (_event_id, data) = match get_event_by_manifest(reg, notice.message_id) {
            Err(_) => {
                return RoleMutation::Ignored;
            },
            Ok(p) => p,
        };
        let u = match notice.user_id {
            None => {
                return RoleMutation::MissingUser;
            },
            Some(u) => u,
        };
        if added {
            RoleMutation::Grant { guild_id: g, user_id: u, role_id: data.participant_role_id }
        } else {
            RoleMutation::Revoke { guild_id: g, user_id: u, role_id: data.participant_role_id }
        }
    }

    /// Decides a reaction-added notification.
    pub fn reaction_add(&self, reg: &Registry, notice: &ReactionNotice) -> (r: RoleMutation)
        requires
            reg.wf(),
        ensures
            r == reaction_outcome(
                *reg,
                true,
                notice.emoji@,
                notice.message_id,
                notice.guild_id,
                notice.user_id,
            ),
    {
        Self::decide(reg, notice, true)
    }

    /// Decides a reaction-removed notification.
    pub fn reaction_remove(&self, reg: &Registry, notice: &ReactionNotice) -> (r: RoleMutation)
        requires
            reg.wf(),
        ensures
            r == reaction_outcome(
                *reg,
                false,
                notice.emoji@,
                notice.message_id,
                notice.guild_id,
                notice.user_id,
            ),
    {
        Self::decide(reg, notice, false)
    }
}

/// Law: a join-marker reaction on a tracked announcement, inside a
/// server and with a known user, grants that event's participant role
/// on addition and revokes the very same role on removal.
pub proof fn lemma_join_reaction_grant_revoke(
    reg: Registry,
    message_id: u64,
    row: EventRow,
    guild_id: u64,
    user_id: u64,
)
    requires
        manifest_lookup(reg.events@, message_id) == Some(row),
    ensures
        reaction_outcome(
            reg,
            true,
            join_marker_spec(),
            message_id,
            Some(guild_id),
            Some(user_id),
        ) == (RoleMutation::Grant {
            guild_id: guild_id,
            user_id: user_id,
            role_id: row.data.participant_role_id,
        }),
        reaction_outcome(
            reg,
            false,
            join_marker_spec(),
            message_id,
            Some(guild_id),
            Some(user_id),
        ) == (RoleMutation::Revoke {
            guild_id: guild_id,
            user_id: user_id,
            role_id: row.data.participant_role_id,
        }),
{
}

/// Law: a reaction with any emoji other than the join marker is a
/// no-op, whatever else the notification carries.
pub proof fn lemma_other_emoji_ignored(
    reg: Registry,
    added: bool,
    emoji: Seq<char>,
    message_id: u64,
    guild_id: Option<u64>,
    user_id: Option<u64>,
)
    requires
        emoji != join_marker_spec(),
    ensures
        reaction_outcome(reg, added, emoji, message_id, guild_id, user_id)
            == RoleMutation::Ignored,
{
}

/// Law: a reaction on a message identifier that no stored event uses as
/// its announcement produces no role mutation and surfaces no error.
pub proof fn lemma_untracked_message_ignored(
    reg: Registry,
    added: bool,
    emoji: Seq<char>,
    message_id: u64,
    guild_id: Option<u64>,
    user_id: Option<u64>,
)
    requires
        manifest_lookup(reg.events@, message_id) is None,
    ensures
        reaction_outcome(reg, added, emoji, message_id, guild_id, user_id)
            == RoleMutation::Ignored,
{
}

} // verus!
