//! What the bot does on the events it listens to.

use vstd::prelude::*;
use crate::emoji::{ReactionEmoji, emoji_data};
use crate::store::{StoreCommand, StoreCommandView, get_command, get_spec, read_result, lookup};
use crate::keys::binding_key_spec;

verus! {

/// What an event asks of the bot.
pub enum HandlerAction {
    /// Nothing.
    Nothing,
    /// Read the role with `lookup`, then give it to `user` in `guild`.
    AddRole { guild: u64, user: u64, lookup: StoreCommand },
    /// Read the role with `lookup`, then take it from `user` in `guild`.
    RemoveRole { guild: u64, user: u64, lookup: StoreCommand },
}

/// An action as plain values.
pub enum HandlerActionView {
    Nothing,
    AddRole { guild: u64, user: u64, lookup: StoreCommandView },
    RemoveRole { guild: u64, user: u64, lookup: StoreCommandView },
}

impl View for HandlerAction {
    type V = HandlerActionView;

    open spec fn view(&self) -> HandlerActionView {
        match self {
            HandlerAction::Nothing => HandlerActionView::Nothing,
            HandlerAction::AddRole { guild, user, lookup } => HandlerActionView::AddRole {
                guild: *guild,
                user: *user,
                lookup: lookup@,
            },
            HandlerAction::RemoveRole { guild, user, lookup } => HandlerActionView::RemoveRole {
                guild: *guild,
                user: *user,
                lookup: lookup@,
            },
        }
    }
}

/// What a reaction added by `user` asks of the bot whose user id is `bot`:
/// nothing for its own reactions, otherwise to give the user the role bound
/// to the reaction `field` on the message.
pub open spec fn reaction_add_spec(
    bot: u64,
    user: Option<u64>,
    guild: Option<u64>,
    channel: u64,
    message: u64,
    field: Seq<char>,
) -> HandlerActionView {
    if user == Some(bot) {
        HandlerActionView::Nothing
    } else {
        HandlerActionView::AddRole { guild: guild->0, user: user->0, lookup: get_spec(guild->0, channel, message, field) }
    }
}

/// What a reaction removed by `user` asks of the bot whose user id is `bot`:
/// nothing for its own reactions, otherwise to take from the user the role
/// bound to the reaction `field` on the message.
pub open spec fn reaction_remove_spec(
    bot: u64,
    user: Option<u64>,
    guild: Option<u64>,
    channel: u64,
    message: u64,
    field: Seq<char>,
) -> HandlerActionView {
    if user == Some(bot) {
        HandlerActionView::Nothing
    } else {
        HandlerActionView::RemoveRole { guild: guild->0, user: user->0, lookup: get_spec(guild->0, channel, message, field) }
    }
}

/// The role change an action makes when the store is in state `s`:
/// the guild, the user and the role that the lookup reads, or nothing when
/// there is no lookup or it finds no role.
pub open spec fn role_change(s: Map<Seq<char>, Map<Seq<char>, u64>>, action: HandlerActionView) -> Option<(u64, u64, u64)> {
    match action {
        HandlerActionView::AddRole { guild, user, lookup } => match read_result(s, lookup) {
            Some(r) => Some((guild, user, r)),
            None => None,
        },
        HandlerActionView::RemoveRole { guild, user, lookup } => match read_result(s, lookup) {
            Some(r) => Some((guild, user, r)),
            None => None,
        },
        HandlerActionView::Nothing => None,
    }
}

/// The role bound to the reaction `field` on a message in the state `s`,
/// paired with the guild and the user it would go to.
pub open spec fn bound_role_change(
    s: Map<Seq<char>, Map<Seq<char>, u64>>,
    guild: u64,
    user: u64,
    channel: u64,
    message: u64,
    field: Seq<char>,
) -> Option<(u64, u64, u64)> {
    match lookup(s, binding_key_spec(guild, channel, message), field) {
        Some(r) => Some((guild, user, r)),
        None => None,
    }
}

/// A role is given or taken on a reaction only by another user than the bot,
/// only in the reaction's guild and to the reacting user, and only when the
/// reaction on that message is bound to that very role; with no binding no
/// role changes.
pub proof fn law_role_changes_follow_bindings(
    s: Map<Seq<char>, Map<Seq<char>, u64>>,
    bot: u64,
    user: Option<u64>,
    guild: Option<u64>,
    channel: u64,
    message: u64,
    field: Seq<char>,
)
    requires
        user == Some(bot) || (guild is Some && user is Some),
    ensures
        role_change(s, reaction_add_spec(bot, user, guild, channel, message, field)) == if user == Some(bot) {
            None
        } else {
            bound_role_change(s, guild->0, user->0, channel, message, field)
        },
        role_change(s, reaction_remove_spec(bot, user, guild, channel, message, field)) == if user == Some(bot) {
            None
        } else {
            bound_role_change(s, guild->0, user->0, channel, message, field)
        },
{
}

/// For any user other than the bot and any emoji, adding a reaction gives
/// and removing it takes the same role: the one read from the reaction's
/// field in the hash of its message, in the reaction's guild, for the user
/// who reacted. Adding never takes a role and removing never gives one.
pub proof fn law_add_gives_and_remove_takes(
    bot: u64,
    user: Option<u64>,
    guild: Option<u64>,
    channel: u64,
    message: u64,
    field: Seq<char>,
)
    requires
        user != Some(bot),
        guild is Some,
        user is Some,
    ensures
        reaction_add_spec(bot, user, guild, channel, message, field) == (HandlerActionView::AddRole {
            guild: guild->0,
            user: user->0,
            lookup: StoreCommandView::GetField { key: binding_key_spec(guild->0, channel, message), field },
        }),
        reaction_remove_spec(bot, user, guild, channel, message, field) == (HandlerActionView::RemoveRole {
            guild: guild->0,
            user: user->0,
            lookup: StoreCommandView::GetField { key: binding_key_spec(guild->0, channel, message), field },
        }),
{
}

/// What the bot shows once it is connected.
pub struct ReadyGreeting {
    /// What the bot's status says it is watching.
    pub watching: String,
    /// The line announcing the connection.
    pub announcement: String,
}

/// The prefix of the bot's commands.
pub open spec fn command_prefix_spec() -> Seq<char> {
    seq!['~']
}

/// The prefix of the bot's commands.
pub fn command_prefix() -> (prefix: &'static str)
    ensures
        prefix@ == command_prefix_spec(),
{
    proof { reveal_strlit("~"); }
    "~"
}

/// The event handler of the bot whose user id is the field.
pub struct Handler(pub u64);

impl Handler {
    /// Once connected: watch `~help`, and announce `<name> is connected!`.
    pub fn ready(&self, user_name: &String) -> (greeting: ReadyGreeting)
        ensures
            greeting.watching@ == "~help"@,
            greeting.announcement@ == user_name@ + " is connected!"@,
    {
        let mut announcement = user_name.clone();
        announcement.append(" is connected!");
        ReadyGreeting { watching: String::from_str("~help"), announcement }
    }

    /// A reaction was added. The bot's own reactions change nothing; any
    /// other user gets the role bound to that reaction.
    pub fn reaction_add(
        &self,
        user: Option<u64>,
        guild: Option<u64>,
        channel: u64,
        message: u64,
        emoji: &ReactionEmoji,
    ) -> (action: HandlerAction)
        requires
            user == Some(self.0) || (guild is Some && user is Some),
        ensures
            action@ == reaction_add_spec(self.0, user, guild, channel, message, emoji_data(emoji@)),
    {
        if user == Some(self.0) {
            return HandlerAction::Nothing;
        }
        let g = guild.unwrap();
        let u = user.unwrap();
        HandlerAction::AddRole { guild: g, user: u, lookup: get_command(g, channel, message, emoji) }
    }

    /// A reaction was removed. When another user's reaction goes, that user
    /// loses the role bound to it. When the bot's own reaction goes, the
    /// deletion of that reaction's binding is only set up and never run, so
    /// the store is not touched and the binding stays.
    pub fn reaction_remove(
        &self,
        user: Option<u64>,
        guild: Option<u64>,
        channel: u64,
        message: u64,
        emoji: &ReactionEmoji,
    ) -> (action: HandlerAction)
        requires
            guild is Some,
            user is Some,
        ensures
            action@ == reaction_remove_spec(self.0, user, guild, channel, message, emoji_data(emoji@)),
    {
        let g = guild.unwrap();
        if user == Some(self.0) {
            HandlerAction::Nothing
        } else {
            let u = user.unwrap();
            HandlerAction::RemoveRole { guild: g, user: u, lookup: get_command(g, channel, message, emoji) }
        }
    }

    /// A message was deleted. The deletion of its bindings is only set up
    /// (which needs the guild) and never run: the store is not touched.
    pub fn message_delete(&self, channel: u64, message: u64, guild: Option<u64>) -> (action: HandlerAction)
        requires
            guild is Some,
        ensures
            action@ == HandlerActionView::Nothing,
    {
        HandlerAction::Nothing
    }

    /// A channel was deleted. The deletion of its bindings is only set up and
    /// never run: the store is not touched.
    pub fn channel_delete(&self, guild: u64, channel: u64) -> (action: HandlerAction)
        ensures
            action@ == HandlerActionView::Nothing,
    {
        HandlerAction::Nothing
    }

    /// The bot left a guild, or the guild went away. The deletion of its
    /// bindings is only set up and never run: the store is not touched.
    pub fn guild_delete(&self, guild: u64) -> (action: HandlerAction)
        ensures
            action@ == HandlerActionView::Nothing,
    {
        HandlerAction::Nothing
    }
}

} // verus!
