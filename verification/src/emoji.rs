//! The emoji of a reaction, and the text under which a binding for it is
//! filed in the store.

use vstd::prelude::*;
use crate::decimal::decimal;

verus! {

/// The emoji of a reaction: a custom emoji of a guild, or a Unicode emoji.
pub enum ReactionEmoji {
    Custom { animated: bool, id: u64, name: Option<String> },
    Unicode(String),
}

/// What a reaction emoji holds, as plain values.
pub enum EmojiView {
    Custom { animated: bool, id: u64, name: Option<Seq<char>> },
    Unicode(Seq<char>),
}

impl View for ReactionEmoji {
    type V = EmojiView;

    open spec fn view(&self) -> EmojiView {
        match self {
            ReactionEmoji::Custom { animated, id, name } => EmojiView::Custom {
                animated: *animated,
                id: *id,
                name: match name {
                    Some(n) => Some(n@),
                    None => None,
                },
            },
            ReactionEmoji::Unicode(s) => EmojiView::Unicode(s@),
        }
    }
}

/// The text that identifies an emoji in a store field: for a custom emoji,
/// its name (empty when it has none), a colon and its id in decimal; for a
/// Unicode emoji, the emoji itself.
pub open spec fn emoji_data(e: EmojiView) -> Seq<char> {
    match e {
        EmojiView::Custom { id, name, .. } => {
            let n = match name {
                Some(n) => n,
                None => Seq::<char>::empty(),
            };
            n + seq![':'] + decimal(id as nat)
        },
        EmojiView::Unicode(s) => s,
    }
}

/// Calls serenity's `ReactionType::as_data` on the emoji. The contract
/// restates that method's source: a custom emoji gives its name (or nothing),
/// a colon and its id written by `Display`; a Unicode emoji gives its text
/// unchanged.
#[verifier::external_body]
pub(crate) fn reaction_data(e: &ReactionEmoji) -> (s: String)
    ensures
        s@ == emoji_data(e@),
{
    let reaction = match e {
        ReactionEmoji::Custom { animated, id, name } => serenity::model::channel::ReactionType::Custom {
            animated: *animated,
            id: serenity::model::id::EmojiId(*id),
            name: name.clone(),
        },
        ReactionEmoji::Unicode(s) => serenity::model::channel::ReactionType::Unicode(s.clone()),
    };
    reaction.as_data()
}

} // verus!
