//! The commands the bot sends to its key-value store, and what they do to
//! the bindings it holds.
//!
//! A binding ties the reaction of one emoji on one message to a role. It is
//! the field named after the emoji in the hash of the message, holding the
//! role's id.

use vstd::prelude::*;
use crate::decimal::decimal;
use crate::emoji::{ReactionEmoji, emoji_data, reaction_data};
use crate::keys::{
    binding_key, binding_key_spec, scope_pattern, scope_pattern_spec, in_scope, colon_join, colon_free,
    scope_part, lemma_decimal_colon_free, lemma_colon_split, lemma_binding_key_injective,
};
use crate::glob::glob_match;
use crate::scope::law_scope_pattern_selects_scope;

verus! {

/// A command for the store.
pub enum StoreCommand {
    /// Set `field` of the hash at `key` to `role`.
    SetField { key: String, field: String, role: u64 },
    /// Read `field` of the hash at `key`.
    GetField { key: String, field: String },
    /// Remove the entries at `keys`.
    DeleteKeys { keys: Vec<String> },
    /// List the keys that match the glob `pattern`.
    ScanKeys { pattern: String },
}

/// A store command as plain values.
pub enum StoreCommandView {
    SetField { key: Seq<char>, field: Seq<char>, role: u64 },
    GetField { key: Seq<char>, field: Seq<char> },
    DeleteKeys { keys: Seq<Seq<char>> },
    ScanKeys { pattern: Seq<char> },
}

/// The views of a list of strings.
pub open spec fn string_views(v: Seq<String>) -> Seq<Seq<char>> {
    v.map_values(|s: String| s@)
}

impl View for StoreCommand {
    type V = StoreCommandView;

    open spec fn view(&self) -> StoreCommandView {
        match self {
            StoreCommand::SetField { key, field, role } => StoreCommandView::SetField {
                key: key@,
                field: field@,
                role: *role,
            },
            StoreCommand::GetField { key, field } => StoreCommandView::GetField { key: key@, field: field@ },
            StoreCommand::DeleteKeys { keys } => StoreCommandView::DeleteKeys { keys: string_views(keys@) },
            StoreCommand::ScanKeys { pattern } => StoreCommandView::ScanKeys { pattern: pattern@ },
        }
    }
}

/// The command that binds the reaction `field` on a message to `role`.
pub open spec fn create_spec(guild: u64, channel: u64, message: u64, field: Seq<char>, role: u64) -> StoreCommandView {
    StoreCommandView::SetField { key: binding_key_spec(guild, channel, message), field, role }
}

/// The command that reads the role bound to the reaction `field` on a message.
pub open spec fn get_spec(guild: u64, channel: u64, message: u64, field: Seq<char>) -> StoreCommandView {
    StoreCommandView::GetField { key: binding_key_spec(guild, channel, message), field }
}

/// The first command of a deletion: with a reaction, removal of the key made
/// of the scope pattern, a colon and the reaction's text; without one, a scan
/// for the keys the scope pattern matches.
pub open spec fn delete_spec(guild: u64, channel: Option<u64>, message: Option<u64>, field: Option<Seq<char>>) -> StoreCommandView {
    match field {
        Some(f) => StoreCommandView::DeleteKeys { keys: seq![colon_join(scope_pattern_spec(guild, channel, message), f)] },
        None => StoreCommandView::ScanKeys { pattern: scope_pattern_spec(guild, channel, message) },
    }
}

/// The command that follows a scan: removal of the keys found, if any.
pub open spec fn delete_found_spec(found: Seq<Seq<char>>) -> Option<StoreCommandView> {
    if found.len() == 0 {
        None
    } else {
        Some(StoreCommandView::DeleteKeys { keys: found })
    }
}

/// The text of an optional emoji.
pub open spec fn optional_emoji_data(reaction: Option<&ReactionEmoji>) -> Option<Seq<char>> {
    match reaction {
        Some(e) => Some(emoji_data(e@)),
        None => None,
    }
}

/// Appends a colon and `tail`.
fn append_after_colon(out: &mut String, tail: &String)
    ensures
        final(out)@ == colon_join(old(out)@, tail@),
{
    proof { reveal_strlit(":"); }
    out.append(":");
    out.append(tail.as_str());
    assert(out@ =~= colon_join(old(out)@, tail@));
}

/// The command that binds the reaction `reaction` on a message to `role`.
pub fn create_command(guild: u64, channel: u64, message: u64, reaction: &ReactionEmoji, role: u64) -> (cmd: StoreCommand)
    ensures
        cmd@ == create_spec(guild, channel, message, emoji_data(reaction@), role),
{
    StoreCommand::SetField { key: binding_key(guild, channel, message), field: reaction_data(reaction), role }
}

/// The command that reads the role bound to the reaction `reaction` on a
/// message.
pub fn get_command(guild: u64, channel: u64, message: u64, reaction: &ReactionEmoji) -> (cmd: StoreCommand)
    ensures
        cmd@ == get_spec(guild, channel, message, emoji_data(reaction@)),
{
    StoreCommand::GetField { key: binding_key(guild, channel, message), field: reaction_data(reaction) }
}

/// The first command of a deletion in a guild, optionally narrowed to a
/// channel, a message and a reaction.
pub fn delete_command(
    guild: u64,
    channel: Option<u64>,
    message: Option<u64>,
    reaction: Option<&ReactionEmoji>,
) -> (cmd: StoreCommand)
    ensures
        cmd@ == delete_spec(guild, channel, message, optional_emoji_data(reaction)),
{
    let mut pattern = scope_pattern(guild, channel, message);
    match reaction {
        Some(e) => {
            let data = reaction_data(e);
            append_after_colon(&mut pattern, &data);
            let mut keys: Vec<String> = Vec::new();
            keys.push(pattern);
            proof {
                assert(string_views(keys@) =~= seq![colon_join(scope_pattern_spec(guild, channel, message), emoji_data(e@))]);
            }
            StoreCommand::DeleteKeys { keys }
        },
        None => StoreCommand::ScanKeys { pattern },
    }
}

/// The command that follows a scan that found `found`: their removal, or
/// nothing when the scan found no key.
pub fn delete_found_keys(found: Vec<String>) -> (cmd: Option<StoreCommand>)
    ensures
        match cmd {
            Some(c) => delete_found_spec(string_views(found@)) == Some(c@),
            None => delete_found_spec(string_views(found@)) is None,
        },
{
    if found.len() == 0 {
        None
    } else {
        Some(StoreCommand::DeleteKeys { keys: found })
    }
}

// ---------------------------------------------------------------------------
// What the commands do to the store.

/// The state of the store: hashes by key, each a map from field to role.
pub open spec fn apply_command(
    s: Map<Seq<char>, Map<Seq<char>, u64>>,
    cmd: StoreCommandView,
) -> Map<Seq<char>, Map<Seq<char>, u64>> {
    match cmd {
        StoreCommandView::SetField { key, field, role } => {
            let hash = if s.contains_key(key) { s[key] } else { Map::empty() };
            s.insert(key, hash.insert(field, role))
        },
        StoreCommandView::DeleteKeys { keys } => s.remove_keys(keys.to_set()),
        _ => s,
    }
}

/// The store after a scan that found `found` and the command that follows
/// it, if any.
pub open spec fn apply_after_scan(
    s: Map<Seq<char>, Map<Seq<char>, u64>>,
    found: Seq<Seq<char>>,
) -> Map<Seq<char>, Map<Seq<char>, u64>> {
    match delete_found_spec(found) {
        Some(cmd) => apply_command(s, cmd),
        None => s,
    }
}

/// The value of `field` in the hash at `key`, if there is one.
pub open spec fn lookup(s: Map<Seq<char>, Map<Seq<char>, u64>>, key: Seq<char>, field: Seq<char>) -> Option<u64> {
    if s.contains_key(key) && s[key].contains_key(field) {
        Some(s[key][field])
    } else {
        None
    }
}

/// What a read command returns in the state `s`.
pub open spec fn read_result(s: Map<Seq<char>, Map<Seq<char>, u64>>, cmd: StoreCommandView) -> Option<u64> {
    match cmd {
        StoreCommandView::GetField { key, field } => lookup(s, key, field),
        _ => None,
    }
}

/// The keys of `s` that a scan with `pattern` finds.
pub open spec fn scan_matches(s: Map<Seq<char>, Map<Seq<char>, u64>>, pattern: Seq<char>) -> Set<Seq<char>> {
    s.dom().filter(|k: Seq<char>| glob_match(pattern, k))
}

/// Reading a binding right after creating it gives the role it was created
/// with.
pub proof fn law_get_after_create(
    s: Map<Seq<char>, Map<Seq<char>, u64>>,
    guild: u64,
    channel: u64,
    message: u64,
    field: Seq<char>,
    role: u64,
)
    ensures
        read_result(apply_command(s, create_spec(guild, channel, message, field, role)), get_spec(guild, channel, message, field))
            == Some(role),
{
}

/// Creating a binding leaves every other binding as it was: other reactions
/// on the same message, and all reactions on other messages.
pub proof fn law_create_keeps_other_bindings(
    s: Map<Seq<char>, Map<Seq<char>, u64>>,
    guild: u64,
    channel: u64,
    message: u64,
    field: Seq<char>,
    role: u64,
    g2: u64,
    c2: u64,
    m2: u64,
    f2: Seq<char>,
)
    requires
        (guild, channel, message, field) != (g2, c2, m2, f2),
    ensures
        read_result(apply_command(s, create_spec(guild, channel, message, field, role)), get_spec(g2, c2, m2, f2))
            == read_result(s, get_spec(g2, c2, m2, f2)),
{
    if binding_key_spec(guild, channel, message) == binding_key_spec(g2, c2, m2) {
        lemma_binding_key_injective(guild, channel, message, g2, c2, m2);
    }
}

/// A deletion without a reaction, carried out by a scan that finds every
/// matching key and the removal of what it found, clears exactly the
/// bindings of the messages in the scope and keeps all others.
pub proof fn law_scoped_delete(
    s: Map<Seq<char>, Map<Seq<char>, u64>>,
    guild: u64,
    channel: Option<u64>,
    message: Option<u64>,
    found: Seq<Seq<char>>,
    g2: u64,
    c2: u64,
    m2: u64,
    f2: Seq<char>,
)
    requires
        found.to_set() == scan_matches(s, scope_pattern_spec(guild, channel, message)),
    ensures
        delete_spec(guild, channel, message, None) == (StoreCommandView::ScanKeys {
            pattern: scope_pattern_spec(guild, channel, message),
        }),
        read_result(apply_after_scan(s, found), get_spec(g2, c2, m2, f2)) == if in_scope(guild, channel, message, g2, c2, m2) {
            None
        } else {
            read_result(s, get_spec(g2, c2, m2, f2))
        },
{
    let key = binding_key_spec(g2, c2, m2);
    let pattern = scope_pattern_spec(guild, channel, message);
    law_scope_pattern_selects_scope(guild, channel, message, g2, c2, m2);
    if s.contains_key(key) {
        assert(found.to_set().contains(key) == glob_match(pattern, key));
    }
    if found.len() == 0 {
        if s.contains_key(key) && glob_match(pattern, key) {
            assert(found.to_set().contains(key));
        }
    }
}

/// A deletion that names a reaction removes a key that is never the key of a
/// binding, so every binding stays as it was, that of the reaction included.
pub proof fn law_reaction_delete_keeps_bindings(
    s: Map<Seq<char>, Map<Seq<char>, u64>>,
    guild: u64,
    channel: Option<u64>,
    message: Option<u64>,
    field: Seq<char>,
    g2: u64,
    c2: u64,
    m2: u64,
    f2: Seq<char>,
)
    ensures
        read_result(apply_command(s, delete_spec(guild, channel, message, Some(field))), get_spec(g2, c2, m2, f2))
            == read_result(s, get_spec(g2, c2, m2, f2)),
{
    let removed = colon_join(scope_pattern_spec(guild, channel, message), field);
    let key = binding_key_spec(g2, c2, m2);
    if removed == key {
        let dg = decimal(guild as nat);
        let dg2 = decimal(g2 as nat);
        let dc2 = decimal(c2 as nat);
        let dm2 = decimal(m2 as nat);
        let pc = scope_part(channel);
        let pm = scope_part(message);
        lemma_decimal_colon_free(guild as nat);
        lemma_decimal_colon_free(g2 as nat);
        lemma_decimal_colon_free(c2 as nat);
        lemma_decimal_colon_free(m2 as nat);
        assert(colon_free(pc)) by {
            if channel is Some {
                lemma_decimal_colon_free(channel->0 as nat);
            }
        }
        assert(colon_free(pm)) by {
            if message is Some {
                lemma_decimal_colon_free(message->0 as nat);
            }
        }
        assert(removed =~= colon_join(dg, colon_join(pc, colon_join(pm, field))));
        assert(key =~= colon_join(dg2, colon_join(dc2, dm2)));
        lemma_colon_split(dg, colon_join(pc, colon_join(pm, field)), dg2, colon_join(dc2, dm2));
        lemma_colon_split(pc, colon_join(pm, field), dc2, dm2);
        assert(dm2[pm.len() as int] == ':');
    }
    assert(!seq![removed].to_set().contains(key) || removed == key);
}

/// What a command does to the store when carried out in full: a scan is
/// followed by the removal of every key it matched.
pub open spec fn perform(
    s: Map<Seq<char>, Map<Seq<char>, u64>>,
    cmd: StoreCommandView,
) -> Map<Seq<char>, Map<Seq<char>, u64>> {
    match cmd {
        StoreCommandView::ScanKeys { pattern } => s.remove_keys(scan_matches(s, pattern)),
        _ => apply_command(s, cmd),
    }
}

/// A deletion that names a reaction, whatever its text, removes exactly one
/// key, the scope pattern followed by a colon and the reaction's text, and
/// nothing else; it is never a scan.
pub proof fn law_reaction_delete_removes_one_key(
    s: Map<Seq<char>, Map<Seq<char>, u64>>,
    guild: u64,
    channel: Option<u64>,
    message: Option<u64>,
    field: Seq<char>,
)
    ensures
        delete_spec(guild, channel, message, Some(field)) is DeleteKeys,
        perform(s, delete_spec(guild, channel, message, Some(field)))
            == s.remove(colon_join(scope_pattern_spec(guild, channel, message), field)),
{
    let k = colon_join(scope_pattern_spec(guild, channel, message), field);
    assert(seq![k].to_set() =~= set![k]) by {
        assert forall|x: Seq<char>| seq![k].to_set().contains(x) <==> set![k].contains(x) by {
            if x == k {
                assert(seq![k][0] == k);
            }
        }
    }
    assert(s.remove_keys(set![k]) =~= s.remove(k));
}

/// Carried out in full, a deletion that names a reaction keeps every
/// binding of the store, that of the reaction included.
pub proof fn law_reaction_delete_spares_bindings(
    s: Map<Seq<char>, Map<Seq<char>, u64>>,
    guild: u64,
    channel: Option<u64>,
    message: Option<u64>,
    field: Seq<char>,
    g2: u64,
    c2: u64,
    m2: u64,
    f2: Seq<char>,
)
    ensures
        read_result(perform(s, delete_spec(guild, channel, message, Some(field))), get_spec(g2, c2, m2, f2))
            == read_result(s, get_spec(g2, c2, m2, f2)),
{
    law_reaction_delete_removes_one_key(s, guild, channel, message, field);
    law_reaction_delete_keeps_bindings(s, guild, channel, message, field, g2, c2, m2, f2);
}

/// Carried out in full, a deletion without a reaction clears exactly the
/// bindings of the messages in its scope and keeps all others.
pub proof fn law_scope_delete_clears_scope(
    s: Map<Seq<char>, Map<Seq<char>, u64>>,
    guild: u64,
    channel: Option<u64>,
    message: Option<u64>,
    g2: u64,
    c2: u64,
    m2: u64,
    f2: Seq<char>,
)
    ensures
        read_result(perform(s, delete_spec(guild, channel, message, None)), get_spec(g2, c2, m2, f2)) == if in_scope(
            guild,
            channel,
            message,
            g2,
            c2,
            m2,
        ) {
            None
        } else {
            read_result(s, get_spec(g2, c2, m2, f2))
        },
{
    law_scope_pattern_selects_scope(guild, channel, message, g2, c2, m2);
}

} // verus!
