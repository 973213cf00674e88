//! How bindings are laid out in the store: one hash per message, under the
//! key `guild:channel:message`, with one field per emoji holding the role.
//! Deletions address whole scopes through glob patterns in which an absent
//! channel or message is written `*`.

use vstd::prelude::*;
use crate::decimal::{decimal, push_decimal, lemma_decimal_plain, lemma_decimal_injective};

verus! {

/// `s` holds no colon.
pub open spec fn colon_free(s: Seq<char>) -> bool {
    forall|i: int| 0 <= i < s.len() ==> #[trigger] s[i] != ':'
}

/// `s` holds no asterisk.
pub open spec fn star_free(s: Seq<char>) -> bool {
    forall|i: int| 0 <= i < s.len() ==> #[trigger] s[i] != '*'
}

/// `a`, a colon, then `b`.
pub open spec fn colon_join(a: Seq<char>, b: Seq<char>) -> Seq<char> {
    a + seq![':'] + b
}

/// The key of the hash that holds the bindings of one message.
pub open spec fn binding_key_spec(guild: u64, channel: u64, message: u64) -> Seq<char> {
    colon_join(colon_join(decimal(guild as nat), decimal(channel as nat)), decimal(message as nat))
}

/// One part of a scope pattern: the id in decimal, or `*` for any.
pub open spec fn scope_part(id: Option<u64>) -> Seq<char> {
    match id {
        Some(x) => decimal(x as nat),
        None => seq!['*'],
    }
}

/// The pattern of the keys of a guild, of one of its channels, or of one
/// message.
pub open spec fn scope_pattern_spec(guild: u64, channel: Option<u64>, message: Option<u64>) -> Seq<char> {
    colon_join(colon_join(decimal(guild as nat), scope_part(channel)), scope_part(message))
}

/// Whether the message `(g2, c2, m2)` lies in the scope of a deletion.
pub open spec fn in_scope(guild: u64, channel: Option<u64>, message: Option<u64>, g2: u64, c2: u64, m2: u64) -> bool {
    &&& g2 == guild
    &&& (channel matches Some(c) ==> c2 == c)
    &&& (message matches Some(m) ==> m2 == m)
}

pub proof fn lemma_decimal_colon_free(n: nat)
    ensures
        colon_free(decimal(n)),
        star_free(decimal(n)),
        decimal(n).len() >= 1,
{
    lemma_decimal_plain(n);
    crate::decimal::lemma_decimal_digits(n);
}

/// If `a` followed by a colon starts the text `b : y`, and neither `a` nor
/// `b` holds a colon, then `a` is `b`.
pub proof fn lemma_colon_prefix(a: Seq<char>, b: Seq<char>, y: Seq<char>)
    requires
        colon_free(a),
        colon_free(b),
        colon_join(b, y).len() >= a.len() + 1,
        colon_join(b, y).subrange(0, a.len() as int + 1) == a.push(':'),
    ensures
        a == b,
{
    let t = colon_join(b, y);
    if a.len() < b.len() {
        assert(t[a.len() as int] == b[a.len() as int]);
        assert(t.subrange(0, a.len() as int + 1)[a.len() as int] == ':');
    } else if a.len() > b.len() {
        assert(t[b.len() as int] == ':');
        assert(t.subrange(0, a.len() as int + 1)[b.len() as int] == a[b.len() as int]);
    } else {
        assert forall|i: int| 0 <= i < a.len() implies a[i] == b[i] by {
            assert(t.subrange(0, a.len() as int + 1)[i] == a.push(':')[i]);
            assert(t[i] == b[i]);
        }
        assert(a =~= b);
    }
}

/// Splitting at the first colon: `a : x == b : y` with colon-free `a`, `b`
/// gives `a == b` and `x == y`.
pub proof fn lemma_colon_split(a: Seq<char>, x: Seq<char>, b: Seq<char>, y: Seq<char>)
    requires
        colon_free(a),
        colon_free(b),
        colon_join(a, x) == colon_join(b, y),
    ensures
        a == b,
        x == y,
{
    let t = colon_join(a, x);
    assert(t.subrange(0, a.len() as int + 1) =~= a.push(':'));
    lemma_colon_prefix(a, b, y);
    assert(x =~= t.skip(a.len() as int + 1));
    assert(y =~= colon_join(b, y).skip(b.len() as int + 1));
}

/// Binding keys of different messages differ.
pub proof fn lemma_binding_key_injective(g: u64, c: u64, m: u64, g2: u64, c2: u64, m2: u64)
    requires
        binding_key_spec(g, c, m) == binding_key_spec(g2, c2, m2),
    ensures
        g == g2,
        c == c2,
        m == m2,
{
    lemma_decimal_colon_free(g as nat);
    lemma_decimal_colon_free(c as nat);
    lemma_decimal_colon_free(m as nat);
    lemma_decimal_colon_free(g2 as nat);
    lemma_decimal_colon_free(c2 as nat);
    lemma_decimal_colon_free(m2 as nat);
    let dg = decimal(g as nat);
    let dc = decimal(c as nat);
    let dm = decimal(m as nat);
    let dg2 = decimal(g2 as nat);
    let dc2 = decimal(c2 as nat);
    let dm2 = decimal(m2 as nat);
    assert(binding_key_spec(g, c, m) =~= colon_join(dg, colon_join(dc, dm)));
    assert(binding_key_spec(g2, c2, m2) =~= colon_join(dg2, colon_join(dc2, dm2)));
    lemma_colon_split(dg, colon_join(dc, dm), dg2, colon_join(dc2, dm2));
    lemma_colon_split(dc, dm, dc2, dm2);
    lemma_decimal_injective(g as nat, g2 as nat);
    lemma_decimal_injective(c as nat, c2 as nat);
    lemma_decimal_injective(m as nat, m2 as nat);
}

/// Appends a single colon.
fn push_colon(out: &mut String)
    ensures
        final(out)@ == old(out)@.push(':'),
{
    proof { reveal_strlit(":"); }
    out.append(":");
    assert(out@ =~= old(out)@.push(':'));
}

/// Appends one part of a scope pattern.
fn push_scope_part(out: &mut String, id: Option<u64>)
    ensures
        final(out)@ == old(out)@ + scope_part(id),
{
    match id {
        Some(x) => push_decimal(out, x),
        None => {
            proof { reveal_strlit("*"); }
            out.append("*");
            assert(out@ =~= old(out)@ + scope_part(id));
        },
    }
}

/// The key of the hash that holds the bindings of a message:
/// `guild:channel:message`, each id in decimal.
pub fn binding_key(guild: u64, channel: u64, message: u64) -> (key: String)
    ensures
        key@ == binding_key_spec(guild, channel, message),
{
    let mut key = String::new();
    push_decimal(&mut key, guild);
    push_colon(&mut key);
    push_decimal(&mut key, channel);
    push_colon(&mut key);
    push_decimal(&mut key, message);
    assert(key@ =~= binding_key_spec(guild, channel, message));
    key
}

/// The pattern of the keys in a scope: `guild:channel:message` with `*` for
/// an absent channel or message.
pub fn scope_pattern(guild: u64, channel: Option<u64>, message: Option<u64>) -> (pattern: String)
    ensures
        pattern@ == scope_pattern_spec(guild, channel, message),
{
    let mut pattern = String::new();
    push_decimal(&mut pattern, guild);
    push_colon(&mut pattern);
    push_scope_part(&mut pattern, channel);
    push_colon(&mut pattern);
    push_scope_part(&mut pattern, message);
    assert(pattern@ =~= scope_pattern_spec(guild, channel, message));
    pattern
}

} // verus!
