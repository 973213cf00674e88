//! Which binding keys a scope pattern matches: exactly those of the messages
//! in the scope.

use vstd::prelude::*;
use crate::decimal::{decimal, lemma_decimal_injective};
use crate::keys::{
    colon_free, star_free, colon_join, binding_key_spec, scope_part, scope_pattern_spec, in_scope,
    lemma_decimal_colon_free, lemma_colon_prefix,
};
use crate::glob::{
    glob_match, starts_with, lemma_literal_prefix, lemma_literal_only, lemma_star_matches_all,
    lemma_star_skips, lemma_star_split,
};

verus! {

proof fn lemma_colon_suffix_star_free(s: Seq<char>)
    requires
        star_free(s),
    ensures
        star_free(s.push(':')),
        star_free(seq![':'] + s),
{
    assert forall|i: int| 0 <= i < s.push(':').len() implies #[trigger] s.push(':')[i] != '*' by {
        if i < s.len() {
            assert(s.push(':')[i] == s[i]);
        }
    }
    assert forall|i: int| 0 <= i < (seq![':'] + s).len() implies #[trigger] (seq![':'] + s)[i] != '*' by {
        if i > 0 {
            assert((seq![':'] + s)[i] == s[i - 1]);
        }
    }
}

/// `a : y` begins with `b :` exactly when `a == b`, for colon-free `a`, `b`.
proof fn lemma_starts_with_part(b: Seq<char>, a: Seq<char>, y: Seq<char>)
    requires
        colon_free(a),
        colon_free(b),
    ensures
        starts_with(colon_join(a, y), b.push(':')) == (a == b),
        a == b ==> colon_join(a, y).skip(b.len() as int + 1) == y,
{
    let t = colon_join(a, y);
    if starts_with(t, b.push(':')) {
        lemma_colon_prefix(b, a, y);
    }
    if a == b {
        assert(t.subrange(0, b.push(':').len() as int) =~= b.push(':'));
        assert(t.skip(b.len() as int + 1) =~= y);
    }
}

/// The last part of a scope pattern matches the decimal message id `m2`
/// exactly when the message is in the scope.
proof fn lemma_last_part(message: Option<u64>, m2: u64)
    ensures
        glob_match(scope_part(message), decimal(m2 as nat)) == (message matches Some(m) ==> m2 == m),
{
    match message {
        Some(m) => {
            lemma_decimal_colon_free(m as nat);
            lemma_literal_only(decimal(m as nat), decimal(m2 as nat));
            if decimal(m2 as nat) == decimal(m as nat) {
                lemma_decimal_injective(m2 as nat, m as nat);
            }
        },
        None => {
            lemma_star_matches_all(decimal(m2 as nat));
        },
    }
}

/// The part of a scope pattern after the guild matches `c2:m2` exactly when
/// the message is in the scope (given its guild is).
proof fn lemma_rest_parts(channel: Option<u64>, message: Option<u64>, c2: u64, m2: u64)
    ensures
        glob_match(colon_join(scope_part(channel), scope_part(message)), colon_join(decimal(c2 as nat), decimal(m2 as nat)))
            == ((channel matches Some(c) ==> c2 == c) && (message matches Some(m) ==> m2 == m)),
{
    let dc2 = decimal(c2 as nat);
    let dm2 = decimal(m2 as nat);
    lemma_decimal_colon_free(c2 as nat);
    lemma_decimal_colon_free(m2 as nat);
    let u = colon_join(dc2, dm2);
    let pm = scope_part(message);
    lemma_last_part(message, m2);
    match channel {
        Some(c) => {
            let dc = decimal(c as nat);
            lemma_decimal_colon_free(c as nat);
            lemma_colon_suffix_star_free(dc);
            let lit = dc.push(':');
            assert(colon_join(scope_part(channel), pm) =~= lit + pm);
            lemma_literal_prefix(lit, pm, u);
            lemma_starts_with_part(dc, dc2, dm2);
            if dc2 == dc {
                lemma_decimal_injective(c2 as nat, c as nat);
            }
            if c2 == c {
                assert(u.skip(lit.len() as int) == dm2);
            }
        },
        None => {
            let q = seq![':'] + pm;
            assert(colon_join(scope_part(channel), pm) =~= seq!['*'] + q);
            let tail = seq![':'] + dm2;
            assert(u =~= dc2 + tail);
            assert(star_free(seq![':'])) by {
                assert forall|i: int| 0 <= i < seq![':'].len() implies #[trigger] seq![':'][i] != '*' by {}
            }
            lemma_literal_prefix(seq![':'], pm, tail);
            assert(tail.subrange(0, 1) =~= seq![':']);
            assert(tail.skip(1) =~= dm2);
            if message matches Some(m) ==> m2 == m {
                lemma_star_skips(q, dc2, tail);
            } else {
                let m = message->0;
                if glob_match(seq!['*'] + q, u) {
                    let k = lemma_star_split(q, u);
                    lemma_decimal_colon_free(m as nat);
                    lemma_colon_suffix_star_free(decimal(m as nat));
                    lemma_literal_only(q, u.skip(k));
                    assert(u.skip(k) == q);
                    assert(q[0] == ':');
                    assert(u[k] == u.skip(k)[0]);
                    if k < dc2.len() {
                        assert(u[k] == dc2[k]);
                    } else if k > dc2.len() {
                        assert(u[k] == dm2[k - dc2.len() - 1]);
                    } else {
                        assert(u.skip(k) =~= tail);
                        assert(dm2 =~= tail.drop_first());
                        assert(decimal(m as nat) =~= q.drop_first());
                        lemma_decimal_injective(m2 as nat, m as nat);
                    }
                }
            }
        },
    }
}

/// A scope pattern matches the binding key of a message exactly when that
/// message lies in the scope: same guild, and the same channel and message
/// wherever the scope names them.
pub proof fn law_scope_pattern_selects_scope(
    guild: u64,
    channel: Option<u64>,
    message: Option<u64>,
    g2: u64,
    c2: u64,
    m2: u64,
)
    ensures
        glob_match(scope_pattern_spec(guild, channel, message), binding_key_spec(g2, c2, m2))
            == in_scope(guild, channel, message, g2, c2, m2),
{
    let dg = decimal(guild as nat);
    let dg2 = decimal(g2 as nat);
    let u = colon_join(decimal(c2 as nat), decimal(m2 as nat));
    let rest = colon_join(scope_part(channel), scope_part(message));
    lemma_decimal_colon_free(guild as nat);
    lemma_decimal_colon_free(g2 as nat);
    lemma_colon_suffix_star_free(dg);
    let lit = dg.push(':');
    let t = binding_key_spec(g2, c2, m2);
    assert(scope_pattern_spec(guild, channel, message) =~= lit + rest);
    assert(t =~= colon_join(dg2, u));
    lemma_literal_prefix(lit, rest, t);
    lemma_starts_with_part(dg, dg2, u);
    if dg2 == dg {
        lemma_decimal_injective(g2 as nat, guild as nat);
    }
    if g2 == guild {
        assert(t.skip(lit.len() as int) == u);
    }
    lemma_rest_parts(channel, message, c2, m2);
}

} // verus!
