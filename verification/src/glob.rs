//! Glob patterns in which `*` stands for any run of characters and every
//! other character for itself, as the store matches keys against the
//! patterns of `keys::scope_pattern` when it scans.

use vstd::prelude::*;
use crate::keys::star_free;

verus! {

/// Whether the text `t` matches the pattern `p`.
pub open spec fn glob_match(p: Seq<char>, t: Seq<char>) -> bool
    decreases p.len(), t.len(),
{
    if p.len() == 0 {
        t.len() == 0
    } else if p[0] == '*' {
        glob_match(p.drop_first(), t) || (t.len() > 0 && glob_match(p, t.drop_first()))
    } else {
        t.len() > 0 && t[0] == p[0] && glob_match(p.drop_first(), t.drop_first())
    }
}

/// `t` begins with `prefix`.
pub open spec fn starts_with(t: Seq<char>, prefix: Seq<char>) -> bool {
    t.len() >= prefix.len() && t.subrange(0, prefix.len() as int) == prefix
}

/// A pattern that begins with a literal part matches exactly the texts that
/// begin with that part and go on with a match of the rest.
pub proof fn lemma_literal_prefix(lit: Seq<char>, q: Seq<char>, t: Seq<char>)
    requires
        star_free(lit),
    ensures
        glob_match(lit + q, t) == (starts_with(t, lit) && glob_match(q, t.skip(lit.len() as int))),
    decreases lit.len(),
{
    if lit.len() == 0 {
        assert(lit + q =~= q);
        assert(t.skip(0) =~= t);
        assert(t.subrange(0, 0) =~= lit);
    } else {
        let p = lit + q;
        assert(p[0] == lit[0]);
        assert(p.drop_first() =~= lit.drop_first() + q);
        assert(star_free(lit.drop_first())) by {
            assert forall|i: int| 0 <= i < lit.drop_first().len() implies #[trigger] lit.drop_first()[i] != '*' by {
                assert(lit.drop_first()[i] == lit[i + 1]);
            }
        }
        if t.len() > 0 {
            lemma_literal_prefix(lit.drop_first(), q, t.drop_first());
            if t.len() >= lit.len() {
                assert(t.drop_first().skip(lit.drop_first().len() as int) =~= t.skip(lit.len() as int));
            }
            if starts_with(t, lit) {
                assert(t[0] == t.subrange(0, lit.len() as int)[0]);
                assert(t.drop_first().subrange(0, lit.drop_first().len() as int) =~= t.subrange(0, lit.len() as int).drop_first());
            }
            if t[0] == lit[0] && starts_with(t.drop_first(), lit.drop_first()) {
                assert(t.subrange(0, lit.len() as int) =~= seq![t[0]] + t.drop_first().subrange(0, lit.drop_first().len() as int));
                assert(lit =~= seq![lit[0]] + lit.drop_first());
            }
        }
    }
}

/// A pattern without wildcards matches only itself.
pub proof fn lemma_literal_only(lit: Seq<char>, t: Seq<char>)
    requires
        star_free(lit),
    ensures
        glob_match(lit, t) == (t == lit),
{
    lemma_literal_prefix(lit, Seq::empty(), t);
    assert(lit + Seq::<char>::empty() =~= lit);
    if starts_with(t, lit) && t.skip(lit.len() as int).len() == 0 {
        assert(t =~= t.subrange(0, lit.len() as int));
    }
    if t == lit {
        assert(t.subrange(0, lit.len() as int) =~= lit);
    }
}

/// A lone `*` matches every text.
pub proof fn lemma_star_matches_all(t: Seq<char>)
    ensures
        glob_match(seq!['*'], t),
    decreases t.len(),
{
    let p = seq!['*'];
    assert(p.len() == 1 && p[0] == '*');
    assert(p.drop_first() =~= Seq::<char>::empty());
    if t.len() > 0 {
        lemma_star_matches_all(t.drop_first());
        assert(glob_match(p, t.drop_first()));
    } else {
        assert(glob_match(p.drop_first(), t));
    }
}

/// `*` followed by `q` matches any text that ends with a match of `q`.
pub proof fn lemma_star_skips(q: Seq<char>, x: Seq<char>, y: Seq<char>)
    requires
        glob_match(q, y),
    ensures
        glob_match(seq!['*'] + q, x + y),
    decreases x.len(),
{
    let p = seq!['*'] + q;
    assert(p[0] == '*');
    assert(p.drop_first() =~= q);
    if x.len() == 0 {
        assert(x + y =~= y);
    } else {
        lemma_star_skips(q, x.drop_first(), y);
        assert((x + y).drop_first() =~= x.drop_first() + y);
    }
}

/// A match of `*` followed by `q` leaves a suffix that matches `q`.
pub proof fn lemma_star_split(q: Seq<char>, t: Seq<char>) -> (k: int)
    requires
        glob_match(seq!['*'] + q, t),
    ensures
        0 <= k <= t.len(),
        glob_match(q, t.skip(k)),
    decreases t.len(),
{
    let p = seq!['*'] + q;
    assert(p[0] == '*');
    assert(p.drop_first() =~= q);
    if glob_match(q, t) {
        assert(t.skip(0) =~= t);
        0
    } else {
        assert(glob_match(p, t) == (glob_match(p.drop_first(), t) || (t.len() > 0 && glob_match(p, t.drop_first()))));
        assert(t.len() > 0 && glob_match(p, t.drop_first()));
        let k1 = lemma_star_split(q, t.drop_first());
        assert(t.drop_first().skip(k1) =~= t.skip(k1 + 1));
        k1 + 1
    }
}

} // verus!
