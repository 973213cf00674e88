//! Role ids as they appear in command arguments and in messages.

use vstd::prelude::*;
use serenity::model::misc::Mentionable;
use crate::decimal::{decimal, digit_char, is_digit, lemma_decimal_digits};

verus! {

/// The value of a run of ASCII digits.
pub open spec fn digits_value(d: Seq<char>) -> nat
    decreases d.len(),
{
    if d.len() == 0 {
        0
    } else {
        digits_value(d.drop_last()) * 10 + ((d.last() as int) - 48) as nat
    }
}

/// A non-empty run of ASCII digits.
pub open spec fn all_digits(d: Seq<char>) -> bool {
    d.len() > 0 && forall|i: int| 0 <= i < d.len() ==> is_digit(#[trigger] d[i])
}

/// What `str::parse::<u64>` gives: an optional `+`, then one or more ASCII
/// digits whose value fits in 64 bits.
pub open spec fn parse_u64_spec(s: Seq<char>) -> Option<u64> {
    let digits = if s.len() > 0 && s[0] == '+' { s.drop_first() } else { s };
    if all_digits(digits) && digits_value(digits) <= u64::MAX {
        Some(digits_value(digits) as u64)
    } else {
        None
    }
}

/// What `str::parse::<i32>` gives: an optional `+` or `-`, then one or more
/// ASCII digits whose signed value fits in 32 bits.
pub open spec fn parse_i32_spec(s: Seq<char>) -> Option<i32> {
    let negative = s.len() > 0 && s[0] == '-';
    let digits = if s.len() > 0 && (s[0] == '+' || s[0] == '-') { s.drop_first() } else { s };
    let value: int = if negative { -(digits_value(digits) as int) } else { digits_value(digits) as int };
    if all_digits(digits) && i32::MIN <= value <= i32::MAX {
        Some(value as i32)
    } else {
        None
    }
}

/// The text of a role mention: `<@&`, the id in decimal, `>`.
pub open spec fn role_mention_spec(role: u64) -> Seq<char> {
    seq!['<', '@', '&'] + decimal(role as nat) + seq!['>']
}

/// What serenity's `RoleId::from_str` gives: the id inside a role mention
/// `<@&id>`, or else the whole text read as a number.
pub open spec fn role_arg_spec(s: Seq<char>) -> Option<u64> {
    let mention_shaped = s.len() >= 4 && s.subrange(0, 3) == seq!['<', '@', '&'] && s.last() == '>';
    if mention_shaped && parse_u64_spec(s.subrange(3, s.len() - 1)) is Some {
        parse_u64_spec(s.subrange(3, s.len() - 1))
    } else {
        parse_u64_spec(s)
    }
}

/// The roles that a list of arguments names, in order, skipping the
/// arguments that name none.
pub open spec fn roles_named(args: Seq<Seq<char>>) -> Seq<u64>
    decreases args.len(),
{
    if args.len() == 0 {
        Seq::empty()
    } else {
        let rest = roles_named(args.drop_last());
        match role_arg_spec(args.last()) {
            Some(r) => rest.push(r),
            None => rest,
        }
    }
}

proof fn lemma_decimal_value(n: nat)
    ensures
        all_digits(decimal(n)),
        digits_value(decimal(n)) == n,
    decreases n,
{
    lemma_decimal_digits(n);
    let d = decimal(n);
    if n < 10 {
        assert(d.drop_last() =~= Seq::<char>::empty());
        assert(d.last() == digit_char(n));
        assert((digit_char(n) as int) - 48 == n);
        assert(digits_value(d) == digits_value(d.drop_last()) * 10 + ((d.last() as int) - 48) as nat);
    } else {
        lemma_decimal_value(n / 10);
        assert(d.drop_last() =~= decimal(n / 10));
        assert(d.last() == digit_char(n % 10));
        assert((digit_char(n % 10) as int) - 48 == n % 10);
        assert(digits_value(d) == digits_value(d.drop_last()) * 10 + ((d.last() as int) - 48) as nat);
        assert(n == (n / 10) * 10 + n % 10) by (nonlinear_arith);
    }
}

/// A role's mention, given as an argument, names that role again.
pub proof fn law_mention_names_its_role(role: u64)
    ensures
        role_arg_spec(role_mention_spec(role)) == Some(role),
        role_arg_spec(decimal(role as nat)) == Some(role),
{
    let d = decimal(role as nat);
    lemma_decimal_value(role as nat);
    let s = role_mention_spec(role);
    assert(s.subrange(0, 3) =~= seq!['<', '@', '&']);
    assert(s.subrange(3, s.len() - 1) =~= d);
    assert(is_digit(d[0]));
}

/// The roles named by two runs of arguments one after the other are those
/// of the first run followed by those of the second: an argument that names
/// no role drops only itself.
pub proof fn law_roles_named_concat(a: Seq<Seq<char>>, b: Seq<Seq<char>>)
    ensures
        roles_named(a + b) == roles_named(a) + roles_named(b),
    decreases b.len(),
{
    if b.len() == 0 {
        assert(a + b =~= a);
        assert(roles_named(a) + roles_named(b) =~= roles_named(a));
    } else {
        law_roles_named_concat(a, b.drop_last());
        assert((a + b).drop_last() =~= a + b.drop_last());
        assert((a + b).last() == b.last());
        match role_arg_spec(b.last()) {
            Some(r) => {
                assert(roles_named(a + b) =~= roles_named(a) + roles_named(b.drop_last()).push(r));
                assert(roles_named(a) + roles_named(b.drop_last()).push(r) =~= (roles_named(a) + roles_named(b.drop_last())).push(r));
            },
            None => {},
        }
    }
}

/// One argument names its role, or nothing.
pub proof fn law_roles_named_single(a: Seq<char>)
    ensures
        roles_named(seq![a]) == match role_arg_spec(a) {
            Some(r) => seq![r],
            None => Seq::<u64>::empty(),
        },
{
    assert(seq![a].drop_last() =~= Seq::<Seq<char>>::empty());
    assert(seq![a].last() == a);
    assert(roles_named(seq![a].drop_last()) =~= Seq::<u64>::empty());
    if let Some(r) = role_arg_spec(a) {
        assert(Seq::<u64>::empty().push(r) =~= seq![r]);
    }
}

/// The roles named by arguments are the arguments' parses as roles, in
/// order, with the arguments that are no role left out.
pub proof fn law_roles_named_filters_parses(args: Seq<Seq<char>>)
    ensures
        roles_named(args) == args.filter_map(|a: Seq<char>| role_arg_spec(a)),
    decreases args.len(),
{
    if args.len() > 0 {
        law_roles_named_filters_parses(args.drop_last());
        if let Some(r) = role_arg_spec(args.last()) {
            assert(roles_named(args.drop_last()).push(r) =~= roles_named(args.drop_last()) + seq![r]);
        }
    }
}

/// Calls serenity's `RoleId::from_str` (a role mention `<@&id>`, or else a
/// plain `u64`) and keeps the id. The contract restates that function's
/// source and std's documented `u64` parsing.
#[verifier::external_body]
fn parse_role_arg(arg: &String) -> (role: Option<u64>)
    ensures
        role == role_arg_spec(arg@),
{
    arg.parse::<serenity::model::id::RoleId>().ok().map(|r| r.0)
}

/// Calls `str::parse::<i32>`; the contract states std's documented integer
/// syntax.
#[verifier::external_body]
fn parse_i32(text: &String) -> (value: Option<i32>)
    ensures
        value == parse_i32_spec(text@),
{
    text.parse::<i32>().ok()
}

/// Calls serenity's `Mentionable::mention` on a role id and renders it with
/// `Display`, which by the source writes `<@&`, the id, `>`.
#[verifier::external_body]
pub(crate) fn role_mention(role: u64) -> (text: String)
    ensures
        text@ == role_mention_spec(role),
{
    serenity::model::id::RoleId(role).mention().to_string()
}

/// The roles named by the arguments of the setup command, in order; the
/// arguments that are neither a role mention nor a role id are skipped.
pub fn parse_setup_roles(args: &Vec<String>) -> (roles: Vec<u64>)
    ensures
        roles@ == roles_named(args@.map_values(|a: String| a@)),
{
    let mut roles: Vec<u64> = Vec::new();
    let mut i: usize = 0;
    while i < args.len()
        invariant
            i <= args.len(),
            roles@ == roles_named(args@.map_values(|a: String| a@).take(i as int)),
        decreases args.len() - i,
    {
        let ghost views = args@.map_values(|a: String| a@);
        proof {
            assert(views.take(i as int + 1).drop_last() =~= views.take(i as int));
            assert(views.take(i as int + 1).last() == args@[i as int]@);
        }
        match parse_role_arg(&args[i]) {
            Some(r) => roles.push(r),
            None => {},
        }
        i = i + 1;
    }
    proof {
        assert(args@.map_values(|a: String| a@).take(args.len() as int) =~= args@.map_values(|a: String| a@));
    }
    roles
}

/// The number in the custom id of a message component, if it is one.
pub fn component_id(custom_id: &String) -> (id: Option<i32>)
    ensures
        id == parse_i32_spec(custom_id@),
{
    parse_i32(custom_id)
}

} // verus!
