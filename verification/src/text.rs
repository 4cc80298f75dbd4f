//! Names and numerals that the engine synthesizes: the decimal accessor of a
//! positional field and the scratch identifier that a field is bound to.

use proc_macro2::{Ident, Span};
use quote::ToTokens;
use syn::{IntSuffix, LitInt};
use vstd::prelude::*;
use vstd::string::*;

verus! {

/// The character of a decimal digit.
pub open spec fn digit(d: nat) -> char
    recommends
        d < 10,
{
    if d == 0 {
        '0'
    } else if d == 1 {
        '1'
    } else if d == 2 {
        '2'
    } else if d == 3 {
        '3'
    } else if d == 4 {
        '4'
    } else if d == 5 {
        '5'
    } else if d == 6 {
        '6'
    } else if d == 7 {
        '7'
    } else if d == 8 {
        '8'
    } else {
        '9'
    }
}

/// The decimal numeral of `n`, without sign, padding or leading zeros.
pub open spec fn decimal(n: nat) -> Seq<char>
    decreases n,
{
    if n < 10 {
        seq![digit(n)]
    } else {
        decimal(n / 10).push(digit(n % 10))
    }
}

/// The accessor of the positional field at `index`: its zero-based index.
pub open spec fn positional_accessor(index: nat) -> Seq<char> {
    decimal(index)
}

/// The scratch identifier of the field at `index`: an underscore followed by
/// the index.
pub open spec fn scratch_name(index: nat) -> Seq<char> {
    seq!['_'] + decimal(index)
}

/// Two digits with the same character are the same digit.
pub proof fn lemma_digit_injective(a: nat, b: nat)
    requires
        a < 10,
        b < 10,
        digit(a) == digit(b),
    ensures
        a == b,
{
}

/// A numeral is never empty.
pub proof fn lemma_decimal_nonempty(n: nat)
    ensures
        decimal(n).len() >= 1,
        n >= 10 ==> decimal(n).len() >= 2,
    decreases n,
{
    if n >= 10 {
        lemma_decimal_nonempty(n / 10);
    }
}

/// Different numbers have different numerals.
pub proof fn lemma_decimal_injective(a: nat, b: nat)
    requires
        decimal(a) == decimal(b),
    ensures
        a == b,
    decreases a,
{
    lemma_decimal_nonempty(a);
    lemma_decimal_nonempty(b);
    if a < 10 || b < 10 {
        assert(a < 10 && b < 10);
        assert(decimal(a)[0] == digit(a));
        assert(decimal(b)[0] == digit(b));
        lemma_digit_injective(a, b);
    } else {
        let high_a = decimal(a / 10);
        let high_b = decimal(b / 10);
        assert(high_a.push(digit(a % 10)).drop_last() =~= high_a);
        assert(high_b.push(digit(b % 10)).drop_last() =~= high_b);
        assert(high_a.push(digit(a % 10)).last() == digit(a % 10));
        assert(high_b.push(digit(b % 10)).last() == digit(b % 10));
        lemma_decimal_injective(a / 10, b / 10);
        lemma_digit_injective(a % 10, b % 10);
    }
}

/// Different fields get different scratch identifiers.
pub proof fn lemma_scratch_name_injective(i: nat, j: nat)
    requires
        scratch_name(i) == scratch_name(j),
    ensures
        i == j,
{
    assert(scratch_name(i).subrange(1, scratch_name(i).len() as int) =~= decimal(i));
    assert(scratch_name(j).subrange(1, scratch_name(j).len() as int) =~= decimal(j));
    lemma_decimal_injective(i, j);
}

/// Makes the integer literal of `index` without a suffix, with
/// `syn::LitInt::new`, and prints the one token it consists of.
///
/// Trusted, not proved: the text of that literal is the decimal numeral of
/// `index`, and no `index` makes the call panic.
///
/// Beyond what a contract can say: the call takes a span from
/// `proc_macro2::Span::call_site`. The first such call in a process finds
/// out whether the compiler's interface is there by calling it under a panic
/// hook that it puts in place for the moment. That relies on panics
/// unwinding, and it panics itself if another thread has changed the hook in
/// the meantime.
#[verifier::external_body]
pub(crate) fn index_literal(index: u64) -> (text: String)
    ensures
        text@ == positional_accessor(index as nat),
{
    LitInt::new(index, IntSuffix::None, Span::call_site()).into_token_stream().to_string()
}

/// Makes the identifier called `name` with `proc_macro2::Ident::new` and
/// prints it.
///
/// Trusted, not proved: an underscore followed by a decimal numeral is
/// accepted as an identifier, so the call does not panic on such a name, and
/// the identifier prints as the name it was made of.
///
/// Beyond what a contract can say: the call takes a span from
/// `proc_macro2::Span::call_site`, of which the note on `index_literal`
/// holds here too.
#[verifier::external_body]
pub(crate) fn ident_text(name: &str) -> (text: String)
    requires
        exists|i: nat| name@ == #[trigger] scratch_name(i),
    ensures
        text@ == name@,
{
    Ident::new(name, Span::call_site()).to_string()
}

/// Writes the scratch identifier of the field at `index`: an underscore,
/// then the numeral of the index, made into an identifier.
pub(crate) fn scratch_ident(index: usize) -> (text: String)
    ensures
        text@ == scratch_name(index as nat),
{
    let mut name = String::from_str("_");
    name.append(index_literal(index as u64).as_str());
    proof {
        reveal_strlit("_");
        assert(name@ =~= scratch_name(index as nat));
    }
    ident_text(name.as_str())
}

} // verus!
