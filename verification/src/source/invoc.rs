//! Invocation identifiers.
//!
//! Every issued request carries a globally unique id: the value of a shared,
//! monotonically increasing 64-bit counter, rendered as a 24-character
//! zero-padded decimal string.  This module holds the counter, the decimal
//! spec, the formatter, and the uniqueness law.

use vstd::prelude::*;

use vstd::arithmetic::div_mod::{
    lemma_basic_div, lemma_div_basics, lemma_div_denominator, lemma_div_multiples_vanish,
    lemma_fundamental_div_mod,
};

verus! {

/// The character for one decimal digit.
pub open spec fn dec_digit_char(d: int) -> char {
    if d == 0 {
        '0'
    } else if d == 1 {
        '1'
    } else if d == 2 {
        '2'
    } else if d == 3 {
        '3'
    } else if d == 4 {
        '4'
    } else if d == 5 {
        '5'
    } else if d == 6 {
        '6'
    } else if d == 7 {
        '7'
    } else if d == 8 {
        '8'
    } else {
        '9'
    }
}

pub open spec fn pow10(e: nat) -> nat
    decreases e,
{
    if e == 0 {
        1
    } else {
        10 * pow10((e - 1) as nat)
    }
}

/// The plain decimal rendering of a natural number, without padding.
pub open spec fn dec_text_rec(n: nat) -> Seq<char>
    decreases n,
{
    if n < 10 {
        seq![dec_digit_char(n as int)]
    } else {
        dec_text_rec(n / 10).push(dec_digit_char((n % 10) as int))
    }
}

/// The plain decimal rendering of a 64-bit integer.
pub open spec fn dec_text(n: u64) -> Seq<char> {
    dec_text_rec(n as nat)
}

/// The 24-character zero-padded decimal form of an invocation id: character
/// `i` is the digit of weight `10^(23-i)`.
pub open spec fn invocation_id_text(n: u64) -> Seq<char> {
    Seq::new(24, |i: int| dec_digit_char(((n as nat / pow10((23 - i) as nat)) % 10) as int))
}

proof fn lemma_pow10_pos(e: nat)
    ensures
        pow10(e) >= 1,
    decreases e,
{
    if e > 0 {
        lemma_pow10_pos((e - 1) as nat);
    }
}

proof fn lemma_pow10_23_24()
    ensures
        pow10(23) == 100_000_000_000_000_000_000_000,
        pow10(24) == 1_000_000_000_000_000_000_000_000,
{
    reveal_with_fuel(pow10, 25);
}

/// Equal digit characters come from equal digits.
proof fn lemma_dec_digit_char_injective(x: int, y: int)
    requires
        0 <= x < 10,
        0 <= y < 10,
        dec_digit_char(x) == dec_digit_char(y),
    ensures
        x == y,
{
}

/// If two ids agree on every digit of weight `10^e` for `e0 <= e <= 23`, their
/// quotients by `10^e0` agree.
proof fn lemma_digits_determine_quotient(a: nat, b: nat, e0: nat)
    requires
        e0 <= 24,
        a < pow10(24),
        b < pow10(24),
        forall|e: nat|
            e0 <= e <= 23 ==> #[trigger] ((a / pow10(e)) % 10) == (b / pow10(e)) % 10,
    ensures
        a / pow10(e0) == b / pow10(e0),
    decreases 24 - e0,
{
    lemma_pow10_pos(e0);
    if e0 == 24 {
        lemma_basic_div(a as int, pow10(24) as int);
        lemma_basic_div(b as int, pow10(24) as int);
    } else {
        lemma_digits_determine_quotient(a, b, (e0 + 1) as nat);
        let p = pow10(e0) as int;
        let q = pow10((e0 + 1) as nat) as int;
        assert(q == p * 10);
        lemma_div_denominator(a as int, p, 10);
        lemma_div_denominator(b as int, p, 10);
        assert(a as int / q == (a as int / p) / 10);
        assert(b as int / q == (b as int / p) / 10);
        lemma_fundamental_div_mod(a as int / p, 10);
        lemma_fundamental_div_mod(b as int / p, 10);
        assert((a / pow10(e0)) % 10 == (b / pow10(e0)) % 10);
    }
}

/// Distinct ids have distinct 24-digit forms: the padded decimal rendering is
/// injective on `u64`.
pub proof fn lemma_invocation_id_text_injective(a: u64, b: u64)
    requires
        invocation_id_text(a) == invocation_id_text(b),
    ensures
        a == b,
{
    lemma_pow10_23_24();
    assert(pow10(24) > u64::MAX);
    assert forall|e: nat| 0 <= e <= 23 implies #[trigger] ((a as nat / pow10(e)) % 10) == (
    b as nat / pow10(e)) % 10 by {
        let i: int = 23 - e;
        assert(0 <= i < 24);
        assert((23 - i) as nat == e);
        assert(invocation_id_text(a)[i] == dec_digit_char(
            ((a as nat / pow10(e)) % 10) as int,
        ));
        assert(invocation_id_text(b)[i] == dec_digit_char(
            ((b as nat / pow10(e)) % 10) as int,
        ));
        lemma_pow10_pos(e);
        lemma_dec_digit_char_injective(
            ((a as nat / pow10(e)) % 10) as int,
            ((b as nat / pow10(e)) % 10) as int,
        );
    }
    lemma_digits_determine_quotient(a as nat, b as nat, 0);
    lemma_div_basics(a as int);
    lemma_div_basics(b as int);
    assert(pow10(0) == 1);
    assert(a as nat / pow10(0) == a as nat);
    assert(b as nat / pow10(0) == b as nat);
}

/// Invocation id uniqueness: when one run hands out `k` ids starting at
/// `start` (without wrapping), both the ids and their 24-character decimal
/// forms are pairwise distinct, so the issued ids are exactly
/// `start, start + 1, ..., start + k - 1`.
pub proof fn lemma_invocation_ids_unique(start: u64, k: u64)
    requires
        start + k <= u64::MAX + 1,
    ensures
        forall|i: int, j: int|
            #![trigger invocation_id_text((start + i) as u64), invocation_id_text((start + j) as u64)]
            0 <= i < j < k ==> (start + i) as u64 != (start + j) as u64,
        forall|i: int, j: int|
            #![trigger invocation_id_text((start + i) as u64), invocation_id_text((start + j) as u64)]
            0 <= i < j < k ==> invocation_id_text((start + i) as u64) != invocation_id_text(
                (start + j) as u64,
            ),
{
    assert forall|i: int, j: int|
        #![trigger invocation_id_text((start + i) as u64), invocation_id_text((start + j) as u64)]
        0 <= i < j < k implies invocation_id_text((start + i) as u64) != invocation_id_text(
        (start + j) as u64,
    ) by {
        if invocation_id_text((start + i) as u64) == invocation_id_text((start + j) as u64) {
            lemma_invocation_id_text_injective((start + i) as u64, (start + j) as u64);
        }
    }
}

/// One digit as a one-character string slice.
fn digit_str(d: u64) -> (r: &'static str)
    requires
        d < 10,
    ensures
        r@ == seq![dec_digit_char(d as int)],
{
    proof {
        reveal_strlit("0");
        reveal_strlit("1");
        reveal_strlit("2");
        reveal_strlit("3");
        reveal_strlit("4");
        reveal_strlit("5");
        reveal_strlit("6");
        reveal_strlit("7");
        reveal_strlit("8");
        reveal_strlit("9");
    }
    if d == 0 {
        proof { assert("0"@ =~= seq![dec_digit_char(0)]); }
        "0"
    } else if d == 1 {
        proof { assert("1"@ =~= seq![dec_digit_char(1)]); }
        "1"
    } else if d == 2 {
        proof { assert("2"@ =~= seq![dec_digit_char(2)]); }
        "2"
    } else if d == 3 {
        proof { assert("3"@ =~= seq![dec_digit_char(3)]); }
        "3"
    } else if d == 4 {
        proof { assert("4"@ =~= seq![dec_digit_char(4)]); }
        "4"
    } else if d == 5 {
        proof { assert("5"@ =~= seq![dec_digit_char(5)]); }
        "5"
    } else if d == 6 {
        proof { assert("6"@ =~= seq![dec_digit_char(6)]); }
        "6"
    } else if d == 7 {
        proof { assert("7"@ =~= seq![dec_digit_char(7)]); }
        "7"
    } else if d == 8 {
        proof { assert("8"@ =~= seq![dec_digit_char(8)]); }
        "8"
    } else {
        proof { assert("9"@ =~= seq![dec_digit_char(9)]); }
        "9"
    }
}

/// Render an invocation id as its 24-character zero-padded decimal string.
pub fn format_invocation_id(n: u64) -> (r: String)
    ensures
        r@ == invocation_id_text(n),
{
    let mut s = String::new();
    let mut pow: u128 = 100_000_000_000_000_000_000_000;
    proof {
        lemma_pow10_23_24();
    }
    let mut i: usize = 0;
    while i < 24
        invariant
            i <= 24,
            i < 24 ==> pow == pow10((23 - i) as nat),
            s@ =~= invocation_id_text(n).take(i as int),
        decreases 24 - i,
    {
        proof {
            lemma_pow10_pos((23 - i) as nat);
        }
        let d: u64 = ((n as u128 / pow) % 10) as u64;
        let ds = digit_str(d);
        s.append(ds);
        proof {
            assert(invocation_id_text(n)[i as int] == dec_digit_char(d as int));
            assert(s@ =~= invocation_id_text(n).take(i as int + 1));
        }
        if i < 23 {
            proof {
                let e = (23 - i) as nat;
                assert(pow10(e) == 10 * pow10((e - 1) as nat));
                lemma_div_multiples_vanish(pow10((e - 1) as nat) as int, 10);
            }
            pow = pow / 10;
        }
        i += 1;
    }
    proof {
        assert(invocation_id_text(n).take(24) =~= invocation_id_text(n));
    }
    s
}

/// The shared invocation-id counter: seeded once per run, bumped by one for
/// every issued request.
pub struct InvocationCounter {
    next: u64,
}

impl InvocationCounter {
    /// The id the counter will hand out next.
    pub closed spec fn next_spec(self) -> u64 {
        self.next
    }

    /// A counter starting at `invoc_id_start`.
    pub fn new(invoc_id_start: u64) -> (r: Self)
        ensures
            r.next_spec() == invoc_id_start,
    {
        InvocationCounter { next: invoc_id_start }
    }

    /// Hand out the next id and advance the counter.
    pub fn fetch_next(&mut self) -> (r: u64)
        requires
            old(self).next_spec() < u64::MAX,
        ensures
            r == old(self).next_spec(),
            final(self).next_spec() == old(self).next_spec() + 1,
    {
        let id = self.next;
        self.next = self.next + 1;
        id
    }
}

} // verus!
