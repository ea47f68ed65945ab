//! Drawing candidate identifiers and telling the purely numeric ones apart.

use vstd::prelude::*;
use rand::seq::SliceRandom;

verus! {

/// The handle of rand's thread-local generator; nothing is known of its state.
#[verifier::external_type_specification]
#[verifier::external_body]
pub struct ExThreadRng(rand::rngs::ThreadRng);

/// `rand::thread_rng` hands out the calling thread's generator. Nothing is
/// claimed of it. (It panics if the operating system gives no entropy when
/// the generator is first seeded.)
pub assume_specification[ rand::thread_rng ]() -> (rng: rand::rngs::ThreadRng);

/// `SliceRandom::choose` on the slice of `charset`: `None` if the slice is
/// empty, otherwise one of its elements. Which one is not said.
#[verifier::external_body]
fn pick(charset: &Vec<char>, rng: &mut rand::rngs::ThreadRng) -> (picked: Option<char>)
    ensures
        picked is None <==> charset@.len() == 0,
        picked matches Some(c) ==> charset@.contains(c),
{
    charset.choose(rng).copied()
}

/// One of the decimal digits `0` to `9`.
pub open spec fn is_decimal_digit(c: char) -> bool {
    '0' <= c && c <= '9'
}

/// Every character of `s` is a decimal digit.
pub open spec fn all_numeric(s: Seq<char>) -> bool {
    forall|i: int| 0 <= i < s.len() ==> is_decimal_digit(#[trigger] s[i])
}

/// Every character of `s` occurs in `charset`.
pub open spec fn drawn_from(s: Seq<char>, charset: Seq<char>) -> bool {
    forall|i: int| 0 <= i < s.len() ==> charset.contains(#[trigger] s[i])
}

/// `s` is a candidate under the given alphabet and length.
pub open spec fn is_candidate(s: Seq<char>, charset: Seq<char>, id_length: nat) -> bool {
    s.len() == id_length && drawn_from(s, charset)
}

/// A string over an alphabet of digits is numeric.
pub proof fn lemma_digits_only_numeric(s: Seq<char>, charset: Seq<char>)
    requires
        drawn_from(s, charset),
        all_numeric(charset),
    ensures
        all_numeric(s),
{
    assert forall|i: int| 0 <= i < s.len() implies is_decimal_digit(#[trigger] s[i]) by {
        assert(charset.contains(s[i]));
        let k = choose|k: int| 0 <= k < charset.len() && charset[k] == s[i];
        assert(is_decimal_digit(charset[k]));
    }
}

/// A non-empty string over an alphabet without digits is not numeric.
pub proof fn lemma_digit_free_not_numeric(s: Seq<char>, charset: Seq<char>)
    requires
        drawn_from(s, charset),
        s.len() > 0,
        forall|k: int| 0 <= k < charset.len() ==> !is_decimal_digit(#[trigger] charset[k]),
    ensures
        !all_numeric(s),
{
    assert(charset.contains(s[0]));
    let k = choose|k: int| 0 <= k < charset.len() && charset[k] == s[0];
    assert(!is_decimal_digit(charset[k]));
}

/// Whether `s` consists of decimal digits only. The empty string does.
pub fn is_all_numeric(s: &str) -> (b: bool)
    ensures
        b == all_numeric(s@),
{
    let mut numeric = true;
    for c in it: s.chars()
        invariant
            it.seq() == s@,
            numeric == all_numeric(s@.take(it.index() as int)),
    {
        let ghost before = s@.take(it.index() as int);
        let ghost after = s@.take(it.index() + 1);
        proof {
            assert(after =~= before.push(c));
            if all_numeric(after) {
                assert forall|i: int| 0 <= i < before.len() implies is_decimal_digit(
                    #[trigger] before[i],
                ) by {
                    assert(before[i] == after[i]);
                }
                assert(after[before.len() as int] == c);
            }
        }
        numeric = numeric && '0' <= c && c <= '9';
    }
    assert(s@.take(s@.len() as int) =~= s@);
    numeric
}

/// Draws a candidate: `id_length` characters, each one picked from `charset`
/// independently of the others.
pub fn generate_candidate(
    charset: &Vec<char>,
    id_length: u32,
    rng: &mut rand::rngs::ThreadRng,
) -> (candidate: String)
    requires
        charset@.len() > 0,
    ensures
        is_candidate(candidate@, charset@, id_length as nat),
{
    let mut candidate = String::new();
    let mut drawn: u32 = 0;
    while drawn < id_length
        invariant
            drawn <= id_length,
            charset@.len() > 0,
            is_candidate(candidate@, charset@, drawn as nat),
        decreases id_length - drawn,
    {
        if let Some(c) = pick(charset, rng) {
            candidate.push(c);
        }
        drawn = drawn + 1;
    }
    candidate
}

} // verus!
