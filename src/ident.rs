//! Short identifiers: six characters drawn at random from `[A-Za-z0-9]`.
use rand::rngs::ThreadRng;
use vstd::prelude::*;

verus! {

/// Number of characters in every generated identifier.
pub const SHORT_ID_LEN: usize = 6;

/// An ASCII letter or digit.
pub open spec fn is_alnum_char(c: char) -> bool {
    ('A' <= c && c <= 'Z') || ('a' <= c && c <= 'z') || ('0' <= c && c <= '9')
}

/// The byte of an ASCII letter or digit.
pub open spec fn is_alnum_byte(b: u8) -> bool {
    (65 <= b && b <= 90) || (97 <= b && b <= 122) || (48 <= b && b <= 57)
}

/// The shape of every identifier the generator hands out.
pub open spec fn is_short_id(s: Seq<char>) -> bool {
    &&& s.len() == SHORT_ID_LEN
    &&& forall|i: int| 0 <= i < s.len() ==> #[trigger] is_alnum_char(s[i])
}

#[verifier::external_type_specification]
#[verifier::external_body]
pub struct ExThreadRng(ThreadRng);

/// Relies on `rand::rng`: a handle on the thread-local generator.
#[verifier::external_body]
fn thread_rng() -> ThreadRng {
    rand::rng()
}

/// Relies on `rand::distr::Alphanumeric` sampled through `Rng::sample`: the
/// byte is one of `A-Z`, `a-z`, `0-9`.
#[verifier::external_body]
fn sample_alphanumeric(rng: &mut ThreadRng) -> (r: u8)
    ensures
        is_alnum_byte(r),
{
    rand::Rng::sample(rng, rand::distr::Alphanumeric)
}

/// Relies on `String::push`: appends one character.
#[verifier::external_body]
fn push_char(s: &mut String, c: char)
    ensures
        final(s)@ == old(s)@.push(c),
{
    s.push(c)
}

/// The identifier spelled by the drawn bytes, one character per byte, in
/// order.
pub fn short_id_from_draws(draws: &Vec<u8>) -> (r: String)
    ensures
        r@ == draws@.map_values(|b: u8| b as char),
        draws@.len() == SHORT_ID_LEN && (forall|i: int|
            0 <= i < draws@.len() ==> #[trigger] is_alnum_byte(draws@[i])) ==> is_short_id(r@),
{
    let mut id = String::new();
    let mut n: usize = 0;
    while n < draws.len()
        invariant
            n <= draws@.len(),
            id@ == draws@.subrange(0, n as int).map_values(|b: u8| b as char),
        decreases draws@.len() - n,
    {
        push_char(&mut id, draws[n] as char);
        n = n + 1;
        assert(draws@.subrange(0, n as int).map_values(|b: u8| b as char) =~= draws@.subrange(
            0,
            n - 1 as int,
        ).map_values(|b: u8| b as char).push(draws@[n - 1] as char));
    }
    assert(draws@.subrange(0, n as int) =~= draws@);
    assert forall|i: int| 0 <= i < id@.len() && is_alnum_byte(draws@[i]) implies #[trigger]
        is_alnum_char(id@[i]) by {
        assert(id@[i] == draws@[i] as char);
    }
    id
}

/// Draws a fresh identifier: six characters, each uniformly from
/// `[A-Za-z0-9]`. Nothing is checked against identifiers already in use.
pub fn generate_short_id() -> (r: String)
    ensures
        is_short_id(r@),
{
    let mut rng = thread_rng();
    let mut draws: Vec<u8> = Vec::new();
    while draws.len() < SHORT_ID_LEN
        invariant
            draws@.len() <= SHORT_ID_LEN,
            forall|i: int| 0 <= i < draws@.len() ==> #[trigger] is_alnum_byte(draws@[i]),
        decreases SHORT_ID_LEN - draws@.len(),
    {
        draws.push(sample_alphanumeric(&mut rng));
    }
    short_id_from_draws(&draws)
}

} // verus!
