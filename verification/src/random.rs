use vstd::prelude::*;
use rand::rngs::ThreadRng;
use crate::clock::unix_now_secs;
use crate::text::{char_to_string, hex_fixed, hex_fixed_string};

verus! {

#[verifier::external_type_specification]
#[verifier::external_body]
pub struct ExThreadRng(ThreadRng);

/// An ASCII letter or digit.
pub open spec fn alphanumeric(c: char) -> bool {
    let n = c as u32;
    (48 <= n <= 57) || (65 <= n <= 90) || (97 <= n <= 122)
}

/// What a pairing token looks like: `FT-` and 24 ASCII letters or digits.
pub open spec fn pairing_token_shape(t: Seq<char>) -> bool {
    &&& t.len() == 27
    &&& t.subrange(0, 3) == "FT-"@
    &&& forall|i: int| 3 <= i < 27 ==> alphanumeric(#[trigger] t[i])
}

/// A request id: `req-`, the seconds (modulo 0xFFFF) in four hex digits, then
/// the random number in six hex digits.
pub open spec fn request_id_text(secs: u64, n: u32) -> Seq<char> {
    "req-"@ + hex_fixed((secs % 0xFFFF) as nat, 4) + hex_fixed(n as nat, 6)
}

/// Calls `rand::thread_rng`: the thread's generator, of which nothing can be promised.
#[verifier::external_body]
fn thread_rng() -> (rng: ThreadRng) {
    rand::thread_rng()
}

/// Calls `Rng::gen_range` with the inclusive range `low..=high`; rand documents
/// that the result lies in the range and that an empty range panics.
#[verifier::external_body]
fn gen_range_inclusive(rng: &mut ThreadRng, low: u32, high: u32) -> (r: u32)
    requires
        low <= high,
    ensures
        low <= r <= high,
{
    rand::Rng::gen_range(rng, low..=high)
}

/// Calls `Rng::sample` with `Alphanumeric`, which rand documents (and its source
/// shows) draws from the ASCII letters and digits.
#[verifier::external_body]
fn sample_alphanumeric(rng: &mut ThreadRng) -> (b: u8)
    ensures
        alphanumeric(b as char),
{
    rand::Rng::sample(rng, rand::distributions::Alphanumeric)
}

/// A fresh pairing token: `FT-` and 24 random ASCII letters or digits.
pub fn generate_pairing_token() -> (t: String)
    ensures
        pairing_token_shape(t@),
{
    let mut rng = thread_rng();
    let mut suffix = String::new();
    let mut i: usize = 0;
    while i < 24
        invariant
            i <= 24,
            suffix@.len() == i,
            forall|j: int| 0 <= j < i ==> alphanumeric(#[trigger] suffix@[j]),
        decreases 24 - i,
    {
        let b = sample_alphanumeric(&mut rng);
        let piece = char_to_string(b as char);
        suffix.append(piece.as_str());
        i = i + 1;
    }
    proof {
        reveal_strlit("FT-");
    }
    let t = String::from_str("FT-").concat(suffix.as_str());
    assert(t@.subrange(0, 3) =~= "FT-"@);
    assert forall|k: int| 3 <= k < 27 implies alphanumeric(#[trigger] t@[k]) by {
        assert(t@[k] == suffix@[k - 3]);
    }
    t
}

/// The request id made of a clock reading and a random number up to 0xFFFFFF.
pub fn request_id_from(secs: u64, n: u32) -> (r: String)
    requires
        n <= 0xFFFFFF,
    ensures
        r@ == request_id_text(secs, n),
{
    let t = secs % 0xFFFF;
    let mut r = String::from_str("req-");
    let a = hex_fixed_string(t, 4);
    let b = hex_fixed_string(n as u64, 6);
    r.append(a.as_str());
    r.append(b.as_str());
    r
}

/// A fresh request id from the clock and the thread's random generator.
pub fn generate_request_id() -> (r: String)
    ensures
        exists|secs: u64, n: u32| n <= 0xFFFFFF && r@ == request_id_text(secs, n),
{
    let mut rng = thread_rng();
    let n = gen_range_inclusive(&mut rng, 0, 0xFFFFFF);
    let secs = unix_now_secs();
    request_id_from(secs, n)
}

} // verus!
