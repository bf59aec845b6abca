//! Random panel credentials and port for a new installation.
use rand::distributions::Alphanumeric;
use rand::Rng;
use vstd::prelude::*;

verus! {

/// `c` is an ASCII letter or digit.
pub open spec fn is_ascii_alphanumeric(c: char) -> bool {
    ('a' <= c && c <= 'z') || ('A' <= c && c <= 'Z') || ('0' <= c && c <= '9')
}

/// An ASCII letter or digit, as a byte.
pub open spec fn is_ascii_alphanumeric_byte(b: u8) -> bool {
    (0x61 <= b && b <= 0x7A) || (0x41 <= b && b <= 0x5A) || (0x30 <= b && b <= 0x39)
}

/// `rand::thread_rng().sample(Alphanumeric)`: one byte drawn uniformly from
/// the 62 ASCII letters and digits. Which one is chance.
#[verifier::external_body]
fn sample_alphanumeric() -> (b: u8)
    ensures
        is_ascii_alphanumeric_byte(b),
{
    rand::thread_rng().sample(Alphanumeric)
}

/// `rand::thread_rng().gen_range(lo..=hi)`: a number drawn from the
/// inclusive range `lo` to `hi` (which must not be empty). Which one is
/// chance.
#[verifier::external_body]
fn sample_range(lo: u16, hi: u16) -> (p: u16)
    requires
        lo <= hi,
    ensures
        lo <= p <= hi,
{
    rand::thread_rng().gen_range(lo..=hi)
}

/// `char::to_string`: the text made of the one character `c`.
#[verifier::external_body]
fn char_text(c: char) -> (s: String)
    ensures
        s@ == seq![c],
{
    c.to_string()
}

/// A random text of `len` ASCII letters and digits, each drawn independently.
pub fn random_string(len: usize) -> (s: String)
    ensures
        s@.len() == len,
        forall|i: int| 0 <= i < s@.len() ==> is_ascii_alphanumeric(#[trigger] s@[i]),
{
    let mut s = String::new();
    let mut i: usize = 0;
    while i < len
        invariant
            i <= len,
            s@.len() == i,
            forall|j: int| 0 <= j < s@.len() ==> is_ascii_alphanumeric(#[trigger] s@[j]),
        decreases len - i,
    {
        let b = sample_alphanumeric();
        let c = b as char;
        proof {
            assert(is_ascii_alphanumeric(c));
        }
        let ghost old_s = s@;
        s.append(char_text(c).as_str());
        proof {
            assert(s@ =~= old_s.push(c));
        }
        i = i + 1;
    }
    s
}

/// A random port from 1024 to 62000.
pub fn random_port() -> (p: u16)
    ensures
        1024 <= p <= 62000,
{
    sample_range(1024, 62000)
}

} // verus!
