//! Fresh invitation codes and the placement of a new invitation.
use vstd::prelude::*;
use crate::auth::CODE_LENGTH;
use crate::guest::{created_guest, new_guest, Guest, GuestForm};

verus! {

/// An ASCII letter or digit.
pub open spec fn is_ascii_alphanumeric(c: char) -> bool {
    ('A' <= c && c <= 'Z') || ('a' <= c && c <= 'z') || ('0' <= c && c <= '9')
}

/// An upper-case ASCII letter or a digit.
pub open spec fn is_code_char(c: char) -> bool {
    ('A' <= c && c <= 'Z') || ('0' <= c && c <= '9')
}

/// A well-formed invitation code: twelve upper-case letters and digits.
pub open spec fn is_invite_code(s: Seq<char>) -> bool {
    s.len() == CODE_LENGTH && forall|i: int| 0 <= i < s.len() ==> is_code_char(#[trigger] s[i])
}

pub open spec fn upper_chars() -> Seq<char> {
    seq![
        'A', 'B', 'C', 'D', 'E', 'F', 'G', 'H', 'I', 'J', 'K', 'L', 'M',
        'N', 'O', 'P', 'Q', 'R', 'S', 'T', 'U', 'V', 'W', 'X', 'Y', 'Z',
    ]
}

/// ASCII upper case of one character.
pub open spec fn ascii_upper(c: char) -> char {
    if 'a' <= c && c <= 'z' {
        upper_chars()[(c as u32 - 'a' as u32) as int]
    } else {
        c
    }
}

/// Relies on rand's `Alphanumeric` distribution, sampled `n` times from the
/// thread-local generator: each sample is one of `A-Z`, `a-z`, `0-9`.
#[verifier::external_body]
fn sample_alphanumeric(n: usize) -> (r: String)
    ensures
        r@.len() == n,
        forall|i: int| 0 <= i < n ==> is_ascii_alphanumeric(#[trigger] r@[i]),
{
    rand::Rng::sample_iter(rand::thread_rng(), rand::distributions::Alphanumeric).take(n).map(
        char::from,
    ).collect()
}

/// `s` in ASCII upper case.
pub fn to_ascii_upper(s: &str) -> (r: String)
    ensures
        r@.len() == s@.len(),
        forall|i: int| 0 <= i < s@.len() ==> #[trigger] r@[i] == ascii_upper(s@[i]),
{
    let n = s.unicode_len();
    let mut r = String::new();
    let mut i: usize = 0;
    let letters = "ABCDEFGHIJKLMNOPQRSTUVWXYZ";
    proof {
        reveal_strlit("ABCDEFGHIJKLMNOPQRSTUVWXYZ");
    }
    assert(letters@ =~= upper_chars());
    while i < n
        invariant
            n == s@.len(),
            i <= n,
            letters@ == upper_chars(),
            r@.len() == i,
            forall|j: int| 0 <= j < i ==> #[trigger] r@[j] == ascii_upper(s@[j]),
        decreases n - i,
    {
        let c = s.get_char(i);
        let ghost before = r@;
        if 'a' <= c && c <= 'z' {
            let k = (c as u32 - 'a' as u32) as usize;
            let one = letters.substring_char(k, k + 1);
            r.append(one);
        } else {
            let one = s.substring_char(i, i + 1);
            r.append(one);
        }
        assert(r@ =~= before.push(ascii_upper(s@[i as int])));
        i = i + 1;
    }
    r
}

/// A fresh random invitation code: twelve upper-case letters and digits.
/// Whether it is already taken is for the directory to tell.
pub fn generate_invite_code() -> (r: String)
    ensures
        is_invite_code(r@),
{
    let sample = sample_alphanumeric(CODE_LENGTH);
    let r = to_ascii_upper(sample.as_str());
    assert forall|i: int| 0 <= i < r@.len() implies is_code_char(#[trigger] r@[i]) by {
        assert(is_ascii_alphanumeric(sample@[i]));
    }
    r
}

/// Places a new invitation under `candidate`, which the directory reported
/// as `taken` or not. A taken code yields no record and hands the form back
/// for another candidate; a record is only ever made under a code that was
/// not taken.
pub fn place_invitation(candidate: String, taken: bool, form: GuestForm) -> (r: Result<
    Guest,
    GuestForm,
>)
    ensures
        taken ==> r == Err::<Guest, GuestForm>(form),
        !taken ==> r == Ok::<Guest, GuestForm>(created_guest(candidate, form)),
{
    if taken {
        Err(form)
    } else {
        Ok(new_guest(candidate, form))
    }
}

} // verus!
