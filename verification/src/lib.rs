//! One-time-password generation: strings of a requested length whose
//! characters are drawn independently and uniformly from a selectable
//! character set.

use vstd::prelude::*;
use vstd::string::*;

verus! {

/// The caller's choice of sampling universe for a one-time password.
pub enum OtpCharSet {
    Numeric,
    Alphanumeric,
    AlphanumericSpecialChars,
    Custom(String),
}

/// The ten decimal digits, in ascending order.
pub open spec fn numeric_chars() -> Seq<char> {
    "0123456789"@
}

/// Digits, then lowercase letters, then uppercase letters.
pub open spec fn alphanumeric_chars() -> Seq<char> {
    "0123456789abcdefghijklmnopqrstuvwxyzABCDEFGHIJKLMNOPQRSTUVWXYZ"@
}

/// The alphanumeric sequence followed by the fixed special characters.
pub open spec fn alphanumeric_special_chars() -> Seq<char> {
    "0123456789abcdefghijklmnopqrstuvwxyzABCDEFGHIJKLMNOPQRSTUVWXYZ!@#$%^&*()_+-=[]{}|;:,.<>?"@
}

/// The ordered character sequence a selector stands for. A custom set keeps
/// its characters exactly as given, duplicates included.
pub open spec fn resolved_charset(char_set_type: OtpCharSet) -> Seq<char> {
    match char_set_type {
        OtpCharSet::Numeric => numeric_chars(),
        OtpCharSet::Alphanumeric => alphanumeric_chars(),
        OtpCharSet::AlphanumericSpecialChars => alphanumeric_special_chars(),
        OtpCharSet::Custom(s) => s@,
    }
}

/// A custom selector whose text holds no characters at all: the one input
/// on which generation is refused.
pub open spec fn is_empty_custom(char_set_type: OtpCharSet) -> bool {
    match char_set_type {
        OtpCharSet::Custom(s) => s@.len() == 0,
        _ => false,
    }
}

/// Collects the characters of a string slice into a vector, in order.
fn chars_of(s: &str) -> (r: Vec<char>)
    ensures
        r@ == s@,
{
    let n: usize = s.unicode_len();
    let mut r: Vec<char> = Vec::new();
    let mut i: usize = 0;
    while i < n
        invariant
            n == s@.len(),
            i <= n,
            r@ == s@.subrange(0, i as int),
        decreases n - i,
    {
        let c = s.get_char(i);
        r.push(c);
        i = i + 1;
        proof {
            assert(r@ =~= s@.subrange(0, i as int));
        }
    }
    proof {
        assert(r@ =~= s@);
    }
    r
}

/// Resolves a selector to the concrete character vector it stands for.
fn resolve_charset(char_set_type: &OtpCharSet) -> (r: Vec<char>)
    ensures
        r@ == resolved_charset(*char_set_type),
{
    match char_set_type {
        OtpCharSet::Numeric => chars_of("0123456789"),
        OtpCharSet::Alphanumeric => chars_of(
            "0123456789abcdefghijklmnopqrstuvwxyzABCDEFGHIJKLMNOPQRSTUVWXYZ",
        ),
        OtpCharSet::AlphanumericSpecialChars => chars_of(
            "0123456789abcdefghijklmnopqrstuvwxyzABCDEFGHIJKLMNOPQRSTUVWXYZ!@#$%^&*()_+-=[]{}|;:,.<>?",
        ),
        OtpCharSet::Custom(s) => chars_of(s.as_str()),
    }
}

/// Relies on rand's `SliceRandom::choose` with the thread-local generator:
/// it returns a uniformly chosen element of the slice, or `None` exactly
/// when the slice is empty.
#[verifier::external_body]
fn choose_char(chars: &Vec<char>) -> (r: Option<char>)
    ensures
        r matches Some(c) ==> chars@.contains(c),
        r is Some <==> chars@.len() > 0,
{
    rand::seq::SliceRandom::choose(chars.as_slice(), &mut rand::thread_rng()).copied()
}

/// Relies on `String`'s `FromIterator<char>` impl: collecting characters
/// yields the string of exactly those characters, in order.
#[verifier::external_body]
fn string_from_chars(chars: &Vec<char>) -> (r: String)
    ensures
        r@ == chars@,
{
    chars.iter().copied().collect()
}

/// Draws `length` characters independently and uniformly from `chars`,
/// concatenated in the order drawn.
fn sample_chars(chars: &Vec<char>, length: usize) -> (r: String)
    requires
        chars@.len() > 0,
    ensures
        r@.len() == length,
        forall|i: int| 0 <= i < length ==> chars@.contains(#[trigger] r@[i]),
{
    let mut drawn: Vec<char> = Vec::new();
    let mut k: usize = 0;
    while k < length
        invariant
            chars@.len() > 0,
            k <= length,
            drawn@.len() == k,
            forall|i: int| 0 <= i < k ==> chars@.contains(#[trigger] drawn@[i]),
        decreases length - k,
    {
        match choose_char(chars) {
            Some(c) => {
                drawn.push(c);
            },
            None => {
                proof {
                    assert(false);
                }
            },
        }
        k = k + 1;
    }
    string_from_chars(&drawn)
}

/// Generates a one-time password of exactly `length` characters, each drawn
/// independently and uniformly from the character set the selector resolves
/// to. An empty custom set is refused before any sampling; a resolved set
/// that is empty for any other reason is refused by a defensive check that
/// the built-in sets never trip.
pub fn generate_otp(length: usize, char_set_type: OtpCharSet) -> (r: Result<String, &'static str>)
    ensures
        r is Ok <==> resolved_charset(char_set_type).len() > 0,
        r matches Ok(otp) ==> otp@.len() == length,
        r matches Ok(otp) ==> forall|i: int|
            0 <= i < length ==> resolved_charset(char_set_type).contains(#[trigger] otp@[i]),
        r matches Err(msg) ==> is_empty_custom(char_set_type) && msg@
            == "Custom character set cannot be empty"@,
{
    match &char_set_type {
        OtpCharSet::Custom(s) => {
            if s.as_str().is_empty() {
                return Err("Custom character set cannot be empty");
            }
        },
        _ => {},
    }

    let chars: Vec<char> = resolve_charset(&char_set_type);

    proof {
        lemma_valid_selector_resolves_nonempty(char_set_type);
    }

    if chars.len() == 0 {
        return Err("Effective character set is empty");
    }

    Ok(sample_chars(&chars, length))
}

/// Every selector other than an empty custom set resolves to a non-empty
/// character set, so generation owes it success at every length.
pub proof fn lemma_valid_selector_resolves_nonempty(char_set_type: OtpCharSet)
    requires
        !is_empty_custom(char_set_type),
    ensures
        resolved_charset(char_set_type).len() > 0,
{
    reveal_strlit("0123456789");
    reveal_strlit("0123456789abcdefghijklmnopqrstuvwxyzABCDEFGHIJKLMNOPQRSTUVWXYZ");
    reveal_strlit(
        "0123456789abcdefghijklmnopqrstuvwxyzABCDEFGHIJKLMNOPQRSTUVWXYZ!@#$%^&*()_+-=[]{}|;:,.<>?",
    );
}

/// A character set whose entries are all one character determines the draw:
/// any sequence of members of that set is that character repeated.
pub proof fn lemma_single_char_set_determines_otp(otp: Seq<char>, charset: Seq<char>, c: char)
    requires
        forall|i: int| 0 <= i < charset.len() ==> charset[i] == c,
        forall|i: int| 0 <= i < otp.len() ==> charset.contains(#[trigger] otp[i]),
    ensures
        forall|i: int| 0 <= i < otp.len() ==> otp[i] == c,
{
    assert forall|i: int| 0 <= i < otp.len() implies otp[i] == c by {
        assert(charset.contains(otp[i]));
    }
}

} // verus!
