//! The secret text of a token and its digest.
//!
//! A secret is the prefix `pub_` followed by 32 symbols, each drawn from the
//! 62 letters and digits of ASCII. Prefix, length and alphabet are fixed for
//! good: a change to any of them would turn away every token already issued.

use crate::crypto::{random_index, sha256, sha256_digest, DIGEST_LENGTH};
use vstd::prelude::*;
use vstd::string::*;
use vstd::utf8::*;

verus! {

/// What every secret starts with. It tells this kind of credential from
/// others at a glance, and it never changes.
pub const TOKEN_PREFIX: &'static str = "pub_";

/// The number of random symbols in a secret.
pub const TOKEN_LENGTH: usize = 32;

/// The number of symbols to draw from.
pub const ALPHABET_SIZE: usize = 62;

/// [`TOKEN_PREFIX`], character by character.
pub open spec fn token_prefix() -> Seq<char> {
    seq!['p', 'u', 'b', '_']
}

/// [`token_prefix`] spells [`TOKEN_PREFIX`].
pub proof fn lemma_token_prefix()
    ensures
        TOKEN_PREFIX@ == token_prefix(),
{
    reveal_strlit("pub_");
    assert(TOKEN_PREFIX@ =~= token_prefix());
}

/// The symbol at `index` of the alphabet: `a` to `z`, then `A` to `Z`, then
/// `0` to `9`.
pub open spec fn symbol(index: int) -> char {
    if index < 26 {
        (97 + index) as char
    } else if index < 52 {
        (65 + (index - 26)) as char
    } else {
        (48 + (index - 52)) as char
    }
}

/// Whether `ch` is one of the 62 symbols.
pub open spec fn is_symbol(ch: char) -> bool {
    exists|index: int| 0 <= index < ALPHABET_SIZE && ch == #[trigger] symbol(index)
}

/// Whether `text` has the shape of a secret: the prefix, then
/// [`TOKEN_LENGTH`] symbols.
pub open spec fn is_plain_token(text: Seq<char>) -> bool {
    &&& text.len() == token_prefix().len() + TOKEN_LENGTH
    &&& text.subrange(0, token_prefix().len() as int) == token_prefix()
    &&& forall|at: int| token_prefix().len() <= at < text.len() ==> is_symbol(#[trigger] text[at])
}

/// The digest that is stored for a secret: SHA-256 over its UTF-8 bytes.
pub open spec fn token_digest(plain_token: Seq<char>) -> Seq<u8> {
    sha256_digest(encode_utf8(plain_token))
}

/// A secret is plain ASCII, one byte to the character.
pub proof fn lemma_plain_token_bytes(text: Seq<char>)
    requires
        is_plain_token(text),
    ensures
        is_ascii_chars(text),
        encode_utf8(text).len() == token_prefix().len() + TOKEN_LENGTH,
{
    assert forall|at: int| 0 <= at < text.len() implies '\0' <= #[trigger] text[at] <= '\u{7f}' by {
        if at < 4 {
            assert(text[at] == text.subrange(0, 4)[at]);
        } else {
            let index = choose|index: int| 0 <= index < ALPHABET_SIZE && text[at] == symbol(index);
            assert(text[at] == symbol(index));
        }
    }
    is_ascii_chars_encode_utf8(text);
}

/// The symbol at `index` of the alphabet.
pub fn symbol_at(index: usize) -> (ch: char)
    requires
        index < ALPHABET_SIZE,
    ensures
        ch == symbol(index as int),
        is_symbol(ch),
{
    let byte: u8 = if index < 26 {
        97 + index as u8
    } else if index < 52 {
        65 + (index - 26) as u8
    } else {
        48 + (index - 52) as u8
    };
    let ch = byte as char;
    assert(ch == symbol(index as int));
    ch
}

/// Draws `len` symbols from the operating system's entropy source, each
/// uniformly from the alphabet.
pub fn generate_secure_alphanumeric_string(len: usize) -> (text: String)
    ensures
        text@.len() == len,
        forall|at: int| 0 <= at < len ==> is_symbol(#[trigger] text@[at]),
{
    let mut text = String::new();
    let mut count: usize = 0;
    while count < len
        invariant
            count <= len,
            text@.len() == count,
            forall|at: int| 0 <= at < count ==> is_symbol(#[trigger] text@[at]),
        decreases len - count,
    {
        let index = random_index(ALPHABET_SIZE);
        text.push(symbol_at(index));
        count = count + 1;
    }
    text
}

/// Makes a fresh secret: the prefix and [`TOKEN_LENGTH`] random symbols.
pub fn generate_token() -> (plain_token: String)
    ensures
        is_plain_token(plain_token@),
{
    let random = generate_secure_alphanumeric_string(TOKEN_LENGTH);
    let mut plain_token = String::from_str(TOKEN_PREFIX);
    proof {
        lemma_token_prefix();
    }
    plain_token.append(random.as_str());
    assert(plain_token@.subrange(0, 4) =~= token_prefix());
    plain_token
}

/// The digest under which a secret is stored and looked up.
pub fn hash_token(plain_token: &str) -> (digest: Vec<u8>)
    ensures
        digest@ == token_digest(plain_token@),
        digest@.len() == DIGEST_LENGTH,
{
    sha256(plain_token.as_bytes())
}

/// Tells whether two digests are equal, without stopping at the first byte
/// that differs: every byte is looked at, whatever the others hold.
pub fn digests_match(left: &[u8], right: &[u8]) -> (same: bool)
    ensures
        same == (left@ == right@),
{
    if left.len() != right.len() {
        return false;
    }
    let mut difference: u8 = 0;
    let mut at: usize = 0;
    assert(left@.take(0) =~= right@.take(0));
    while at < left.len()
        invariant
            at <= left.len(),
            left.len() == right.len(),
            difference == 0 <==> left@.take(at as int) == right@.take(at as int),
        decreases left.len() - at,
    {
        let ghost before = difference;
        let here: u8 = left[at] ^ right[at];
        difference = difference | here;
        proof {
            let (l, r) = (left[at as int], right[at as int]);
            assert(difference == 0 <==> before == 0 && l == r) by (bit_vector)
                requires
                    difference == before | (l ^ r),
            ;
            let (longer_left, longer_right) = (left@.take(at + 1), right@.take(at + 1));
            assert(longer_left.drop_last() == left@.take(at as int));
            assert(longer_right.drop_last() == right@.take(at as int));
            assert(longer_left.last() == l && longer_right.last() == r);
            if before == 0 && l == r {
                assert(longer_left =~= longer_right);
            }
        }
        at = at + 1;
    }
    assert(left@.take(at as int) == left@ && right@.take(at as int) == right@);
    difference == 0
}

} // verus!
