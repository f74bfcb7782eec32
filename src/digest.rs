use vstd::prelude::*;
use vstd::string::*;
use crate::text::push_char;

verus! {

/// The 32 lowercase hexadecimal digits of the MD5 digest of a text's UTF-8 bytes.
pub uninterp spec fn md5_hex_of(s: Seq<char>) -> Seq<char>;

/// Relies on md5::compute and the `LowerHex` format of its `Digest`: two
/// lowercase hex digits for each of the sixteen digest bytes.
#[verifier::external_body]
pub(crate) fn md5_hex(s: &str) -> (r: String)
    ensures
        r@ == md5_hex_of(s@),
{
    format!("{:x}", md5::compute(s))
}

/// Content digest used as a cache validator.
pub fn content_hash(s: &str) -> (r: String)
    ensures
        r@ == md5_hex_of(s@),
{
    md5_hex(s)
}

pub open spec fn hex_digit(n: u8) -> char
    recommends
        n < 16,
{
    if n < 10 {
        ((n + 48) as u8) as char
    } else {
        ((n + 87) as u8) as char
    }
}

/// Two lowercase hex digits, high nibble first.
pub open spec fn hex_byte(b: u8) -> Seq<char> {
    seq![hex_digit(b / 16), hex_digit(b % 16)]
}

/// The xor of all bytes.
pub open spec fn xor_fold(bytes: Seq<u8>) -> u8
    decreases bytes.len(),
{
    if bytes.len() == 0 {
        0
    } else {
        xor_fold(bytes.drop_last()) ^ bytes.last()
    }
}

fn hex_char(n: u8) -> (c: char)
    requires
        n < 16,
    ensures
        c == hex_digit(n),
{
    if n < 10 {
        (n + 48) as char
    } else {
        (n + 87) as char
    }
}

/// Trivial hash for identifiers that need no security: the xor of the
/// text's bytes, as two lowercase hex digits.
pub fn xor_hash(s: &str) -> (r: String)
    ensures
        r@ == hex_byte(xor_fold(s.spec_bytes())),
{
    let bytes = s.as_bytes();
    let mut hash: u8 = 0;
    let mut i: usize = 0;
    while i < bytes.len()
        invariant
            bytes@ == s.spec_bytes(),
            i <= bytes@.len(),
            hash == xor_fold(bytes@.subrange(0, i as int)),
        decreases bytes@.len() - i,
    {
        assert(bytes@.subrange(0, i + 1).drop_last() == bytes@.subrange(0, i as int));
        hash = hash ^ bytes[i];
        i = i + 1;
    }
    assert(bytes@.subrange(0, bytes@.len() as int) == bytes@);
    let mut r = String::new();
    push_char(&mut r, hex_char(hash / 16));
    push_char(&mut r, hex_char(hash % 16));
    r
}

/// The character a byte-wide xor with `key` makes of `c` (the character is
/// first truncated to its low byte).
pub open spec fn xor_char(c: char, key: u8) -> char {
    (((c as u32) as u8) ^ key) as char
}

/// Xor every character's low byte with `key`.
pub fn xor_cipher(input: &str, key: u8) -> (r: String)
    ensures
        r@ == input@.map_values(|c: char| xor_char(c, key)),
{
    let n = input.unicode_len();
    let mut r = String::new();
    let mut i: usize = 0;
    while i < n
        invariant
            n == input@.len(),
            i <= n,
            r@ == input@.subrange(0, i as int).map_values(|c: char| xor_char(c, key)),
        decreases n - i,
    {
        let c = input.get_char(i);
        let x = ((c as u32) as u8) ^ key;
        push_char(&mut r, x as char);
        assert(input@.subrange(0, i + 1) == input@.subrange(0, i as int).push(c));
        i = i + 1;
    }
    assert(input@.subrange(0, n as int) == input@);
    r
}

} // verus!
