//! Identity and context strings for the positional-audio link.
//!
//! The identity names a participant; the context names the room that
//! participants share. A server identifier enters the context only after a
//! one-way transform, so that the raw identifier is not shown to everyone who
//! reads the link.

use vstd::prelude::*;
use vstd::slice::slice_to_vec;
use vstd::string::*;
use vstd::utf8::encode_utf8;
use md5::{Digest, Md5};
use crate::text::{decimal, push_decimal, Counter};

verus! {

/// The longest text that `base63_encode` returns, in characters.
pub const BASE63_MAX_LEN: usize = 25;

/// The 63 symbols of the encoding, in the order of their digit values.
pub open spec fn base63_alphabet() -> Seq<char> {
    "abcdefghijklmnopqrstuvwxyzABCDEFGHIJKLMNOPQRSTUVWXYZ0123456789_"@
}

/// The symbol that stands for the digit `d`.
pub open spec fn base63_symbol(d: int) -> char {
    base63_alphabet()[d]
}

/// Whether `c` is one of the 63 symbols.
pub open spec fn is_base63_symbol(c: char) -> bool {
    ('a' <= c && c <= 'z') || ('A' <= c && c <= 'Z') || ('0' <= c && c <= '9') || c == '_'
}

/// The number that `bytes` spell in base 256, the first byte the most
/// significant.
pub open spec fn be_value(bytes: Seq<u8>) -> nat
    decreases bytes.len(),
{
    if bytes.len() == 0 {
        0
    } else {
        be_value(bytes.drop_last()) * 256 + bytes.last() as nat
    }
}

/// The digits of `n` in base 63 as symbols, the least significant first,
/// without leading zeros at the end, and no more than `max` of them.
pub open spec fn base63_digits(n: nat, max: nat) -> Seq<char>
    decreases max,
{
    if n == 0 || max == 0 {
        Seq::empty()
    } else {
        seq![base63_symbol(n as int % 63)] + base63_digits(n / 63, (max - 1) as nat)
    }
}

/// The base-63 text of `bytes`: the bytes are read as one big-endian number,
/// which is written in base 63 with the least significant digit first, up to
/// 25 digits.
pub open spec fn base63_chars(bytes: Seq<u8>) -> Seq<char> {
    base63_digits(be_value(bytes), BASE63_MAX_LEN as nat)
}

/// Whether every character of `s` is one of the 63 symbols.
pub open spec fn all_base63(s: Seq<char>) -> bool {
    forall|i: int| 0 <= i < s.len() ==> is_base63_symbol(#[trigger] s[i])
}

/// Every digit below 63 has a symbol, and it is a letter, a digit or `_`.
pub proof fn lemma_symbol_in_alphabet(d: int)
    requires
        0 <= d < 63,
    ensures
        is_base63_symbol(base63_symbol(d)),
        d < 26 ==> base63_symbol(d) == ((97 + d) as u8) as char,
        26 <= d < 52 ==> base63_symbol(d) == ((39 + d) as u8) as char,
        52 <= d < 62 ==> base63_symbol(d) == ((d - 4) as u8) as char,
        d == 62 ==> base63_symbol(d) == '_',
{
    reveal_strlit("abcdefghijklmnopqrstuvwxyzABCDEFGHIJKLMNOPQRSTUVWXYZ0123456789_");
}

/// The digits of any number are at most `max`, and each of them is one of the
/// 63 symbols.
pub proof fn lemma_digits_shape(n: nat, max: nat)
    ensures
        base63_digits(n, max).len() <= max,
        all_base63(base63_digits(n, max)),
    decreases max,
{
    if n != 0 && max != 0 {
        lemma_symbol_in_alphabet(n as int % 63);
        lemma_digits_shape(n / 63, (max - 1) as nat);
    }
}

/// The encoding of any bytes is at most 25 characters long, and each of them is
/// one of the 63 symbols. No bytes give no characters.
pub proof fn lemma_base63_shape(bytes: Seq<u8>)
    ensures
        base63_chars(bytes).len() <= BASE63_MAX_LEN,
        all_base63(base63_chars(bytes)),
        bytes.len() == 0 ==> base63_chars(bytes) == Seq::<char>::empty(),
{
    lemma_digits_shape(be_value(bytes), BASE63_MAX_LEN as nat);
}

/// A prefix that is one byte longer spells 256 times as much, and that byte
/// more.
proof fn lemma_value_of_prefix(bytes: Seq<u8>, i: int)
    requires
        0 <= i < bytes.len(),
    ensures
        be_value(bytes.take(i + 1)) == be_value(bytes.take(i)) * 256 + bytes[i] as nat,
{
    assert(bytes.take(i + 1).drop_last() =~= bytes.take(i));
}

/// The symbol of a digit, computed from the code points of `a`, `A` and `0`.
fn symbol_of(d: u8) -> (c: char)
    requires
        d < 63,
    ensures
        c == base63_symbol(d as int),
{
    proof {
        lemma_symbol_in_alphabet(d as int);
    }
    if d < 26 {
        (97 + d) as char
    } else if d < 52 {
        (39 + d) as char
    } else if d < 62 {
        (d - 4) as char
    } else {
        '_'
    }
}

/// Divides the big-endian number in `num` by 63, in place, and returns the
/// remainder.
fn divide_by_63(num: &mut Vec<u8>) -> (rem: u8)
    ensures
        final(num)@.len() == old(num)@.len(),
        be_value(final(num)@) == be_value(old(num)@) / 63,
        rem == be_value(old(num)@) % 63,
{
    let mut rem: u32 = 0;
    let mut i: usize = 0;
    assert(num@.take(0) =~= Seq::<u8>::empty());
    while i < num.len()
        invariant
            i <= num.len(),
            num@.len() == old(num)@.len(),
            rem < 63,
            be_value(old(num)@.take(i as int)) == be_value(num@.take(i as int)) * 63 + rem,
            forall|j: int| i <= j < num@.len() ==> num@[j] == old(num)@[j],
        decreases num.len() - i,
    {
        let ghost before = num@;
        let cur: u32 = rem * 256 + num[i] as u32;
        num.set(i, (cur / 63) as u8);
        rem = cur % 63;
        proof {
            assert(num@.take(i as int) =~= before.take(i as int));
            lemma_value_of_prefix(old(num)@, i as int);
            lemma_value_of_prefix(num@, i as int);
        }
        i = i + 1;
    }
    proof {
        assert(num@.take(i as int) =~= num@);
        assert(old(num)@.take(i as int) =~= old(num)@);
    }
    rem as u8
}

/// Whether the big-endian number in `num` is zero.
fn is_zero(num: &Vec<u8>) -> (r: bool)
    ensures
        r == (be_value(num@) == 0),
{
    let mut i: usize = 0;
    assert(num@.take(0) =~= Seq::<u8>::empty());
    while i < num.len()
        invariant
            i <= num.len(),
            be_value(num@.take(i as int)) == 0,
        decreases num.len() - i,
    {
        proof {
            lemma_value_of_prefix(num@, i as int);
            lemma_value_grows(num@, i as int + 1);
        }
        if num[i] != 0 {
            return false;
        }
        i = i + 1;
    }
    assert(num@.take(i as int) =~= num@);
    true
}

/// A sequence spells at least as much as any of its prefixes.
proof fn lemma_value_grows(bytes: Seq<u8>, i: int)
    requires
        0 <= i <= bytes.len(),
    ensures
        be_value(bytes.take(i)) <= be_value(bytes),
    decreases bytes.len() - i,
{
    if i < bytes.len() {
        lemma_value_of_prefix(bytes, i);
        lemma_value_grows(bytes, i + 1);
    } else {
        assert(bytes.take(i) =~= bytes);
    }
}

/// Encodes `buf` in base 63 with the alphabet `a-z A-Z 0-9 _`.
pub fn base63_encode(buf: &[u8]) -> (r: String)
    ensures
        r@ == base63_chars(buf@),
        r@.len() <= BASE63_MAX_LEN,
        all_base63(r@),
{
    let mut num = slice_to_vec(buf);
    let mut ret = String::new();
    let mut ix: usize = 0;
    proof {
        lemma_base63_shape(buf@);
    }
    while ix < BASE63_MAX_LEN && !is_zero(&num)
        invariant
            ix == ret@.len(),
            ix <= BASE63_MAX_LEN,
            ret@ + base63_digits(be_value(num@), (BASE63_MAX_LEN - ix) as nat) == base63_chars(buf@),
        decreases BASE63_MAX_LEN - ix,
    {
        let ghost n = be_value(num@);
        let ghost written = ret@;
        let rem = divide_by_63(&mut num);
        ret.push(symbol_of(rem));
        ix = ix + 1;
        assert(ret@ + base63_digits(be_value(num@), (BASE63_MAX_LEN - ix) as nat) =~= written
            + base63_digits(n, (BASE63_MAX_LEN - ix + 1) as nat));
    }
    assert(ret@ =~= ret@ + Seq::<char>::empty());
    ret
}

/// The MD5 digest of `data`: 16 bytes that depend on `data` alone.
pub uninterp spec fn md5_digest(data: Seq<u8>) -> Seq<u8>;

/// Calls `Md5::digest` of the `md-5` crate, which hashes `data` in one go with
/// a hasher of its own and returns the 16 bytes of the digest. That these are
/// the bytes which `md5_digest` names is taken on trust.
#[verifier::external_body]
fn md5_of(data: &[u8]) -> (digest: [u8; 16])
    ensures
        digest@ == md5_digest(data@),
{
    Md5::digest(data).into()
}

/// What a server identifier is shown as: nothing for no identifier, else the
/// base-63 text of the MD5 digest of its UTF-8 bytes.
pub open spec fn obfuscated(login: Seq<char>) -> Seq<char> {
    if login.len() == 0 {
        login
    } else {
        base63_chars(md5_digest(encode_utf8(login)))
    }
}

/// An obfuscated identifier is at most 25 characters of the alphabet, and the
/// empty identifier stays empty.
pub proof fn lemma_obfuscated_shape(login: Seq<char>)
    ensures
        obfuscated(login).len() <= BASE63_MAX_LEN,
        all_base63(obfuscated(login)),
        login.len() == 0 ==> obfuscated(login) == Seq::<char>::empty(),
{
    if login.len() > 0 {
        lemma_base63_shape(md5_digest(encode_utf8(login)));
    }
}

/// The obfuscation is a function of the identifier: whatever is shown for an
/// identifier once is shown for it every time.
pub proof fn lemma_obfuscation_is_deterministic(login: Seq<char>, first: Seq<char>, second: Seq<char>)
    requires
        first == obfuscated(login),
        second == obfuscated(login),
    ensures
        first == second,
{
}

/// Obfuscates a server login or map identifier for display in a context.
pub fn obfs_uid_or_svr_login(svr_login: &str) -> (r: String)
    ensures
        r@ == obfuscated(svr_login@),
        r@.len() <= BASE63_MAX_LEN,
        all_base63(r@),
{
    proof {
        lemma_obfuscated_shape(svr_login@);
    }
    if svr_login.is_empty() {
        return String::new();
    }
    let digest = md5_of(svr_login.as_bytes());
    base63_encode(digest.as_slice())
}


/// The identity of a participant: name, login and nonce, with `|` between.
pub open spec fn identity_chars(name: Seq<char>, login: Seq<char>, nonce: nat) -> Seq<char> {
    name + seq!['|'] + login + seq!['|'] + decimal(nonce)
}

/// The context of a room: the tag `TM`, the server identifier as it is shown,
/// and the team, with `|` between.
pub open spec fn context_chars(server: Seq<char>, team: Seq<char>) -> Seq<char> {
    seq!['T', 'M', '|'] + server + seq!['|'] + team
}

/// Formats the identity string `name|login|nonce`.
pub fn format_identity(player_name: &str, player_login: &str, nonce: u64) -> (r: String)
    ensures
        r@ == identity_chars(player_name@, player_login@, nonce as nat),
{
    let mut s = String::from_str(player_name);
    s.push('|');
    s.append(player_login);
    s.push('|');
    push_decimal(&mut s, nonce);
    assert(s@ =~= identity_chars(player_name@, player_login@, nonce as nat));
    s
}

/// Formats the identity string `name|login|nonce` for a nonce of any size.
pub fn format_identity_counted(player_name: &str, player_login: &str, nonce: &Counter) -> (r: String)
    ensures
        r@ == identity_chars(player_name@, player_login@, nonce@),
{
    let mut s = String::from_str(player_name);
    s.push('|');
    s.append(player_login);
    s.push('|');
    nonce.push_to(&mut s);
    assert(s@ =~= identity_chars(player_name@, player_login@, nonce@));
    s
}

/// Formats the context string `TM|server|team`. `server` is the identifier as it
/// is to be shown: obfuscated already, or empty.
pub fn format_context(server: &str, team: &str) -> (r: String)
    ensures
        r@ == context_chars(server@, team@),
{
    let mut s = String::new();
    s.push('T');
    s.push('M');
    s.push('|');
    s.append(server);
    s.push('|');
    s.append(team);
    assert(s@ =~= context_chars(server@, team@));
    s
}

} // verus!
