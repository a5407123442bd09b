//! Proof-of-work challenge solver.
//!
//! A challenge is a prefix and a 32-byte target. A nonce solves it when the
//! SHA-256 digest of the prefix followed by the nonce in decimal is, read as
//! an unsigned big-endian integer, at most the target.

use vstd::prelude::*;
use vstd::string::*;
use vstd::utf8::encode_utf8;

verus! {

/// The character of a decimal digit.
pub open spec fn digit_char(d: nat) -> char {
    if d == 0 { '0' }
    else if d == 1 { '1' }
    else if d == 2 { '2' }
    else if d == 3 { '3' }
    else if d == 4 { '4' }
    else if d == 5 { '5' }
    else if d == 6 { '6' }
    else if d == 7 { '7' }
    else if d == 8 { '8' }
    else { '9' }
}

/// The decimal rendering of `n`, without leading zeros.
pub open spec fn decimal(n: nat) -> Seq<char>
    decreases n,
{
    if n < 10 {
        seq![digit_char(n)]
    } else {
        decimal(n / 10).push(digit_char(n % 10))
    }
}

fn digit_str(d: u64) -> (r: &'static str)
    requires
        d < 10,
    ensures
        r@ == seq![digit_char(d as nat)],
{
    proof {
        reveal_strlit("0");
        reveal_strlit("1");
        reveal_strlit("2");
        reveal_strlit("3");
        reveal_strlit("4");
        reveal_strlit("5");
        reveal_strlit("6");
        reveal_strlit("7");
        reveal_strlit("8");
        reveal_strlit("9");
    }
    if d == 0 { "0" }
    else if d == 1 { "1" }
    else if d == 2 { "2" }
    else if d == 3 { "3" }
    else if d == 4 { "4" }
    else if d == 5 { "5" }
    else if d == 6 { "6" }
    else if d == 7 { "7" }
    else if d == 8 { "8" }
    else { "9" }
}

/// Renders `n` in decimal.
pub fn decimal_string(n: u64) -> (r: String)
    ensures
        r@ == decimal(n as nat),
    decreases n,
{
    if n < 10 {
        String::from_str(digit_str(n))
    } else {
        let mut s = decimal_string(n / 10);
        s.append(digit_str(n % 10));
        s
    }
}


/// The SHA-256 digest of a byte string.
pub uninterp spec fn sha256_of(data: Seq<u8>) -> Seq<u8>;

/// Relies on sha2's `Sha256::digest`: the SHA-256 digest of `data`, whose
/// output is 32 bytes long.
#[verifier::external_body]
fn sha256(data: &[u8]) -> (r: Vec<u8>)
    ensures
        r@ == sha256_of(data@),
        r@.len() == 32,
{
    <sha2::Sha256 as sha2::Digest>::digest(data).to_vec()
}

/// `a <= b` as unsigned big-endian integers of one width: the two are equal,
/// or `a` is smaller at the first byte where they differ.
pub open spec fn be_le(a: Seq<u8>, b: Seq<u8>) -> bool {
    a.len() == b.len() && (a == b || exists|i: int|
        0 <= i < a.len() && a.subrange(0, i) == b.subrange(0, i) && a[i] < b[i])
}

/// `256` to the power `k`.
pub open spec fn pow256(k: nat) -> nat
    decreases k,
{
    if k == 0 {
        1
    } else {
        256 * pow256((k - 1) as nat)
    }
}

/// The value of a byte string read as an unsigned big-endian integer.
pub open spec fn be_value(s: Seq<u8>) -> nat
    decreases s.len(),
{
    if s.len() == 0 {
        0
    } else {
        s[0] as nat * pow256((s.len() - 1) as nat) + be_value(s.drop_first())
    }
}

proof fn lemma_be_value_bound(s: Seq<u8>)
    ensures
        be_value(s) < pow256(s.len()),
    decreases s.len(),
{
    if s.len() > 0 {
        let p = pow256((s.len() - 1) as nat);
        let rest = be_value(s.drop_first());
        lemma_be_value_bound(s.drop_first());
        let d = s[0] as nat;
        assert(d * p + rest < 256 * p) by (nonlinear_arith)
            requires
                d <= 255,
                rest < p,
        ;
    }
}

/// For byte strings of one width, `be_le` is the order of their values as
/// unsigned big-endian integers.
pub proof fn lemma_be_le_is_numeric(a: Seq<u8>, b: Seq<u8>)
    requires
        a.len() == b.len(),
    ensures
        be_le(a, b) <==> be_value(a) <= be_value(b),
    decreases a.len(),
{
    if a.len() == 0 {
        assert(a =~= b);
    } else {
        let n = a.len();
        let p = pow256((n - 1) as nat);
        let ta = a.drop_first();
        let tb = b.drop_first();
        let va = be_value(ta);
        let vb = be_value(tb);
        let da = a[0] as nat;
        let db = b[0] as nat;
        lemma_be_value_bound(ta);
        lemma_be_value_bound(tb);
        lemma_be_le_is_numeric(ta, tb);
        if a[0] < b[0] {
            assert(a.subrange(0, 0) =~= b.subrange(0, 0));
            assert(da * p + va < db * p + vb) by (nonlinear_arith)
                requires
                    da < db,
                    va < p,
            ;
        } else if a[0] > b[0] {
            assert(a != b) by {
                assert(a[0] != b[0]);
            }
            assert forall|i: int|
                0 <= i < n && a.subrange(0, i) == b.subrange(0, i) implies !(a[i] < b[i]) by {
                if i > 0 {
                    assert(a[0] == a.subrange(0, i)[0]);
                    assert(b[0] == b.subrange(0, i)[0]);
                }
            }
            assert(db * p + vb < da * p + va) by (nonlinear_arith)
                requires
                    db < da,
                    vb < p,
            ;
        } else {
            assert(a == b <==> ta == tb) by {
                if ta == tb {
                    assert(a =~= seq![a[0]] + ta);
                    assert(b =~= seq![b[0]] + tb);
                }
            }
            if exists|i: int| 0 <= i < n && a.subrange(0, i) == b.subrange(0, i) && a[i] < b[i] {
                let i = choose|i: int|
                    0 <= i < n && a.subrange(0, i) == b.subrange(0, i) && a[i] < b[i];
                assert(i > 0);
                assert(ta.subrange(0, i - 1) =~= a.subrange(0, i).drop_first());
                assert(tb.subrange(0, i - 1) =~= b.subrange(0, i).drop_first());
                assert(ta[i - 1] < tb[i - 1]);
            }
            if exists|j: int|
                0 <= j < n - 1 && ta.subrange(0, j) == tb.subrange(0, j) && ta[j] < tb[j] {
                let j = choose|j: int|
                    0 <= j < n - 1 && ta.subrange(0, j) == tb.subrange(0, j) && ta[j] < tb[j];
                assert(a.subrange(0, j + 1) =~= seq![a[0]] + ta.subrange(0, j));
                assert(b.subrange(0, j + 1) =~= seq![b[0]] + tb.subrange(0, j));
                assert(a[j + 1] < b[j + 1]);
            }
        }
    }
}

/// Compares two byte strings as unsigned big-endian integers.
pub fn bytes_le(a: &[u8], b: &[u8]) -> (r: bool)
    ensures
        r == be_le(a@, b@),
        r == (a@.len() == b@.len() && be_value(a@) <= be_value(b@)),
{
    if a.len() == b.len() {
        proof {
            lemma_be_le_is_numeric(a@, b@);
        }
    }
    if a.len() != b.len() {
        return false;
    }
    let mut i: usize = 0;
    while i < a.len()
        invariant
            a@.len() == b@.len(),
            be_le(a@, b@) <==> be_value(a@) <= be_value(b@),
            i <= a@.len(),
            a@.subrange(0, i as int) == b@.subrange(0, i as int),
        decreases a@.len() - i,
    {
        if a[i] != b[i] {
            if a[i] > b[i] {
                proof {
                    assert(a@ != b@);
                    assert forall|j: int|
                        0 <= j < a@.len() && a@.subrange(0, j) == b@.subrange(0, j) implies
                        !(a@[j] < b@[j]) by {
                        if j < i {
                            assert(a@[j] == a@.subrange(0, i as int)[j]);
                            assert(b@[j] == b@.subrange(0, i as int)[j]);
                        } else if j > i {
                            assert(a@[i as int] == a@.subrange(0, j)[i as int]);
                            assert(b@[i as int] == b@.subrange(0, j)[i as int]);
                        }
                    }
                }
                return false;
            } else {
                return true;
            }
        }
        proof {
            assert(a@.subrange(0, i + 1) == a@.subrange(0, i as int).push(a@[i as int]));
            assert(b@.subrange(0, i + 1) == b@.subrange(0, i as int).push(b@[i as int]));
        }
        i = i + 1;
    }
    proof {
        assert(a@ == a@.subrange(0, a@.len() as int));
        assert(b@ == b@.subrange(0, b@.len() as int));
    }
    true
}

/// The bytes that are hashed for nonce `n`: the prefix followed by `n` in
/// decimal, in UTF-8.
pub open spec fn nonce_input(prefix: Seq<char>, n: nat) -> Seq<u8> {
    encode_utf8(prefix + decimal(n))
}

/// Nonce `n` solves the challenge `(prefix, target)`: the digest, of the
/// target's width, is at most the target as unsigned big-endian integers.
pub open spec fn solves(prefix: Seq<char>, target: Seq<u8>, n: nat) -> bool {
    let digest = sha256_of(nonce_input(prefix, n));
    digest.len() == target.len() && be_value(digest) <= be_value(target)
}

/// `n` solves the challenge and no smaller nonce does.
pub open spec fn smallest_solution(prefix: Seq<char>, target: Seq<u8>, n: nat) -> bool {
    solves(prefix, target, n) && forall|m: nat| m < n ==> !solves(prefix, target, m)
}

/// A challenge has at most one smallest solution, so the search's answer
/// depends on the challenge alone.
pub proof fn lemma_smallest_solution_unique(prefix: Seq<char>, target: Seq<u8>, n1: nat, n2: nat)
    requires
        smallest_solution(prefix, target, n1),
        smallest_solution(prefix, target, n2),
    ensures
        n1 == n2,
{
    if n1 < n2 {
        assert(!solves(prefix, target, n1));
    } else if n2 < n1 {
        assert(!solves(prefix, target, n2));
    }
}

/// Tests one nonce against a challenge.
pub fn nonce_solves(prefix: &str, target: &[u8], n: u64) -> (r: bool)
    ensures
        r == solves(prefix@, target@, n as nat),
{
    let mut input = String::from_str(prefix);
    let digits = decimal_string(n);
    input.append(digits.as_str());
    let digest = sha256(input.as_str().as_bytes());
    bytes_le(digest.as_slice(), target)
}

/// Why a search found no nonce.
#[derive(Debug, Clone, Copy, PartialEq, Eq, Structural)]
pub enum SolverError {
    /// No nonce up to the search bound solves the challenge.
    Exhausted,
}

/// Searches the nonces `0, 1, ..., max_nonce` in order and returns the
/// first that solves the challenge.
pub fn solve_challenge_within(prefix: &str, target: &[u8], max_nonce: u64) -> (r: Result<
    u64,
    SolverError,
>)
    ensures
        match r {
            Ok(n) => n <= max_nonce && solves(prefix@, target@, n as nat) && forall|m: nat|
                m < n ==> !solves(prefix@, target@, m),
            Err(_) => forall|m: nat| m <= max_nonce ==> !solves(prefix@, target@, m),
        },
{
    let mut n: u64 = 0;
    loop
        invariant
            n <= max_nonce,
            forall|m: nat| m < n ==> !solves(prefix@, target@, m),
        decreases max_nonce - n,
    {
        if nonce_solves(prefix, target, n) {
            return Ok(n);
        }
        if n == max_nonce {
            return Err(SolverError::Exhausted);
        }
        n = n + 1;
    }
}

/// Returns the smallest nonce that solves the challenge, searching the whole
/// range of `u64`.
pub fn solve_challenge(prefix: &str, target: &[u8]) -> (r: Result<u64, SolverError>)
    ensures
        match r {
            Ok(n) => solves(prefix@, target@, n as nat) && forall|m: nat|
                m < n ==> !solves(prefix@, target@, m),
            Err(_) => forall|m: nat| m <= u64::MAX ==> !solves(prefix@, target@, m),
        },
{
    solve_challenge_within(prefix, target, u64::MAX)
}

/// The publish token for a solved challenge: the prefix, a colon, and the
/// nonce in decimal.
pub open spec fn token_of(prefix: Seq<char>, n: nat) -> Seq<char> {
    prefix + seq![':'] + decimal(n)
}

/// Forms the publish token `prefix:nonce`.
pub fn publish_token(prefix: &str, nonce: u64) -> (r: String)
    ensures
        r@ == token_of(prefix@, nonce as nat),
{
    let mut token = String::from_str(prefix);
    proof {
        reveal_strlit(":");
    }
    token.append(":");
    let digits = decimal_string(nonce);
    token.append(digits.as_str());
    token
}


/// The value of an ASCII hexadecimal digit, or -1 for any other byte.
pub open spec fn hex_digit_value(c: u8) -> int {
    if 48 <= c <= 57 {
        c - 48
    } else if 97 <= c <= 102 {
        c - 87
    } else if 65 <= c <= 70 {
        c - 55
    } else {
        -1
    }
}

/// `text` is an even number of hexadecimal digits.
pub open spec fn is_hex_text(text: Seq<u8>) -> bool {
    text.len() % 2 == 0 && forall|i: int| 0 <= i < text.len() ==> hex_digit_value(text[i]) >= 0
}

/// `bytes` is what the hexadecimal text `text` denotes: two digits per byte,
/// the high digit first.
pub open spec fn hex_denotes(text: Seq<u8>, bytes: Seq<u8>) -> bool {
    text.len() == 2 * bytes.len() && forall|i: int|
        0 <= i < bytes.len() ==> bytes[i] as int == hex_digit_value(text[2 * i]) * 16
            + hex_digit_value(text[2 * i + 1])
}

/// Width in bytes of a challenge target, that of a SHA-256 digest.
pub const TARGET_LEN: usize = 32;

fn hex_digit(c: u8) -> (r: Option<u8>)
    ensures
        match r {
            Some(v) => hex_digit_value(c) >= 0 && v as int == hex_digit_value(c),
            None => hex_digit_value(c) < 0,
        },
{
    if 48 <= c && c <= 57 {
        Some(c - 48)
    } else if 97 <= c && c <= 102 {
        Some(c - 87)
    } else if 65 <= c && c <= 70 {
        Some(c - 55)
    } else {
        None
    }
}

/// Decodes a challenge target given as hexadecimal text: exactly
/// `2 * TARGET_LEN` digits, in either case.
pub fn decode_target(hex: &str) -> (r: Option<Vec<u8>>)
    ensures
        r is Some <==> (is_hex_text(hex.spec_bytes()) && hex.spec_bytes().len() == 2
            * TARGET_LEN),
        r matches Some(v) ==> hex_denotes(hex.spec_bytes(), v@) && v@.len() == TARGET_LEN,
{
    let text = hex.as_bytes();
    if text.len() != 2 * TARGET_LEN {
        return None;
    }
    let mut out: Vec<u8> = Vec::new();
    let mut i: usize = 0;
    while i < TARGET_LEN
        invariant
            text@ == hex.spec_bytes(),
            text@.len() == 2 * TARGET_LEN,
            i <= TARGET_LEN,
            out@.len() == i,
            forall|k: int| 0 <= k < 2 * i ==> hex_digit_value(text@[k]) >= 0,
            forall|k: int|
                0 <= k < i ==> out@[k] as int == hex_digit_value(text@[2 * k]) * 16
                    + hex_digit_value(text@[2 * k + 1]),
        decreases TARGET_LEN - i,
    {
        let hi = hex_digit(text[2 * i]);
        let lo = hex_digit(text[2 * i + 1]);
        match (hi, lo) {
            (Some(h), Some(l)) => {
                out.push(h * 16 + l);
            },
            _ => {
                return None;
            },
        }
        i = i + 1;
    }
    Some(out)
}

} // verus!
