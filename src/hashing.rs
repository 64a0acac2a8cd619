use vstd::prelude::*;

verus! {

/// The number of bytes in a SHA-256 digest.
pub const DIGEST_LEN: usize = 32;

/// Inputs are limited to what SHA-256 can count in its 64-bit bit length.
pub const MAX_INPUT_LEN: u64 = 0x2000_0000_0000_0000;

/// The SHA-256 digest of `b`.
pub uninterp spec fn sha256_of(b: Seq<u8>) -> Seq<u8>;

/// Relies on `ring::digest::digest` with `SHA256`: the result depends on the
/// input bytes alone and has SHA-256's 32-byte output length. It panics only
/// when the input's bit length overflows a `u64`.
#[verifier::external_body]
fn ring_sha256(bytes: &[u8]) -> (r: Vec<u8>)
    requires
        bytes@.len() < MAX_INPUT_LEN,
    ensures
        r@ == sha256_of(bytes@),
        r@.len() == DIGEST_LEN,
{
    ring::digest::digest(&ring::digest::SHA256, bytes).as_ref().to_vec()
}

/// The lower-case hexadecimal digit for `n`, where `n < 16`.
pub open spec fn hex_digit(n: u8) -> char {
    seq!['0', '1', '2', '3', '4', '5', '6', '7', '8', '9', 'a', 'b', 'c', 'd', 'e', 'f'][n as int]
}

/// Two lower-case hexadecimal digits per byte, most significant first.
pub open spec fn hex_of(b: Seq<u8>) -> Seq<char>
    decreases b.len(),
{
    if b.len() == 0 {
        Seq::empty()
    } else {
        hex_of(b.drop_last()) + seq![hex_digit(b.last() / 16), hex_digit(b.last() % 16)]
    }
}

/// The algorithm name that prefixes a digest's text form.
pub open spec fn algorithm_prefix() -> Seq<char> {
    seq!['S', 'H', 'A', '2', '5', '6', ':']
}

/// A SHA-256 digest.
pub struct Digest {
    bytes: Vec<u8>,
}

impl View for Digest {
    type V = Seq<u8>;

    closed spec fn view(&self) -> Seq<u8> {
        self.bytes@
    }
}

impl Digest {
    /// Every digest holds exactly 32 bytes.
    pub closed spec fn wf(&self) -> bool {
        self.bytes@.len() == DIGEST_LEN
    }

    /// The raw digest bytes.
    pub fn as_bytes(&self) -> (r: &[u8])
        ensures
            r@ == self@,
    {
        self.bytes.as_slice()
    }

    /// The digest as `SHA256:` followed by its bytes in lower-case hexadecimal.
    pub fn to_text(&self) -> (r: String)
        ensures
            r@ == algorithm_prefix() + hex_of(self@),
    {
        let mut text = String::from_str("SHA256:");
        proof {
            reveal_strlit("SHA256:");
            assert(text@ =~= algorithm_prefix());
        }
        append_hex(&mut text, self.bytes.as_slice());
        text
    }
}

/// Appends to `text` the digit for `n`.
fn push_hex_digit(text: &mut String, n: u8)
    requires
        n < 16,
    ensures
        final(text)@ == old(text)@.push(hex_digit(n)),
{
    let digits = "0123456789abcdef";
    proof {
        reveal_strlit("0123456789abcdef");
    }
    let one = digits.substring_ascii(n as usize, n as usize + 1);
    text.append(one);
    proof {
        assert(one@ =~= seq![hex_digit(n)]);
    }
}

/// Appends to `text` the hexadecimal form of `bytes`.
fn append_hex(text: &mut String, bytes: &[u8])
    ensures
        final(text)@ == old(text)@ + hex_of(bytes@),
{
    let ghost start = text@;
    let mut i: usize = 0;
    while i < bytes.len()
        invariant
            i <= bytes@.len(),
            text@ == start + hex_of(bytes@.subrange(0, i as int)),
        decreases bytes@.len() - i,
    {
        let b = bytes[i];
        push_hex_digit(text, b / 16);
        push_hex_digit(text, b % 16);
        proof {
            let next = bytes@.subrange(0, i + 1);
            assert(next.drop_last() =~= bytes@.subrange(0, i as int));
            assert(next.last() == b);
        }
        i = i + 1;
    }
    proof {
        assert(bytes@.subrange(0, i as int) =~= bytes@);
    }
}

/// The SHA-256 digest of `bytes`.
pub fn sha256_hash(bytes: &[u8]) -> (r: Digest)
    requires
        bytes@.len() < MAX_INPUT_LEN,
    ensures
        r@ == sha256_of(bytes@),
        r.wf(),
{
    Digest { bytes: ring_sha256(bytes) }
}

/// Hashing is deterministic: two digests of the same bytes are equal.
pub proof fn lemma_hash_deterministic(b: Seq<u8>, first: Digest, second: Digest)
    requires
        first@ == sha256_of(b),
        second@ == sha256_of(b),
    ensures
        first@ == second@,
        algorithm_prefix() + hex_of(first@) == algorithm_prefix() + hex_of(second@),
{
}

} // verus!
