//! Interface identifiers: 16-byte tags in the mixed byte order of the
//! plugin format, and their textual form.

use vstd::prelude::*;

verus! {

/// A 16-byte interface or class identifier, compared by value.
pub type FUID = [u8; 16];

/// Byte `index` of a 32-bit word, counted from the least significant one.
pub open spec fn byte_of(word: u32, index: nat) -> u8 {
    if index == 0 {
        (word as nat % 256) as u8
    } else if index == 1 {
        (word as nat / 0x100 % 256) as u8
    } else if index == 2 {
        (word as nat / 0x1_0000 % 256) as u8
    } else {
        (word as nat / 0x100_0000 % 256) as u8
    }
}

/// The 32-bit word whose bytes, least significant first, are `b0` to `b3`.
pub open spec fn word_of(b0: u8, b1: u8, b2: u8, b3: u8) -> u32 {
    (b0 as nat + b1 as nat * 0x100 + b2 as nat * 0x1_0000 + b3 as nat * 0x100_0000) as u32
}

/// The identifier that four 32-bit words encode to: the first word with its
/// bytes in ascending order, the second as two 16-bit halves, upper half
/// first, each half in ascending order, the last two words in descending order.
pub open spec fn spec_inline_uid(l1: u32, l2: u32, l3: u32, l4: u32) -> Seq<u8> {
    seq![
        byte_of(l1, 0),
        byte_of(l1, 1),
        byte_of(l1, 2),
        byte_of(l1, 3),
        byte_of(l2, 2),
        byte_of(l2, 3),
        byte_of(l2, 0),
        byte_of(l2, 1),
        byte_of(l3, 3),
        byte_of(l3, 2),
        byte_of(l3, 1),
        byte_of(l3, 0),
        byte_of(l4, 3),
        byte_of(l4, 2),
        byte_of(l4, 1),
        byte_of(l4, 0),
    ]
}

/// The four words that an identifier decodes to.
pub open spec fn spec_uid_words(uid: Seq<u8>) -> (u32, u32, u32, u32)
    recommends
        uid.len() == 16,
{
    (
        word_of(uid[0], uid[1], uid[2], uid[3]),
        word_of(uid[6], uid[7], uid[4], uid[5]),
        word_of(uid[11], uid[10], uid[9], uid[8]),
        word_of(uid[15], uid[14], uid[13], uid[12]),
    )
}

proof fn lemma_bytes_by_shift(word: u32)
    ensures
        (word & 0x0000_00FF) as u8 == byte_of(word, 0),
        ((word & 0x0000_FF00) >> 8) as u8 == byte_of(word, 1),
        ((word & 0x00FF_0000) >> 16) as u8 == byte_of(word, 2),
        ((word & 0xFF00_0000) >> 24) as u8 == byte_of(word, 3),
        (word & 0x0000_00FF) < 256,
        ((word & 0x0000_FF00) >> 8) < 256,
        ((word & 0x00FF_0000) >> 16) < 256,
        ((word & 0xFF00_0000) >> 24) < 256,
{
    assert((word & 0x0000_00FF) == word % 256) by (bit_vector);
    assert(((word & 0x0000_FF00) >> 8) == word / 0x100 % 256) by (bit_vector);
    assert(((word & 0x00FF_0000) >> 16) == word / 0x1_0000 % 256) by (bit_vector);
    assert(((word & 0xFF00_0000) >> 24) == word / 0x100_0000 % 256) by (bit_vector);
}

proof fn lemma_word_by_shift(b0: u8, b1: u8, b2: u8, b3: u8)
    ensures
        (b0 as u32) | ((b1 as u32) << 8) | ((b2 as u32) << 16) | ((b3 as u32) << 24) == word_of(
            b0,
            b1,
            b2,
            b3,
        ),
{
    let w0 = b0 as u32;
    let w1 = b1 as u32;
    let w2 = b2 as u32;
    let w3 = b3 as u32;
    assert(w0 < 256 && w1 < 256 && w2 < 256 && w3 < 256 ==> (w0 | (w1 << 8) | (w2 << 16) | (w3
        << 24)) == w0 + w1 * 0x100 + w2 * 0x1_0000 + w3 * 0x100_0000) by (bit_vector);
}

/// The bytes of a word make up that word again.
pub proof fn lemma_word_of_bytes(word: u32)
    ensures
        word_of(byte_of(word, 0), byte_of(word, 1), byte_of(word, 2), byte_of(word, 3)) == word,
{
    let n = word as nat;
    assert(n == n % 256 + (n / 0x100 % 256) * 0x100 + (n / 0x1_0000 % 256) * 0x1_0000 + (n
        / 0x100_0000 % 256) * 0x100_0000) by {
        assert(n / 0x100_0000 < 256);
    }
}

/// A word made of four bytes has those bytes.
pub proof fn lemma_bytes_of_word(b0: u8, b1: u8, b2: u8, b3: u8)
    ensures
        byte_of(word_of(b0, b1, b2, b3), 0) == b0,
        byte_of(word_of(b0, b1, b2, b3), 1) == b1,
        byte_of(word_of(b0, b1, b2, b3), 2) == b2,
        byte_of(word_of(b0, b1, b2, b3), 3) == b3,
{
}

/// Encoding four words and decoding the identifier gives the words back.
pub proof fn lemma_uid_round_trip(l1: u32, l2: u32, l3: u32, l4: u32)
    ensures
        spec_uid_words(spec_inline_uid(l1, l2, l3, l4)) == (l1, l2, l3, l4),
{
    lemma_word_of_bytes(l1);
    lemma_word_of_bytes(l2);
    lemma_word_of_bytes(l3);
    lemma_word_of_bytes(l4);
}

/// Decoding an identifier and encoding the words gives the identifier back.
pub proof fn lemma_uid_bytes_round_trip(uid: Seq<u8>)
    requires
        uid.len() == 16,
    ensures
        ({
            let (l1, l2, l3, l4) = spec_uid_words(uid);
            spec_inline_uid(l1, l2, l3, l4) == uid
        }),
{
    lemma_bytes_of_word(uid[0], uid[1], uid[2], uid[3]);
    lemma_bytes_of_word(uid[6], uid[7], uid[4], uid[5]);
    lemma_bytes_of_word(uid[11], uid[10], uid[9], uid[8]);
    lemma_bytes_of_word(uid[15], uid[14], uid[13], uid[12]);
    let (l1, l2, l3, l4) = spec_uid_words(uid);
    assert(spec_inline_uid(l1, l2, l3, l4) =~= uid);
}

/// Two encodings are equal only if the words are.
pub proof fn lemma_inline_uid_injective(a: (u32, u32, u32, u32), b: (u32, u32, u32, u32))
    requires
        spec_inline_uid(a.0, a.1, a.2, a.3) == spec_inline_uid(b.0, b.1, b.2, b.3),
    ensures
        a == b,
{
    lemma_uid_round_trip(a.0, a.1, a.2, a.3);
    lemma_uid_round_trip(b.0, b.1, b.2, b.3);
}

/// Encodes four 32-bit words as an identifier.
pub fn inline_uid(l1: u32, l2: u32, l3: u32, l4: u32) -> (uid: FUID)
    ensures
        uid@ == spec_inline_uid(l1, l2, l3, l4),
{
    proof {
        lemma_bytes_by_shift(l1);
        lemma_bytes_by_shift(l2);
        lemma_bytes_by_shift(l3);
        lemma_bytes_by_shift(l4);
    }
    let uid: FUID = [
        (l1 & 0x0000_00FF) as u8,
        ((l1 & 0x0000_FF00) >> 8) as u8,
        ((l1 & 0x00FF_0000) >> 16) as u8,
        ((l1 & 0xFF00_0000) >> 24) as u8,
        ((l2 & 0x00FF_0000) >> 16) as u8,
        ((l2 & 0xFF00_0000) >> 24) as u8,
        (l2 & 0x0000_00FF) as u8,
        ((l2 & 0x0000_FF00) >> 8) as u8,
        ((l3 & 0xFF00_0000) >> 24) as u8,
        ((l3 & 0x00FF_0000) >> 16) as u8,
        ((l3 & 0x0000_FF00) >> 8) as u8,
        (l3 & 0x0000_00FF) as u8,
        ((l4 & 0xFF00_0000) >> 24) as u8,
        ((l4 & 0x00FF_0000) >> 16) as u8,
        ((l4 & 0x0000_FF00) >> 8) as u8,
        (l4 & 0x0000_00FF) as u8,
    ];
    assert(uid@ =~= spec_inline_uid(l1, l2, l3, l4));
    uid
}

/// Decodes an identifier into its four 32-bit words.
pub fn uid_words(uid: &FUID) -> (words: (u32, u32, u32, u32))
    ensures
        words == spec_uid_words(uid@),
{
    proof {
        lemma_word_by_shift(uid[0], uid[1], uid[2], uid[3]);
        lemma_word_by_shift(uid[6], uid[7], uid[4], uid[5]);
        lemma_word_by_shift(uid[11], uid[10], uid[9], uid[8]);
        lemma_word_by_shift(uid[15], uid[14], uid[13], uid[12]);
    }
    (
        (uid[0] as u32) | ((uid[1] as u32) << 8) | ((uid[2] as u32) << 16) | ((uid[3] as u32)
            << 24),
        (uid[6] as u32) | ((uid[7] as u32) << 8) | ((uid[4] as u32) << 16) | ((uid[5] as u32)
            << 24),
        (uid[11] as u32) | ((uid[10] as u32) << 8) | ((uid[9] as u32) << 16) | ((uid[8] as u32)
            << 24),
        (uid[15] as u32) | ((uid[14] as u32) << 8) | ((uid[13] as u32) << 16) | ((uid[12] as u32)
            << 24),
    )
}

/// Whether two identifiers hold the same bytes.
pub fn uid_eq(a: &FUID, b: &FUID) -> (same: bool)
    ensures
        same == (a@ == b@),
{
    let mut i: usize = 0;
    while i < 16
        invariant
            i <= 16,
            forall|j: int| 0 <= j < i ==> a@[j] == b@[j],
        decreases 16 - i,
    {
        if a[i] != b[i] {
            return false;
        }
        i += 1;
    }
    assert(a@ =~= b@);
    true
}

/// The upper-case hexadecimal digit of a value below sixteen.
pub open spec fn spec_hex_digit(nibble: u8) -> char
    recommends
        nibble < 16,
{
    if nibble < 10 {
        (0x30 + nibble) as char
    } else {
        (0x41 + nibble - 10) as char
    }
}

/// The two upper-case hexadecimal digits of each byte, in order.
pub open spec fn spec_hex(bytes: Seq<u8>) -> Seq<char>
    decreases bytes.len(),
{
    if bytes.len() == 0 {
        Seq::empty()
    } else {
        spec_hex(bytes.drop_last()).push(spec_hex_digit(bytes.last() / 16)).push(
            spec_hex_digit(bytes.last() % 16),
        )
    }
}

/// The textual form of an identifier: its 32 hexadecimal digits in byte
/// order, in groups of 8, 4, 4, 4 and 12 joined by hyphens.
pub open spec fn spec_uid_to_ascii(uid: Seq<u8>) -> Seq<char>
    recommends
        uid.len() == 16,
{
    spec_hex(uid.subrange(0, 4)).push('-') + spec_hex(uid.subrange(4, 6)).push('-') + spec_hex(
        uid.subrange(6, 8),
    ).push('-') + spec_hex(uid.subrange(8, 10)).push('-') + spec_hex(uid.subrange(10, 16))
}

/// `String::push` of the standard library: appends one character.
#[verifier::external_body]
fn string_push(text: &mut String, c: char)
    ensures
        final(text)@ == old(text)@.push(c),
{
    text.push(c)
}

fn hex_digit(nibble: u8) -> (digit: char)
    requires
        nibble < 16,
    ensures
        digit == spec_hex_digit(nibble),
{
    if nibble < 10 {
        (0x30 + nibble) as char
    } else {
        (0x41 + nibble - 10) as char
    }
}

fn push_hex(text: &mut String, uid: &FUID, from: usize, to: usize)
    requires
        from <= to <= 16,
    ensures
        final(text)@ == old(text)@ + spec_hex(uid@.subrange(from as int, to as int)),
{
    let mut i: usize = from;
    assert(uid@.subrange(from as int, from as int) =~= Seq::<u8>::empty());
    while i < to
        invariant
            from <= i <= to <= 16,
            text@ == old(text)@ + spec_hex(uid@.subrange(from as int, i as int)),
        decreases to - i,
    {
        let byte = uid[i];
        string_push(text, hex_digit(byte / 16));
        string_push(text, hex_digit(byte % 16));
        proof {
            let next = uid@.subrange(from as int, i + 1);
            assert(next.drop_last() =~= uid@.subrange(from as int, i as int));
            assert(next.last() == byte);
            assert(text@ =~= old(text)@ + spec_hex(next));
        }
        i += 1;
    }
}

/// Writes an identifier as text, for logs.
pub fn uid_to_ascii(uid: FUID) -> (text: String)
    ensures
        text@ == spec_uid_to_ascii(uid@),
{
    let mut text = String::new();
    push_hex(&mut text, &uid, 0, 4);
    string_push(&mut text, '-');
    push_hex(&mut text, &uid, 4, 6);
    string_push(&mut text, '-');
    push_hex(&mut text, &uid, 6, 8);
    string_push(&mut text, '-');
    push_hex(&mut text, &uid, 8, 10);
    string_push(&mut text, '-');
    push_hex(&mut text, &uid, 10, 16);
    assert(text@ =~= spec_uid_to_ascii(uid@));
    text
}

/// The textual form always has 36 characters.
pub proof fn lemma_uid_to_ascii_len(uid: Seq<u8>)
    requires
        uid.len() == 16,
    ensures
        spec_uid_to_ascii(uid).len() == 36,
{
    lemma_hex_len(uid.subrange(0, 4));
    lemma_hex_len(uid.subrange(4, 6));
    lemma_hex_len(uid.subrange(6, 8));
    lemma_hex_len(uid.subrange(8, 10));
    lemma_hex_len(uid.subrange(10, 16));
}

/// Each byte is written as two digits.
pub proof fn lemma_hex_len(bytes: Seq<u8>)
    ensures
        spec_hex(bytes).len() == 2 * bytes.len(),
    decreases bytes.len(),
{
    if bytes.len() > 0 {
        lemma_hex_len(bytes.drop_last());
    }
}

} // verus!
