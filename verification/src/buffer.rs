//! NUL-terminated byte strings for the engine: the error buffer of a callback
//! and the value that a header lookup hands out.

use vstd::prelude::*;
use vstd::utf8::{char_u32_cast, encode_scalar, encode_utf8, is_ascii_chars_encode_utf8};

verus! {

/// Whether `bytes` is a C string: it ends in a NUL and holds no other NUL.
pub open spec fn is_c_string(bytes: Seq<u8>) -> bool {
    &&& bytes.len() >= 1
    &&& bytes.last() == 0
    &&& forall|i: int| 0 <= i < bytes.len() - 1 ==> #[trigger] bytes[i] != 0
}

/// Whether `bytes` holds no NUL.
pub open spec fn nul_free(bytes: Seq<u8>) -> bool {
    forall|i: int| 0 <= i < bytes.len() ==> #[trigger] bytes[i] != 0
}

/// How many bytes of a message of `len` bytes fit into an error buffer of
/// `max_size` bytes, which also has to hold the terminator.
pub open spec fn fitting_len(len: nat, max_size: nat) -> nat {
    if max_size == 0 {
        0
    } else if len < max_size {
        len
    } else {
        (max_size - 1) as nat
    }
}

/// What is written into an error buffer of `max_size` bytes for `message`: the
/// message, cut to `max_size - 1` bytes where it is longer, and a NUL. Nothing
/// can be written into a buffer of no bytes.
pub open spec fn error_string(message: Seq<u8>, max_size: nat) -> Seq<u8> {
    if max_size == 0 {
        Seq::empty()
    } else {
        message.take(fitting_len(message.len(), max_size) as int).push(0)
    }
}

/// `bytes` with a NUL after them.
pub open spec fn c_string(bytes: Seq<u8>) -> Seq<u8> {
    bytes.push(0)
}

/// The bytes to write into an error buffer of `max_size` bytes for `message`.
pub fn write_error_string(message: &[u8], max_size: usize) -> (written: Vec<u8>)
    ensures
        written@ == error_string(message@, max_size as nat),
        written.len() <= max_size,
{
    let mut written: Vec<u8> = Vec::new();
    if max_size == 0 {
        return written;
    }
    let keep: usize = if message.len() < max_size {
        message.len()
    } else {
        max_size - 1
    };
    let mut i: usize = 0;
    while i < keep
        invariant
            i <= keep <= message.len(),
            written@ == message@.take(i as int),
        decreases keep - i,
    {
        written.push(message[i]);
        i += 1;
        assert(written@ =~= message@.take(i as int));
    }
    written.push(0);
    written
}

/// The bytes that clear an error buffer of `max_size` bytes: a single NUL.
pub fn clear_error_string(max_size: usize) -> (written: Vec<u8>)
    ensures
        written@ == error_string(Seq::empty(), max_size as nat),
        max_size >= 1 ==> written@ == seq![0u8],
{
    let mut written: Vec<u8> = Vec::new();
    if max_size > 0 {
        written.push(0);
    }
    assert(written@ =~= error_string(Seq::empty(), max_size as nat));
    written
}

/// Whatever is written into an error buffer that holds at least one byte
/// stays within the buffer and ends in a NUL; where the message holds no NUL,
/// the terminator is the only one.
pub proof fn lemma_error_string_terminated(message: Seq<u8>, max_size: nat)
    requires
        max_size >= 1,
    ensures
        1 <= error_string(message, max_size).len() <= max_size,
        error_string(message, max_size).last() == 0,
        nul_free(message) ==> is_c_string(error_string(message, max_size)),
{
}

/// A message that fits is written whole.
pub proof fn lemma_error_string_whole(message: Seq<u8>, max_size: nat)
    requires
        message.len() < max_size,
    ensures
        error_string(message, max_size) == c_string(message),
{
    assert(message.take(message.len() as int) =~= message);
}

/// The digit zero in ASCII.
pub const ZERO_DIGIT: u8 = 48;

/// The word that stands in for a digit zero in the error string of a range
/// read: `nought` in ASCII.
pub open spec fn nought() -> Seq<u8> {
    seq![110u8, 111u8, 117u8, 103u8, 104u8, 116u8]
}

/// What stands for the byte `b` in the error string of a range read.
pub open spec fn zero_to_nought(b: u8) -> Seq<u8> {
    if b == ZERO_DIGIT {
        nought()
    } else {
        seq![b]
    }
}

/// `bytes` with `nought` in place of each digit zero.
pub open spec fn replace_zeros(bytes: Seq<u8>) -> Seq<u8>
    decreases bytes.len(),
{
    if bytes.len() == 0 {
        Seq::empty()
    } else {
        replace_zeros(bytes.drop_last()) + zero_to_nought(bytes.last())
    }
}

/// Replaces each digit zero of `message` with the word `nought`.
pub fn replace_zero_digits(message: &[u8]) -> (replaced: Vec<u8>)
    ensures
        replaced@ == replace_zeros(message@),
{
    let mut replaced: Vec<u8> = Vec::new();
    let mut i: usize = 0;
    while i < message.len()
        invariant
            i <= message.len(),
            replaced@ == replace_zeros(message@.take(i as int)),
        decreases message.len() - i,
    {
        let b = message[i];
        let ghost before = replaced@;
        if b == ZERO_DIGIT {
            replaced.push(110u8);
            replaced.push(111u8);
            replaced.push(117u8);
            replaced.push(103u8);
            replaced.push(104u8);
            replaced.push(116u8);
        } else {
            replaced.push(b);
        }
        i += 1;
        proof {
            let prefix = message@.take(i as int);
            assert(prefix.drop_last() =~= message@.take(i - 1));
            assert(prefix.last() == b);
            assert(replaced@ =~= before + zero_to_nought(b));
        }
    }
    assert(message@.take(message.len() as int) =~= message@);
    replaced
}

/// Replacing the zeros of two byte strings one after the other replaces the
/// zeros of the two joined.
pub proof fn lemma_replace_zeros_concat(front: Seq<u8>, back: Seq<u8>)
    ensures
        replace_zeros(front + back) == replace_zeros(front) + replace_zeros(back),
    decreases back.len(),
{
    if back.len() == 0 {
        assert(front + back =~= front);
        assert(replace_zeros(front) + replace_zeros(back) =~= replace_zeros(front));
    } else {
        lemma_replace_zeros_concat(front, back.drop_last());
        assert((front + back).drop_last() =~= front + back.drop_last());
        assert((front + back).last() == back.last());
        assert(replace_zeros(front + back) =~= replace_zeros(front) + replace_zeros(back));
    }
}

/// After the replacement no digit zero is left, and no NUL has come in: the
/// result holds a NUL only where the message held one.
pub proof fn lemma_replace_zeros_clean(bytes: Seq<u8>)
    ensures
        forall|j: int| 0 <= j < replace_zeros(bytes).len() ==> #[trigger] replace_zeros(bytes)[j]
            != ZERO_DIGIT,
        nul_free(bytes) ==> nul_free(replace_zeros(bytes)),
        replace_zeros(bytes).len() >= bytes.len(),
    decreases bytes.len(),
{
    if bytes.len() > 0 {
        lemma_replace_zeros_clean(bytes.drop_last());
        let front = replace_zeros(bytes.drop_last());
        let tail = zero_to_nought(bytes.last());
        let whole = replace_zeros(bytes);
        assert forall|j: int| 0 <= j < whole.len() implies #[trigger] whole[j] != ZERO_DIGIT by {
            if j >= front.len() {
                assert(whole[j] == tail[j - front.len()]);
            }
        }
        if nul_free(bytes) {
            let shorter = bytes.drop_last();
            let replaced = replace_zeros(bytes);
            assert(nul_free(shorter)) by {
                assert forall|i: int| 0 <= i < shorter.len() implies #[trigger] shorter[i] != 0 by {
                    assert(shorter[i] == bytes[i]);
                }
            }
            assert forall|j: int| 0 <= j < replaced.len() implies #[trigger] replaced[j] != 0 by {
                if j >= front.len() {
                    assert(replaced[j] == tail[j - front.len()]);
                    assert(bytes.last() == bytes[bytes.len() - 1]);
                }
            }
        }
    }
}

/// Where the message holds a digit zero at `i`, the result holds the word
/// `nought` in its place: right after what stands for the bytes before `i`.
pub proof fn lemma_replace_zeros_writes_nought(bytes: Seq<u8>, i: int)
    requires
        0 <= i < bytes.len(),
        bytes[i] == ZERO_DIGIT,
    ensures
        ({
            let at = replace_zeros(bytes.take(i)).len() as int;
            &&& at + 6 <= replace_zeros(bytes).len()
            &&& replace_zeros(bytes).subrange(at, at + 6) == nought()
        }),
{
    let front = bytes.take(i);
    let rest = bytes.skip(i);
    assert(bytes =~= front + rest);
    lemma_replace_zeros_concat(front, rest);
    let one = seq![bytes[i]];
    assert(rest =~= one + rest.skip(1));
    lemma_replace_zeros_concat(one, rest.skip(1));
    assert(one.drop_last() =~= Seq::<u8>::empty());
    assert(replace_zeros(one) =~= nought()) by {
        assert(replace_zeros(one.drop_last()) =~= Seq::<u8>::empty());
    }
    let at = replace_zeros(front).len() as int;
    assert(replace_zeros(bytes).subrange(at, at + 6) =~= nought());
}

/// A message without a digit zero stays as it is.
pub proof fn lemma_replace_zeros_nothing(bytes: Seq<u8>)
    requires
        forall|i: int| 0 <= i < bytes.len() ==> #[trigger] bytes[i] != ZERO_DIGIT,
    ensures
        replace_zeros(bytes) == bytes,
    decreases bytes.len(),
{
    if bytes.len() > 0 {
        lemma_replace_zeros_nothing(bytes.drop_last());
        assert(bytes.last() == bytes[bytes.len() - 1]);
        assert(replace_zeros(bytes) =~= bytes);
    }
}

/// Whether `text` holds no NUL character.
pub open spec fn no_nul_char(text: Seq<char>) -> bool {
    forall|i: int| 0 <= i < text.len() ==> #[trigger] text[i] != '\0'
}

/// The UTF-8 encoding of a scalar other than NUL holds no NUL byte.
proof fn lemma_encode_scalar_nul_free(scalar: u32)
    requires
        scalar != 0,
    ensures
        nul_free(encode_scalar(scalar)),
{
    assert(0 < scalar <= 0x7F ==> (scalar & 0x7F) as u8 != 0) by (bit_vector);
    assert(0xC0 | ((scalar >> 6) & 0x1F) as u8 != 0) by (bit_vector);
    assert(0xE0 | ((scalar >> 12) & 0x0F) as u8 != 0) by (bit_vector);
    assert(0xF0 | ((scalar >> 18) & 0x7) as u8 != 0) by (bit_vector);
    assert(0x80 | (scalar & 0x3F) as u8 != 0) by (bit_vector);
    assert(0x80 | ((scalar >> 6) & 0x3F) as u8 != 0) by (bit_vector);
    assert(0x80 | ((scalar >> 12) & 0x3F) as u8 != 0) by (bit_vector);
}

/// The UTF-8 encoding of a text without a NUL character holds no NUL byte.
pub proof fn lemma_encode_nul_free(text: Seq<char>)
    requires
        no_nul_char(text),
    ensures
        nul_free(encode_utf8(text)),
    decreases text.len(),
{
    if text.len() > 0 {
        let rest = text.drop_first();
        assert(no_nul_char(rest)) by {
            assert forall|i: int| 0 <= i < rest.len() implies #[trigger] rest[i] != '\0' by {
                assert(rest[i] == text[i + 1]);
            }
        }
        lemma_encode_nul_free(rest);
        let first = text[0];
        assert(first as u32 != 0) by {
            if first as u32 == 0 {
                char_u32_cast(first, 0u32);
                char_u32_cast('\0', 0u32);
            }
        }
        lemma_encode_scalar_nul_free(first as u32);
    }
}

/// The word `nought` as text.
pub open spec fn nought_text() -> Seq<char> {
    seq!['n', 'o', 'u', 'g', 'h', 't']
}

/// `text` with the word `nought` in place of each character `0`.
pub open spec fn replace_zero_chars(text: Seq<char>) -> Seq<char>
    decreases text.len(),
{
    if text.len() == 0 {
        Seq::empty()
    } else if text[0] == '0' {
        nought_text() + replace_zero_chars(text.drop_first())
    } else {
        seq![text[0]] + replace_zero_chars(text.drop_first())
    }
}

/// The UTF-8 encoding of two texts joined is the two encodings joined.
pub proof fn lemma_encode_concat(front: Seq<char>, back: Seq<char>)
    ensures
        encode_utf8(front + back) == encode_utf8(front) + encode_utf8(back),
    decreases front.len(),
{
    if front.len() == 0 {
        assert(front + back =~= back);
        assert(encode_utf8(front) + encode_utf8(back) =~= encode_utf8(back));
    } else {
        lemma_encode_concat(front.drop_first(), back);
        assert((front + back).drop_first() =~= front.drop_first() + back);
        assert((front + back)[0] == front[0]);
        assert(encode_utf8(front + back) =~= encode_utf8(front) + encode_utf8(back));
    }
}

/// The character `0` is encoded as the one byte [`ZERO_DIGIT`], and the
/// encoding of no other character holds that byte.
proof fn lemma_encode_scalar_zero_digit(c: char)
    ensures
        c == '0' ==> encode_scalar(c as u32) == seq![ZERO_DIGIT],
        c != '0' ==> forall|j: int|
            0 <= j < encode_scalar(c as u32).len() ==> #[trigger] encode_scalar(c as u32)[j]
                != ZERO_DIGIT,
{
    let scalar = c as u32;
    assert(scalar == 0x30 ==> (scalar & 0x7F) as u8 == 48u8) by (bit_vector);
    assert(scalar <= 0x7F && scalar != 0x30 ==> (scalar & 0x7F) as u8 != 48u8) by (bit_vector);
    assert(0xC0 | ((scalar >> 6) & 0x1F) as u8 != 48u8) by (bit_vector);
    assert(0xE0 | ((scalar >> 12) & 0x0F) as u8 != 48u8) by (bit_vector);
    assert(0xF0 | ((scalar >> 18) & 0x7) as u8 != 48u8) by (bit_vector);
    assert(0x80 | (scalar & 0x3F) as u8 != 48u8) by (bit_vector);
    assert(0x80 | ((scalar >> 6) & 0x3F) as u8 != 48u8) by (bit_vector);
    assert(0x80 | ((scalar >> 12) & 0x3F) as u8 != 48u8) by (bit_vector);
    if c == '0' {
        assert(scalar == 0x30);
        assert(encode_scalar(scalar) =~= seq![ZERO_DIGIT]);
    } else {
        assert(scalar != 0x30) by {
            if scalar == 0x30 {
                char_u32_cast(c, 0x30u32);
                char_u32_cast('0', 0x30u32);
            }
        }
    }
}

/// Replacing the zero digits in the bytes of a text is replacing the
/// characters `0` in the text: the bytes that result are the UTF-8 encoding of
/// the text with `nought` for each `0`.
pub proof fn lemma_replace_zeros_of_text(text: Seq<char>)
    ensures
        replace_zeros(encode_utf8(text)) == encode_utf8(replace_zero_chars(text)),
    decreases text.len(),
{
    if text.len() > 0 {
        let first = text[0];
        let rest = text.drop_first();
        lemma_replace_zeros_of_text(rest);
        lemma_replace_zeros_concat(encode_scalar(first as u32), encode_utf8(rest));
        lemma_encode_scalar_zero_digit(first);
        if first == '0' {
            let one = seq![ZERO_DIGIT];
            assert(one.drop_last() =~= Seq::<u8>::empty());
            assert(replace_zeros(one) =~= nought()) by {
                assert(replace_zeros(one.drop_last()) =~= Seq::<u8>::empty());
            }
            is_ascii_chars_encode_utf8(nought_text());
            assert(encode_utf8(nought_text()) =~= nought());
            lemma_encode_concat(nought_text(), replace_zero_chars(rest));
        } else {
            lemma_replace_zeros_nothing(encode_scalar(first as u32));
            let one = seq![first];
            assert(one.drop_first() =~= Seq::<char>::empty());
            assert(encode_utf8(one) =~= encode_scalar(first as u32)) by {
                assert(encode_utf8(one.drop_first()) =~= Seq::<u8>::empty());
            }
            lemma_encode_concat(one, replace_zero_chars(rest));
        }
    } else {
        assert(encode_utf8(text) =~= Seq::<u8>::empty());
    }
}

} // verus!
