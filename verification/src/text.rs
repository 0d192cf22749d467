use vstd::prelude::*;
use vstd::utf8::*;

verus! {

broadcast use vstd::utf8::char_is_scalar;

/// Number of bytes in the UTF-8 encoding of `c`.
pub open spec fn char_width(c: char) -> nat {
    encode_utf8(seq![c]).len()
}

/// Number of bytes that the first `k` characters of `chars` take up in UTF-8.
pub open spec fn byte_offset(chars: Seq<char>, k: int) -> nat {
    encode_utf8(chars.take(k)).len()
}

/// Number of bytes of the UTF-8 encoding of the whole sequence.
pub open spec fn byte_len(chars: Seq<char>) -> nat {
    encode_utf8(chars).len()
}

/// Encoding a concatenation encodes each part in turn.
pub proof fn lemma_encode_concat(a: Seq<char>, b: Seq<char>)
    ensures
        encode_utf8(a + b) == encode_utf8(a) + encode_utf8(b),
    decreases a.len(),
{
    if a.len() == 0 {
        assert(a + b =~= b);
        assert(encode_utf8(a) =~= Seq::<u8>::empty());
        assert(encode_utf8(a) + encode_utf8(b) =~= encode_utf8(b));
    } else {
        assert((a + b).drop_first() =~= a.drop_first() + b);
        assert((a + b)[0] == a[0]);
        lemma_encode_concat(a.drop_first(), b);
        assert(encode_utf8(a + b) =~= encode_scalar(a[0] as u32) + encode_utf8(a.drop_first() + b));
        assert(encode_utf8(a) + encode_utf8(b) =~= encode_scalar(a[0] as u32) + (encode_utf8(a.drop_first()) + encode_utf8(b)));
    }
}

/// The encoding of one character is one to four bytes long.
pub proof fn lemma_char_width_bounds(c: char)
    ensures
        1 <= char_width(c) <= 4,
        char_width(c) == encode_scalar(c as u32).len(),
{
    let s = seq![c];
    assert(s.drop_first() =~= Seq::<char>::empty());
    assert(encode_utf8(s.drop_first()) =~= Seq::<u8>::empty());
    assert(encode_utf8(s) =~= encode_scalar(c as u32));
}

/// Every character takes at least one byte.
pub proof fn lemma_byte_len_at_least_char_count(chars: Seq<char>)
    ensures
        chars.len() <= byte_len(chars),
    decreases chars.len(),
{
    if chars.len() > 0 {
        lemma_byte_len_at_least_char_count(chars.drop_first());
        lemma_char_width_bounds(chars[0]);
        assert(encode_scalar(chars[0] as u32).len() >= 1);
    }
}

/// Byte length of the UTF-8 encoding of `c`, as `char::len_utf8` computes it.
pub fn utf8_width(c: char) -> (w: usize)
    ensures
        w == char_width(c),
{
    proof {
        lemma_char_width_bounds(c);
    }
    let v: u32 = c as u32;
    if v <= 0x7F {
        1
    } else if v <= 0x7FF {
        2
    } else if v <= 0xFFFF {
        3
    } else {
        4
    }
}

/// Number of characters in `s`.
pub fn char_count(s: &str) -> (n: usize)
    requires
        byte_len(s@) <= isize::MAX,
    ensures
        n == s@.len(),
{
    proof {
        lemma_byte_len_at_least_char_count(s@);
    }
    let mut n: usize = 0;
    for c in it: s.chars()
        invariant
            n == it.index(),
            it.seq() == s@,
            s@.len() <= isize::MAX,
    {
        n = n + 1;
    }
    n
}


/// Byte length of a concatenation is the sum of the byte lengths.
pub proof fn lemma_byte_len_concat(a: Seq<char>, b: Seq<char>)
    ensures
        byte_len(a + b) == byte_len(a) + byte_len(b),
{
    lemma_encode_concat(a, b);
}

/// Taking one more character adds that character's width to the offset.
pub proof fn lemma_byte_offset_step(chars: Seq<char>, k: int)
    requires
        0 <= k < chars.len(),
    ensures
        byte_offset(chars, k + 1) == byte_offset(chars, k) + char_width(chars[k]),
{
    assert(chars.take(k + 1) =~= chars.take(k) + seq![chars[k]]);
    lemma_byte_len_concat(chars.take(k), seq![chars[k]]);
}

/// A prefix never takes more bytes than the whole sequence.
pub proof fn lemma_byte_offset_bounded(chars: Seq<char>, k: int)
    requires
        0 <= k <= chars.len(),
    ensures
        byte_offset(chars, k) + byte_len(chars.skip(k)) == byte_len(chars),
        byte_offset(chars, k) <= byte_len(chars),
{
    assert(chars =~= chars.take(k) + chars.skip(k));
    lemma_byte_len_concat(chars.take(k), chars.skip(k));
}

/// Offsets grow strictly with the number of characters taken, so each
/// byte offset belongs to at most one character position.
pub proof fn lemma_byte_offset_strictly_increasing(chars: Seq<char>, j: int, k: int)
    requires
        0 <= j < k <= chars.len(),
    ensures
        byte_offset(chars, j) < byte_offset(chars, k),
    decreases k - j,
{
    lemma_byte_offset_step(chars, k - 1);
    lemma_char_width_bounds(chars[k - 1]);
    if j < k - 1 {
        lemma_byte_offset_strictly_increasing(chars, j, k - 1);
    }
}

/// Byte position of the character at `char_index` in `s`, or the byte length
/// of `s` when there are fewer characters than that.
pub fn byte_index(s: &str, char_index: usize) -> (b: usize)
    requires
        byte_len(s@) <= isize::MAX,
    ensures
        char_index < s@.len() ==> b == byte_offset(s@, char_index as int),
        char_index >= s@.len() ==> b == byte_len(s@),
{
    let mut offset: usize = 0;
    let mut i: usize = 0;
    for c in it: s.chars()
        invariant
            i == it.index(),
            it.seq() == s@,
            i <= char_index,
            offset == byte_offset(s@, i as int),
            byte_len(s@) <= isize::MAX,
    {
        if i == char_index {
            return offset;
        }
        proof {
            lemma_byte_offset_step(s@, i as int);
            lemma_byte_offset_bounded(s@, i as int + 1);
        }
        offset = offset + utf8_width(c);
        i = i + 1;
    }
    proof {
        assert(s@.take(s@.len() as int) =~= s@);
    }
    s.len()
}

/// `String::insert`: inserts `ch` at byte position `idx`. std panics unless
/// `idx` lies on a character boundary, and on growing past `isize::MAX` bytes;
/// the character sequence afterwards has `ch` at the position whose byte
/// offset is `idx`.
#[verifier::external_body]
pub(crate) fn string_insert(s: &mut String, idx: usize, ch: char)
    requires
        exists|k: int| 0 <= k <= old(s)@.len() && #[trigger] byte_offset(old(s)@, k) == idx,
        byte_len(old(s)@) + char_width(ch) <= isize::MAX,
    ensures
        forall|k: int|
            0 <= k <= old(s)@.len() && #[trigger] byte_offset(old(s)@, k) == idx
                ==> final(s)@ == old(s)@.insert(k, ch),
{
    s.insert(idx, ch);
}

/// `String::push`: appends `ch`. std panics on growing past `isize::MAX` bytes.
#[verifier::external_body]
pub(crate) fn string_push(s: &mut String, ch: char)
    requires
        byte_len(old(s)@) + char_width(ch) <= isize::MAX,
    ensures
        final(s)@ == old(s)@.push(ch),
{
    s.push(ch);
}

/// The characters of `s` with the one at `index` left out, collected into a
/// new string.
pub fn without_char(s: &str, index: usize) -> (r: String)
    requires
        index < s@.len(),
        byte_len(s@) <= isize::MAX,
    ensures
        r@ == s@.remove(index as int),
{
    proof {
        lemma_byte_len_at_least_char_count(s@);
    }
    let mut out = String::new();
    let mut i: usize = 0;
    for c in it: s.chars()
        invariant
            i == it.index(),
            it.seq() == s@,
            index < s@.len(),
            byte_len(s@) <= isize::MAX,
            s@.len() <= isize::MAX,
            i <= index ==> out@ == s@.take(i as int),
            i > index ==> out@ == s@.take(index as int) + s@.subrange(index + 1, i as int),
    {
        proof {
            lemma_byte_offset_bounded(s@, i as int + 1);
            lemma_byte_offset_step(s@, i as int);
            if i > index {
                assert(s@.take(i as int) =~= s@.take(index as int) + seq![s@[index as int]]
                    + s@.subrange(index + 1, i as int));
                lemma_byte_len_concat(s@.take(index as int), s@.subrange(index + 1, i as int));
                lemma_byte_len_concat(s@.take(index as int) + seq![s@[index as int]],
                    s@.subrange(index + 1, i as int));
                lemma_byte_len_concat(s@.take(index as int), seq![s@[index as int]]);
                lemma_char_width_bounds(s@[index as int]);
            }
        }
        if i != index {
            string_push(&mut out, c);
            proof {
                if i < index {
                    assert(s@.take(i + 1) =~= s@.take(i as int).push(c));
                } else {
                    assert(s@.take(index as int) + s@.subrange(index + 1, i + 1)
                        =~= (s@.take(index as int) + s@.subrange(index + 1, i as int)).push(c));
                }
            }
        } else {
            proof {
                assert(s@.take(index as int) + s@.subrange(index + 1, i + 1) =~= s@.take(i as int));
            }
        }
        i = i + 1;
    }
    proof {
        assert(s@.take(index as int) + s@.subrange(index + 1, s@.len() as int) =~= s@.remove(index as int));
    }
    out
}

} // verus!
