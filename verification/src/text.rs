use vstd::prelude::*;
use vstd::string::*;
use vstd::utf8::*;

verus! {

/// The byte that encodes a space.
pub const SPACE: u8 = 0x20;

/// The characters that `calc_len` appends: `", new"`.
pub open spec fn appended() -> Seq<char> {
    seq![',', ' ', 'n', 'e', 'w']
}

/// The characters of the greeting that `dangle` returns: `"hello"`.
pub open spec fn greeting() -> Seq<char> {
    seq!['h', 'e', 'l', 'l', 'o']
}

/// `word` is the first word of `text`: the longest prefix of `text` that
/// holds no space. It ends just before the first space, or is all of `text`
/// where there is none.
pub open spec fn is_first_word(text: Seq<char>, word: Seq<char>) -> bool {
    &&& word.len() <= text.len()
    &&& word == text.subrange(0, word.len() as int)
    &&& !word.contains(' ')
    &&& word.len() < text.len() ==> text[word.len() as int] == ' '
}

/// Appends `", new"` to `s`.
pub fn calc_len(s: &mut String)
    ensures
        final(s)@ == old(s)@ + appended(),
{
    proof {
        reveal_strlit(", new");
        assert(", new"@ =~= appended());
    }
    s.append(", new");
}

/// A freshly owned `"hello"`.
pub fn dangle() -> (s: String)
    ensures
        s@ == greeting(),
{
    proof {
        reveal_strlit("hello");
        assert("hello"@ =~= greeting());
    }
    String::from_str("hello")
}

/// A space in `chars` shows as a space byte in the encoding of `chars`.
proof fn lemma_space_is_encoded(chars: Seq<char>, j: int)
    requires
        0 <= j < chars.len(),
        chars[j] == ' ',
    ensures
        encode_utf8(chars).contains(SPACE),
    decreases chars.len(),
{
    let head = encode_scalar(chars[0] as u32);
    let tail = encode_utf8(chars.drop_first());
    if j == 0 {
        assert(0x20u32 & 0x7F == 0x20u32) by (bit_vector);
        assert((head + tail)[0] == SPACE);
    } else {
        lemma_space_is_encoded(chars.drop_first(), j - 1);
        let k = choose|k: int| 0 <= k < tail.len() && tail[k] == SPACE;
        assert((head + tail)[head.len() + k] == SPACE);
    }
}

/// A text whose encoding holds no space byte holds no space.
proof fn lemma_no_space_byte_no_space(chars: Seq<char>)
    requires
        !encode_utf8(chars).contains(SPACE),
    ensures
        !chars.contains(' '),
{
    if chars.contains(' ') {
        let j = choose|j: int| 0 <= j < chars.len() && chars[j] == ' ';
        lemma_space_is_encoded(chars, j);
    }
}

/// The first word of `s`: everything before its first space, or all of `s`
/// where it holds none.
pub fn first_word(s: &str) -> (word: &str)
    ensures
        is_first_word(s@, word@),
        !s@.contains(' ') ==> word@ == s@,
{
    let bytes = s.as_bytes();
    let mut i: usize = 0;
    while i < bytes.len()
        invariant
            bytes@ == encode_utf8(s@),
            i <= bytes@.len(),
            forall|j: int| 0 <= j < i ==> bytes@[j] != SPACE,
        decreases bytes@.len() - i,
    {
        if bytes[i] == SPACE {
            proof {
                encode_utf8_valid_utf8(s@);
                utf8_byte_ranges_bitwise(SPACE);
                is_char_boundary_iff_not_is_continuation_byte(bytes@, i as int);
            }
            let (word, _) = s.split_at(i);
            proof {
                lemma_split_before_space(s@, word@, i as int);
            }
            return word;
        }
        i += 1;
    }
    proof {
        lemma_no_space_byte_no_space(s@);
        assert(s@ =~= s@.subrange(0, s@.len() as int));
    }
    s
}

/// Cutting the encoding of `text` at its first space byte cuts `text` at its
/// first space: what is encoded before the cut is the first word.
proof fn lemma_split_before_space(text: Seq<char>, word: Seq<char>, cut: int)
    requires
        0 <= cut < encode_utf8(text).len(),
        encode_utf8(text)[cut] == SPACE,
        forall|j: int| 0 <= j < cut ==> encode_utf8(text)[j] != SPACE,
        is_char_boundary(encode_utf8(text), cut),
        encode_utf8(word) == encode_utf8(text).subrange(0, cut),
    ensures
        is_first_word(text, word),
{
    let bytes = encode_utf8(text);
    let back = bytes.subrange(cut, bytes.len() as int);
    encode_utf8_valid_utf8(text);
    valid_utf8_split(bytes, cut);
    decode_utf8_split(bytes, cut);
    encode_utf8_decode_utf8(word);
    encode_utf8_decode_utf8(text);
    assert(text =~= word + decode_utf8(back));
    assert(decode_utf8(back)[0] == ' ') by {
        assert(back[0] == SPACE);
        assert(0x20u8 & 0x7F == 0x20u8) by (bit_vector);
    }
    lemma_no_space_byte_no_space(word);
    assert(word =~= text.subrange(0, word.len() as int));
}

/// A text has exactly one first word.
pub proof fn lemma_first_word_unique(text: Seq<char>, a: Seq<char>, b: Seq<char>)
    requires
        is_first_word(text, a),
        is_first_word(text, b),
    ensures
        a == b,
{
    if a.len() < b.len() {
        assert(b[a.len() as int] == ' ');
    } else if b.len() < a.len() {
        assert(a[b.len() as int] == ' ');
    }
    assert(a =~= b);
}

/// Taking the first word twice gives what taking it once gives.
pub proof fn lemma_first_word_idempotent(text: Seq<char>, word: Seq<char>)
    requires
        is_first_word(text, word),
    ensures
        is_first_word(word, word),
{
    assert(word =~= word.subrange(0, word.len() as int));
}

/// The first word of a text without a space is the text itself.
pub proof fn lemma_first_word_without_space(text: Seq<char>, word: Seq<char>)
    requires
        is_first_word(text, word),
        !text.contains(' '),
    ensures
        word == text,
{
    assert(word =~= text);
}

} // verus!
