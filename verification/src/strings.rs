//! Strings as sequences of characters and as UTF-8 bytes.
//!
//! A `String` is viewed as its sequence of characters; its bytes are the UTF-8
//! encoding of that sequence. A cursor into a string is a byte offset, and the
//! functions and lemmas here relate byte offsets on character boundaries to
//! character indices.

use vstd::prelude::*;
use vstd::utf8::*;

verus! {

/// The byte offset at which character `k` of `text` begins, that is the length
/// of the encoding of the first `k` characters.
pub open spec fn byte_offset(text: Seq<char>, k: int) -> nat {
    encode_utf8(text.take(k)).len()
}

/// The number of characters that the first `offset` bytes of the encoding of
/// `text` hold, for an offset on a character boundary.
pub open spec fn char_index(text: Seq<char>, offset: int) -> int {
    decode_utf8(encode_utf8(text).subrange(0, offset)).len() as int
}

/// True when `offset` lies on a character boundary of the encoding of `text`.
pub open spec fn on_boundary(text: Seq<char>, offset: int) -> bool {
    is_char_boundary(encode_utf8(text), offset)
}

/// The number of bytes in the encoding of `c`.
pub open spec fn width_of(c: char) -> nat {
    encode_scalar(c as u32).len()
}

/// Encoding distributes over concatenation.
pub proof fn lemma_encode_concat(a: Seq<char>, b: Seq<char>)
    ensures
        encode_utf8(a + b) == encode_utf8(a) + encode_utf8(b),
    decreases a.len(),
{
    if a.len() == 0 {
        assert(a + b =~= b);
        assert(encode_utf8(a) + encode_utf8(b) =~= encode_utf8(b));
    } else {
        assert((a + b).drop_first() =~= a.drop_first() + b);
        assert((a + b)[0] == a[0]);
        lemma_encode_concat(a.drop_first(), b);
        assert(encode_utf8(a + b) =~= encode_utf8(a) + encode_utf8(b));
    }
}

/// A single character encodes to between one and four bytes.
pub proof fn lemma_width_bounds(c: char)
    ensures
        1 <= width_of(c) <= 4,
        encode_utf8(seq![c]) == encode_scalar(c as u32),
{
    assert(seq![c].drop_first() =~= Seq::<char>::empty());
    assert(encode_utf8(Seq::<char>::empty()) =~= Seq::<u8>::empty());
    assert(encode_utf8(seq![c]) =~= encode_scalar(c as u32));
}

/// Each character moves the offset by its encoded width.
pub proof fn lemma_offset_step(text: Seq<char>, k: int)
    requires
        0 <= k < text.len(),
    ensures
        byte_offset(text, k + 1) == byte_offset(text, k) + width_of(text[k]),
        byte_offset(text, k) < byte_offset(text, k + 1),
{
    assert(text.take(k + 1) =~= text.take(k) + seq![text[k]]);
    lemma_encode_concat(text.take(k), seq![text[k]]);
    lemma_width_bounds(text[k]);
}

/// Offsets grow strictly with the character index.
pub proof fn lemma_offset_monotonic(text: Seq<char>, j: int, k: int)
    requires
        0 <= j <= k <= text.len(),
    ensures
        byte_offset(text, j) <= byte_offset(text, k),
        j < k ==> byte_offset(text, j) < byte_offset(text, k),
    decreases k - j,
{
    if j < k {
        lemma_offset_monotonic(text, j, k - 1);
        lemma_offset_step(text, k - 1);
    }
}

/// The offset of the first character is 0, that of the end is the length of
/// the encoding.
pub proof fn lemma_offset_ends(text: Seq<char>)
    ensures
        byte_offset(text, 0) == 0,
        byte_offset(text, text.len() as int) == encode_utf8(text).len(),
{
    assert(text.take(0) =~= Seq::<char>::empty());
    assert(text.take(text.len() as int) =~= text);
}

proof fn lemma_concat_boundary(a: Seq<u8>, b: Seq<u8>)
    requires
        valid_utf8(a),
        valid_utf8(b),
    ensures
        is_char_boundary(a + b, a.len() as int),
    decreases a.len(),
{
    valid_utf8_concat(a, b);
    if a.len() == 0 {
    } else {
        let rest = pop_first_scalar(a);
        assert(rest.len() < a.len());
        assert((a + b)[0] == a[0]);
        assert(pop_first_scalar(a + b) =~= rest + b);
        lemma_concat_boundary(rest, b);
        assert(a.len() - length_of_first_scalar(a + b) == rest.len());
    }
}

/// The offset of every character index is a character boundary, and counting
/// the characters up to it gives the index back.
pub proof fn lemma_offset_is_boundary(text: Seq<char>, k: int)
    requires
        0 <= k <= text.len(),
    ensures
        on_boundary(text, byte_offset(text, k) as int),
        char_index(text, byte_offset(text, k) as int) == k,
        byte_offset(text, k) <= encode_utf8(text).len(),
{
    let head = encode_utf8(text.take(k));
    let tail = encode_utf8(text.skip(k));
    assert(text =~= text.take(k) + text.skip(k));
    lemma_encode_concat(text.take(k), text.skip(k));
    encode_utf8_valid_utf8(text.take(k));
    encode_utf8_valid_utf8(text.skip(k));
    lemma_concat_boundary(head, tail);
    assert((head + tail).subrange(0, head.len() as int) =~= head);
    encode_utf8_decode_utf8(text.take(k));
}

/// Every character boundary is the offset of a character index.
pub proof fn lemma_boundary_is_offset(text: Seq<char>, offset: int)
    requires
        on_boundary(text, offset),
    ensures
        0 <= char_index(text, offset) <= text.len(),
        byte_offset(text, char_index(text, offset)) == offset,
        0 <= offset <= encode_utf8(text).len(),
{
    let bytes = encode_utf8(text);
    encode_utf8_valid_utf8(text);
    encode_utf8_decode_utf8(text);
    valid_utf8_split(bytes, offset);
    decode_utf8_split(bytes, offset);
    let head = bytes.subrange(0, offset);
    let k = char_index(text, offset);
    assert(text.take(k) =~= decode_utf8(head));
    decode_utf8_encode_utf8(head);
}

/// Between the offsets of two neighbouring characters lies no boundary.
pub proof fn lemma_no_boundary_between(text: Seq<char>, k: int, offset: int)
    requires
        0 <= k < text.len(),
        byte_offset(text, k) < offset < byte_offset(text, k + 1),
    ensures
        !on_boundary(text, offset),
{
    if on_boundary(text, offset) {
        lemma_boundary_is_offset(text, offset);
        let j = char_index(text, offset);
        if j <= k {
            lemma_offset_monotonic(text, j, k);
        } else {
            lemma_offset_monotonic(text, k + 1, j);
        }
    }
}

/// The length of `s` in bytes.
pub fn byte_len(s: &str) -> (n: usize)
    ensures
        n == encode_utf8(s@).len(),
{
    s.as_bytes().len()
}

/// The number of bytes that `c` takes when encoded.
pub fn encoded_width(c: char) -> (n: usize)
    ensures
        n == width_of(c),
        1 <= n <= 4,
{
    let v: u32 = c as u32;
    if v < 0x80 {
        1
    } else if v < 0x800 {
        2
    } else if v < 0x10000 {
        3
    } else {
        4
    }
}

/// The boundary that precedes the boundary `offset`: the offset of the
/// character that ends there.
pub fn prev_boundary(s: &str, offset: usize) -> (p: usize)
    requires
        on_boundary(s@, offset as int),
        offset > 0,
    ensures
        p < offset,
        on_boundary(s@, p as int),
        char_index(s@, offset as int) >= 1,
        char_index(s@, p as int) == char_index(s@, offset as int) - 1,
        p == byte_offset(s@, char_index(s@, offset as int) - 1),
{
    proof {
        encode_utf8_valid_utf8(s@);
    }
    let mut p: usize = offset - 1;
    while !s.is_char_boundary(p)
        invariant
            p < offset,
            valid_utf8(encode_utf8(s@)),
            forall|q: int| p < q < offset ==> !on_boundary(s@, q),
        decreases p,
    {
        p = p - 1;
    }
    proof {
        let k = char_index(s@, offset as int);
        let j = char_index(s@, p as int);
        lemma_boundary_is_offset(s@, offset as int);
        lemma_boundary_is_offset(s@, p as int);
        lemma_offset_ends(s@);
        if j >= k {
            lemma_offset_monotonic(s@, k, j);
        }
        lemma_offset_is_boundary(s@, k - 1);
        lemma_offset_step(s@, k - 1);
        lemma_offset_monotonic(s@, j, k - 1);
    }
    p
}

/// The boundary that follows the boundary `offset`: the offset at which the
/// character that begins there ends.
pub fn next_boundary(s: &str, offset: usize) -> (n: usize)
    requires
        on_boundary(s@, offset as int),
        offset < encode_utf8(s@).len(),
    ensures
        offset < n <= encode_utf8(s@).len(),
        on_boundary(s@, n as int),
        char_index(s@, offset as int) < s@.len(),
        char_index(s@, n as int) == char_index(s@, offset as int) + 1,
        n == byte_offset(s@, char_index(s@, offset as int) + 1),
{
    proof {
        encode_utf8_valid_utf8(s@);
        is_char_boundary_start_end_of_seq(encode_utf8(s@));
    }
    let len: usize = byte_len(s);
    let mut n: usize = offset + 1;
    while n < len && !s.is_char_boundary(n)
        invariant
            offset < n <= len,
            len == encode_utf8(s@).len(),
            forall|q: int| offset < q < n ==> !on_boundary(s@, q),
        decreases len - n,
    {
        n = n + 1;
    }
    proof {
        let k = char_index(s@, offset as int);
        let j = char_index(s@, n as int);
        lemma_boundary_is_offset(s@, offset as int);
        lemma_boundary_is_offset(s@, n as int);
        lemma_offset_ends(s@);
        if k >= s@.len() {
            lemma_offset_monotonic(s@, k, s@.len() as int);
        }
        if j <= k {
            lemma_offset_monotonic(s@, j, k);
        }
        lemma_offset_is_boundary(s@, k + 1);
        lemma_offset_step(s@, k);
        lemma_offset_monotonic(s@, k + 1, j);
    }
    n
}

/// Inserts `c` into `s` at the byte offset `offset`.
///
/// Trusted: states of `String::insert` that the character becomes the one at
/// the index that `offset` stands for, with every other character kept in
/// order. The offset must lie on a character boundary, as the method asks.
#[verifier::external_body]
pub(crate) fn insert_char_at(s: &mut String, offset: usize, c: char)
    requires
        on_boundary(old(s)@, offset as int),
    ensures
        final(s)@ == old(s)@.insert(char_index(old(s)@, offset as int), c),
{
    s.insert(offset, c)
}

/// Removes from `s` the character that begins at the byte offset `offset`.
///
/// Trusted: states of `String::remove` that the character at the index that
/// `offset` stands for leaves the string and is returned, with every other
/// character kept in order. The offset must lie on a character boundary before
/// the end of the string, as the method asks.
#[verifier::external_body]
pub(crate) fn remove_char_at(s: &mut String, offset: usize) -> (c: char)
    requires
        on_boundary(old(s)@, offset as int),
        offset < encode_utf8(old(s)@).len(),
    ensures
        final(s)@ == old(s)@.remove(char_index(old(s)@, offset as int)),
        c == old(s)@[char_index(old(s)@, offset as int)],
{
    s.remove(offset)
}

/// The part of `s` before the byte offset `offset`.
pub fn prefix_before(s: &str, offset: usize) -> (head: &str)
    requires
        on_boundary(s@, offset as int),
    ensures
        head@ == s@.take(char_index(s@, offset as int)),
{
    let parts = s.split_at(offset);
    proof {
        let bytes = encode_utf8(s@);
        let k = char_index(s@, offset as int);
        lemma_boundary_is_offset(s@, offset as int);
        encode_utf8_valid_utf8(s@);
        encode_utf8_decode_utf8(s@);
        valid_utf8_split(bytes, offset as int);
        decode_utf8_split(bytes, offset as int);
        assert(s@.take(k) =~= decode_utf8(bytes.subrange(0, offset as int)));
        encode_utf8_decode_utf8(parts.0@);
    }
    parts.0
}

/// The number of terminal columns that `text` takes.
pub uninterp spec fn text_width(text: Seq<char>) -> nat;

/// Trusted: names what `unicode_width::UnicodeWidthStr::width` returns for a
/// string, its displayed width in columns.
#[verifier::external_body]
pub(crate) fn display_width(s: &str) -> (w: usize)
    ensures
        w == text_width(s@),
{
    unicode_width::UnicodeWidthStr::width(s)
}

/// The number of terminal columns that `s` takes.
pub fn display_columns(s: &str) -> (w: usize)
    ensures
        w == text_width(s@),
{
    display_width(s)
}

/// The label of a field as it is shown: the label, a star where the field is
/// required, then `tail`.
pub open spec fn caption_of(label: Seq<char>, required: bool, tail: Seq<char>) -> Seq<char> {
    label + (if required {
        "*"@
    } else {
        ""@
    }) + tail
}

/// The label of a field as it is shown.
pub fn make_caption(label: &str, required: bool, tail: &str) -> (caption: String)
    ensures
        caption@ == caption_of(label@, required, tail@),
{
    let marker = if required {
        "*"
    } else {
        ""
    };
    let mut caption = joined(label, marker);
    caption.append(tail);
    caption
}

/// The characters of `s`, in order.
pub fn to_chars(s: &str) -> (v: Vec<char>)
    ensures
        v@ == s@,
{
    let mut v: Vec<char> = Vec::new();
    for c in it: s.chars()
        invariant
            it.seq() == s@,
            v@ == s@.take(it.index() as int),
    {
        v.push(c);
        assert(s@.take(it.index() + 1) =~= s@.take(it.index() as int).push(c));
    }
    assert(s@.take(s@.len() as int) =~= s@);
    v
}

/// Whether `c` has the Unicode property `White_Space`: the controls from tab
/// to carriage return, the space, the next-line control, the no-break space,
/// and the spaces and separators of the general punctuation and of the CJK
/// block, 25 characters in all.
pub open spec fn white_space(c: char) -> bool {
    let v = c as u32;
    ||| 0x09 <= v <= 0x0d
    ||| v == 0x20
    ||| v == 0x85
    ||| v == 0xa0
    ||| v == 0x1680
    ||| 0x2000 <= v <= 0x200a
    ||| v == 0x2028
    ||| v == 0x2029
    ||| v == 0x202f
    ||| v == 0x205f
    ||| v == 0x3000
}

/// Whether `c` is white space.
pub fn is_white_space(c: char) -> (b: bool)
    ensures
        b == white_space(c),
{
    let v: u32 = c as u32;
    (0x09 <= v && v <= 0x0d) || v == 0x20 || v == 0x85 || v == 0xa0 || v == 0x1680 || (0x2000 <= v
        && v <= 0x200a) || v == 0x2028 || v == 0x2029 || v == 0x202f || v == 0x205f || v == 0x3000
}

/// True when `text` holds nothing but white space; the empty text is blank.
pub open spec fn blank(text: Seq<char>) -> bool {
    forall|i: int| 0 <= i < text.len() ==> white_space(#[trigger] text[i])
}

/// Whether `s` is empty once the white space around it is trimmed away.
pub fn is_blank(s: &str) -> (b: bool)
    ensures
        b == blank(s@),
{
    for c in it: s.chars()
        invariant
            it.seq() == s@,
            blank(s@.take(it.index() as int)),
    {
        if !is_white_space(c) {
            assert(s@[it.index() as int] == c);
            return false;
        }
        assert forall|i: int| 0 <= i < it.index() + 1 implies white_space(
            #[trigger] s@.take(it.index() + 1)[i],
        ) by {
            if i < it.index() {
                assert(s@.take(it.index() as int)[i] == s@[i]);
            }
        }
    }
    assert(s@.take(s@.len() as int) =~= s@);
    true
}

/// Lexicographic order on texts, character by character: `a` comes strictly
/// before `b`.
pub open spec fn lex_lt(a: Seq<char>, b: Seq<char>) -> bool
    decreases a.len(),
{
    if b.len() == 0 {
        false
    } else if a.len() == 0 {
        true
    } else if a[0] != b[0] {
        a[0] < b[0]
    } else {
        lex_lt(a.drop_first(), b.drop_first())
    }
}

/// Whether `a` comes strictly before `b` in lexicographic order.
pub fn lex_less(a: &str, b: &str) -> (less: bool)
    ensures
        less == lex_lt(a@, b@),
{
    let x = to_chars(a);
    let y = to_chars(b);
    let mut i: usize = 0;
    assert(x@.skip(0) =~= x@ && y@.skip(0) =~= y@);
    while i < x.len() && i < y.len()
        invariant
            i <= x.len(),
            i <= y.len(),
            x@ == a@,
            y@ == b@,
            lex_lt(a@, b@) == lex_lt(x@.skip(i as int), y@.skip(i as int)),
        decreases x.len() - i,
    {
        let ghost xs = x@.skip(i as int);
        let ghost ys = y@.skip(i as int);
        assert(xs[0] == x@[i as int] && ys[0] == y@[i as int]);
        assert(xs.drop_first() =~= x@.skip(i + 1));
        assert(ys.drop_first() =~= y@.skip(i + 1));
        if x[i] != y[i] {
            return x[i] < y[i];
        }
        i = i + 1;
    }
    i < y.len()
}

/// `a` followed by `b`.
pub fn joined(a: &str, b: &str) -> (r: String)
    ensures
        r@ == a@ + b@,
{
    let mut r = String::from_str(a);
    r.append(b);
    r
}

/// The decimal digit for `d`.
pub open spec fn digit_char(d: nat) -> char {
    if d == 0 {
        '0'
    } else if d == 1 {
        '1'
    } else if d == 2 {
        '2'
    } else if d == 3 {
        '3'
    } else if d == 4 {
        '4'
    } else if d == 5 {
        '5'
    } else if d == 6 {
        '6'
    } else if d == 7 {
        '7'
    } else if d == 8 {
        '8'
    } else {
        '9'
    }
}

/// The digits of `n` in base ten, most significant first, without leading
/// zeros.
pub open spec fn decimal_digits(n: nat) -> Seq<char>
    decreases n,
{
    if n < 10 {
        seq![digit_char(n)]
    } else {
        decimal_digits(n / 10).push(digit_char(n % 10))
    }
}

fn digit_str(d: usize) -> (s: &'static str)
    requires
        d < 10,
    ensures
        s@ == seq![digit_char(d as nat)],
{
    proof {
        reveal_strlit("0");
        reveal_strlit("1");
        reveal_strlit("2");
        reveal_strlit("3");
        reveal_strlit("4");
        reveal_strlit("5");
        reveal_strlit("6");
        reveal_strlit("7");
        reveal_strlit("8");
        reveal_strlit("9");
    }
    let s = if d == 0 {
        "0"
    } else if d == 1 {
        "1"
    } else if d == 2 {
        "2"
    } else if d == 3 {
        "3"
    } else if d == 4 {
        "4"
    } else if d == 5 {
        "5"
    } else if d == 6 {
        "6"
    } else if d == 7 {
        "7"
    } else if d == 8 {
        "8"
    } else {
        "9"
    };
    assert(s@ =~= seq![digit_char(d as nat)]);
    s
}

/// `n` written in base ten.
pub fn decimal(n: usize) -> (r: String)
    ensures
        r@ == decimal_digits(n as nat),
    decreases n,
{
    if n < 10 {
        String::from_str(digit_str(n))
    } else {
        let mut r = decimal(n / 10);
        r.append(digit_str(n % 10));
        assert(r@ =~= decimal_digits((n / 10) as nat).push(digit_char((n % 10) as nat)));
        r
    }
}

} // verus!
