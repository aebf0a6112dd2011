use vstd::prelude::*;
use vstd::string::*;
use vstd::utf8::*;

verus! {

/// Most characters that a text buffer may hold.
pub const MAX_CHARS: usize = 180;

/// Byte offset at which the character at position `k` of `s` starts in its
/// UTF-8 form (the byte length when `k` is the character count).
pub open spec fn byte_offset_of(s: Seq<char>, k: int) -> int {
    encode_utf8(s.take(k)).len() as int
}

/// `s` with `c` put in at character position `k`.
pub open spec fn inserted(s: Seq<char>, k: int, c: char) -> Seq<char> {
    s.take(k).push(c) + s.skip(k)
}

/// `s` without the character just before position `k`.
pub open spec fn removed_before(s: Seq<char>, k: int) -> Seq<char> {
    s.take(k - 1) + s.skip(k)
}

/// The UTF-8 form of a concatenation is the concatenation of the forms.
pub proof fn lemma_encode_concat(a: Seq<char>, b: Seq<char>)
    ensures
        encode_utf8(a + b) == encode_utf8(a) + encode_utf8(b),
    decreases a.len(),
{
    if a.len() == 0 {
        assert(a + b =~= b);
        assert(encode_utf8(a) + encode_utf8(b) =~= encode_utf8(b));
    } else {
        lemma_encode_concat(a.drop_first(), b);
        assert((a + b).drop_first() =~= a.drop_first() + b);
        assert((a + b)[0] == a[0]);
        assert(encode_utf8(a + b) =~= encode_utf8(a) + encode_utf8(b));
    }
}

proof fn lemma_encode_single(c: char)
    ensures
        encode_utf8(seq![c]) == encode_scalar(c as u32),
{
    assert(seq![c].drop_first() =~= Seq::<char>::empty());
    assert(encode_scalar(c as u32) + encode_utf8(Seq::<char>::empty()) =~= encode_scalar(c as u32));
}

proof fn lemma_offset_step(s: Seq<char>, i: int)
    requires
        0 <= i < s.len(),
    ensures
        byte_offset_of(s, i + 1) == byte_offset_of(s, i) + encode_scalar(s[i] as u32).len(),
{
    assert(s.take(i + 1) =~= s.take(i) + seq![s[i]]);
    lemma_encode_concat(s.take(i), seq![s[i]]);
    lemma_encode_single(s[i]);
}

proof fn lemma_offset_split(s: Seq<char>, k: int)
    requires
        0 <= k <= s.len(),
    ensures
        encode_utf8(s) == encode_utf8(s.take(k)) + encode_utf8(s.skip(k)),
{
    assert(s =~= s.take(k) + s.skip(k));
    lemma_encode_concat(s.take(k), s.skip(k));
}

/// Number of bytes in the UTF-8 form of `c`.
pub fn utf8_width(c: char) -> (r: usize)
    ensures
        r == encode_scalar(c as u32).len(),
        1 <= r <= 4,
{
    proof {
        char_is_scalar(c);
    }
    let v = c as u32;
    if v <= 0x7F {
        1
    } else if v <= 0x7FF {
        2
    } else if v <= 0xFFFF {
        3
    } else {
        4
    }
}

/// Byte offset of character position `k` in `s`, or the byte length of `s`
/// when `k` is past its end.
pub fn byte_offset(s: &str, k: usize) -> (r: usize)
    requires
        s@.len() <= MAX_CHARS,
    ensures
        k <= s@.len() ==> r == byte_offset_of(s@, k as int),
        k > s@.len() ==> r == byte_offset_of(s@, s@.len() as int),
{
    let n = s.unicode_len();
    let end = if k < n { k } else { n };
    let mut acc: usize = 0;
    let mut i: usize = 0;
    while i < end
        invariant
            end <= n == s@.len() <= MAX_CHARS,
            i <= end,
            acc == byte_offset_of(s@, i as int),
            acc <= 4 * i,
        decreases end - i,
    {
        let c = s.get_char(i);
        proof {
            lemma_offset_step(s@, i as int);
        }
        acc = acc + utf8_width(c);
        i = i + 1;
    }
    acc
}

/// Relies on String::insert: the UTF-8 bytes of `ch` go in at byte offset
/// `idx`. It panics unless `idx` starts a character or ends the string,
/// which `requires` guarantees.
#[verifier::external_body]
fn string_insert(s: &mut String, idx: usize, ch: char)
    requires
        exists|k: int| 0 <= k <= old(s)@.len() && idx == byte_offset_of(old(s)@, k),
    ensures
        encode_utf8(final(s)@) == encode_utf8(old(s)@).take(idx as int) + encode_scalar(
            ch as u32,
        ) + encode_utf8(old(s)@).skip(idx as int),
{
    s.insert(idx, ch)
}

/// Puts `ch` in at character position `k` of `s`, at the byte offset that
/// position maps to.
pub fn insert_char(s: &mut String, k: usize, ch: char)
    requires
        k <= old(s)@.len(),
        old(s)@.len() <= MAX_CHARS,
    ensures
        final(s)@ == inserted(old(s)@, k as int, ch),
{
    let ghost pre = s@;
    let idx = byte_offset(s.as_str(), k);
    string_insert(s, idx, ch);
    proof {
        broadcast use encode_utf8_decode_utf8;

        let a = pre.take(k as int);
        let b = pre.skip(k as int);
        lemma_offset_split(pre, k as int);
        assert(encode_utf8(pre).take(idx as int) =~= encode_utf8(a));
        assert(encode_utf8(pre).skip(idx as int) =~= encode_utf8(b));
        lemma_encode_single(ch);
        lemma_encode_concat(a, seq![ch]);
        lemma_encode_concat(a + seq![ch], b);
        assert(a.push(ch) =~= a + seq![ch]);
        assert(encode_utf8(s@) =~= encode_utf8(inserted(pre, k as int, ch)));
        assert(decode_utf8(encode_utf8(s@)) == s@);
    }
}

/// `s` without the character just before position `k`.
pub fn remove_char_before(s: &str, k: usize) -> (r: String)
    requires
        1 <= k <= s@.len(),
    ensures
        r@ == removed_before(s@, k as int),
{
    let n = s.unicode_len();
    let head = s.substring_char(0, k - 1);
    let tail = s.substring_char(k, n);
    let mut r = String::from_str(head);
    r.append(tail);
    r
}

} // verus!
