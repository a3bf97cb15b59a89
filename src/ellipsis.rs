//! Shortening text for narrow displays.
use vstd::prelude::*;
use vstd::string::StringSliceAdditionalSpecFns;
use vstd::utf8::{decode_utf8, encode_utf8, is_ascii_chars, is_char_boundary};

verus! {

/// The characters with the Unicode `White_Space` property, which
/// `char::is_whitespace` recognises.
pub open spec fn is_white(c: char) -> bool {
    ('\u{9}' <= c && c <= '\u{d}') || c == ' ' || c == '\u{85}' || c == '\u{a0}' || c == '\u{1680}'
        || ('\u{2000}' <= c && c <= '\u{200a}') || c == '\u{2028}' || c == '\u{2029}' || c
        == '\u{202f}' || c == '\u{205f}' || c == '\u{3000}'
}

/// `s` without trailing whitespace.
pub open spec fn trimmed_end(s: Seq<char>) -> Seq<char>
    decreases s.len(),
{
    if s.len() > 0 && is_white(s.last()) {
        trimmed_end(s.drop_last())
    } else {
        s
    }
}

/// `s` without leading whitespace.
pub open spec fn trimmed_start(s: Seq<char>) -> Seq<char>
    decreases s.len(),
{
    if s.len() > 0 && is_white(s[0]) {
        trimmed_start(s.drop_first())
    } else {
        s
    }
}

/// `s` if its UTF-8 encoding has at most `max_len` bytes; otherwise its first
/// and last `(max_len - 3) / 2` bytes, trimmed of whitespace at the cut,
/// around `...`.
pub open spec fn ellipsized(s: Seq<char>, max_len: int) -> Seq<char> {
    let b = encode_utf8(s);
    if b.len() <= max_len {
        s
    } else {
        let part = (max_len - 3) / 2;
        trimmed_end(decode_utf8(b.subrange(0, part))) + "..."@ + trimmed_start(
            decode_utf8(b.subrange(b.len() - part, b.len() as int)),
        )
    }
}

/// The text can be shortened to `max_len` bytes: it fits already, or there is
/// room for the `...` and both cuts fall between characters.
pub open spec fn ellipsizable(s: Seq<char>, max_len: int) -> bool {
    let b = encode_utf8(s);
    let part = (max_len - 3) / 2;
    b.len() > max_len ==> {
        &&& max_len >= 3
        &&& is_char_boundary(b, part)
        &&& is_char_boundary(b, b.len() - part)
    }
}

/// The encoding of a concatenation is the concatenation of the encodings.
proof fn lemma_encode_concat(a: Seq<char>, b: Seq<char>)
    ensures
        encode_utf8(a + b) == encode_utf8(a) + encode_utf8(b),
    decreases a.len(),
{
    if a.len() == 0 {
        assert(a + b =~= b);
        assert(encode_utf8(a) + encode_utf8(b) =~= encode_utf8(b));
    } else {
        assert((a + b).drop_first() =~= a.drop_first() + b);
        assert((a + b)[0] == a[0]);
        lemma_encode_concat(a.drop_first(), b);
        assert(encode_utf8(a + b) =~= encode_utf8(a) + encode_utf8(b));
    }
}

/// A prefix or a suffix takes no more bytes than the whole.
proof fn lemma_encode_part_len(s: Seq<char>, from: int, to: int)
    requires
        0 <= from <= to <= s.len(),
    ensures
        encode_utf8(s.subrange(from, to)).len() <= encode_utf8(s).len(),
{
    let x = s.subrange(0, from);
    let y = s.subrange(from, to);
    let z = s.subrange(to, s.len() as int);
    assert(s =~= x + y + z);
    lemma_encode_concat(x + y, z);
    lemma_encode_concat(x, y);
}

fn is_whitespace(c: char) -> (r: bool)
    ensures
        r == is_white(c),
{
    ('\u{9}' <= c && c <= '\u{d}') || c == ' ' || c == '\u{85}' || c == '\u{a0}' || c == '\u{1680}'
        || ('\u{2000}' <= c && c <= '\u{200a}') || c == '\u{2028}' || c == '\u{2029}' || c
        == '\u{202f}' || c == '\u{205f}' || c == '\u{3000}'
}

/// The end of `s[from..to]` once trailing whitespace is dropped.
fn trim_end_index(s: &str, from: usize, to: usize) -> (r: usize)
    requires
        from <= to <= s@.len(),
    ensures
        from <= r <= to,
        s@.subrange(from as int, r as int) == trimmed_end(s@.subrange(from as int, to as int)),
{
    let mut end = to;
    while end > from
        invariant
            from <= end <= to <= s@.len(),
            trimmed_end(s@.subrange(from as int, end as int)) == trimmed_end(
                s@.subrange(from as int, to as int),
            ),
        decreases end,
    {
        let ghost cur = s@.subrange(from as int, end as int);
        if !is_whitespace(s.get_char(end - 1)) {
            return end;
        }
        proof {
            assert(cur.drop_last() =~= s@.subrange(from as int, end - 1));
        }
        end = end - 1;
    }
    end
}

/// The start of `s[from..to]` once leading whitespace is dropped.
fn trim_start_index(s: &str, from: usize, to: usize) -> (r: usize)
    requires
        from <= to <= s@.len(),
    ensures
        from <= r <= to,
        s@.subrange(r as int, to as int) == trimmed_start(s@.subrange(from as int, to as int)),
{
    let mut start = from;
    while start < to
        invariant
            from <= start <= to <= s@.len(),
            trimmed_start(s@.subrange(start as int, to as int)) == trimmed_start(
                s@.subrange(from as int, to as int),
            ),
        decreases to - start,
    {
        let ghost cur = s@.subrange(start as int, to as int);
        if !is_whitespace(s.get_char(start)) {
            return start;
        }
        proof {
            assert(cur.drop_first() =~= s@.subrange(start + 1, to as int));
        }
        start = start + 1;
    }
    start
}

/// Whether [`ellipsize_middle`] accepts `s` and `max_len`.
pub fn can_ellipsize(s: &str, max_len: usize) -> (r: bool)
    ensures
        r == ellipsizable(s@, max_len as int),
{
    let n = s.as_bytes().len();
    proof {
        assert(s.spec_bytes() == encode_utf8(s@));
    }
    if n <= max_len {
        return true;
    }
    if max_len < 3 {
        return false;
    }
    let part = (max_len - 3) / 2;
    s.is_char_boundary(part) && s.is_char_boundary(n - part)
}

/// Shortens `s` to at most `max_len` bytes by cutting out its middle, for
/// labels of limited width.
pub fn ellipsize_middle(s: &str, max_len: usize) -> (r: String)
    requires
        ellipsizable(s@, max_len as int),
    ensures
        r@ == ellipsized(s@, max_len as int),
        encode_utf8(r@).len() <= encode_utf8(s@).len(),
        encode_utf8(s@).len() > max_len ==> encode_utf8(r@).len() <= max_len,
{
    broadcast use vstd::utf8::encode_utf8_decode_utf8, vstd::utf8::encode_utf8_valid_utf8;

    let n = s.as_bytes().len();
    proof {
        assert(s.spec_bytes() == encode_utf8(s@));
    }
    if n <= max_len {
        return String::from_str(s);
    }
    let part = (max_len - 3) / 2;
    let (head, _) = s.split_at(part);
    let (_, tail) = s.split_at(n - part);
    proof {
        assert(head.spec_bytes() == encode_utf8(head@));
        assert(tail.spec_bytes() == encode_utf8(tail@));
        assert(decode_utf8(encode_utf8(head@)) == head@);
        assert(decode_utf8(encode_utf8(tail@)) == tail@);
    }
    let head_len = head.unicode_len();
    let head_end = trim_end_index(head, 0, head_len);
    let tail_len = tail.unicode_len();
    let tail_start = trim_start_index(tail, 0, tail_len);
    let kept_head = head.substring_char(0, head_end);
    let kept_tail = tail.substring_char(tail_start, tail_len);
    let mut out = String::from_str(kept_head);
    out.append("...");
    out.append(kept_tail);
    proof {
        reveal_strlit("...");
        assert(is_ascii_chars("..."@));
        vstd::utf8::is_ascii_chars_encode_utf8("..."@);
        assert(encode_utf8("..."@).len() == 3);
        assert(encode_utf8(head@).len() == part);
        assert(encode_utf8(tail@).len() == part);
        assert(head@.subrange(0, head_len as int) =~= head@);
        assert(tail@.subrange(0, tail_len as int) =~= tail@);
        lemma_encode_part_len(head@, 0, head_end as int);
        lemma_encode_part_len(tail@, tail_start as int, tail_len as int);
        lemma_encode_concat(kept_head@, "..."@);
        lemma_encode_concat(kept_head@ + "..."@, kept_tail@);
        assert(out@ == kept_head@ + "..."@ + kept_tail@);
        assert(encode_utf8(out@).len() <= 2 * part + 3);
    }
    out
}

} // verus!
