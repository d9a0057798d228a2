//! Character-level text utilities: Unicode white space, UTF-8 byte lengths,
//! Discord's message-length truncation and small string builders.

use vstd::prelude::*;
use vstd::utf8::*;

verus! {

broadcast use vstd::string::group_string_axioms;

/// The Unicode `White_Space` property, as `char::is_whitespace` documents it.
pub open spec fn is_white_space(c: char) -> bool {
    let u = c as u32;
    ||| 0x09 <= u <= 0x0D
    ||| u == 0x20
    ||| u == 0x85
    ||| u == 0xA0
    ||| u == 0x1680
    ||| 0x2000 <= u <= 0x200A
    ||| u == 0x2028
    ||| u == 0x2029
    ||| u == 0x202F
    ||| u == 0x205F
    ||| u == 0x3000
}

/// Executable test for [`is_white_space`].
pub fn char_is_white_space(c: char) -> (b: bool)
    ensures
        b == is_white_space(c),
{
    let u = c as u32;
    (0x09 <= u && u <= 0x0D) || u == 0x20 || u == 0x85 || u == 0xA0 || u == 0x1680 || (0x2000
        <= u && u <= 0x200A) || u == 0x2028 || u == 0x2029 || u == 0x202F || u == 0x205F || u
        == 0x3000
}

/// The characters of a string slice, in order.
pub fn chars_of(s: &str) -> (v: Vec<char>)
    ensures
        v@ == s@,
{
    let mut v: Vec<char> = Vec::new();
    for c in it: s.chars()
        invariant
            v@ == it.seq().take(it.index() as int),
    {
        v.push(c);
    }
    v
}


/// Whether two string slices hold the same characters.
pub fn str_eq(a: &str, b: &str) -> (r: bool)
    ensures
        r == (a@ == b@),
{
    let x = String::from_str(a);
    let y = String::from_str(b);
    x.eq(&y)
}

/// Number of bytes in the UTF-8 encoding of a character sequence (what `str::len` returns).
pub open spec fn utf8_len(s: Seq<char>) -> nat {
    encode_utf8(s).len()
}

/// UTF-8 encoding distributes over concatenation.
pub proof fn lemma_encode_utf8_concat(a: Seq<char>, b: Seq<char>)
    ensures
        encode_utf8(a + b) == encode_utf8(a) + encode_utf8(b),
    decreases a.len(),
{
    if a.len() == 0 {
        assert(a + b =~= b);
        assert(encode_utf8(a) =~= Seq::<u8>::empty());
        assert(encode_utf8(a) + encode_utf8(b) =~= encode_utf8(b));
    } else {
        lemma_encode_utf8_concat(a.drop_first(), b);
        assert((a + b).drop_first() =~= a.drop_first() + b);
        assert((a + b)[0] == a[0]);
        assert(encode_utf8(a + b) =~= encode_scalar(a[0] as u32) + encode_utf8(a.drop_first() + b));
        assert(encode_utf8(a) =~= encode_scalar(a[0] as u32) + encode_utf8(a.drop_first()));
    }
}

/// Longest message body Discord accepts, in bytes.
pub open spec fn discord_limit() -> nat {
    2000
}

/// The last character boundary of `bytes` at or before byte `n` (0 at the latest).
pub open spec fn last_boundary_at_most(bytes: Seq<u8>, n: int) -> int
    decreases n,
{
    if n <= 0 {
        0
    } else if is_char_boundary(bytes, n) {
        n
    } else {
        last_boundary_at_most(bytes, n - 1)
    }
}

/// The byte offset at which an over-long text is cut before the ellipsis is appended:
/// the last character boundary at or before byte 1997.
pub open spec fn discord_cut(text: Seq<char>) -> int {
    last_boundary_at_most(encode_utf8(text), 1997)
}

/// The text itself when it fits in a Discord message; otherwise its longest prefix of
/// at most 1997 bytes that ends on a character boundary, followed by `...`.
pub open spec fn discord_truncated(text: Seq<char>) -> Seq<char> {
    if utf8_len(text) <= discord_limit() {
        text
    } else {
        decode_utf8(encode_utf8(text).subrange(0, discord_cut(text))) + seq!['.', '.', '.']
    }
}

/// The last boundary at or before `n` is a boundary, and no later byte up to `n` is one.
pub proof fn lemma_last_boundary(bytes: Seq<u8>, n: int)
    requires
        valid_utf8(bytes),
        0 <= n <= bytes.len(),
    ensures
        0 <= last_boundary_at_most(bytes, n) <= n,
        is_char_boundary(bytes, last_boundary_at_most(bytes, n)),
        forall|k: int|
            last_boundary_at_most(bytes, n) < k <= n ==> !#[trigger] is_char_boundary(bytes, k),
    decreases n,
{
    if n <= 0 {
        assert(is_char_boundary(bytes, 0));
    } else if !is_char_boundary(bytes, n) {
        lemma_last_boundary(bytes, n - 1);
    }
}

/// Truncates a text to Discord's 2000-byte message limit, cutting it on a character
/// boundary.
pub fn truncate_to_discord_limit(text: &str) -> (r: String)
    ensures
        r@ == discord_truncated(text@),
        utf8_len(r@) <= discord_limit(),
{
    if text.as_bytes().len() > 2000 {
        let ghost bytes = encode_utf8(text@);
        let mut cut: usize = 1997;
        while cut > 0 && !text.is_char_boundary(cut)
            invariant
                bytes == encode_utf8(text@),
                bytes.len() > 2000,
                cut <= 1997,
                last_boundary_at_most(bytes, 1997) == last_boundary_at_most(bytes, cut as int),
            decreases cut,
        {
            cut = cut - 1;
        }
        proof {
            broadcast use vstd::utf8::group_utf8_lib;
            assert(valid_utf8(bytes));
            lemma_last_boundary(bytes, cut as int);
            assert(last_boundary_at_most(bytes, cut as int) == cut);
        }
        let (head, _rest) = text.split_at(cut);
        let mut r = String::from_str(head);
        r.append("...");
        proof {
            reveal_strlit("...");
            broadcast use vstd::utf8::group_utf8_lib;
            assert(head@ == decode_utf8(encode_utf8(head@)));
            assert("..."@ =~= seq!['.', '.', '.']);
            lemma_encode_utf8_concat(head@, "..."@);
            reveal_with_fuel(encode_utf8, 4);
            assert(encode_utf8("..."@).len() == 3);
        }
        r
    } else {
        String::from_str(text)
    }
}

/// A character never takes more than four bytes in UTF-8.
pub proof fn lemma_utf8_len_bound(s: Seq<char>)
    ensures
        utf8_len(s) <= 4 * s.len(),
    decreases s.len(),
{
    if s.len() > 0 {
        lemma_utf8_len_bound(s.drop_first());
        assert(encode_scalar(s[0] as u32).len() <= 4);
    }
}


/// A text that fits is sent as it is. Any other text is cut to fit the limit: what is
/// kept is the longest prefix of at most 1997 bytes that ends on a character boundary,
/// followed by `...`.
pub proof fn law_truncation_fits(text: Seq<char>)
    ensures
        utf8_len(text) <= discord_limit() ==> discord_truncated(text) == text,
        utf8_len(discord_truncated(text)) <= discord_limit(),
        utf8_len(text) > discord_limit() ==> {
            let bytes = encode_utf8(text);
            let cut = discord_cut(text);
            &&& 0 <= cut <= 1997
            &&& is_char_boundary(bytes, cut)
            &&& forall|k: int| cut < k <= 1997 ==> !#[trigger] is_char_boundary(bytes, k)
            &&& encode_utf8(discord_truncated(text)) == bytes.subrange(0, cut) + encode_utf8(
                seq!['.', '.', '.'],
            )
        },
{
    broadcast use vstd::utf8::group_utf8_lib;

    if utf8_len(text) > discord_limit() {
        let bytes = encode_utf8(text);
        assert(valid_utf8(bytes));
        let cut = discord_cut(text);
        lemma_last_boundary(bytes, 1997);
        let prefix = bytes.subrange(0, cut);
        assert(valid_utf8(prefix));
        let head = decode_utf8(prefix);
        assert(encode_utf8(head) == prefix);
        lemma_encode_utf8_concat(head, seq!['.', '.', '.']);
        reveal_with_fuel(encode_utf8, 4);
        assert(encode_utf8(seq!['.', '.', '.']).len() == 3);
    }
}

} // verus!
