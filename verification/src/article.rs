//! Articles shared in chat: finding the link in a message, turning a fetched page
//! into readable text, and the reaction that marks a message as already summarized.

use vstd::prelude::*;

use crate::discord::{DiscordMessage, DiscordReaction};
use crate::text::{char_is_white_space, chars_of, is_white_space};

verus! {

/// `t` begins with `p`.
pub open spec fn starts_with(t: Seq<char>, p: Seq<char>) -> bool {
    p.len() <= t.len() && t.subrange(0, p.len() as int) == p
}

/// The scheme prefix of an unencrypted web link.
pub open spec fn http_prefix() -> Seq<char> {
    seq!['h', 't', 't', 'p', ':', '/', '/']
}

/// The scheme prefix of an encrypted web link.
pub open spec fn https_prefix() -> Seq<char> {
    seq!['h', 't', 't', 'p', 's', ':', '/', '/']
}

/// A token that is taken for a link: it begins with `http://` or `https://`.
pub open spec fn is_link(t: Seq<char>) -> bool {
    starts_with(t, http_prefix()) || starts_with(t, https_prefix())
}

/// `s[i..j]` is a maximal run of non-white-space characters (a token of
/// `split_whitespace`).
pub open spec fn is_token(s: Seq<char>, i: int, j: int) -> bool {
    &&& 0 <= i < j <= s.len()
    &&& (i == 0 || is_white_space(s[i - 1]))
    &&& (j == s.len() || is_white_space(s[j]))
    &&& forall|k: int| i <= k < j ==> !is_white_space(#[trigger] s[k])
}

/// `s[i..j]` is a token that is a link.
pub open spec fn is_link_token(s: Seq<char>, i: int, j: int) -> bool {
    is_token(s, i, j) && is_link(s.subrange(i, j))
}

/// `s[i..j]` is the link token that starts first in `s`.
pub open spec fn is_first_link_token(s: Seq<char>, i: int, j: int) -> bool {
    is_link_token(s, i, j) && forall|i2: int, j2: int| #[trigger]
        is_link_token(s, i2, j2) ==> i <= i2
}

/// The first white-space-separated token of `s` that begins with `http://` or
/// `https://`, if there is one.
pub open spec fn first_link(s: Seq<char>) -> Option<Seq<char>> {
    if exists|i: int, j: int| is_first_link_token(s, i, j) {
        let (i, j) = choose|i: int, j: int| is_first_link_token(s, i, j);
        Some(s.subrange(i, j))
    } else {
        None
    }
}

/// A token is determined by where it starts.
pub proof fn lemma_token_end_unique(s: Seq<char>, i: int, j1: int, j2: int)
    requires
        is_token(s, i, j1),
        is_token(s, i, j2),
    ensures
        j1 == j2,
{
    if j1 < j2 {
        assert(!is_white_space(s[j1]));
    } else if j2 < j1 {
        assert(!is_white_space(s[j2]));
    }
}

/// A first link token, once found, is the one `first_link` names.
pub proof fn lemma_first_link_is(s: Seq<char>, i: int, j: int)
    requires
        is_first_link_token(s, i, j),
    ensures
        first_link(s) == Some(s.subrange(i, j)),
{
    let (i2, j2) = choose|i2: int, j2: int| is_first_link_token(s, i2, j2);
    assert(is_link_token(s, i2, j2));
    assert(i <= i2);
    assert(is_link_token(s, i, j));
    assert(i2 <= i);
    lemma_token_end_unique(s, i, j, j2);
}

/// The link found in a message is a whole word of it: it begins with `http://` or
/// `https://`, holds no white space, appears in the message, and no word before it is
/// a link.
pub proof fn law_first_link_is_a_word(s: Seq<char>)
    ensures
        first_link(s) matches Some(u) ==> {
            &&& is_link(u)
            &&& forall|k: int| 0 <= k < u.len() ==> !is_white_space(#[trigger] u[k])
            &&& exists|i: int, j: int| is_first_link_token(s, i, j) && u == s.subrange(i, j)
        },
        first_link(s) is None ==> forall|i: int, j: int| !#[trigger] is_link_token(s, i, j),
{
    if exists|i: int, j: int| is_first_link_token(s, i, j) {
        let (i, j) = choose|i: int, j: int| is_first_link_token(s, i, j);
        let u = s.subrange(i, j);
        assert forall|k: int| 0 <= k < u.len() implies !is_white_space(#[trigger] u[k]) by {
            assert(u[k] == s[i + k]);
        }
    } else {
        assert forall|i: int, j: int| !#[trigger] is_link_token(s, i, j) by {
            if is_link_token(s, i, j) {
                lemma_first_link_exists(s, i, j);
            }
        }
    }
}

/// When some token is a link, a first one exists.
proof fn lemma_first_link_exists(s: Seq<char>, i: int, j: int)
    requires
        is_link_token(s, i, j),
    ensures
        exists|a: int, b: int| is_first_link_token(s, a, b),
    decreases i,
{
    if forall|i2: int, j2: int| #[trigger] is_link_token(s, i2, j2) ==> i <= i2 {
        assert(is_first_link_token(s, i, j));
    } else {
        let (i2, j2) = choose|i2: int, j2: int| #[trigger] is_link_token(s, i2, j2) && i2 < i;
        lemma_first_link_exists(s, i2, j2);
    }
}

/// The view of an optional owned string.
pub open spec fn opt_string_view(o: Option<String>) -> Option<Seq<char>> {
    match o {
        Some(s) => Some(s@),
        None => None,
    }
}

/// `cs[start..end]` begins with `p`.
fn prefix_at(cs: &Vec<char>, start: usize, end: usize, p: &Vec<char>) -> (b: bool)
    requires
        start <= end <= cs.len(),
    ensures
        b == starts_with(cs@.subrange(start as int, end as int), p@),
{
    if p.len() > end - start {
        return false;
    }
    let mut k: usize = 0;
    while k < p.len()
        invariant
            start <= end <= cs.len(),
            p.len() <= end - start,
            k <= p.len(),
            forall|m: int| 0 <= m < k ==> cs@[start + m] == p@[m],
        decreases p.len() - k,
    {
        if cs[start + k] != p[k] {
            assert(cs@.subrange(start as int, end as int).subrange(0, p.len() as int)[k as int]
                != p@[k as int]);
            return false;
        }
        k = k + 1;
    }
    assert(cs@.subrange(start as int, end as int).subrange(0, p.len() as int) =~= p@);
    true
}

/// The first white-space-separated word of a message that is a web link.
pub fn extract_url(content: &str) -> (r: Option<String>)
    ensures
        opt_string_view(r) == first_link(content@),
{
    let cs = chars_of(content);
    let n = cs.len();
    let http: Vec<char> = vec!['h', 't', 't', 'p', ':', '/', '/'];
    let https: Vec<char> = vec!['h', 't', 't', 'p', 's', ':', '/', '/'];
    assert(http@ =~= http_prefix());
    assert(https@ =~= https_prefix());
    let ghost s = content@;
    let mut i: usize = 0;
    while i < n
        invariant
            s == content@,
            cs@ == s,
            n == s.len(),
            http@ == http_prefix(),
            https@ == https_prefix(),
            i <= n,
            i == 0 || i == n || is_white_space(s[i - 1]) || is_white_space(s[i as int]),
            forall|i2: int, j2: int| #[trigger] is_link_token(s, i2, j2) ==> i <= i2,
        decreases n - i,
    {
        if char_is_white_space(cs[i]) {
            proof {
                assert forall|i2: int, j2: int| #[trigger] is_link_token(s, i2, j2) implies i + 1
                    <= i2 by {
                    if i2 == i {
                        assert(!is_white_space(s[i2]));
                    }
                }
            }
            i = i + 1;
        } else {
            let mut j: usize = i + 1;
            while j < n && !char_is_white_space(cs[j])
                invariant
                    cs@ == s,
                    n == s.len(),
                    i < j <= n,
                    forall|k: int| i <= k < j ==> !is_white_space(#[trigger] s[k]),
                decreases n - j,
            {
                j = j + 1;
            }
            assert(is_token(s, i as int, j as int));
            if prefix_at(&cs, i, j, &http) || prefix_at(&cs, i, j, &https) {
                let sub = content.substring_char(i, j);
                let r = String::from_str(sub);
                proof {
                    assert(is_first_link_token(s, i as int, j as int));
                    lemma_first_link_is(s, i as int, j as int);
                }
                return Some(r);
            }
            proof {
                assert forall|i2: int, j2: int| #[trigger] is_link_token(s, i2, j2) implies j
                    <= i2 by {
                    if i2 == i {
                        lemma_token_end_unique(s, i as int, j as int, j2);
                    } else if i < i2 < j {
                        assert(!is_white_space(s[i2 - 1]));
                    }
                }
            }
            i = j;
        }
    }
    proof {
        assert(!exists|i: int, j: int| is_first_link_token(s, i, j));
    }
    None
}


/// The reaction the bot leaves on a message once it has posted that message's
/// article summary.
pub const SUMMARY_MARKER: &'static str = "\u{2705}";

/// The bot's own summary marker.
pub open spec fn is_bot_marker(r: DiscordReaction) -> bool {
    r.me && match r.emoji.name {
        Some(n) => n@ == SUMMARY_MARKER@,
        None => false,
    }
}

/// Some reaction on the message is the bot's own summary marker.
pub open spec fn already_summarized(msg: DiscordMessage) -> bool {
    exists|i: int| 0 <= i < msg.reactions.len() && #[trigger] is_bot_marker(msg.reactions@[i])
}

/// Whether the bot has already posted a summary of this message (it then carries the
/// bot's own marker reaction).
pub fn bot_already_replied(msg: &DiscordMessage) -> (b: bool)
    ensures
        b == already_summarized(*msg),
{
    let marker = String::from_str(SUMMARY_MARKER);
    let mut i: usize = 0;
    while i < msg.reactions.len()
        invariant
            marker@ == SUMMARY_MARKER@,
            i <= msg.reactions.len(),
            forall|k: int| 0 <= k < i ==> !#[trigger] is_bot_marker(msg.reactions@[k]),
        decreases msg.reactions.len() - i,
    {
        let r = &msg.reactions[i];
        if r.me {
            match &r.emoji.name {
                Some(n) => {
                    if n.eq(&marker) {
                        assert(is_bot_marker(msg.reactions@[i as int]));
                        return true;
                    }
                },
                None => {},
            }
        }
        i = i + 1;
    }
    false
}

/// What readability makes of a page: its readable text, or why there is none.
pub enum Extraction {
    Text(String),
    InvalidUrl(String),
    Unreadable(String),
}

/// [`Extraction`] with its strings taken as character sequences.
pub enum ExtractionView {
    Text(Seq<char>),
    InvalidUrl(Seq<char>),
    Unreadable(Seq<char>),
}

impl View for Extraction {
    type V = ExtractionView;

    open spec fn view(&self) -> ExtractionView {
        match self {
            Extraction::Text(t) => ExtractionView::Text(t@),
            Extraction::InvalidUrl(e) => ExtractionView::InvalidUrl(e@),
            Extraction::Unreadable(e) => ExtractionView::Unreadable(e@),
        }
    }
}

/// What readability extracts from the HTML `html` of the page at address `url`.
pub uninterp spec fn readability_extraction(html: Seq<char>, url: Seq<char>) -> ExtractionView;

/// `readability::extractor::extract` on the page `html` found at `url` (parsed with
/// `reqwest::Url::parse` first): the text of the readable part of the page, or the
/// message of the URL parse error or of the extraction error. The result is named,
/// not stated: it depends on the HTML and the address alone.
#[verifier::external_body]
fn readability_extract(html: &str, url: &str) -> (r: Extraction)
    ensures
        r@ == readability_extraction(html@, url@),
{
    match reqwest::Url::parse(url) {
        Err(e) => Extraction::InvalidUrl(e.to_string()),
        Ok(u) => match readability::extractor::extract(&mut std::io::Cursor::new(html.as_bytes()), &u) {
            Ok(product) => Extraction::Text(product.text),
            Err(e) => Extraction::Unreadable(e.to_string()),
        },
    }
}

/// Every character is white space (so trimming leaves nothing).
pub open spec fn is_blank(t: Seq<char>) -> bool {
    forall|k: int| 0 <= k < t.len() ==> is_white_space(#[trigger] t[k])
}

/// Whether a text is empty once trimmed.
pub fn text_is_blank(t: &str) -> (b: bool)
    ensures
        b == is_blank(t@),
{
    let cs = chars_of(t);
    let mut k: usize = 0;
    while k < cs.len()
        invariant
            cs@ == t@,
            k <= cs.len(),
            forall|m: int| 0 <= m < k ==> is_white_space(#[trigger] cs@[m]),
        decreases cs.len() - k,
    {
        if !char_is_white_space(cs[k]) {
            return false;
        }
        k = k + 1;
    }
    true
}

/// The article text of a fetched page, or the error reported for it.
pub open spec fn article_text_result(html: Seq<char>, url: Seq<char>) -> Result<Seq<char>, Seq<char>> {
    match readability_extraction(html, url) {
        ExtractionView::InvalidUrl(e) => Err("Invalid URL: "@ + e),
        ExtractionView::Unreadable(e) => Err("Failed to extract article content: "@ + e),
        ExtractionView::Text(t) => if is_blank(t) {
            Err("Article content is empty (possibly paywalled or JS-only)"@)
        } else {
            Ok(t)
        },
    }
}

/// The view of a result of strings.
pub open spec fn result_view(r: Result<String, String>) -> Result<Seq<char>, Seq<char>> {
    match r {
        Ok(s) => Ok(s@),
        Err(e) => Err(e@),
    }
}

/// Turns the HTML of a fetched article page into its readable text.
pub fn article_text_from_html(html: &str, url: &str) -> (r: Result<String, String>)
    ensures
        result_view(r) == article_text_result(html@, url@),
{
    match readability_extract(html, url) {
        Extraction::InvalidUrl(e) => {
            let mut m = String::from_str("Invalid URL: ");
            m.append(e.as_str());
            Err(m)
        },
        Extraction::Unreadable(e) => {
            let mut m = String::from_str("Failed to extract article content: ");
            m.append(e.as_str());
            Err(m)
        },
        Extraction::Text(t) => {
            if text_is_blank(t.as_str()) {
                Err(String::from_str("Article content is empty (possibly paywalled or JS-only)"))
            } else {
                Ok(t)
            }
        },
    }
}

} // verus!
