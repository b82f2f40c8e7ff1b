//! The user names and tags that the text of a post mentions.
//!
//! A user name is written as `@` followed by a basic Latin letter and any
//! number of letters, digits and underscores; a tag in the same way behind
//! `#`. A mention reaches as far as such characters go, and the text is
//! read from left to right: what lies inside one mention begins no other.

use vstd::prelude::*;
use crate::text::{
    append_range,
    append_str,
    chars_of,
    find_word_end,
    is_letter,
    lemma_word_end,
    letter,
    string_of,
    word_end,
};

verus! {

/// Whether a mention announced by `sign` begins at position `i` of `s`.
pub open spec fn mention_at(s: Seq<char>, i: int, sign: char) -> bool {
    0 <= i && i + 1 < s.len() && s[i] == sign && is_letter(s[i + 1])
}

/// The link to the profile of the user `name`, in Markdown.
pub open spec fn profile_link(name: Seq<char>) -> Seq<char> {
    "[@"@ + name + "](https://www.instagram.com/"@ + name + ")"@
}

/// The text of `s` from position `i` on, each user name replaced by the
/// link to its profile.
pub open spec fn linked_from(s: Seq<char>, i: int) -> Seq<char>
    decreases s.len() - i,
{
    if i < 0 || i >= s.len() {
        Seq::empty()
    } else if mention_at(s, i, '@') {
        proof {
            lemma_word_end(s, i + 1);
        }
        profile_link(s.subrange(i + 1, word_end(s, i + 1))) + linked_from(s, word_end(s, i + 1))
    } else {
        seq![s[i]] + linked_from(s, i + 1)
    }
}

/// The text `s` with each user name replaced by the link to its profile.
pub open spec fn with_linked_usernames(s: Seq<char>) -> Seq<char> {
    linked_from(s, 0)
}

/// The bounds `(begin, end)` of the tags of `s` that begin at position `i`
/// or behind it, in their order. A tag's bounds take in its `#`.
pub open spec fn tag_spans_from(s: Seq<char>, i: int) -> Seq<(int, int)>
    decreases s.len() - i,
{
    if i < 0 || i >= s.len() {
        Seq::empty()
    } else if mention_at(s, i, '#') {
        proof {
            lemma_word_end(s, i + 1);
        }
        seq![(i, word_end(s, i + 1))] + tag_spans_from(s, word_end(s, i + 1))
    } else {
        tag_spans_from(s, i + 1)
    }
}

/// The bounds of the tags of `s`, in their order.
pub open spec fn tag_spans(s: Seq<char>) -> Seq<(int, int)> {
    tag_spans_from(s, 0)
}

/// A tag found in a text: where it begins and ends, counted in
/// characters, and what it reads, with its `#`.
#[derive(Debug)]
pub struct Hashtag {
    pub start: usize,
    pub end: usize,
    pub text: String,
}

/// Whether `tags` are the tags of `s`: as many as `s` has, each with the
/// bounds and the text of its tag.
pub open spec fn are_tags_of(tags: Seq<Hashtag>, s: Seq<char>) -> bool {
    &&& tags.len() == tag_spans(s).len()
    &&& forall|k: int|
        0 <= k < tags.len() ==> {
            &&& (#[trigger] tags[k]).start == tag_spans(s)[k].0
            &&& tags[k].end == tag_spans(s)[k].1
            &&& tags[k].text@ == s.subrange(tag_spans(s)[k].0, tag_spans(s)[k].1)
        }
}

/// Tests whether a mention announced by `sign` begins at position `i`.
fn mention_begins(s: &Vec<char>, i: usize, sign: char) -> (yes: bool)
    requires
        i < s.len(),
    ensures
        yes == mention_at(s@, i as int, sign),
{
    s[i] == sign && s.len() - i > 1 && letter(s[i + 1])
}

/// Replaces each user name in `s` by the link to its profile.
pub fn link_usernames(s: &Vec<char>) -> (out: Vec<char>)
    ensures
        out@ == with_linked_usernames(s@),
{
    let mut out: Vec<char> = Vec::new();
    let mut i: usize = 0;
    while i < s.len()
        invariant
            i <= s.len(),
            with_linked_usernames(s@) == out@ + linked_from(s@, i as int),
        decreases s.len() - i,
    {
        let ghost before = out@;
        if mention_begins(s, i, '@') {
            let e = find_word_end(s, i + 1);
            append_str(&mut out, "[@");
            append_range(&mut out, s, i + 1, e);
            append_str(&mut out, "](https://www.instagram.com/");
            append_range(&mut out, s, i + 1, e);
            append_str(&mut out, ")");
            assert(out@ == before + profile_link(s@.subrange(i + 1, e as int)));
            assert(before + linked_from(s@, i as int) == out@ + linked_from(s@, e as int));
            i = e;
        } else {
            out.push(s[i]);
            assert(before + linked_from(s@, i as int) == out@ + linked_from(s@, i + 1));
            i += 1;
        }
    }
    out
}

/// Replaces each user name in `input` by a Markdown link to the user's
/// profile; the rest of the text stays as it is.
pub fn match_and_replace_usernames(input: &str) -> (output: String)
    ensures
        output@ == with_linked_usernames(input@),
{
    let s = chars_of(input);
    let out = link_usernames(&s);
    string_of(&out)
}

/// Finds the tags of `s`.
pub fn find_tags(s: &Vec<char>) -> (tags: Vec<Hashtag>)
    ensures
        are_tags_of(tags@, s@),
{
    let mut tags: Vec<Hashtag> = Vec::new();
    let ghost mut spans: Seq<(int, int)> = Seq::empty();
    let mut i: usize = 0;
    while i < s.len()
        invariant
            i <= s.len(),
            tag_spans(s@) == spans + tag_spans_from(s@, i as int),
            tags.len() == spans.len(),
            forall|k: int|
                0 <= k < tags.len() ==> {
                    &&& (#[trigger] tags[k]).start == spans[k].0
                    &&& tags[k].end == spans[k].1
                    &&& tags[k].text@ == s@.subrange(spans[k].0, spans[k].1)
                },
        decreases s.len() - i,
    {
        if mention_begins(s, i, '#') {
            let e = find_word_end(s, i + 1);
            let mut text: Vec<char> = Vec::new();
            append_range(&mut text, s, i, e);
            tags.push(Hashtag { start: i, end: e, text: string_of(&text) });
            proof {
                let grown = spans.push((i as int, e as int));
                assert(spans + tag_spans_from(s@, i as int) == grown + tag_spans_from(
                    s@,
                    e as int,
                ));
                spans = grown;
            }
            i = e;
        } else {
            i += 1;
        }
    }
    assert(spans + tag_spans_from(s@, s.len() as int) == spans);
    tags
}

/// Finds the tags of `input`, from left to right.
pub fn find_hashtags(input: &str) -> (tags: Vec<Hashtag>)
    ensures
        are_tags_of(tags@, input@),
{
    let s = chars_of(input);
    find_tags(&s)
}

} // verus!
