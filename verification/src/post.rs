//! Preparing a post for rendering: its text with the user names linked,
//! its tags, its headings, the paths of its media and of its thumbnail,
//! and the path of the document written for it.

use vstd::prelude::*;
use crate::error::ArchiveError;
use crate::instagram::{find_tags, link_usernames, tag_spans, with_linked_usernames, Hashtag};
use crate::names::{extension_chars, extension_of, file_stem_of, stem_chars};
use crate::text::{append_chars, append_range, append_str, chars_of, string_of};
use crate::timestamp::{
    calendar_path_text,
    date_text,
    get_datetime_from_string,
    leads_to_post,
    moment_of_path,
    time_text,
    time_text_24h,
    title_text,
};

verus! {

/// Whether `c` is white space, as Unicode defines it.
pub open spec fn is_white_space(c: char) -> bool {
    let n = c as int;
    ||| 9 <= n <= 13
    ||| n == 0x20
    ||| n == 0x85
    ||| n == 0xA0
    ||| n == 0x1680
    ||| 0x2000 <= n <= 0x200A
    ||| n == 0x2028
    ||| n == 0x2029
    ||| n == 0x202F
    ||| n == 0x205F
    ||| n == 0x3000
}

/// Whether `c` is one of the punctuation characters of ASCII.
pub open spec fn is_punctuation(c: char) -> bool {
    let n = c as int;
    ||| 33 <= n <= 47
    ||| 58 <= n <= 64
    ||| 91 <= n <= 96
    ||| 123 <= n <= 126
}

/// Tests whether `c` is white space.
pub fn white_space(c: char) -> (yes: bool)
    ensures
        yes == is_white_space(c),
{
    let n = c as u32;
    (9 <= n && n <= 13) || n == 0x20 || n == 0x85 || n == 0xA0 || n == 0x1680 || (0x2000 <= n
        && n <= 0x200A) || n == 0x2028 || n == 0x2029 || n == 0x202F || n == 0x205F || n == 0x3000
}

/// Tests whether `c` is one of the punctuation characters of ASCII.
pub fn punctuation(c: char) -> (yes: bool)
    ensures
        yes == is_punctuation(c),
{
    let n = c as u32;
    (33 <= n && n <= 47) || (58 <= n && n <= 64) || (91 <= n && n <= 96) || (123 <= n && n
        <= 126)
}

/// Where the run of white space that begins at `i` ends.
pub open spec fn space_end(s: Seq<char>, i: int) -> int
    decreases s.len() - i,
{
    if 0 <= i < s.len() && is_white_space(s[i]) {
        space_end(s, i + 1)
    } else {
        i
    }
}

/// Where the word that begins at `i` ends: at the next white space, or at
/// the end of the text.
pub open spec fn word_stop(s: Seq<char>, i: int) -> int
    decreases s.len() - i,
{
    if 0 <= i < s.len() && !is_white_space(s[i]) {
        word_stop(s, i + 1)
    } else {
        i
    }
}

/// The word `w` without its punctuation.
pub open spec fn without_punctuation(w: Seq<char>) -> Seq<char>
    decreases w.len(),
{
    if w.len() == 0 {
        Seq::empty()
    } else {
        let before = without_punctuation(w.drop_last());
        if is_punctuation(w.last()) {
            before
        } else {
            before.push(w.last())
        }
    }
}

/// The first two words of `s`, each without its punctuation, with one
/// space between them; where `s` has one word, that word; where it has
/// none, nothing.
pub open spec fn first_words(s: Seq<char>) -> Seq<char> {
    let b1 = space_end(s, 0);
    let e1 = word_stop(s, b1);
    let b2 = space_end(s, e1);
    let e2 = word_stop(s, b2);
    if b1 >= s.len() {
        Seq::empty()
    } else if b2 >= s.len() {
        without_punctuation(s.subrange(b1, e1))
    } else {
        without_punctuation(s.subrange(b1, e1)) + seq![' '] + without_punctuation(
            s.subrange(b2, e2),
        )
    }
}

fn find_space_end(s: &Vec<char>, i: usize) -> (end: usize)
    requires
        i <= s.len(),
    ensures
        end == space_end(s@, i as int),
        i <= end <= s.len(),
{
    let mut e: usize = i;
    while e < s.len() && white_space(s[e])
        invariant
            i <= e <= s.len(),
            space_end(s@, i as int) == space_end(s@, e as int),
        decreases s.len() - e,
    {
        e += 1;
    }
    e
}

fn find_word_stop(s: &Vec<char>, i: usize) -> (end: usize)
    requires
        i <= s.len(),
    ensures
        end == word_stop(s@, i as int),
        i <= end <= s.len(),
{
    let mut e: usize = i;
    while e < s.len() && !white_space(s[e])
        invariant
            i <= e <= s.len(),
            word_stop(s@, i as int) == word_stop(s@, e as int),
        decreases s.len() - e,
    {
        e += 1;
    }
    e
}

/// Appends the word `s[from..to]` to `out`, without its punctuation.
fn append_without_punctuation(out: &mut Vec<char>, s: &Vec<char>, from: usize, to: usize)
    requires
        from <= to <= s.len(),
    ensures
        final(out)@ == old(out)@ + without_punctuation(s@.subrange(from as int, to as int)),
{
    let mut i: usize = from;
    assert(without_punctuation(s@.subrange(from as int, from as int)) == Seq::<char>::empty());
    while i < to
        invariant
            from <= i <= to <= s.len(),
            out@ == old(out)@ + without_punctuation(s@.subrange(from as int, i as int)),
        decreases to - i,
    {
        proof {
            let w = s@.subrange(from as int, i + 1);
            assert(w.drop_last() == s@.subrange(from as int, i as int));
            assert(w.last() == s@[i as int]);
        }
        if !punctuation(s[i]) {
            out.push(s[i]);
        }
        i += 1;
    }
}

/// The first two words of `s`, without their punctuation.
pub fn first_words_of(s: &Vec<char>) -> (words: Vec<char>)
    ensures
        words@ == first_words(s@),
{
    let mut out: Vec<char> = Vec::new();
    let b1 = find_space_end(s, 0);
    if b1 >= s.len() {
        return out;
    }
    let e1 = find_word_stop(s, b1);
    append_without_punctuation(&mut out, s, b1, e1);
    let b2 = find_space_end(s, e1);
    if b2 >= s.len() {
        return out;
    }
    let e2 = find_word_stop(s, b2);
    out.push(' ');
    append_without_punctuation(&mut out, s, b2, e2);
    out
}

/// The lower-case form of a basic Latin letter; any other character is
/// left as it is.
pub open spec fn lower(c: char) -> char {
    if 'A' <= c && c <= 'Z' {
        ((c as int) + 32) as char
    } else {
        c
    }
}

/// Whether `c` gives way to a hyphen in the name of a document.
pub open spec fn is_dashed(c: char) -> bool {
    ||| c == ','
    ||| c == ' '
    ||| c == '!'
    ||| c == '.'
    ||| c == ':'
    ||| c == '?'
    ||| c == '#'
    ||| c == '@'
    ||| c == '('
    ||| c == ')'
    ||| c == '='
    ||| c == '\''
    ||| c == '"'
}

/// What a character becomes in the name of a document: a hyphen, or its
/// lower-case form.
pub open spec fn slug_char(c: char) -> char {
    if is_dashed(c) {
        '-'
    } else {
        lower(c)
    }
}

/// `s` with every character turned into what it becomes in the name of a
/// document.
pub open spec fn dashed(s: Seq<char>) -> Seq<char> {
    Seq::new(s.len(), |i: int| slug_char(s[i]))
}

/// `s` from position `i` on, read from left to right, with each pair of
/// hyphens replaced by one.
pub open spec fn collapsed_from(s: Seq<char>, i: int) -> Seq<char>
    decreases s.len() - i,
{
    if i < 0 || i >= s.len() {
        Seq::empty()
    } else if s[i] == '-' && i + 1 < s.len() && s[i + 1] == '-' {
        seq!['-'] + collapsed_from(s, i + 2)
    } else {
        seq![s[i]] + collapsed_from(s, i + 1)
    }
}

/// The form that a title's beginning takes in the name of a document:
/// lower case, a hyphen for each space and each sign, and pairs of hyphens
/// made one.
pub open spec fn slug_of(s: Seq<char>) -> Seq<char> {
    collapsed_from(dashed(s), 0)
}

fn to_slug_char(c: char) -> (r: char)
    ensures
        r == slug_char(c),
{
    if c == ',' || c == ' ' || c == '!' || c == '.' || c == ':' || c == '?' || c == '#' || c
        == '@' || c == '(' || c == ')' || c == '=' || c == '\'' || c == '"' {
        '-'
    } else if 'A' <= c && c <= 'Z' {
        ((c as u8) + 32) as char
    } else {
        c
    }
}

/// Turns `s` into the form it takes in the name of a document.
pub fn slugify_chars(s: &Vec<char>) -> (slug: Vec<char>)
    ensures
        slug@ == slug_of(s@),
{
    let mut mapped: Vec<char> = Vec::new();
    let mut k: usize = 0;
    while k < s.len()
        invariant
            k <= s.len(),
            mapped.len() == k,
            forall|j: int| 0 <= j < k ==> mapped[j] == slug_char(s[j]),
        decreases s.len() - k,
    {
        mapped.push(to_slug_char(s[k]));
        k += 1;
    }
    assert(mapped@ == dashed(s@));
    let mut out: Vec<char> = Vec::new();
    let mut i: usize = 0;
    while i < mapped.len()
        invariant
            i <= mapped.len(),
            collapsed_from(mapped@, 0) == out@ + collapsed_from(mapped@, i as int),
        decreases mapped.len() - i,
    {
        let ghost before = out@;
        if mapped[i] == '-' && mapped.len() - i > 1 && mapped[i + 1] == '-' {
            out.push('-');
            assert(before + collapsed_from(mapped@, i as int) == out@ + collapsed_from(
                mapped@,
                i + 2,
            ));
            i += 2;
        } else {
            out.push(mapped[i]);
            assert(before + collapsed_from(mapped@, i as int) == out@ + collapsed_from(
                mapped@,
                i + 1,
            ));
            i += 1;
        }
    }
    out
}

/// Turns `text` into the form it takes in the name of a document: lower
/// case, a hyphen for each space and each sign, pairs of hyphens made one.
pub fn slugify(text: &str) -> (slug: String)
    ensures
        slug@ == slug_of(text@),
{
    let s = chars_of(text);
    let out = slugify_chars(&s);
    string_of(&out)
}

/// The ASCII transliteration that `unidecode` gives for a text.
pub uninterp spec fn transliterated(text: Seq<char>) -> Seq<char>;

/// Transliterates `text` into ASCII.
///
/// `unidecode::unidecode` maps each character of the text to the ASCII
/// text that its table holds for it, and joins the results in order. The
/// contract only gives that result a name.
#[verifier::external_body]
pub(crate) fn transliterate(text: &str) -> (ascii: String)
    ensures
        ascii@ == transliterated(text@),
{
    unidecode::unidecode(text)
}

/// The tags of the text `s`, each without its `#`, in their order.
pub open spec fn tag_names(s: Seq<char>) -> Seq<Seq<char>> {
    Seq::new(tag_spans(s).len(), |k: int| s.subrange(tag_spans(s)[k].0 + 1, tag_spans(s)[k].1))
}

/// What the title and the document's name begin with: the first tag of
/// the text, or its first two words where it has no tag.
pub open spec fn title_source(text: Seq<char>) -> Seq<char> {
    if tag_names(text).len() > 0 {
        tag_names(text)[0]
    } else {
        first_words(text)
    }
}

/// The address under which the archive serves the media file `asset` of
/// a post of the day `calendar_path`.
pub open spec fn asset_url(calendar_path: Seq<char>, asset: Seq<char>) -> Seq<char> {
    "/img/instagram/"@ + calendar_path + seq!['/'] + asset
}

/// The address of the thumbnail of the media file served under `url`: in
/// the same place, `_thumb` added to the stem. There is none where `url`
/// names no file or the file's name has no extension.
pub open spec fn thumbnail_url(calendar_path: Seq<char>, url: Seq<char>) -> Option<Seq<char>> {
    if file_stem_of(url) is Some && extension_of(url) is Some {
        Some(
            "/img/instagram/"@ + calendar_path + seq!['/'] + file_stem_of(url)->0 + "_thumb."@
                + extension_of(url)->0,
        )
    } else {
        None
    }
}

/// A post as the template takes it.
#[derive(Debug)]
pub struct Post {
    pub title: String,
    pub thumbnail_image: String,
    pub date: String,
    pub time_heading: String,
    pub categories: Vec<String>,
    pub tags: Vec<String>,
    pub heading: String,
    pub text: String,
    pub images: Vec<String>,
    pub filename: String,
}

/// A post as plain text.
pub struct PostView {
    pub title: Seq<char>,
    pub thumbnail_image: Seq<char>,
    pub date: Seq<char>,
    pub time_heading: Seq<char>,
    pub categories: Seq<Seq<char>>,
    pub tags: Seq<Seq<char>>,
    pub heading: Seq<char>,
    pub text: Seq<char>,
    pub images: Seq<Seq<char>>,
    pub filename: Seq<char>,
}

impl View for Post {
    type V = PostView;

    open spec fn view(&self) -> PostView {
        PostView {
            title: self.title@,
            thumbnail_image: self.thumbnail_image@,
            date: self.date@,
            time_heading: self.time_heading@,
            categories: self.categories.deep_view(),
            tags: self.tags.deep_view(),
            heading: self.heading@,
            text: self.text@,
            images: self.images.deep_view(),
            filename: self.filename@,
        }
    }
}

impl Default for Post {
    /// The post with nothing in it.
    fn default() -> (post: Post)
        ensures
            post@ == (PostView {
                title: Seq::empty(),
                thumbnail_image: Seq::empty(),
                date: Seq::empty(),
                time_heading: Seq::empty(),
                categories: Seq::empty(),
                tags: Seq::empty(),
                heading: Seq::empty(),
                text: Seq::empty(),
                images: Seq::empty(),
                filename: Seq::empty(),
            }),
    {
        let post = Post {
            title: String::new(),
            thumbnail_image: String::new(),
            date: String::new(),
            time_heading: String::new(),
            categories: Vec::new(),
            tags: Vec::new(),
            heading: String::new(),
            text: String::new(),
            images: Vec::new(),
            filename: String::new(),
        };
        assert(post.categories.deep_view() == Seq::<Seq<char>>::empty());
        assert(post.tags.deep_view() == Seq::<Seq<char>>::empty());
        assert(post.images.deep_view() == Seq::<Seq<char>>::empty());
        post
    }
}

/// Whether a post can be made of the file named `post_name` and the media
/// `assets`: the name is that of a post, and the first of the media has a
/// thumbnail.
pub open spec fn has_thumbnail(post_name: Seq<char>, assets: Seq<Seq<char>>) -> bool {
    let day = calendar_path_text(moment_of_path(post_name));
    assets.len() > 0 && thumbnail_url(day, asset_url(day, assets[0])) is Some
}

/// The post made of the file named `post_name`, whose text is `contents`
/// and whose media are `assets`.
pub open spec fn post_of(post_name: Seq<char>, contents: Seq<char>, assets: Seq<Seq<char>>)
    -> PostView {
    let moment = moment_of_path(post_name);
    let day = calendar_path_text(moment);
    let text = with_linked_usernames(contents);
    let tags = tag_names(text);
    PostView {
        title: if tags.len() > 0 {
            tags[0] + " | "@ + title_text(moment)
        } else {
            title_text(moment)
        },
        thumbnail_image: thumbnail_url(day, asset_url(day, assets[0]))->0,
        date: date_text(moment),
        time_heading: time_text_24h(moment),
        categories: seq!["instagram"@],
        tags: tags,
        heading: time_text(moment),
        text: text,
        images: Seq::new(assets.len(), |k: int| asset_url(day, assets[k])),
        filename: day + seq!['/'] + slug_of(transliterated(title_source(text))) + seq!['-']
            + file_stem_of(post_name)->0 + ".md"@,
    }
}

/// The names of `tags`, each without its `#`.
fn names_of_tags(text: &Vec<char>, tags: &Vec<Hashtag>) -> (names: Vec<Vec<char>>)
    requires
        crate::instagram::are_tags_of(tags@, text@),
    ensures
        names.len() == tag_names(text@).len(),
        forall|k: int| 0 <= k < names.len() ==> (#[trigger] names[k])@ == tag_names(text@)[k],
{
    let mut names: Vec<Vec<char>> = Vec::new();
    let mut k: usize = 0;
    proof {
        lemma_tag_spans(text@, 0);
    }
    while k < tags.len()
        invariant
            k <= tags.len(),
            crate::instagram::are_tags_of(tags@, text@),
            spans_lie_inside(text@, tag_spans(text@)),
            names.len() == k,
            forall|j: int| 0 <= j < k ==> (#[trigger] names[j])@ == tag_names(text@)[j],
        decreases tags.len() - k,
    {
        let tag = &tags[k];
        assert(tag.start == tag_spans(text@)[k as int].0);
        assert(tag_spans(text@)[k as int].0 < tag_spans(text@)[k as int].1 <= text@.len());
        let mut name: Vec<char> = Vec::new();
        append_range(&mut name, text, tag.start + 1, tag.end);
        names.push(name);
        k += 1;
    }
    names
}

/// Whether each of `spans` begins before it ends, inside `s`.
pub open spec fn spans_lie_inside(s: Seq<char>, spans: Seq<(int, int)>) -> bool {
    forall|k: int| 0 <= k < spans.len() ==> 0 <= (#[trigger] spans[k]).0 < spans[k].1 <= s.len()
}

/// The bounds of a tag lie inside the text, and take in at least its `#`.
pub proof fn lemma_tag_spans(s: Seq<char>, i: int)
    requires
        0 <= i,
    ensures
        spans_lie_inside(s, crate::instagram::tag_spans_from(s, i)),
    decreases s.len() - i,
{
    if i < s.len() {
        if crate::instagram::mention_at(s, i, '#') {
            crate::text::lemma_word_end(s, i + 1);
            lemma_tag_spans(s, crate::text::word_end(s, i + 1));
        } else {
            lemma_tag_spans(s, i + 1);
        }
    }
}

/// The address of the media file `asset` of a post of the day `day`.
fn asset_url_chars(day: &Vec<char>, asset: &Vec<char>) -> (url: Vec<char>)
    ensures
        url@ == asset_url(day@, asset@),
{
    let mut url: Vec<char> = Vec::new();
    append_str(&mut url, "/img/instagram/");
    append_chars(&mut url, day);
    url.push('/');
    append_chars(&mut url, asset);
    url
}

/// The address of the thumbnail of the media file served under `url`.
fn thumbnail_url_chars(day: &Vec<char>, url: &Vec<char>) -> (thumb: Option<Vec<char>>)
    ensures
        match thumb {
            Some(t) => thumbnail_url(day@, url@) == Some(t@),
            None => thumbnail_url(day@, url@) is None,
        },
{
    let stem = match stem_chars(url) {
        Some(s) => s,
        None => { return None; },
    };
    let ext = match extension_chars(url) {
        Some(x) => x,
        None => { return None; },
    };
    let mut thumb: Vec<char> = Vec::new();
    append_str(&mut thumb, "/img/instagram/");
    append_chars(&mut thumb, day);
    thumb.push('/');
    append_chars(&mut thumb, &stem);
    append_str(&mut thumb, "_thumb.");
    append_chars(&mut thumb, &ext);
    Some(thumb)
}

/// Makes the post of the file named `post_name`, whose text is `contents`
/// and whose media are `asset_list`.
///
/// The user names in the text become links. The title is the long date,
/// behind the first tag where the text has one. The document's name
/// begins with the first tag, or the first two words of the text, in
/// ASCII and lower case.
///
/// Fails with `MalformedTimestamp` where `post_name` is not the name of a
/// post, and with `RenderFailure` where it is, but there is no media file
/// to name a thumbnail after.
pub fn convert_post(post_name: &str, contents: &str, asset_list: Vec<String>) -> (outcome: Result<
    Post,
    ArchiveError,
>)
    ensures
        match outcome {
            Ok(post) => {
                &&& leads_to_post(post_name@)
                &&& has_thumbnail(post_name@, asset_list.deep_view())
                &&& post@ == post_of(post_name@, contents@, asset_list.deep_view())
            },
            Err(e) => if !leads_to_post(post_name@) {
                e == ArchiveError::MalformedTimestamp
            } else {
                e == ArchiveError::RenderFailure && !has_thumbnail(
                    post_name@,
                    asset_list.deep_view(),
                )
            },
        },
{
    let moment = match get_datetime_from_string(post_name) {
        Ok(t) => t,
        Err(e) => { return Err(e); },
    };
    let ghost assets = asset_list.deep_view();
    let ghost wanted = post_of(post_name@, contents@, assets);
    let name = chars_of(post_name);
    let day = chars_of(moment.calendar_path().as_str());
    if asset_list.len() == 0 {
        return Err(ArchiveError::RenderFailure);
    }
    let first_url = asset_url_chars(&day, &chars_of(asset_list[0].as_str()));
    assert(assets[0] == asset_list[0]@);
    let thumbnail = match thumbnail_url_chars(&day, &first_url) {
        Some(t) => t,
        None => { return Err(ArchiveError::RenderFailure); },
    };
    let file_stem = match stem_chars(&name) {
        Some(s) => s,
        None => { return Err(ArchiveError::MalformedTimestamp); },
    };

    let text = link_usernames(&chars_of(contents));
    let found = find_tags(&text);
    let names = names_of_tags(&text, &found);

    let mut tags: Vec<String> = Vec::new();
    let mut k: usize = 0;
    while k < names.len()
        invariant
            k <= names.len(),
            tags.len() == k,
            forall|j: int| 0 <= j < k ==> (#[trigger] tags[j])@ == names[j]@,
        decreases names.len() - k,
    {
        tags.push(string_of(&names[k]));
        k += 1;
    }
    assert(tags.deep_view() == wanted.tags);

    let source = if names.len() > 0 {
        let mut first: Vec<char> = Vec::new();
        append_chars(&mut first, &names[0]);
        first
    } else {
        first_words_of(&text)
    };
    assert(source@ == title_source(text@));
    let ascii = transliterate(string_of(&source).as_str());
    let prefix = slugify_chars(&chars_of(ascii.as_str()));

    let mut title: Vec<char> = Vec::new();
    if names.len() > 0 {
        append_chars(&mut title, &names[0]);
        append_str(&mut title, " | ");
    }
    append_str(&mut title, moment.title_heading().as_str());
    assert(title@ == wanted.title);

    let mut images: Vec<String> = Vec::new();
    let mut a: usize = 0;
    while a < asset_list.len()
        invariant
            a <= asset_list.len(),
            images.len() == a,
            assets == asset_list.deep_view(),
            forall|j: int| 0 <= j < a ==> (#[trigger] images[j])@ == asset_url(day@, assets[j]),
        decreases asset_list.len() - a,
    {
        let url = asset_url_chars(&day, &chars_of(asset_list[a].as_str()));
        assert(assets[a as int] == asset_list[a as int]@);
        images.push(string_of(&url));
        a += 1;
    }
    assert(images.deep_view() == wanted.images);

    let mut filename: Vec<char> = Vec::new();
    append_chars(&mut filename, &day);
    filename.push('/');
    append_chars(&mut filename, &prefix);
    filename.push('-');
    append_chars(&mut filename, &file_stem);
    append_str(&mut filename, ".md");
    assert(filename@ == wanted.filename);

    let mut categories: Vec<String> = Vec::new();
    categories.push(string_of(&chars_of("instagram")));
    assert(categories.deep_view() == wanted.categories);

    let post = Post {
        title: string_of(&title),
        thumbnail_image: string_of(&thumbnail),
        date: moment.date_string(),
        time_heading: moment.time_string_24h(),
        categories,
        tags,
        heading: moment.time_string(),
        text: string_of(&text),
        images,
        filename: string_of(&filename),
    };
    Ok(post)
}

} // verus!
