//! Resolving the media of a post: which of the image and video files found
//! for it belong to its media set, and under which paths.
//!
//! An exported post that holds a video also holds the video's poster
//! frame, an image with the same stem. Only the video is to surface.

use vstd::prelude::*;
use crate::names::{file_name_of, file_stem_of, find_file_name, join_chars, joined, stem_chars};
use crate::text::{
    append_range,
    append_str,
    chars_of,
    has_prefix,
    same_chars,
    string_of,
};

verus! {

/// The stem by which an image is compared with the videos: its file stem,
/// or the empty text where its name is that of no file.
pub open spec fn image_stem(image: Seq<char>) -> Seq<char> {
    match file_stem_of(image) {
        Some(stem) => stem,
        None => Seq::empty(),
    }
}

/// Whether some entry of `videos` has the stem of `image`.
pub open spec fn is_shadowed(image: Seq<char>, videos: Seq<Seq<char>>) -> bool {
    exists|j: int|
        0 <= j < videos.len() && #[trigger] file_stem_of(videos[j]) == Some(image_stem(image))
}

/// The images that no video shadows, in their order.
pub open spec fn kept_images(images: Seq<Seq<char>>, videos: Seq<Seq<char>>) -> Seq<Seq<char>>
    decreases images.len(),
{
    if images.len() == 0 {
        Seq::empty()
    } else {
        let before = kept_images(images.drop_last(), videos);
        if is_shadowed(images.last(), videos) {
            before
        } else {
            before.push(images.last())
        }
    }
}

/// The media set: the images that no video shadows, then all the videos.
pub open spec fn merged_media(images: Seq<Seq<char>>, videos: Seq<Seq<char>>) -> Seq<Seq<char>> {
    kept_images(images, videos) + videos
}

/// What holds of the images that are kept: none of them is shadowed, each
/// is one of `images`, and every image that no video shadows is among them.
pub proof fn lemma_kept_images(images: Seq<Seq<char>>, videos: Seq<Seq<char>>)
    ensures
        kept_images(images, videos).len() <= images.len(),
        forall|i: int|
            0 <= i < kept_images(images, videos).len() ==> !is_shadowed(
                #[trigger] kept_images(images, videos)[i],
                videos,
            ) && images.contains(kept_images(images, videos)[i]),
        forall|i: int|
            0 <= i < images.len() && !is_shadowed(#[trigger] images[i], videos) ==> kept_images(
                images,
                videos,
            ).contains(images[i]),
    decreases images.len(),
{
    if images.len() > 0 {
        let front = images.drop_last();
        let before = kept_images(front, videos);
        let kept = kept_images(images, videos);
        lemma_kept_images(front, videos);
        assert forall|i: int| 0 <= i < kept.len() implies !is_shadowed(#[trigger] kept[i], videos)
            && images.contains(kept[i]) by {
            if i < before.len() {
                assert(kept[i] == before[i]);
                let k = choose|k: int| 0 <= k < front.len() && front[k] == before[i];
                assert(images[k] == before[i]);
            } else {
                assert(kept[i] == images.last());
                assert(images[images.len() - 1] == images.last());
            }
        }
        assert forall|i: int|
            0 <= i < images.len() && !is_shadowed(#[trigger] images[i], videos) implies kept.contains(
            images[i],
        ) by {
            if i < front.len() {
                assert(front[i] == images[i]);
                let k = choose|k: int| 0 <= k < before.len() && before[k] == front[i];
                assert(kept[k] == images[i]);
            } else {
                assert(kept[kept.len() - 1] == images[i]);
            }
        }
    }
}

/// The media set holds no image whose stem is that of a video, and holds
/// the videos behind the images, each where it stood and as often as it
/// was found.
pub proof fn law_merge_drops_shadowed_images(images: Seq<Seq<char>>, videos: Seq<Seq<char>>)
    ensures
        merged_media(images, videos).len() == kept_images(images, videos).len() + videos.len(),
        merged_media(images, videos).take(kept_images(images, videos).len() as int)
            == kept_images(images, videos),
        merged_media(images, videos).skip(kept_images(images, videos).len() as int) == videos,
        forall|i: int, j: int|
            0 <= i < kept_images(images, videos).len() && 0 <= j < videos.len() ==> file_stem_of(
                #[trigger] videos[j],
            ) != Some(image_stem(#[trigger] kept_images(images, videos)[i])),
{
    lemma_kept_images(images, videos);
    let kept = kept_images(images, videos);
    assert forall|i: int, j: int| 0 <= i < kept.len() && 0 <= j < videos.len() implies file_stem_of(
        #[trigger] videos[j],
    ) != Some(image_stem(#[trigger] kept[i])) by {
        assert(!is_shadowed(kept[i], videos));
    }
}

/// A video found once more, under a stem that a video of the list has
/// already, shadows no further image and is itself kept: the media set
/// is the one without it, with the repeated entry at its end.
pub proof fn law_repeated_video_stays(
    images: Seq<Seq<char>>,
    videos: Seq<Seq<char>>,
    again: Seq<char>,
)
    requires
        exists|j: int|
            0 <= j < videos.len() && #[trigger] file_stem_of(videos[j]) == file_stem_of(again),
    ensures
        kept_images(images, videos.push(again)) == kept_images(images, videos),
        merged_media(images, videos.push(again)) == merged_media(images, videos).push(again),
    decreases images.len(),
{
    let more = videos.push(again);
    if images.len() > 0 {
        law_repeated_video_stays(images.drop_last(), videos, again);
        let image = images.last();
        if is_shadowed(image, videos) {
            let j = choose|j: int|
                0 <= j < videos.len() && #[trigger] file_stem_of(videos[j]) == Some(
                    image_stem(image),
                );
            assert(more[j] == videos[j]);
            assert(file_stem_of(more[j]) == Some(image_stem(image)));
        }
        if is_shadowed(image, more) {
            let j = choose|j: int|
                0 <= j < more.len() && #[trigger] file_stem_of(more[j]) == Some(image_stem(image));
            if j < videos.len() {
                assert(more[j] == videos[j]);
                assert(file_stem_of(videos[j]) == Some(image_stem(image)));
            } else {
                let k = choose|k: int|
                    0 <= k < videos.len() && #[trigger] file_stem_of(videos[k]) == file_stem_of(
                        again,
                    );
                assert(file_stem_of(videos[k]) == Some(image_stem(image)));
            }
        }
    }
    assert(kept_images(images, videos) + videos.push(again) == (kept_images(images, videos)
        + videos).push(again));
}

/// The stems of the files in `videos`, entry by entry.
fn video_stems(videos: &Vec<String>) -> (stems: Vec<Option<Vec<char>>>)
    ensures
        stems.len() == videos.len(),
        forall|j: int|
            0 <= j < stems.len() ==> match #[trigger] stems[j] {
                Some(s) => file_stem_of(videos[j]@) == Some(s@),
                None => file_stem_of(videos[j]@) is None,
            },
{
    let mut stems: Vec<Option<Vec<char>>> = Vec::new();
    let mut j: usize = 0;
    while j < videos.len()
        invariant
            j <= videos.len(),
            stems.len() == j,
            forall|k: int|
                0 <= k < j ==> match #[trigger] stems[k] {
                    Some(s) => file_stem_of(videos[k]@) == Some(s@),
                    None => file_stem_of(videos[k]@) is None,
                },
        decreases videos.len() - j,
    {
        let path = chars_of(videos[j].as_str());
        stems.push(stem_chars(&path));
        j += 1;
    }
    stems
}

/// Whether `stem` is among `stems`.
fn stem_listed(stem: &Vec<char>, stems: &Vec<Option<Vec<char>>>) -> (listed: bool)
    ensures
        listed == exists|j: int|
            0 <= j < stems.len() && (#[trigger] stems[j]) is Some && stems[j]->0@ == stem@,
{
    let mut j: usize = 0;
    while j < stems.len()
        invariant
            j <= stems.len(),
            forall|k: int| 0 <= k < j ==> !((#[trigger] stems[k]) is Some && stems[k]->0@ == stem@),
        decreases stems.len() - j,
    {
        match &stems[j] {
            Some(s) => {
                if same_chars(s, stem) {
                    return true;
                }
            },
            None => {},
        }
        j += 1;
    }
    false
}

/// Merges the images and the videos found for a post into its media set:
/// the images in their order, without those whose stem a video has, then
/// the videos in their order, each as often as it was found.
pub fn merge_media_file_lists(a: Vec<String>, b: Vec<String>) -> (merged: Vec<String>)
    ensures
        merged.deep_view() == merged_media(a.deep_view(), b.deep_view()),
{
    let stems = video_stems(&b);
    let ghost images = a.deep_view();
    let ghost videos = b.deep_view();
    let mut merged: Vec<String> = Vec::new();
    let mut i: usize = 0;
    while i < a.len()
        invariant
            i <= a.len(),
            images == a.deep_view(),
            videos == b.deep_view(),
            stems.len() == b.len(),
            forall|j: int|
                0 <= j < stems.len() ==> match #[trigger] stems[j] {
                    Some(s) => file_stem_of(b[j]@) == Some(s@),
                    None => file_stem_of(b[j]@) is None,
                },
            merged.deep_view() == kept_images(images.take(i as int), videos),
        decreases a.len() - i,
    {
        let path = chars_of(a[i].as_str());
        let stem = match stem_chars(&path) {
            Some(s) => s,
            None => Vec::new(),
        };
        let shadowed = stem_listed(&stem, &stems);
        proof {
            assert(stem@ == image_stem(images[i as int]));
            assert(images.take(i + 1).drop_last() == images.take(i as int));
            assert(images.take(i + 1).last() == images[i as int]);
            if shadowed {
                let j = choose|j: int|
                    0 <= j < stems.len() && (#[trigger] stems[j]) is Some && stems[j]->0@
                        == stem@;
                assert(file_stem_of(videos[j]) == Some(image_stem(images[i as int])));
            } else {
                assert forall|j: int| 0 <= j < videos.len() implies #[trigger] file_stem_of(
                    videos[j],
                ) != Some(image_stem(images[i as int])) by {
                    let _ = stems[j];
                }
            }
            assert(shadowed == is_shadowed(images[i as int], videos));
        }
        if !shadowed {
            let ghost before = merged.deep_view();
            merged.push(a[i].clone());
            assert(merged.deep_view() == before.push(images[i as int]));
        }
        i += 1;
    }
    assert(images.take(a.len() as int) == images);
    let mut j: usize = 0;
    let ghost kept = merged.deep_view();
    while j < b.len()
        invariant
            j <= b.len(),
            videos == b.deep_view(),
            merged.deep_view() == kept + videos.take(j as int),
        decreases b.len() - j,
    {
        let ghost before = merged.deep_view();
        merged.push(b[j].clone());
        assert(merged.deep_view() == before.push(videos[j as int]));
        assert(videos.take(j + 1) == videos.take(j as int).push(videos[j as int]));
        j += 1;
    }
    assert(videos.take(b.len() as int) == videos);
    merged
}

/// The entries of `lines` that begin with `start`, in their order.
pub open spec fn lines_starting_with(lines: Seq<Seq<char>>, start: Seq<char>) -> Seq<Seq<char>>
    decreases lines.len(),
{
    if lines.len() == 0 {
        Seq::empty()
    } else {
        let before = lines_starting_with(lines.drop_last(), start);
        if start.is_prefix_of(lines.last()) {
            before.push(lines.last())
        } else {
            before
        }
    }
}

/// Picks the entries of `lines` that begin with `prefix`.
pub fn lines_with_prefix(lines: &Vec<String>, prefix: &Vec<char>) -> (found: Vec<String>)
    ensures
        found.deep_view() == lines_starting_with(lines.deep_view(), prefix@),
{
    let ghost all = lines.deep_view();
    let mut found: Vec<String> = Vec::new();
    let mut i: usize = 0;
    while i < lines.len()
        invariant
            i <= lines.len(),
            all == lines.deep_view(),
            found.deep_view() == lines_starting_with(all.take(i as int), prefix@),
        decreases lines.len() - i,
    {
        let line = chars_of(lines[i].as_str());
        proof {
            assert(all.take(i + 1).drop_last() == all.take(i as int));
            assert(all.take(i + 1).last() == lines[i as int]@);
        }
        if has_prefix(&line, prefix) {
            let ghost before = found.deep_view();
            found.push(lines[i].clone());
            assert(found.deep_view() == before.push(lines[i as int]@));
        }
        i += 1;
    }
    assert(all.take(lines.len() as int) == all);
    found
}

/// Picks the entries of `lines` that begin with `start`: the media of the
/// post whose stem is `start`, out of the media of all posts.
pub fn find_lines_starting_with(lines: Vec<String>, start: &str) -> (found: Vec<String>)
    ensures
        found.deep_view() == lines_starting_with(lines.deep_view(), start@),
{
    let prefix = chars_of(start);
    lines_with_prefix(&lines, &prefix)
}

/// The position of the first `.` of `s` at or behind position `i`, or the
/// length of `s` where there is none.
pub open spec fn first_dot_from(s: Seq<char>, i: int) -> int
    decreases s.len() - i,
{
    if i < 0 || i >= s.len() {
        s.len() as int
    } else if s[i] == '.' {
        i
    } else {
        first_dot_from(s, i + 1)
    }
}

/// What a post's media are searched by: the post's path up to its first
/// `.`.
pub open spec fn search_stem(post_path: Seq<char>) -> Seq<char> {
    post_path.take(first_dot_from(post_path, 0))
}

/// The pattern that finds, anywhere below `input_root`, the files whose
/// names begin with the search stem of `post_path` and end in
/// `.extension`.
pub open spec fn media_pattern_of(
    input_root: Seq<char>,
    post_path: Seq<char>,
    extension: Seq<char>,
) -> Seq<char> {
    input_root + "/**/"@ + search_stem(post_path) + "*."@ + extension
}

/// The pattern that finds, anywhere below `input_root`, the posts whose
/// names begin with `prefix` and end in `_UTC.extension`.
pub open spec fn post_pattern_of(input_root: Seq<char>, prefix: Seq<char>, extension: Seq<char>)
    -> Seq<char> {
    input_root + "/**/"@ + prefix + "*_UTC."@ + extension
}

/// Makes the pattern by which the media of one kind of a post are found:
/// every file below `input_root` whose name begins with the post's path
/// up to its first `.`, and ends in `.extension`. Tied to the whole stem
/// of the post, the pattern finds no other post's media.
pub fn media_pattern(input_root: &str, post_path: &str, extension: &str) -> (pattern: String)
    ensures
        pattern@ == media_pattern_of(input_root@, post_path@, extension@),
{
    let path = chars_of(post_path);
    let mut dot: usize = 0;
    while dot < path.len() && path[dot] != '.'
        invariant
            dot <= path.len(),
            first_dot_from(path@, 0) == first_dot_from(path@, dot as int),
        decreases path.len() - dot,
    {
        dot += 1;
    }
    let mut out = chars_of(input_root);
    append_str(&mut out, "/**/");
    append_range(&mut out, &path, 0, dot);
    assert(path@.subrange(0, dot as int) == search_stem(post_path@));
    append_str(&mut out, "*.");
    append_str(&mut out, extension);
    string_of(&out)
}

/// Makes the pattern by which the posts are found: every file below
/// `input_root` whose name begins with `prefix` and ends in
/// `_UTC.extension`.
pub fn post_pattern(input_root: &str, prefix: &str, extension: &str) -> (pattern: String)
    ensures
        pattern@ == post_pattern_of(input_root@, prefix@, extension@),
{
    let mut out = chars_of(input_root);
    append_str(&mut out, "/**/");
    append_str(&mut out, prefix);
    append_str(&mut out, "*_UTC.");
    append_str(&mut out, extension);
    string_of(&out)
}

/// The media set of a post as paths below the day of the post.
pub open spec fn located_media(
    calendar_path: Seq<char>,
    images: Seq<Seq<char>>,
    videos: Seq<Seq<char>>,
) -> Seq<Seq<char>> {
    Seq::new(
        merged_media(images, videos).len(),
        |k: int| joined(calendar_path, merged_media(images, videos)[k]),
    )
}

/// Resolves the media of a post of the day `calendar_path` from the
/// images and the videos found for it: the media set, each entry as a
/// path below that day.
pub fn locate_media(calendar_path: &str, image_files: Vec<String>, video_files: Vec<String>) -> (media:
    Vec<String>)
    ensures
        media.deep_view() == located_media(
            calendar_path@,
            image_files.deep_view(),
            video_files.deep_view(),
        ),
{
    let ghost wanted = located_media(
        calendar_path@,
        image_files.deep_view(),
        video_files.deep_view(),
    );
    let day = chars_of(calendar_path);
    let merged = merge_media_file_lists(image_files, video_files);
    let mut media: Vec<String> = Vec::new();
    let mut k: usize = 0;
    while k < merged.len()
        invariant
            k <= merged.len(),
            media.len() == k,
            day@ == calendar_path@,
            merged.deep_view().len() == wanted.len(),
            forall|j: int|
                0 <= j < merged.len() ==> wanted[j] == joined(
                    calendar_path@,
                    #[trigger] merged.deep_view()[j],
                ),
            forall|j: int| 0 <= j < k ==> (#[trigger] media[j])@ == wanted[j],
        decreases merged.len() - k,
    {
        let name = chars_of(merged[k].as_str());
        assert(merged.deep_view()[k as int] == merged[k as int]@);
        media.push(string_of(&join_chars(&day, &name)));
        k += 1;
    }
    assert(media.deep_view() == wanted);
    media
}

/// The file names of `paths`, in their order; a path that names no file
/// is left out.
pub open spec fn file_names_of(paths: Seq<Seq<char>>) -> Seq<Seq<char>>
    decreases paths.len(),
{
    if paths.len() == 0 {
        Seq::empty()
    } else {
        let before = file_names_of(paths.drop_last());
        match file_name_of(paths.last()) {
            Some(name) => before.push(name),
            None => before,
        }
    }
}

/// Reduces paths to the names of the files they lead to.
pub fn file_names(paths: &Vec<String>) -> (names: Vec<String>)
    ensures
        names.deep_view() == file_names_of(paths.deep_view()),
{
    let ghost all = paths.deep_view();
    let mut names: Vec<String> = Vec::new();
    let mut i: usize = 0;
    while i < paths.len()
        invariant
            i <= paths.len(),
            all == paths.deep_view(),
            names.deep_view() == file_names_of(all.take(i as int)),
        decreases paths.len() - i,
    {
        let path = chars_of(paths[i].as_str());
        proof {
            assert(all.take(i + 1).drop_last() == all.take(i as int));
            assert(all.take(i + 1).last() == paths[i as int]@);
        }
        match find_file_name(&path) {
            Some((b, e)) => {
                let mut name: Vec<char> = Vec::new();
                append_range(&mut name, &path, b, e);
                let ghost before = names.deep_view();
                names.push(string_of(&name));
                assert(names.deep_view() == before.push(name@));
            },
            None => {},
        }
        i += 1;
    }
    assert(all.take(paths.len() as int) == all);
    names
}

} // verus!
