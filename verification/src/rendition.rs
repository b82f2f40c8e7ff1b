//! Where the renditions of an image and the document of a post are
//! written.

use vstd::prelude::*;
use crate::error::ArchiveError;
use crate::names::{extension_chars, extension_of, file_stem_of, stem_chars};
use crate::text::{append_chars, append_str, chars_of, string_of};
use crate::timestamp::{calendar_path_text, get_datetime_from_string, leads_to_post, moment_of_path};

verus! {

/// The directory that holds the images of the day `calendar_path`.
pub open spec fn image_directory(output_root: Seq<char>, calendar_path: Seq<char>) -> Seq<char> {
    output_root + "/img/instagram/"@ + calendar_path
}

/// The directory that holds the documents of the day `calendar_path`.
pub open spec fn document_directory(output_root: Seq<char>, calendar_path: Seq<char>) -> Seq<
    char,
> {
    output_root + seq!['/'] + calendar_path
}

/// The name of the thumbnail of the image at `path`: `_thumb` added to
/// the stem, the extension kept. There is none where `path` names no
/// file or the file's name has no extension.
pub open spec fn thumbnail_name_of(path: Seq<char>) -> Option<Seq<char>> {
    if file_stem_of(path) is Some && extension_of(path) is Some {
        Some(file_stem_of(path)->0 + "_thumb."@ + extension_of(path)->0)
    } else {
        None
    }
}

fn thumbnail_name_chars(path: &Vec<char>) -> (name: Option<Vec<char>>)
    ensures
        match name {
            Some(n) => thumbnail_name_of(path@) == Some(n@),
            None => thumbnail_name_of(path@) is None,
        },
{
    let stem = match stem_chars(path) {
        Some(s) => s,
        None => { return None; },
    };
    let ext = match extension_chars(path) {
        Some(x) => x,
        None => { return None; },
    };
    let mut name: Vec<char> = Vec::new();
    append_chars(&mut name, &stem);
    append_str(&mut name, "_thumb.");
    append_chars(&mut name, &ext);
    Some(name)
}

/// The name of the thumbnail of the image at `path`.
pub fn thumbnail_name(path: &str) -> (name: Option<String>)
    ensures
        match name {
            Some(n) => thumbnail_name_of(path@) == Some(n@),
            None => thumbnail_name_of(path@) is None,
        },
{
    match thumbnail_name_chars(&chars_of(path)) {
        Some(n) => Some(string_of(&n)),
        None => None,
    }
}

/// The two directories that must exist before anything of the day
/// `calendar_path` is written: that of its images and that of its
/// documents, each with a closing `/`.
pub fn output_directories(output_root: &str, calendar_path: &str) -> (directories: (
    String,
    String,
))
    ensures
        directories.0@ == image_directory(output_root@, calendar_path@) + seq!['/'],
        directories.1@ == document_directory(output_root@, calendar_path@) + seq!['/'],
{
    let mut images = chars_of(output_root);
    append_str(&mut images, "/img/instagram/");
    append_str(&mut images, calendar_path);
    images.push('/');
    let mut documents = chars_of(output_root);
    documents.push('/');
    append_str(&mut documents, calendar_path);
    documents.push('/');
    (string_of(&images), string_of(&documents))
}

/// The path of the file `name` below the directory `root`.
pub fn path_below(root: &str, name: &str) -> (path: String)
    ensures
        path@ == root@ + seq!['/'] + name@,
{
    let mut out = chars_of(root);
    out.push('/');
    append_str(&mut out, name);
    string_of(&out)
}

/// The paths of the two renditions of one image.
#[derive(Debug)]
pub struct RenditionPair {
    /// The path of the large rendition, which carries the watermark.
    pub large: String,
    /// The path of the thumbnail.
    pub thumbnail: String,
}

/// Finds where the renditions of the image `filepath` are written: both
/// in the image directory of the day that the image is named after, the
/// large one under the image's own name, the thumbnail under the name of
/// its thumbnail.
///
/// Fails with `MalformedTimestamp` where the image is not named after a
/// post, and with `ImageIoFailure` where its name has no extension.
pub fn rendition_pair(output_root: &str, filepath: &str) -> (outcome: Result<
    RenditionPair,
    ArchiveError,
>)
    ensures
        match outcome {
            Ok(pair) => {
                let directory = image_directory(
                    output_root@,
                    calendar_path_text(moment_of_path(filepath@)),
                );
                &&& leads_to_post(filepath@)
                &&& thumbnail_name_of(filepath@) is Some
                &&& pair.large@ == directory + seq!['/'] + filepath@
                &&& pair.thumbnail@ == directory + seq!['/'] + thumbnail_name_of(filepath@)->0
            },
            Err(e) => if !leads_to_post(filepath@) {
                e == ArchiveError::MalformedTimestamp
            } else {
                e == ArchiveError::ImageIoFailure && thumbnail_name_of(filepath@) is None
            },
        },
{
    let moment = match get_datetime_from_string(filepath) {
        Ok(t) => t,
        Err(e) => { return Err(e); },
    };
    let path = chars_of(filepath);
    let name = match thumbnail_name_chars(&path) {
        Some(n) => n,
        None => { return Err(ArchiveError::ImageIoFailure); },
    };
    let mut directory = chars_of(output_root);
    append_str(&mut directory, "/img/instagram/");
    append_str(&mut directory, moment.calendar_path().as_str());
    let mut large: Vec<char> = Vec::new();
    append_chars(&mut large, &directory);
    large.push('/');
    append_chars(&mut large, &path);
    let mut thumbnail: Vec<char> = Vec::new();
    append_chars(&mut thumbnail, &directory);
    thumbnail.push('/');
    append_chars(&mut thumbnail, &name);
    Ok(RenditionPair { large: string_of(&large), thumbnail: string_of(&thumbnail) })
}

} // verus!
