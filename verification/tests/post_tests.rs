use post_archive::error::ArchiveError;
use post_archive::post::{convert_post, first_words_of, punctuation, slugify, white_space, Post};

fn names(list: &[&str]) -> Vec<String> {
    list.iter().map(|s| s.to_string()).collect()
}

#[test]
fn a_post_with_tags() {
    let post = convert_post(
        "2023-05-14_18-42-09_UTC.txt",
        "Sunset at the beach with @friend #Sunset #beach",
        names(&["2023-05-14_18-42-09_UTC_1.jpg", "2023-05-14_18-42-09_UTC_2.mp4"]),
    )
    .unwrap();
    assert_eq!(post.title, "Sunset | Sunday, May 14, 2023");
    assert_eq!(
        post.thumbnail_image,
        "/img/instagram/2023/05/14/2023-05-14_18-42-09_UTC_1_thumb.jpg"
    );
    assert_eq!(post.date, "2023-05-14");
    assert_eq!(post.time_heading, "18:42:09");
    assert_eq!(post.categories, names(&["instagram"]));
    assert_eq!(post.tags, names(&["Sunset", "beach"]));
    assert_eq!(post.heading, "06:42 PM");
    assert_eq!(
        post.text,
        "Sunset at the beach with [@friend](https://www.instagram.com/friend) #Sunset #beach"
    );
    assert_eq!(
        post.images,
        names(&[
            "/img/instagram/2023/05/14/2023-05-14_18-42-09_UTC_1.jpg",
            "/img/instagram/2023/05/14/2023-05-14_18-42-09_UTC_2.mp4"
        ])
    );
    assert_eq!(post.filename, "2023/05/14/sunset-2023-05-14_18-42-09_UTC.md");
}

#[test]
fn a_post_without_tags_is_named_after_its_first_words() {
    let post = convert_post(
        "2024-02-29_07-05-00_UTC.txt",
        "  \u{c9}t\u{e9}, \u{e0} la plage!",
        names(&["2024-02-29_07-05-00_UTC.jpg"]),
    )
    .unwrap();
    assert_eq!(post.title, "Thursday, February 29, 2024");
    assert_eq!(post.tags, names(&[]));
    assert_eq!(post.filename, "2024/02/29/ete-a-2024-02-29_07-05-00_UTC.md");
    assert_eq!(post.heading, "07:05 AM");
    assert_eq!(post.thumbnail_image, "/img/instagram/2024/02/29/2024-02-29_07-05-00_UTC_thumb.jpg");
}

#[test]
fn a_name_in_another_script_is_written_in_ascii() {
    let post = convert_post(
        "2024-02-29_07-05-00_UTC.txt",
        "\u{5317}\u{4eb0} \u{1f600}ok third",
        names(&["a.jpg"]),
    )
    .unwrap();
    assert_eq!(post.filename, "2024/02/29/bei-jing-ok-2024-02-29_07-05-00_UTC.md");
}

#[test]
fn a_post_needs_a_name_and_a_thumbnail() {
    assert_eq!(
        convert_post("notes.txt", "text", names(&["a.jpg"])).err(),
        Some(ArchiveError::MalformedTimestamp)
    );
    assert_eq!(
        convert_post("notes.txt", "text", names(&[])).err(),
        Some(ArchiveError::MalformedTimestamp)
    );
    assert_eq!(
        convert_post("2024-02-29_07-05-00_UTC.txt", "text", names(&[])).err(),
        Some(ArchiveError::RenderFailure)
    );
    assert_eq!(
        convert_post("2024-02-29_07-05-00_UTC.txt", "text", names(&["noextension"])).err(),
        Some(ArchiveError::RenderFailure)
    );
    assert_eq!(
        convert_post("2024-02-29_07-05-00_UTC.txt", "text", names(&["..", "a.jpg"])).err(),
        Some(ArchiveError::RenderFailure)
    );
    assert!(convert_post("in/2024-02-29_07-05-00_UTC.txt", "", names(&["a.jpg"])).is_ok());
}

#[test]
fn the_empty_post() {
    let post = Post::default();
    assert_eq!(post.title, "");
    assert_eq!(post.thumbnail_image, "");
    assert_eq!(post.date, "");
    assert_eq!(post.time_heading, "");
    assert!(post.categories.is_empty());
    assert!(post.tags.is_empty());
    assert_eq!(post.heading, "");
    assert_eq!(post.text, "");
    assert!(post.images.is_empty());
    assert_eq!(post.filename, "");
}

fn first_words_by_the_standard_library(text: &str) -> String {
    let words: Vec<String> = text
        .split_whitespace()
        .take(2)
        .map(|word| word.chars().filter(|ch| !ch.is_ascii_punctuation()).collect())
        .collect();
    words.join(" ")
}

fn slug_by_the_standard_library(text: &str) -> String {
    let mut slug = text.to_lowercase();
    for ch in [',', ' ', '!', '.', ':', '?', '#', '@', '(', ')', '=', '\'', '"'] {
        slug = slug.replace(ch, "-");
    }
    slug.replace("--", "-")
}

const TEXTS: [&str; 16] = [
    "",
    "   ",
    "one",
    "  one  ",
    "one two",
    "one two three",
    "\tone\n\ntwo\r\nthree",
    "!!! ???",
    "a.b,c (d)=e",
    "Hello, World! How are you?",
    "one\u{a0}two\u{2003}three",
    "\u{3000}wide\u{3000}space",
    "it's \"quoted\"",
    "A--B---C----D",
    "x  y",
    ". . .",
];

#[test]
fn first_words_are_split_as_the_standard_library_splits() {
    for text in TEXTS {
        let chars: Vec<char> = text.chars().collect();
        let ours: String = first_words_of(&chars).into_iter().collect();
        assert_eq!(ours, first_words_by_the_standard_library(text), "{:?}", text);
    }
}

#[test]
fn slugs_are_those_of_the_standard_library_on_ascii() {
    for text in TEXTS {
        let ascii = unidecode::unidecode(text);
        assert_eq!(slugify(&ascii), slug_by_the_standard_library(&ascii), "{:?}", text);
    }
    assert_eq!(slugify("Hello, World!"), "hello-world-");
    assert_eq!(slugify("a---b"), "a--b");
    assert_eq!(slugify("A B"), "a-b");
}

#[test]
fn white_space_and_punctuation_are_those_of_the_standard_library() {
    let mut n: u32 = 0;
    while n <= 0x10FFFF {
        if let Some(c) = char::from_u32(n) {
            assert_eq!(white_space(c), c.is_whitespace(), "{:x}", n);
            assert_eq!(punctuation(c), c.is_ascii_punctuation(), "{:x}", n);
        }
        n += 1;
    }
}
