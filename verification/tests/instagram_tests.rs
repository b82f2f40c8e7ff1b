use post_archive::instagram::{find_hashtags, match_and_replace_usernames};
use regex::Regex;

const TEXTS: [&str; 24] = [
    "",
    "@",
    "#",
    "@a",
    "#a",
    "hello @world and @rust_lang!",
    "mail me: someone@example.com",
    "@@double @1digit @_underscore @x1_y2",
    "#tag1 #Tag_2 #3no ##twice #a#b",
    "@a@b@c",
    "#a@b #c",
    "ends with @",
    "ends with #",
    "@\u{e9}t\u{e9} #\u{e9}t\u{e9} @ete\u{301} #ete\u{301}",
    "\u{5317}\u{4eb0} #Bei\u{4eb0} @Jing\u{5317}",
    "line one #first\nline two @second\tthird",
    "[@x](https://www.instagram.com/x)",
    "$username @username $1 ${name}",
    "#",
    "a#b c@d",
    "@A_ #Z9_",
    "@a- #b.",
    "@abcdefghijklmnopqrstuvwxyzABCDEFGHIJKLMNOPQRSTUVWXYZ0123456789_",
    "   @  #  @x#y  ",
];

#[test]
fn usernames_are_linked_as_the_pattern_says() {
    let pattern = Regex::new(r"\@(?P<username>[a-zA-Z][0-9a-zA-Z_]*)").unwrap();
    let link = "[@$username](https://www.instagram.com/$username)";
    for text in TEXTS {
        let theirs = pattern.replace_all(text, link).to_string();
        assert_eq!(match_and_replace_usernames(text), theirs, "{:?}", text);
    }
}

#[test]
fn tags_are_found_as_the_pattern_says() {
    let pattern = Regex::new(r"#[a-zA-Z][0-9a-zA-Z_]*").unwrap();
    for text in TEXTS {
        let theirs: Vec<(usize, usize, String)> = pattern
            .find_iter(text)
            .map(|m| {
                (
                    text[..m.start()].chars().count(),
                    text[..m.end()].chars().count(),
                    m.as_str().to_string(),
                )
            })
            .collect();
        let ours: Vec<(usize, usize, String)> =
            find_hashtags(text).into_iter().map(|t| (t.start, t.end, t.text)).collect();
        assert_eq!(ours, theirs, "{:?}", text);
    }
}

#[test]
fn a_username_becomes_a_link() {
    assert_eq!(
        match_and_replace_usernames("thanks @some_one!"),
        "thanks [@some_one](https://www.instagram.com/some_one)!"
    );
    assert_eq!(match_and_replace_usernames("no names here"), "no names here");
}

#[test]
fn tags_have_their_places() {
    let tags = find_hashtags("a #one, #two2 and #3");
    assert_eq!(tags.len(), 2);
    assert_eq!((tags[0].start, tags[0].end, tags[0].text.as_str()), (2, 6, "#one"));
    assert_eq!((tags[1].start, tags[1].end, tags[1].text.as_str()), (8, 13, "#two2"));
}
