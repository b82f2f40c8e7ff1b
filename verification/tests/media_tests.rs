use post_archive::media::{
    file_names, find_lines_starting_with, locate_media, media_pattern, merge_media_file_lists,
    post_pattern,
};

fn names(list: &[&str]) -> Vec<String> {
    list.iter().map(|s| s.to_string()).collect()
}

#[test]
fn a_video_shadows_its_poster_frame() {
    let merged = merge_media_file_lists(
        names(&["post_1.jpg", "post_2.jpg"]),
        names(&["post_2.mp4"]),
    );
    assert_eq!(merged, names(&["post_1.jpg", "post_2.mp4"]));
}

#[test]
fn merging_with_an_empty_list() {
    assert_eq!(merge_media_file_lists(names(&[]), names(&[])), names(&[]));
    assert_eq!(
        merge_media_file_lists(names(&["a.jpg", "b.jpg"]), names(&[])),
        names(&["a.jpg", "b.jpg"])
    );
    assert_eq!(
        merge_media_file_lists(names(&[]), names(&["a.mp4", "b.mp4"])),
        names(&["a.mp4", "b.mp4"])
    );
}

#[test]
fn repeated_videos_stay_repeated() {
    let merged = merge_media_file_lists(
        names(&["a.jpg", "b.jpg", "a.jpg", "c.jpg"]),
        names(&["a.mp4", "a.mp4", "a.mov"]),
    );
    assert_eq!(merged, names(&["b.jpg", "c.jpg", "a.mp4", "a.mp4", "a.mov"]));
    let once = merge_media_file_lists(
        names(&["a.jpg", "b.jpg", "a.jpg", "c.jpg"]),
        names(&["a.mp4"]),
    );
    assert_eq!(once, names(&["b.jpg", "c.jpg", "a.mp4"]));
}

#[test]
fn images_keep_their_order_and_their_repeats() {
    let merged = merge_media_file_lists(
        names(&["z.jpg", "a.jpg", "z.jpg", "m.jpg"]),
        names(&["m.mp4", "q.mp4"]),
    );
    assert_eq!(merged, names(&["z.jpg", "a.jpg", "z.jpg", "m.mp4", "q.mp4"]));
}

#[test]
fn stems_are_compared_not_names() {
    let merged = merge_media_file_lists(
        names(&["dir/a.jpg", "a.b.jpg", ".hidden", "..", "a"]),
        names(&["other/a.mp4", "a.b.c", ".."]),
    );
    assert_eq!(merged, names(&[".hidden", "..", "other/a.mp4", "a.b.c", ".."]));
}

#[test]
fn the_media_of_a_post_begin_with_its_stem() {
    let all = names(&[
        "2023-05-14_18-42-09_UTC_1.jpg",
        "2023-05-15_08-00-00_UTC.jpg",
        "2023-05-14_18-42-09_UTC_2.mp4",
        "x2023-05-14_18-42-09_UTC_3.jpg",
    ]);
    assert_eq!(
        find_lines_starting_with(all.clone(), "2023-05-14_18-42-09_UTC"),
        names(&["2023-05-14_18-42-09_UTC_1.jpg", "2023-05-14_18-42-09_UTC_2.mp4"])
    );
    assert_eq!(find_lines_starting_with(all.clone(), ""), all);
    assert_eq!(find_lines_starting_with(all, "2024"), names(&[]));
    assert_eq!(find_lines_starting_with(names(&["ab"]), "abc"), names(&[]));
}

#[test]
fn patterns_are_tied_to_the_stem() {
    assert_eq!(
        media_pattern("/data/in", "2023-05-14_18-42-09_UTC.txt", "jpg"),
        "/data/in/**/2023-05-14_18-42-09_UTC*.jpg"
    );
    assert_eq!(media_pattern("in", "a.b.c", "mp4"), "in/**/a*.mp4");
    assert_eq!(media_pattern("in", "nodot", "mp4"), "in/**/nodot*.mp4");
    assert_eq!(media_pattern("in", ".x", "mp4"), "in/**/*.mp4");
    assert_eq!(post_pattern("/data/in", "2023", "txt"), "/data/in/**/2023*_UTC.txt");
}

#[test]
fn the_media_set_lies_below_the_day() {
    let media = locate_media(
        "2023/05/14",
        names(&["post_1.jpg", "post_2.jpg"]),
        names(&["post_2.mp4"]),
    );
    assert_eq!(media, names(&["2023/05/14/post_1.jpg", "2023/05/14/post_2.mp4"]));
    assert_eq!(file_names(&media), names(&["post_1.jpg", "post_2.mp4"]));
    assert_eq!(file_names(&names(&["a/b.jpg", "..", "c", "d/"])), names(&["b.jpg", "c", "d"]));
}
