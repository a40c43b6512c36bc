use media_collector::picture_files::{
    detect_mime_type, get_filename, mime_from_extension, sanitize_filename,
};

#[test]
fn filenames_are_sanitized() {
    assert_eq!(sanitize_filename("a/b\\c:d*e?f\"g<h>i|j.png"), "a_b_c_d_e_f_g_h_i_j.png");
    assert_eq!(sanitize_filename("plain.jpg"), "plain.jpg");
    assert_eq!(sanitize_filename(""), "");
}

#[test]
fn filename_from_url() {
    assert_eq!(get_filename("https://cdn.example.com/images/cover.jpg?size=large", &None), "cover.jpg");
    assert_eq!(get_filename("https://cdn.example.com/images/", &None), "");
    assert_eq!(get_filename("cover.png", &None), "cover.png");
    assert_eq!(get_filename("https://x/y.png", &Some("given.webp".to_string())), "given.webp");
}

#[test]
fn mime_types() {
    assert_eq!(detect_mime_type("photo.JPG"), Some("image/jpeg".to_string()));
    assert_eq!(detect_mime_type("archive.tar.gz"), None);
    assert_eq!(detect_mime_type("icon.svg"), Some("image/svg+xml".to_string()));
    assert_eq!(detect_mime_type("png"), Some("image/png".to_string()));
    assert_eq!(mime_from_extension("jpeg"), Some("image/jpeg".to_string()));
    assert_eq!(mime_from_extension("JPEG"), None);
    assert_eq!(mime_from_extension("bmp"), Some("image/bmp".to_string()));
}

use media_collector::mal_model::Image;
use media_collector::picture_plan::{entity_tags, plan_image_downloads};

fn image(main: &str, small: &str, large: &str) -> Image {
    Image { image_url: main.to_string(), small_image_url: small.to_string(), large_image_url: large.to_string() }
}

fn plan(i: &Image) -> Vec<(String, Vec<String>)> {
    let tags = entity_tags("anime", 42, "picture", Some("jpg_0"));
    plan_image_downloads(i, tags).into_iter().map(|d| (d.url, d.tags)).collect()
}

fn strs(v: &[&str]) -> Vec<String> {
    v.iter().map(|s| s.to_string()).collect()
}

#[test]
fn entity_tag_list() {
    assert_eq!(entity_tags("character", -7, "portrait", None), strs(&["character", "-7", "portrait"]));
    assert_eq!(entity_tags("anime", 42, "picture", Some("jpg_0")), strs(&["anime", "42", "picture", "jpg_0"]));
}

#[test]
fn all_three_sizes_distinct() {
    let base = strs(&["anime", "42", "picture", "jpg_0"]);
    let mut large = base.clone();
    large.push("large".to_string());
    let mut small = large.clone();
    small.push("small".to_string());
    assert_eq!(
        plan(&image("m.jpg", "s.jpg", "l.jpg")),
        vec![("m.jpg".to_string(), base), ("l.jpg".to_string(), large), ("s.jpg".to_string(), small)]
    );
}

#[test]
fn duplicate_and_missing_sizes_skipped() {
    let base = strs(&["anime", "42", "picture", "jpg_0"]);
    assert_eq!(plan(&image("m.jpg", "m.jpg", "m.jpg")), vec![("m.jpg".to_string(), base.clone())]);
    let mut small = base.clone();
    small.push("small".to_string());
    assert_eq!(plan(&image("", "s.jpg", "")), vec![("s.jpg".to_string(), small)]);
    assert!(plan(&image("", "", "")).is_empty());
}
