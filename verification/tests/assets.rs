use miniblog::assets::{asset_reference, generate_asset_name};
use miniblog::demux::{classify_part, PartAction, TextField};
use miniblog::text::{str_ends_with, str_eq};

#[test]
fn generated_names_have_the_documented_shape() {
    let name = generate_asset_name("png");
    assert_eq!(name.len(), 40);
    assert!(name.ends_with(".png"));
    let stem = &name[..36];
    for (i, c) in stem.chars().enumerate() {
        if i == 8 || i == 13 || i == 18 || i == 23 {
            assert_eq!(c, '-');
        } else {
            assert!(c.is_ascii_hexdigit() && !c.is_ascii_uppercase());
        }
    }
}

#[test]
fn generated_names_are_pairwise_distinct() {
    let mut names: Vec<String> = (0..100).map(|_| generate_asset_name("png")).collect();
    let before = names.len();
    names.sort();
    names.dedup();
    assert_eq!(names.len(), before);
}

#[test]
fn references_join_directory_and_name() {
    assert_eq!(asset_reference("app/uploads", "x.png"), "app/uploads/x.png");
}

#[test]
fn classification_follows_the_field_name() {
    let none: Option<String> = None;
    assert!(matches!(
        classify_part(&Some("username".to_string()), &none),
        PartAction::ReadText(TextField::Username)
    ));
    assert!(matches!(
        classify_part(&Some("post_content".to_string()), &none),
        PartAction::ReadText(TextField::PostContent)
    ));
    assert!(matches!(
        classify_part(&Some("avatar_url".to_string()), &none),
        PartAction::ReadText(TextField::AvatarUrl)
    ));
    assert!(matches!(classify_part(&Some("foo".to_string()), &none), PartAction::Skip));
    assert!(matches!(classify_part(&none, &none), PartAction::Skip));
}

#[test]
fn image_parts_need_a_png_file_name() {
    let name = Some("post_image".to_string());
    assert!(matches!(
        classify_part(&name, &Some("photo.png".to_string())),
        PartAction::ReadImage
    ));
    assert!(matches!(
        classify_part(&name, &Some("photo.jpg".to_string())),
        PartAction::Skip
    ));
    assert!(matches!(
        classify_part(&name, &Some("photo.PNG".to_string())),
        PartAction::Skip
    ));
    assert!(matches!(classify_part(&name, &None), PartAction::Skip));
}

#[test]
fn suffix_test_is_exact() {
    assert!(str_ends_with("photo.png", ".png"));
    assert!(str_ends_with(".png", ".png"));
    assert!(!str_ends_with("png", ".png"));
    assert!(!str_ends_with("photo.png.jpg", ".png"));
    assert!(!str_ends_with("photo.PNG", ".png"));
}

#[test]
fn string_equality_is_exact() {
    assert!(str_eq("username", "username"));
    assert!(!str_eq("username", "usernames"));
    assert!(!str_eq("", "a"));
    assert!(str_eq("", ""));
}
