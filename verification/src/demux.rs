use vstd::prelude::*;

verus! {

use crate::text::{has_suffix, str_eq, str_ends_with};

/// The text-valued fields the demultiplexer recognizes.
#[derive(Clone, Copy, PartialEq, Eq, Structural)]
pub enum TextField {
    Username,
    PostContent,
    AvatarUrl,
}

/// What to do with one incoming part, decided from its declared field name
/// and (for attachments) its declared file name alone.
#[derive(Clone, Copy, PartialEq, Eq, Structural)]
pub enum PartAction {
    /// Decode the part body as text for the given field.
    ReadText(TextField),
    /// Read the part body as the image attachment's bytes.
    ReadImage,
    /// Ignore the part without reading its body.
    Skip,
}

/// The dispatch rule of the demultiplexer. A part named `username`,
/// `post_content` or `avatar_url` is read as text; one named `post_image`
/// is read as bytes only when its declared file name ends in `.png`, and is
/// silently ignored otherwise; a part with any other name, or with no name
/// at all, is ignored.
pub open spec fn part_action_of(name: Option<Seq<char>>, file_name: Option<Seq<char>>) -> PartAction {
    match name {
        Option::None => PartAction::Skip,
        Option::Some(n) => {
            if n == "username"@ {
                PartAction::ReadText(TextField::Username)
            } else if n == "post_content"@ {
                PartAction::ReadText(TextField::PostContent)
            } else if n == "avatar_url"@ {
                PartAction::ReadText(TextField::AvatarUrl)
            } else if n == "post_image"@ {
                match file_name {
                    Option::Some(f) => if has_suffix(f, ".png"@) {
                        PartAction::ReadImage
                    } else {
                        PartAction::Skip
                    },
                    Option::None => PartAction::Skip,
                }
            } else {
                PartAction::Skip
            }
        },
    }
}

/// Dispatches one part of the submission on its declared names.
pub fn classify_part(name: &Option<String>, file_name: &Option<String>) -> (r: PartAction)
    ensures
        r == part_action_of(name.deep_view(), file_name.deep_view()),
{
    match name {
        Option::None => PartAction::Skip,
        Option::Some(n) => {
            if str_eq(n.as_str(), "username") {
                PartAction::ReadText(TextField::Username)
            } else if str_eq(n.as_str(), "post_content") {
                PartAction::ReadText(TextField::PostContent)
            } else if str_eq(n.as_str(), "avatar_url") {
                PartAction::ReadText(TextField::AvatarUrl)
            } else if str_eq(n.as_str(), "post_image") {
                match file_name {
                    Option::Some(f) => if str_ends_with(f.as_str(), ".png") {
                        PartAction::ReadImage
                    } else {
                        PartAction::Skip
                    },
                    Option::None => PartAction::Skip,
                }
            } else {
                PartAction::Skip
            }
        },
    }
}

} // verus!
