//! Naming of the model's output classes.
use vstd::prelude::*;

verus! {

/// Side length, in pixels, of the square image that the model takes.
pub const INPUT_SIZE: u32 = 224;

/// The label of the model's output class at `index`, as text.
pub open spec fn spec_class_label(index: usize) -> Option<&'static str> {
    if index == 0 {
        Some("normal")
    } else if index == 1 {
        Some("nsfw")
    } else {
        None
    }
}

/// The label of the model's output class at `index`: `normal` for the
/// first class, `nsfw` for the second; `None` for any other index.
///
/// The names are those of the result contract, where a label is `nsfw`
/// or `normal` and the score of `normal` is one minus the probability of
/// NSFW: the model has these two classes. Their order, negative class
/// first, is the usual order of a binary classifier's outputs; a model
/// that orders them otherwise needs this table changed.
pub fn class_label(index: usize) -> (r: Option<&'static str>)
    ensures
        r == spec_class_label(index),
{
    if index == 0 {
        Some("normal")
    } else if index == 1 {
        Some("nsfw")
    } else {
        None
    }
}

/// The model's two classes are named `normal` and `nsfw`, in that order,
/// and no other index names a class.
pub proof fn lemma_two_named_classes(index: usize)
    ensures
        spec_class_label(0) matches Some(l) && l@ == "normal"@,
        spec_class_label(1) matches Some(l) && l@ == "nsfw"@,
        index >= 2 ==> spec_class_label(index) is None,
{
}

} // verus!
