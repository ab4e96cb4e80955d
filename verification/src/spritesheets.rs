//! Composition of character sprite sheets: what a build reports, once the
//! layers are drawn and the image is saved, or not.

use vstd::prelude::*;
use vstd::string::StringExecFns;

verus! {

/// What became of the image of a build.
pub enum ImageOutcome {
    /// The image was saved.
    Saved,
    /// The image could not be saved, for the reason given.
    NotSaved(String),
    /// The build made no image.
    NoImage,
}

/// The texts of `errors`, with `', '` between each two: the list of the
/// errors of the layers, as it stands between quotes in a message.
pub open spec fn quoted_list(errors: Seq<String>) -> Seq<char>
    decreases errors.len(),
{
    if errors.len() == 0 {
        Seq::empty()
    } else if errors.len() == 1 {
        errors[0]@
    } else {
        quoted_list(errors.drop_last()) + "', '"@ + errors.last()@
    }
}

/// The message of the error for identifiers that cannot be read.
pub open spec fn unreadable_input_message(cause: Seq<char>) -> Seq<char> {
    "Can't parse given input : "@ + cause
}

/// The message of the error for an image that could not be saved.
pub open spec fn not_saved_message(cause: Seq<char>, errors: Seq<String>) -> Seq<char> {
    "Failed to save output image : "@ + cause + " (layer errors : '"@ + quoted_list(errors)
        + "')"@
}

/// The message of the error for a build that made no image.
pub open spec fn no_image_message(errors: Seq<String>) -> Seq<char> {
    "No image generated (layer errors : '"@ + quoted_list(errors) + "')"@
}

/// The message of the error for identifiers that cannot be read because of
/// `cause`.
pub fn unreadable_input(cause: &str) -> (message: String)
    ensures
        message@ == unreadable_input_message(cause@),
{
    let mut message = String::from_str("Can't parse given input : ");
    message.append(cause);
    message
}

/// The errors of the layers, with `', '` between each two.
fn list_errors(layer_errors: &Vec<String>) -> (list: String)
    ensures
        list@ == quoted_list(layer_errors@),
{
    let mut list = String::new();
    for i in 0..layer_errors.len()
        invariant
            list@ == quoted_list(layer_errors@.take(i as int)),
    {
        let ghost before = layer_errors@.take(i as int);
        if i > 0 {
            list.append("', '");
        }
        list.append(layer_errors[i].as_str());
        proof {
            let now = layer_errors@.take(i + 1);
            assert(now.drop_last() == before);
            assert(now.last() == layer_errors@[i as int]);
            if i == 0 {
                assert(list@ =~= layer_errors@[0]@);
            }
        }
    }
    assert(layer_errors@.take(layer_errors@.len() as int) == layer_errors@);
    list
}

/// What a build reports: the errors of its layers where the image was saved,
/// else the error that says why there is no saved image, and lists the
/// errors of the layers.
pub fn build_report(layer_errors: Vec<String>, outcome: &ImageOutcome) -> (report: Result<
    Vec<String>,
    String,
>)
    ensures
        match *outcome {
            ImageOutcome::Saved => report == Ok::<Vec<String>, String>(layer_errors),
            ImageOutcome::NotSaved(cause) => report matches Err(message) && message@
                == not_saved_message(cause@, layer_errors@),
            ImageOutcome::NoImage => report matches Err(message) && message@ == no_image_message(
                layer_errors@,
            ),
        },
{
    match outcome {
        ImageOutcome::Saved => Ok(layer_errors),
        ImageOutcome::NotSaved(cause) => {
            let list = list_errors(&layer_errors);
            let mut message = String::from_str("Failed to save output image : ");
            message.append(cause.as_str());
            message.append(" (layer errors : '");
            message.append(list.as_str());
            message.append("')");
            Err(message)
        },
        ImageOutcome::NoImage => {
            let list = list_errors(&layer_errors);
            let mut message = String::from_str("No image generated (layer errors : '");
            message.append(list.as_str());
            message.append("')");
            Err(message)
        },
    }
}

} // verus!
