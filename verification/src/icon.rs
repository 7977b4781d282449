//! Becoming an app with an icon of its own.

use vstd::prelude::*;

verus! {

/// The steps by which the app takes its place in the Dock and shows its icon.
#[derive(Clone, Copy, Debug, PartialEq, Eq, Structural)]
pub enum IconStep {
    /// Get the shared application object.
    FindApp,
    /// Make it a regular app.
    SetRegular,
    /// Wrap the icon's bytes.
    WrapBytes,
    /// Decode the image.
    DecodeImage,
    /// Show the image as the icon.
    ShowIcon,
    /// Nothing more to do.
    Finished,
}

/// Whether a step hands out an object that the later steps need.
pub open spec fn gives_object(step: IconStep) -> bool {
    step is FindApp || step is WrapBytes || step is DecodeImage
}

/// The step behind a step that went well.
pub open spec fn following(step: IconStep) -> IconStep {
    match step {
        IconStep::FindApp => IconStep::SetRegular,
        IconStep::SetRegular => IconStep::WrapBytes,
        IconStep::WrapBytes => IconStep::DecodeImage,
        IconStep::DecodeImage => IconStep::ShowIcon,
        IconStep::ShowIcon | IconStep::Finished => IconStep::Finished,
    }
}

/// The step after `step`, when it handed out an object or not.
pub open spec fn icon_next(step: IconStep, present: bool) -> IconStep {
    if gives_object(step) && !present {
        IconStep::Finished
    } else {
        following(step)
    }
}

/// The next step. `present` says whether the step just taken handed out an object;
/// where it should have and did not, the rest is given up.
pub fn set_app_icon(step: IconStep, present: bool) -> (next: IconStep)
    ensures
        next == icon_next(step, present),
{
    match step {
        IconStep::FindApp => if present {
            IconStep::SetRegular
        } else {
            IconStep::Finished
        },
        IconStep::SetRegular => IconStep::WrapBytes,
        IconStep::WrapBytes => if present {
            IconStep::DecodeImage
        } else {
            IconStep::Finished
        },
        IconStep::DecodeImage => if present {
            IconStep::ShowIcon
        } else {
            IconStep::Finished
        },
        IconStep::ShowIcon | IconStep::Finished => IconStep::Finished,
    }
}

/// The icon is shown exactly when the application, the bytes and the image were all
/// there; the app becomes a regular one as soon as there is an application.
pub proof fn law_icon_needs_every_object(app: bool, set: bool, bytes: bool, image: bool)
    ensures
        ({
            let found = icon_next(IconStep::FindApp, app);
            let regular = icon_next(found, set);
            let wrapped = icon_next(regular, bytes);
            let decoded = icon_next(wrapped, image);
            &&& found == IconStep::SetRegular <==> app
            &&& decoded == IconStep::ShowIcon <==> app && bytes && image
            &&& decoded != IconStep::ShowIcon ==> decoded == IconStep::Finished
        }),
{
}

/// The steps come in one order: find the application, make it a regular app, wrap the
/// bytes, decode the image, show it. A missing object ends them; a step that hands out
/// none goes on whatever is reported of it.
pub proof fn law_icon_steps_in_order(present: bool)
    ensures
        icon_next(IconStep::FindApp, true) == IconStep::SetRegular,
        icon_next(IconStep::SetRegular, present) == IconStep::WrapBytes,
        icon_next(IconStep::WrapBytes, true) == IconStep::DecodeImage,
        icon_next(IconStep::DecodeImage, true) == IconStep::ShowIcon,
        icon_next(IconStep::ShowIcon, present) == IconStep::Finished,
        icon_next(IconStep::Finished, present) == IconStep::Finished,
        icon_next(IconStep::FindApp, false) == IconStep::Finished,
        icon_next(IconStep::WrapBytes, false) == IconStep::Finished,
        icon_next(IconStep::DecodeImage, false) == IconStep::Finished,
{
}

} // verus!
