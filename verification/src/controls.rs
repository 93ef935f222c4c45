use vstd::prelude::*;

verus! {

/// The links that the settings window offers.
#[derive(Clone, Copy, Debug, PartialEq, Eq, Structural)]
pub enum LinkTarget {
    Website,
    Donate,
}

impl LinkTarget {
    /// The link that the button with tag `tag` follows: tag 0 the website,
    /// tag 1 the donation page; no other tag names a link.
    pub fn from_tag(tag: i64) -> (target: Option<LinkTarget>)
        ensures
            tag == 0 ==> target == Some(LinkTarget::Website),
            tag == 1 ==> target == Some(LinkTarget::Donate),
            tag != 0 && tag != 1 ==> target is None,
    {
        match tag {
            0 => Some(LinkTarget::Website),
            1 => Some(LinkTarget::Donate),
            _ => None,
        }
    }
}

/// The controls of the settings window whose changes are applied.
#[derive(Clone, Copy, Debug, PartialEq, Eq, Structural)]
pub enum SettingsControl {
    SchemePopup,
    VolumeSlider,
    PitchSlider,
}

impl SettingsControl {
    /// The control with tag `tag`: 0 the scheme menu, 1 the volume slider,
    /// 2 the pitch slider; no other tag names a control.
    pub fn from_tag(tag: i64) -> (control: Option<SettingsControl>)
        ensures
            tag == 0 ==> control == Some(SettingsControl::SchemePopup),
            tag == 1 ==> control == Some(SettingsControl::VolumeSlider),
            tag == 2 ==> control == Some(SettingsControl::PitchSlider),
            !(0 <= tag <= 2) ==> control is None,
    {
        match tag {
            0 => Some(SettingsControl::SchemePopup),
            1 => Some(SettingsControl::VolumeSlider),
            2 => Some(SettingsControl::PitchSlider),
            _ => None,
        }
    }
}

/// What the user chose in the prompt that asks for accessibility access.
#[derive(Clone, Copy, Debug, PartialEq, Eq, Structural)]
pub enum AccessPromptChoice {
    /// Quit the application (the first button).
    Quit,
    /// Access was granted; check again (the second button).
    CheckAgain,
}

impl AccessPromptChoice {
    /// The choice that the prompt's return code `code` stands for: 1000 (the
    /// first button) quits, 1001 (the second) checks again; no other code
    /// names a choice.
    pub fn from_button(code: i32) -> (choice: Option<AccessPromptChoice>)
        ensures
            code == 1000 ==> choice == Some(AccessPromptChoice::Quit),
            code == 1001 ==> choice == Some(AccessPromptChoice::CheckAgain),
            code != 1000 && code != 1001 ==> choice is None,
    {
        match code {
            1000 => Some(AccessPromptChoice::Quit),
            1001 => Some(AccessPromptChoice::CheckAgain),
            _ => None,
        }
    }
}

} // verus!
