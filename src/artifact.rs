//! The provisioning request and the text of the local files built from it.

use vstd::prelude::*;
use crate::led::LedMode;
use crate::text::{nat_text, push_decimal};

verus! {

/// A picture the badge can show.
#[derive(Debug, Clone, Copy, PartialEq, Eq, Structural)]
pub enum ImageSelection {
    DefconLogo,
    Doge,
    Puppy,
    PipBoy,
    Vegas,
    /// The stock picture, also used when nothing was chosen.
    Placeholder,
}

/// What a caller asks to put on a badge in one run.
///
/// The caller keeps `badge_name` to at most 23 alphanumeric characters;
/// nothing here checks it again.
#[derive(Debug, Clone)]
pub struct ProvisioningRequest {
    pub image_selection: Option<ImageSelection>,
    pub led_mode: Option<LedMode>,
    pub badge_name: String,
}

/// One of the two local files a run writes before it uploads anything.
#[derive(Debug, Clone, Copy, PartialEq, Eq, Structural)]
pub enum ArtifactKind {
    Config,
    Settings,
}

impl ArtifactKind {
    /// The file's name in the working directory.
    pub open spec fn path(self) -> Seq<char> {
        match self {
            ArtifactKind::Config => "build_a_badge.txt"@,
            ArtifactKind::Settings => "settings.txt"@,
        }
    }

    /// How the file is named in diagnostics.
    pub open spec fn describe(self) -> Seq<char> {
        match self {
            ArtifactKind::Config => "configuration file"@,
            ArtifactKind::Settings => "settings file"@,
        }
    }

    pub fn file_name(&self) -> (r: &'static str)
        ensures
            r@ == self.path(),
    {
        match self {
            ArtifactKind::Config => "build_a_badge.txt",
            ArtifactKind::Settings => "settings.txt",
        }
    }

    pub fn description(&self) -> (r: &'static str)
        ensures
            r@ == self.describe(),
    {
        match self {
            ArtifactKind::Config => "configuration file",
            ArtifactKind::Settings => "settings file",
        }
    }
}

/// The name written into the configuration when the badge has none.
pub open spec fn fallback_name() -> Seq<char> {
    "Boring"@
}

/// The name the configuration shows: the badge name, or the fallback when it is empty.
pub open spec fn shown_name(badge_name: Seq<char>) -> Seq<char> {
    if badge_name.len() == 0 {
        fallback_name()
    } else {
        badge_name
    }
}

/// The ordinal written for a mode choice; no choice counts as the first mode.
pub open spec fn led_ordinal(mode: Option<LedMode>) -> nat {
    match mode {
        Some(m) => m.ordinal(),
        None => 0,
    }
}

/// The network identifier derived from a name.
pub open spec fn network_id(name: Seq<char>) -> Seq<char> {
    name + "-WiLi"@
}

/// The configuration artifact: the shown name's network identifier on one
/// line, the LED ordinal on the next.
pub open spec fn config_text(mode: Option<LedMode>, badge_name: Seq<char>) -> Seq<char> {
    network_id(shown_name(badge_name)) + "\n"@ + nat_text(led_ordinal(mode)) + "\n"@
}

/// The settings artifact: key=value lines for the access point and Bluetooth,
/// both named after the badge.
pub open spec fn settings_text(badge_name: Seq<char>) -> Seq<char> {
    "wifiAPEn=1\nwifiAPssid="@ + network_id(badge_name) + "\nwifiAPAuth=0\nbtEn=1\nbtAPen="@
        + network_id(badge_name) + "\nbtTerm=1\n"@
}

/// The local asset uploaded as the badge's picture.
pub open spec fn image_path(selection: Option<ImageSelection>) -> Seq<char> {
    match selection {
        Some(ImageSelection::DefconLogo) => "assets/defcon_logo.fwi"@,
        Some(ImageSelection::Doge) => "assets/doge.fwi"@,
        Some(ImageSelection::Puppy) => "assets/puppy.fwi"@,
        Some(ImageSelection::PipBoy) => "assets/pip_boy.fwi"@,
        Some(ImageSelection::Vegas) => "assets/vegas.fwi"@,
        _ => "assets/badge_placeholder.fwi"@,
    }
}

pub fn create_config_content(selected_led_mode: Option<LedMode>, badge_name: String) -> (r: String)
    ensures
        r@ == config_text(selected_led_mode, badge_name@),
{
    let ordinal: u8 = match selected_led_mode {
        Some(mode) => mode.as_integer(),
        None => 0,
    };
    let mut out = if badge_name.as_str().is_empty() {
        String::from_str("Boring")
    } else {
        badge_name
    };
    out.append("-WiLi");
    out.append("\n");
    push_decimal(&mut out, ordinal as u32);
    out.append("\n");
    out
}

pub fn create_settings_content(badge_name: String) -> (r: String)
    ensures
        r@ == settings_text(badge_name@),
{
    let mut out = String::from_str("wifiAPEn=1\nwifiAPssid=");
    out.append(badge_name.as_str());
    out.append("-WiLi");
    out.append("\nwifiAPAuth=0\nbtEn=1\nbtAPen=");
    out.append(badge_name.as_str());
    out.append("-WiLi");
    out.append("\nbtTerm=1\n");
    out
}

/// The local asset to upload for a picture choice.
pub fn image_asset_path(selection: Option<ImageSelection>) -> (r: &'static str)
    ensures
        r@ == image_path(selection),
{
    match selection {
        Some(ImageSelection::DefconLogo) => "assets/defcon_logo.fwi",
        Some(ImageSelection::Doge) => "assets/doge.fwi",
        Some(ImageSelection::Puppy) => "assets/puppy.fwi",
        Some(ImageSelection::PipBoy) => "assets/pip_boy.fwi",
        Some(ImageSelection::Vegas) => "assets/vegas.fwi",
        _ => "assets/badge_placeholder.fwi",
    }
}

} // verus!
