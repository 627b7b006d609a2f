//! What the platform probes share: the registry values they are handed and
//! the one error they report.

use vstd::prelude::*;
use crate::text::join_text;

verus! {

/// A value read from the registry of the current user.
#[derive(Debug)]
pub enum RegistryValue {
    /// The key or the value is absent, or could not be read.
    Missing,
    /// The value is a string.
    Text(String),
    /// The value is present with another data type.
    Other,
}

/// A registry value as a mathematical value.
pub enum RegistryValueView {
    Missing,
    Text(Seq<char>),
    Other,
}

impl View for RegistryValue {
    type V = RegistryValueView;

    open spec fn view(&self) -> RegistryValueView {
        match self {
            RegistryValue::Missing => RegistryValueView::Missing,
            RegistryValue::Text(s) => RegistryValueView::Text(s@),
            RegistryValue::Other => RegistryValueView::Other,
        }
    }
}

/// The registry values whose data type the probes insist on.
#[derive(Clone, Copy, Debug, PartialEq, Eq, Structural)]
pub enum RegistryName {
    /// `ModSdkMetadataDir` under `Software\Epic Games\EOS`.
    EpicManifestDir,
    /// `SteamPath` under `Software\Valve\Steam`.
    SteamPath,
}

/// The one failure of a probe that is reported rather than passed over: a
/// registry value that is present but is no string.
#[derive(Clone, Copy, Debug, PartialEq, Eq, Structural)]
pub enum ProbeError {
    NotText(RegistryName),
}

/// The registry key of the Epic Online Services.
pub const EPIC_KEY: &'static str = "Software\\Epic Games\\EOS";

/// The value under [`EPIC_KEY`] that names the folder of manifests.
pub const EPIC_MANIFEST_DIR_VALUE: &'static str = "ModSdkMetadataDir";

/// The registry key of the Steam client.
pub const STEAM_KEY: &'static str = "Software\\Valve\\Steam";

/// The value under [`STEAM_KEY`] that names the client's folder.
pub const STEAM_PATH_VALUE: &'static str = "SteamPath";

/// The registry key of the Xbox services.
pub const XBOX_KEY: &'static str = "Software\\Microsoft\\XboxLive";

/// The value under [`XBOX_KEY`] that holds the user's gamertag.
pub const XBOX_GAMERTAG_VALUE: &'static str = "ModernGamertag";

/// The name of the registry value as the registry spells it.
pub open spec fn value_name_of(name: RegistryName) -> Seq<char> {
    match name {
        RegistryName::EpicManifestDir => EPIC_MANIFEST_DIR_VALUE@,
        RegistryName::SteamPath => STEAM_PATH_VALUE@,
    }
}

/// The text of the error as it is shown to the user.
pub open spec fn message_of(error: ProbeError) -> Seq<char> {
    match error {
        ProbeError::NotText(name) => "Registry key "@ + value_name_of(name) + " was not string"@,
    }
}

impl ProbeError {
    /// The text of the error as it is shown to the user.
    pub fn message(&self) -> (text: String)
        ensures
            text@ == message_of(*self),
    {
        match self {
            ProbeError::NotText(name) => {
                let value = match name {
                    RegistryName::EpicManifestDir => EPIC_MANIFEST_DIR_VALUE,
                    RegistryName::SteamPath => STEAM_PATH_VALUE,
                };
                let start = join_text("Registry key ", value);
                join_text(start.as_str(), " was not string")
            },
        }
    }
}

} // verus!
