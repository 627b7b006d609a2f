//! The probe for installations made with the Epic Games launcher.
//!
//! The launcher's online services leave one JSON manifest per installed
//! game in a folder that the registry names. The signed-in user's name sits
//! in the launcher's settings file, as JSON in base64.

use vstd::prelude::*;
use crate::candidate::{views_of, Candidate, CandidateView};
use crate::json::{element_of, json_document, member_text_of, Json};
use crate::legendary::EPIC_APP_NAME;
use crate::paths::{join, join_of};
use crate::probe::{ProbeError, RegistryName, RegistryValue, RegistryValueView};
use crate::text::same_text;

verus! {

#[verifier::external_type_specification]
#[verifier::external_body]
pub struct ExIni(ini::Ini);

/// What a parsed settings file holds: the value under each pair of section
/// name and key, as a lookup finds it.
pub uninterp spec fn ini_content(settings: ini::Ini) -> Map<(Seq<char>, Seq<char>), Seq<char>>;

/// What the text of a settings file holds once parsed, or `None` where it
/// does not parse.
pub uninterp spec fn ini_document(text: Seq<char>) -> Option<Map<(Seq<char>, Seq<char>), Seq<char>>>;

/// The bytes that a base64 text stands for, or `None` where it is not
/// base64 in the standard alphabet with padding.
pub uninterp spec fn base64_decoded(text: Seq<char>) -> Option<Seq<u8>>;

/// Parses the text of a settings file.
///
/// Trusted: calls `ini::Ini::load_from_str`. The contract claims only that
/// whether the text parses, and what it then holds, is a function of the
/// text.
#[verifier::external_body]
fn load_settings(text: &str) -> (loaded: Option<ini::Ini>)
    ensures
        match loaded {
            Some(settings) => ini_document(text@) == Some(ini_content(settings)),
            None => ini_document(text@) is None,
        },
{
    ini::Ini::load_from_str(text).ok()
}

/// Looks up the value under a key of a named section.
///
/// Trusted: calls `ini::Ini::get_from` with `Some(section)`, which returns
/// the value of the key in the section of that name, or `None` where the
/// section or the key is absent.
#[verifier::external_body]
fn setting(settings: &ini::Ini, section: &str, key: &str) -> (value: Option<String>)
    ensures
        match value {
            Some(v) => ini_content(*settings).contains_key((section@, key@)) && ini_content(*settings)[(
                section@,
                key@,
            )] == v@,
            None => !ini_content(*settings).contains_key((section@, key@)),
        },
{
    settings.get_from(Some(section), key).map(|v| v.to_owned())
}

/// Decodes base64 text.
///
/// Trusted: calls `decode` of `base64::engine::general_purpose::STANDARD`.
/// The contract claims only that the outcome is a function of the text.
#[verifier::external_body]
fn decode_base64(text: &str) -> (bytes: Option<Vec<u8>>)
    ensures
        match bytes {
            Some(b) => base64_decoded(text@) == Some(b@),
            None => base64_decoded(text@) is None,
        },
{
    base64::Engine::decode(&base64::engine::general_purpose::STANDARD, text).ok()
}

/// How the search for the user's name ended.
#[derive(Debug)]
pub enum NameRecovery {
    /// The settings are there but cannot be read as expected.
    Failed,
    /// There is no settings file, or it holds no offline data.
    Absent,
    /// The name was found.
    Found(String),
}

/// The outcome of a name search as a mathematical value.
pub enum NameRecoveryView {
    Failed,
    Absent,
    Found(Seq<char>),
}

impl View for NameRecovery {
    type V = NameRecoveryView;

    open spec fn view(&self) -> NameRecoveryView {
        match self {
            NameRecovery::Failed => NameRecoveryView::Failed,
            NameRecovery::Absent => NameRecoveryView::Absent,
            NameRecovery::Found(name) => NameRecoveryView::Found(name@),
        }
    }
}

/// The name in the decoded offline data: the `DisplayName` of the first
/// element of the array.
pub open spec fn name_in_blob(blob: Option<Json>) -> NameRecoveryView {
    match blob {
        Some(doc) => match element_of(doc, 0) {
            Some(first) => match member_text_of(first, "DisplayName"@) {
                Some(name) => NameRecoveryView::Found(name),
                None => NameRecoveryView::Failed,
            },
            None => NameRecoveryView::Failed,
        },
        None => NameRecoveryView::Failed,
    }
}

/// The document that the offline data decodes to.
pub open spec fn blob_document(data: Seq<char>) -> Option<Json> {
    match base64_decoded(data) {
        Some(bytes) => json_document(bytes),
        None => None,
    }
}

/// The name that the settings file yields; `None` stands for no file.
pub open spec fn epic_name_of(settings: Option<Seq<char>>) -> NameRecoveryView {
    match settings {
        None => NameRecoveryView::Absent,
        Some(text) => match ini_document(text) {
            None => NameRecoveryView::Failed,
            Some(content) => if content.contains_key(("Offline"@, "Data"@)) {
                name_in_blob(blob_document(content[("Offline"@, "Data"@)]))
            } else {
                NameRecoveryView::Absent
            },
        },
    }
}

/// Reads the user's name out of the decoded offline data.
pub fn name_from_blob(blob: Option<&Json>) -> (name: NameRecovery)
    ensures
        name@ == name_in_blob(match blob { Some(d) => Some(*d), None => None }),
{
    let doc = match blob {
        Some(doc) => doc,
        None => { return NameRecovery::Failed; },
    };
    let first = match doc.element(0) {
        Some(first) => first,
        None => { return NameRecovery::Failed; },
    };
    match first.member_text("DisplayName") {
        Some(name) => NameRecovery::Found(name.clone()),
        None => NameRecovery::Failed,
    }
}

/// Recovers the user's name from the text of the launcher's settings file;
/// `None` stands for a file that does not exist.
pub fn epic_display_name(settings: Option<&str>) -> (name: NameRecovery)
    ensures
        name@ == epic_name_of(match settings { Some(t) => Some(t@), None => None }),
{
    let text = match settings {
        Some(text) => text,
        None => { return NameRecovery::Absent; },
    };
    let loaded = match load_settings(text) {
        Some(loaded) => loaded,
        None => { return NameRecovery::Failed; },
    };
    let data = match setting(&loaded, "Offline", "Data") {
        Some(data) => data,
        None => { return NameRecovery::Absent; },
    };
    let blob = match decode_base64(data.as_str()) {
        Some(bytes) => Json::parse(bytes.as_slice()),
        None => None,
    };
    name_from_blob(blob.as_ref())
}

/// The launcher's settings file, under the folder of local application
/// data.
pub open spec fn epic_settings_file_of(local_data: Seq<char>) -> Seq<char> {
    join_of(
        join_of(
            join_of(join_of(join_of(local_data, "EpicGamesLauncher"@), "Saved"@), "Config"@),
            "Windows"@,
        ),
        "GameUserSettings.ini"@,
    )
}

/// The settings file that the probe reads.
pub fn epic_settings_file(local_data: &str) -> (file: String)
    ensures
        file@ == epic_settings_file_of(local_data@),
{
    let a = join(local_data, "EpicGamesLauncher");
    let b = join(a.as_str(), "Saved");
    let c = join(b.as_str(), "Config");
    let d = join(c.as_str(), "Windows");
    join(d.as_str(), "GameUserSettings.ini")
}

/// The display name that a finished name search gives a candidate.
pub open spec fn name_option(name: NameRecoveryView) -> Option<Seq<char>> {
    match name {
        NameRecoveryView::Found(n) => Some(n),
        _ => None,
    }
}

/// What one more manifest adds to what the earlier ones yielded. `None`
/// stands for a probe that has failed: it stays failed. A manifest fails
/// the probe where it is no JSON or names no application; one for the game
/// fails it where the name search failed or it gives no install location.
pub open spec fn manifest_step(
    earlier: Option<Seq<CandidateView>>,
    manifest: Option<Json>,
    name: NameRecoveryView,
) -> Option<Seq<CandidateView>> {
    match (earlier, manifest) {
        (Some(found), Some(doc)) => match member_text_of(doc, "AppName"@) {
            None => None,
            Some(app) => if app != EPIC_APP_NAME@ {
                Some(found)
            } else if name is Failed {
                None
            } else {
                match member_text_of(doc, "InstallLocation"@) {
                    Some(location) => Some(
                        found.push(CandidateView { path: location, display_name: name_option(name) }),
                    ),
                    None => None,
                }
            },
        },
        _ => None,
    }
}

/// What the manifests yield, taken in order; `None` where one of them
/// failed the probe.
pub open spec fn manifests_yield(manifests: Seq<Option<Json>>, name: NameRecoveryView) -> Option<
    Seq<CandidateView>,
>
    decreases manifests.len(),
{
    if manifests.len() == 0 {
        Some(Seq::empty())
    } else {
        manifest_step(manifests_yield(manifests.drop_last(), name), manifests.last(), name)
    }
}

/// The candidates of the probe: those of the manifests, or none at all
/// where the probe failed.
pub open spec fn eos_candidates(manifests: Seq<Option<Json>>, name: NameRecoveryView) -> Seq<CandidateView> {
    match manifests_yield(manifests, name) {
        Some(found) => found,
        None => Seq::empty(),
    }
}

/// Reads the candidates out of the parsed manifests, given how the name
/// search ended.
pub fn eos_from_documents(manifests: &Vec<Option<Json>>, name: &NameRecovery) -> (found: Vec<Candidate>)
    ensures
        views_of(found@) == eos_candidates(manifests@, name@),
{
    let mut found: Vec<Candidate> = Vec::new();
    let mut i: usize = 0;
    assert(manifests@.take(0) =~= Seq::empty());
    assert(views_of(found@) =~= Seq::empty());
    while i < manifests.len()
        invariant
            i <= manifests@.len(),
            manifests_yield(manifests@.take(i as int), name@) == Some(views_of(found@)),
        decreases manifests@.len() - i,
    {
        let ghost upto = manifests@.take(i + 1);
        assert(upto.drop_last() =~= manifests@.take(i as int));
        assert(upto.last() == manifests@[i as int]);
        let ghost kept = views_of(found@);
        let mut failed = true;
        if let Some(doc) = &manifests[i] {
            if let Some(app) = doc.member_text("AppName") {
                if !same_text(app.as_str(), EPIC_APP_NAME) {
                    failed = false;
                } else if let Some(location) = doc.member_text("InstallLocation") {
                    match name {
                        NameRecovery::Failed => {},
                        NameRecovery::Absent => {
                            found.push(Candidate::new(location.clone(), None));
                            failed = false;
                        },
                        NameRecovery::Found(n) => {
                            found.push(Candidate::new(location.clone(), Some(n.clone())));
                            failed = false;
                        },
                    }
                    if !failed {
                        assert(views_of(found@) =~= kept.push(
                            CandidateView { path: location@, display_name: name_option(name@) },
                        ));
                    }
                }
            }
        }
        if failed {
            proof {
                lemma_failure_stays(manifests@, name@, i + 1);
            }
            let nothing: Vec<Candidate> = Vec::new();
            assert(views_of(nothing@) =~= Seq::empty());
            return nothing;
        }
        i += 1;
    }
    assert(manifests@.take(i as int) =~= manifests@);
    found
}

/// Once the manifests up to some point have failed the probe, all of them
/// together have.
proof fn lemma_failure_stays(manifests: Seq<Option<Json>>, name: NameRecoveryView, upto: int)
    requires
        0 <= upto <= manifests.len(),
        manifests_yield(manifests.take(upto), name) is None,
    ensures
        manifests_yield(manifests, name) is None,
    decreases manifests.len() - upto,
{
    if upto < manifests.len() {
        assert(manifests.take(upto + 1).drop_last() =~= manifests.take(upto));
        lemma_failure_stays(manifests, name, upto + 1);
    } else {
        assert(manifests.take(upto) =~= manifests);
    }
}

/// The documents that the files of the manifest folder parse to.
pub open spec fn documents_of(files: Seq<Vec<u8>>) -> Seq<Option<Json>> {
    files.map_values(|bytes: Vec<u8>| json_document(bytes@))
}

/// The outcome of the probe. Without the registry value the source is not
/// in use; a value that is no string is an error; else the manifests and
/// the settings file decide.
pub open spec fn eos_outcome(
    dir: RegistryValueView,
    files: Seq<Vec<u8>>,
    settings: Option<Seq<char>>,
) -> Result<Seq<CandidateView>, ProbeError> {
    match dir {
        RegistryValueView::Missing => Ok(Seq::empty()),
        RegistryValueView::Other => Err(ProbeError::NotText(RegistryName::EpicManifestDir)),
        RegistryValueView::Text(_) => Ok(eos_candidates(documents_of(files), epic_name_of(settings))),
    }
}

/// Probes for installations made with the Epic Games launcher, given the
/// registry value that names the manifest folder, the bytes of each file in
/// that folder, and the text of the launcher's settings file, `None` where
/// there is none.
pub fn probe_eos(dir: &RegistryValue, files: &Vec<Vec<u8>>, settings: Option<&str>) -> (outcome: Result<
    Vec<Candidate>,
    ProbeError,
>)
    ensures
        match outcome {
            Ok(found) => eos_outcome(dir@, files@, match settings { Some(t) => Some(t@), None => None })
                == Ok::<Seq<CandidateView>, ProbeError>(views_of(found@)),
            Err(error) => eos_outcome(dir@, files@, match settings { Some(t) => Some(t@), None => None })
                == Err::<Seq<CandidateView>, ProbeError>(error),
        },
{
    match dir {
        RegistryValue::Missing => {
            let nothing: Vec<Candidate> = Vec::new();
            assert(views_of(nothing@) =~= Seq::empty());
            Ok(nothing)
        },
        RegistryValue::Other => Err(ProbeError::NotText(RegistryName::EpicManifestDir)),
        RegistryValue::Text(_) => {
            let mut documents: Vec<Option<Json>> = Vec::new();
            let mut i: usize = 0;
            while i < files.len()
                invariant
                    i <= files@.len(),
                    documents@ == documents_of(files@.take(i as int)),
                decreases files@.len() - i,
            {
                let doc = Json::parse(files[i].as_slice());
                documents.push(doc);
                assert(documents@ =~= documents_of(files@.take(i + 1)));
                i += 1;
            }
            assert(files@.take(i as int) =~= files@);
            let name = epic_display_name(settings);
            Ok(eos_from_documents(&documents, &name))
        },
    }
}

} // verus!
