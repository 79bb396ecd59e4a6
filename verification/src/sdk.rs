use vstd::prelude::*;
use vstd::string::*;
use crate::ids::{is_random_uuid, new_uuid};
use crate::ratio::Ratio;

verus! {

/// Manifest describing an anonymity provider plugin.
#[derive(Debug, Clone)]
pub struct AnonymityPluginManifest {
    pub id: u128,
    pub name: String,
    pub version: String,
    pub provider: String,
    pub description: Option<String>,
    pub min_privacy_score: Ratio,
}

/// The value of an [`AnonymityPluginManifest`].
pub struct AnonymityPluginManifestView {
    pub id: u128,
    pub name: Seq<char>,
    pub version: Seq<char>,
    pub provider: Seq<char>,
    pub description: Option<Seq<char>>,
    pub min_privacy_score: Ratio,
}

impl View for AnonymityPluginManifest {
    type V = AnonymityPluginManifestView;

    open spec fn view(&self) -> AnonymityPluginManifestView {
        AnonymityPluginManifestView {
            id: self.id,
            name: self.name@,
            version: self.version@,
            provider: self.provider@,
            description: self.description.deep_view(),
            min_privacy_score: self.min_privacy_score,
        }
    }
}

impl AnonymityPluginManifest {
    /// A manifest with a fresh random id, no description and no minimum
    /// privacy score.
    pub fn new(name: &str, version: &str, provider: &str) -> (r: Self)
        ensures
            r@.name == name@,
            r@.version == version@,
            r@.provider == provider@,
            r@.description is None,
            is_random_uuid(r@.id),
            r@.min_privacy_score == (Ratio { num: 0, den: 1 }),
    {
        AnonymityPluginManifest {
            id: new_uuid(),
            name: String::from_str(name),
            version: String::from_str(version),
            provider: String::from_str(provider),
            description: None,
            min_privacy_score: Ratio::zero(),
        }
    }
}

} // verus!
