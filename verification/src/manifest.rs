//! The custom manifest: a small JSON object at the source tree root that
//! names the backend outright and lists dependencies and flags verbatim,
//! overriding the generic extractors.

use vstd::prelude::*;
use crate::build_system::{backend_from_name, spec_backend_from_name, BuildSystem};
use crate::detect::DetectionResult;

verus! {

/// The three fields a custom manifest may carry, as read from its JSON
/// text: absent keys and non-string array entries are already dropped.
pub struct RawManifest {
    pub build_system: Option<String>,
    pub dependencies: Vec<String>,
    pub flags: Vec<String>,
}

/// The ghost image of a [`RawManifest`].
pub struct ManifestFields {
    pub build_system: Option<Seq<char>>,
    pub dependencies: Seq<Seq<char>>,
    pub flags: Seq<Seq<char>>,
}

impl DeepView for RawManifest {
    type V = ManifestFields;

    open spec fn deep_view(&self) -> ManifestFields {
        ManifestFields {
            build_system: self.build_system.deep_view(),
            dependencies: self.dependencies.deep_view(),
            flags: self.flags.deep_view(),
        }
    }
}

/// What parsing a custom manifest's text yields: `None` for text that is
/// not a JSON document, otherwise the document's `build_system` string and
/// the string entries of its `dependencies` and `flags` arrays, in order.
pub uninterp spec fn manifest_of(text: Seq<char>) -> Option<ManifestFields>;

/// Relies on serde_json::from_str and serde_json::Value's accessors: the
/// parse of a fixed text always yields the same document, so the fields
/// read from it are a function of the text alone.
#[verifier::external_body]
fn parse_manifest_json(text: &str) -> (r: Option<RawManifest>)
    ensures
        r.deep_view() == manifest_of(text@),
{
    let v: serde_json::Value = match serde_json::from_str(text) {
        Ok(v) => v,
        Err(_) => return None,
    };
    Some(RawManifest {
        build_system: v.get("build_system").and_then(|b| b.as_str()).map(|s| s.to_string()),
        dependencies: v.get("dependencies").and_then(|d| d.as_array())
            .map(|a| a.iter().filter_map(|x| x.as_str().map(|s| s.to_string())).collect())
            .unwrap_or_default(),
        flags: v.get("flags").and_then(|f| f.as_array())
            .map(|a| a.iter().filter_map(|x| x.as_str().map(|s| s.to_string())).collect())
            .unwrap_or_default(),
    })
}

/// The backend a manifest names; a manifest silent on the point means Make,
/// and an unrecognised name means `Unknown`.
pub open spec fn spec_manifest_backend(m: ManifestFields) -> BuildSystem {
    match m.build_system {
        Some(name) => spec_backend_from_name(name),
        None => BuildSystem::Make,
    }
}

/// Detection through a custom manifest: the manifest's own backend name,
/// dependencies and flags, taken verbatim, with the generic extractors
/// bypassed. `None` exactly when the text is not a JSON document — a fatal
/// condition for the caller.
pub fn detect_from_manifest(marker: &str, text: &str) -> (r: Option<DetectionResult>)
    ensures
        r is Some <==> manifest_of(text@) is Some,
        r matches Some(d) ==> {
            let m = manifest_of(text@)->Some_0;
            &&& d.backend == spec_manifest_backend(m)
            &&& d.marker_file matches Some(f) && f@ == marker@
            &&& d.dependencies.deep_view() == m.dependencies
            &&& d.extra_flags.deep_view() == m.flags
        },
{
    match parse_manifest_json(text) {
        None => None,
        Some(raw) => {
            let backend = match &raw.build_system {
                Some(name) => backend_from_name(name.as_str()),
                None => BuildSystem::Make,
            };
            Some(
                DetectionResult {
                    backend,
                    marker_file: Some(marker.to_owned()),
                    dependencies: raw.dependencies,
                    extra_flags: raw.flags,
                },
            )
        },
    }
}

} // verus!
