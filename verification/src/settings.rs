//! Read-only build settings and the prerequisite decision.

use vstd::prelude::*;

verus! {

/// Package-type tag carried by a previously produced packaging artifact.
#[derive(Clone, Copy, Debug, PartialEq, Eq, Structural)]
pub enum PackageType {
    MacOsBundle,
    IosBundle,
    WindowsMsi,
    Deb,
    Rpm,
    AppImage,
    Dmg,
    Updater,
}

/// Descriptor of a previously produced packaging artifact. The pipeline only
/// inspects the package-type tag, to decide whether the application-bundle
/// step must run; descriptors are read-only input and never owned here.
#[derive(Clone, Copy, Debug, PartialEq, Eq, Structural)]
pub struct Bundle {
    pub package_type: PackageType,
}

/// Immutable configuration for one pipeline run.
///
/// Optional steps (license resource, signing) are modeled as optional fields,
/// never as sentinel empty strings. Environment-dependent behavior is
/// resolved by the host once, before a run starts, and handed in here as
/// explicit flags: `skip_ci_checks` replaces any in-pipeline sniffing of a
/// continuous-integration indicator, `cleanup_staging` makes removal of the
/// staging tree after a successful run an explicit choice, and
/// `compiler_timeout_ms` bounds how long the host lets the external
/// disk-image compiler run (`None` means no bound).
#[derive(Clone, Debug)]
pub struct Settings {
    pub binary_name: String,
    pub version: String,
    pub arch: String,
    pub output_root: String,
    pub license_path: Option<String>,
    pub signing_identity: Option<String>,
    pub skip_ci_checks: bool,
    pub cleanup_staging: bool,
    pub compiler_timeout_ms: Option<u64>,
}

/// True iff no descriptor carries the macOS application-bundle tag, so the
/// prerequisite application-bundle build must run before staging.
pub open spec fn spec_needs_app_bundle(bundles: Seq<Bundle>) -> bool {
    forall|i: int|
        0 <= i < bundles.len() ==> bundles[i].package_type != PackageType::MacOsBundle
}

/// Whether the prerequisite application-bundle build must run: true iff no
/// given descriptor is tagged as a macOS application bundle.
pub fn needs_app_bundle(bundles: &Vec<Bundle>) -> (r: bool)
    ensures
        r == spec_needs_app_bundle(bundles@),
{
    let mut i: usize = 0;
    while i < bundles.len()
        invariant
            0 <= i <= bundles@.len(),
            forall|j: int| 0 <= j < i ==> bundles@[j].package_type != PackageType::MacOsBundle,
        decreases bundles@.len() - i,
    {
        if bundles[i].package_type == PackageType::MacOsBundle {
            return false;
        }
        i += 1;
    }
    true
}

} // verus!
