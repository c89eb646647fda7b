//! Path planning: every output location is a pure function of the settings.
//!
//! Paths are modeled as plain strings with `/` separators. The package base
//! name is `{binary}_{version}_{arch}`, where the architecture label
//! `x86_64` is published as `x64` and every other label passes through
//! unchanged.

use vstd::prelude::*;
use vstd::string::StringExecFns;
use crate::settings::Settings;

verus! {

/// Architecture label used in package file names: `x86_64` becomes `x64`,
/// anything else is kept verbatim (future architecture labels must pass
/// through, so this is deliberately not a closed enumeration).
pub open spec fn spec_arch_alias(arch: Seq<char>) -> Seq<char> {
    if arch == "x86_64"@ {
        "x64"@
    } else {
        arch
    }
}

/// `{binary}_{version}_{aliased arch}`: the stem of every output file name.
pub open spec fn spec_package_base_name(s: Settings) -> Seq<char> {
    s.binary_name@ + "_"@ + s.version@ + "_"@ + spec_arch_alias(s.arch@)
}

/// Directory that holds the final image and the staging tree.
pub open spec fn spec_output_dir(s: Settings) -> Seq<char> {
    s.output_root@ + "/bundle/dmg"@
}

/// File name of the produced disk image.
pub open spec fn spec_image_name(s: Settings) -> Seq<char> {
    spec_package_base_name(s) + ".dmg"@
}

/// Final, public path of the produced disk image.
pub open spec fn spec_image_path(s: Settings) -> Seq<char> {
    spec_output_dir(s) + "/"@ + spec_image_name(s)
}

/// Directory that holds the pre-built application bundle (read-only input).
pub open spec fn spec_bundle_dir(s: Settings) -> Seq<char> {
    s.output_root@ + "/bundle/macos"@
}

/// File name of the application bundle directory.
pub open spec fn spec_app_bundle_file_name(s: Settings) -> Seq<char> {
    s.binary_name@ + ".app"@
}

/// Where the application bundle is read from.
pub open spec fn spec_app_bundle_src(s: Settings) -> Seq<char> {
    spec_bundle_dir(s) + "/"@ + spec_app_bundle_file_name(s)
}

/// Ephemeral staging tree, rebuilt from scratch on every run.
pub open spec fn spec_staging_dir(s: Settings) -> Seq<char> {
    spec_output_dir(s) + "/temp"@
}

/// Support subdirectory of the staging tree, for template resources.
pub open spec fn spec_support_dir(s: Settings) -> Seq<char> {
    spec_staging_dir(s) + "/support"@
}

/// Where the application bundle is copied to inside the staging tree.
pub open spec fn spec_app_bundle_dst(s: Settings) -> Seq<char> {
    spec_staging_dir(s) + "/"@ + spec_app_bundle_file_name(s)
}

/// Where the embedded license-resource template is written.
pub open spec fn spec_support_template_path(s: Settings) -> Seq<char> {
    spec_support_dir(s) + "/eula-resources-template.xml"@
}

/// Hidden volume-icon file name the disk-image compiler looks for.
pub open spec fn spec_volume_icon_path(s: Settings) -> Seq<char> {
    spec_staging_dir(s) + "/.VolumeIcon.icns"@
}

/// Where the disk-image compiler deposits its output: it writes relative to
/// its working directory, which is the application-bundle directory.
pub open spec fn spec_compiler_output_path(s: Settings) -> Seq<char> {
    spec_bundle_dir(s) + "/"@ + spec_image_name(s)
}

/// Every output location of one run, precomputed from the settings.
#[derive(Clone, Debug)]
pub struct PlannedPaths {
    pub package_base_name: String,
    pub output_dir: String,
    pub image_name: String,
    pub image_path: String,
    pub bundle_dir: String,
    pub app_bundle_file_name: String,
    pub app_bundle_src: String,
    pub staging_dir: String,
    pub support_dir: String,
    pub app_bundle_dst: String,
    pub support_template_path: String,
    pub volume_icon_path: String,
    pub compiler_output_path: String,
}

impl PlannedPaths {
    /// Each field holds exactly the location that the corresponding pure
    /// path function derives from `s`.
    pub open spec fn wf(self, s: Settings) -> bool {
        &&& self.package_base_name@ == spec_package_base_name(s)
        &&& self.output_dir@ == spec_output_dir(s)
        &&& self.image_name@ == spec_image_name(s)
        &&& self.image_path@ == spec_image_path(s)
        &&& self.bundle_dir@ == spec_bundle_dir(s)
        &&& self.app_bundle_file_name@ == spec_app_bundle_file_name(s)
        &&& self.app_bundle_src@ == spec_app_bundle_src(s)
        &&& self.staging_dir@ == spec_staging_dir(s)
        &&& self.support_dir@ == spec_support_dir(s)
        &&& self.app_bundle_dst@ == spec_app_bundle_dst(s)
        &&& self.support_template_path@ == spec_support_template_path(s)
        &&& self.volume_icon_path@ == spec_volume_icon_path(s)
        &&& self.compiler_output_path@ == spec_compiler_output_path(s)
    }
}

/// Architecture label used in output file names.
pub fn arch_alias(arch: &String) -> (r: String)
    ensures
        r@ == spec_arch_alias(arch@),
{
    let x86: String = String::from_str("x86_64");
    if *arch == x86 {
        String::from_str("x64")
    } else {
        arch.clone()
    }
}

/// `base + "/" + name`.
fn path_join(base: &str, name: &str) -> (r: String)
    ensures
        r@ == base@ + "/"@ + name@,
{
    String::from_str(base).concat("/").concat(name)
}

/// Derives every output location of one run from the settings. Deterministic
/// and side-effect free: the result is a pure function of the settings.
pub fn plan_paths(s: &Settings) -> (p: PlannedPaths)
    ensures
        p.wf(*s),
{
    let alias = arch_alias(&s.arch);
    let package_base_name = s
        .binary_name
        .clone()
        .concat("_")
        .concat(s.version.as_str())
        .concat("_")
        .concat(alias.as_str());
    let output_dir = s.output_root.clone().concat("/bundle/dmg");
    let image_name = package_base_name.clone().concat(".dmg");
    let image_path = path_join(output_dir.as_str(), image_name.as_str());
    let bundle_dir = s.output_root.clone().concat("/bundle/macos");
    let app_bundle_file_name = s.binary_name.clone().concat(".app");
    let app_bundle_src = path_join(bundle_dir.as_str(), app_bundle_file_name.as_str());
    let staging_dir = output_dir.clone().concat("/temp");
    let support_dir = staging_dir.clone().concat("/support");
    let app_bundle_dst = path_join(staging_dir.as_str(), app_bundle_file_name.as_str());
    let support_template_path = support_dir.clone().concat("/eula-resources-template.xml");
    let volume_icon_path = staging_dir.clone().concat("/.VolumeIcon.icns");
    let compiler_output_path = path_join(bundle_dir.as_str(), image_name.as_str());
    PlannedPaths {
        package_base_name,
        output_dir,
        image_name,
        image_path,
        bundle_dir,
        app_bundle_file_name,
        app_bundle_src,
        staging_dir,
        support_dir,
        app_bundle_dst,
        support_template_path,
        volume_icon_path,
        compiler_output_path,
    }
}

} // verus!
