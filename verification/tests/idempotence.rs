use std::collections::BTreeSet;

use dmg_bundler::pipeline::Action;
use dmg_bundler::pipeline::Pipeline;
use dmg_bundler::pipeline::StepOutcome;
use dmg_bundler::settings::Bundle;
use dmg_bundler::settings::PackageType;
use dmg_bundler::settings::Settings;

/// A toy filesystem: the set of file paths and the set of directory paths.
struct ToyFs {
    files: BTreeSet<String>,
    dirs: BTreeSet<String>,
}

impl ToyFs {
    fn new() -> ToyFs {
        ToyFs { files: BTreeSet::new(), dirs: BTreeSet::new() }
    }

    fn remove_tree(&mut self, path: &str) {
        let prefix = format!("{}/", path);
        self.files.retain(|f| f != path && !f.starts_with(&prefix));
        self.dirs.retain(|d| d != path && !d.starts_with(&prefix));
    }

    /// Performs one action of the pipeline on the toy filesystem and
    /// reports its outcome.
    fn perform(&mut self, action: &Action) -> StepOutcome {
        match action {
            Action::BuildAppBundle => StepOutcome::Succeeded,
            Action::RemoveDirIfExists { path } => {
                self.remove_tree(path);
                StepOutcome::Succeeded
            }
            Action::CreateDirAll { path } => {
                self.dirs.insert(path.clone());
                StepOutcome::Succeeded
            }
            Action::CopyDir { dst, .. } => {
                self.dirs.insert(dst.clone());
                self.files.insert(format!("{}/Contents", dst));
                StepOutcome::Succeeded
            }
            Action::WriteSupportTemplate { path } => {
                self.files.insert(path.clone());
                StepOutcome::Succeeded
            }
            Action::SynthesizeIcon { .. } => StepOutcome::IconReady { icon_path: None },
            Action::CopyFile { dst, .. } => {
                self.files.insert(dst.clone());
                StepOutcome::Succeeded
            }
            Action::RunCompiler { working_dir, image_name, .. } => {
                // The compiler writes relative to its working directory.
                self.files.insert(format!("{}/{}", working_dir, image_name));
                StepOutcome::Succeeded
            }
            Action::RenameFile { from, to } => {
                assert!(self.files.remove(from), "rename source must exist");
                self.files.insert(to.clone());
                StepOutcome::Succeeded
            }
            Action::RemoveFileBestEffort { path } => {
                self.files.remove(path);
                StepOutcome::Succeeded
            }
            Action::SignImage { path, .. } => {
                assert!(self.files.contains(path), "the signer needs the final image in place");
                StepOutcome::Succeeded
            }
            Action::Finish { .. } | Action::Abort { .. } => {
                panic!("terminal actions take no outcome")
            }
        }
    }
}

fn run_pipeline(fs: &mut ToyFs, settings: Settings, bundles: &Vec<Bundle>) -> String {
    let (mut p, mut a) = Pipeline::start(settings, bundles);
    loop {
        match &a {
            Action::Finish { image_path } => return image_path.clone(),
            Action::Abort { error } => panic!("run failed: {:?}", error),
            _ => {
                let outcome = fs.perform(&a);
                a = p.advance(outcome);
            }
        }
    }
}

fn settings() -> Settings {
    Settings {
        binary_name: "app".to_string(),
        version: "1.0.0".to_string(),
        arch: "x86_64".to_string(),
        output_root: "/out".to_string(),
        license_path: None,
        signing_identity: Some("Dev ID".to_string()),
        skip_ci_checks: false,
        cleanup_staging: false,
        compiler_timeout_ms: None,
    }
}

#[test]
fn two_runs_leave_exactly_one_image_at_the_canonical_path() {
    let bundles = vec![Bundle { package_type: PackageType::MacOsBundle }];
    let mut fs = ToyFs::new();
    let first = run_pipeline(&mut fs, settings(), &bundles);
    let images_after_first: Vec<String> =
        fs.files.iter().filter(|f| f.ends_with(".dmg")).cloned().collect();
    assert_eq!(images_after_first, vec!["/out/bundle/dmg/app_1.0.0_x64.dmg".to_string()]);

    // Run again against the same settings, first run's leavings in place.
    let second = run_pipeline(&mut fs, settings(), &bundles);
    assert_eq!(first, second);
    let images_after_second: Vec<String> =
        fs.files.iter().filter(|f| f.ends_with(".dmg")).cloned().collect();
    assert_eq!(images_after_second, vec!["/out/bundle/dmg/app_1.0.0_x64.dmg".to_string()]);
}

#[test]
fn second_run_precleans_the_whole_output_directory() {
    let bundles = vec![Bundle { package_type: PackageType::MacOsBundle }];
    let mut fs = ToyFs::new();
    run_pipeline(&mut fs, settings(), &bundles);
    // The staging tree of the first run is left behind (cleanup not asked for).
    assert!(fs.dirs.contains("/out/bundle/dmg/temp"));
    // Plant a stray file where the pre-clean step must remove it.
    fs.files.insert("/out/bundle/dmg/stale.dmg".to_string());
    run_pipeline(&mut fs, settings(), &bundles);
    assert!(!fs.files.contains("/out/bundle/dmg/stale.dmg"));
    let images: Vec<String> = fs.files.iter().filter(|f| f.ends_with(".dmg")).cloned().collect();
    assert_eq!(images, vec!["/out/bundle/dmg/app_1.0.0_x64.dmg".to_string()]);
}
