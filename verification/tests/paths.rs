use dmg_bundler::paths::arch_alias;
use dmg_bundler::paths::plan_paths;
use dmg_bundler::resources::support_template_content;
use dmg_bundler::settings::Settings;

fn settings(binary: &str, version: &str, arch: &str, root: &str) -> Settings {
    Settings {
        binary_name: binary.to_string(),
        version: version.to_string(),
        arch: arch.to_string(),
        output_root: root.to_string(),
        license_path: None,
        signing_identity: None,
        skip_ci_checks: false,
        cleanup_staging: false,
        compiler_timeout_ms: None,
    }
}

#[test]
fn arch_alias_maps_x86_64_to_x64() {
    assert_eq!(arch_alias(&"x86_64".to_string()), "x64");
}

#[test]
fn arch_alias_passes_other_labels_through() {
    assert_eq!(arch_alias(&"aarch64".to_string()), "aarch64");
    assert_eq!(arch_alias(&"armv7".to_string()), "armv7");
    assert_eq!(arch_alias(&"x86".to_string()), "x86");
    assert_eq!(arch_alias(&"".to_string()), "");
    assert_eq!(arch_alias(&"x86_64h".to_string()), "x86_64h");
}

#[test]
fn final_path_for_x86_64() {
    let plan = plan_paths(&settings("app", "1.0.0", "x86_64", "/out"));
    assert_eq!(plan.image_path, "/out/bundle/dmg/app_1.0.0_x64.dmg");
}

#[test]
fn final_path_for_aarch64() {
    let plan = plan_paths(&settings("app", "2.0.0", "aarch64", "/out"));
    assert_eq!(plan.image_path, "/out/bundle/dmg/app_2.0.0_aarch64.dmg");
}

#[test]
fn all_planned_paths_are_exact() {
    let plan = plan_paths(&settings("app", "1.0.0", "x86_64", "/out"));
    assert_eq!(plan.package_base_name, "app_1.0.0_x64");
    assert_eq!(plan.output_dir, "/out/bundle/dmg");
    assert_eq!(plan.image_name, "app_1.0.0_x64.dmg");
    assert_eq!(plan.bundle_dir, "/out/bundle/macos");
    assert_eq!(plan.app_bundle_file_name, "app.app");
    assert_eq!(plan.app_bundle_src, "/out/bundle/macos/app.app");
    assert_eq!(plan.staging_dir, "/out/bundle/dmg/temp");
    assert_eq!(plan.support_dir, "/out/bundle/dmg/temp/support");
    assert_eq!(plan.app_bundle_dst, "/out/bundle/dmg/temp/app.app");
    assert_eq!(
        plan.support_template_path,
        "/out/bundle/dmg/temp/support/eula-resources-template.xml"
    );
    assert_eq!(plan.volume_icon_path, "/out/bundle/dmg/temp/.VolumeIcon.icns");
    assert_eq!(plan.compiler_output_path, "/out/bundle/macos/app_1.0.0_x64.dmg");
}

#[test]
fn planned_paths_are_deterministic() {
    let mut a = settings("tool", "0.3.1", "aarch64", "/build/out");
    let mut b = settings("tool", "0.3.1", "aarch64", "/build/out");
    // The optional fields and flags play no part in path planning.
    a.signing_identity = Some("Developer ID".to_string());
    a.license_path = Some("/lic/EULA.txt".to_string());
    a.skip_ci_checks = true;
    b.cleanup_staging = true;
    b.compiler_timeout_ms = Some(5_000);
    let pa = plan_paths(&a);
    let pb = plan_paths(&b);
    assert_eq!(pa.image_path, pb.image_path);
    assert_eq!(pa.staging_dir, pb.staging_dir);
    assert_eq!(pa.compiler_output_path, pb.compiler_output_path);
    assert_eq!(pa.image_path, plan_paths(&a).image_path);
}

#[test]
fn support_template_is_fixed_xml() {
    let content = support_template_content();
    assert_eq!(content, support_template_content());
    assert!(content.starts_with("<?xml version=\"1.0\" encoding=\"UTF-8\"?>"));
    assert!(content.contains("<plist version=\"1.0\">"));
    assert!(content.contains("LPic"));
    assert!(content.ends_with("</plist>\n"));
}
