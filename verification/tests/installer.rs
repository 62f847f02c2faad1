use appimage_installer::desktop::descriptor_path;
use appimage_installer::desktop::generate_desktop_file;
use appimage_installer::install::confirm_removal;
use appimage_installer::install::plan_install;
use appimage_installer::install::resolve_icon_field;
use appimage_installer::install::CopyOp;
use appimage_installer::install::InstallPlan;
use appimage_installer::install::InstallRequest;
use appimage_installer::validate::validate_file_ext;
use appimage_installer::validate::validate_src_icon;

fn request(file: &str, icon: &str, target_dir: &str, home: &str) -> InstallRequest {
    InstallRequest {
        name: String::from("MyApp"),
        file: String::from(file),
        description: String::new(),
        icon: String::from(icon),
        target_dir: String::from(target_dir),
        category: String::new(),
        home: String::from(home),
    }
}

#[test]
fn accepts_exact_extension() {
    assert!(validate_file_ext("./App-1.2.AppImage"));
    assert!(validate_file_ext("foo.appimage"));
    assert!(validate_file_ext("foo.APPIMAGE"));
    assert!(validate_file_ext("/some/dir/a.b.AppImage"));
}

#[test]
fn rejects_other_extensions() {
    assert!(!validate_file_ext("foo.png"));
    assert!(!validate_file_ext("foo.appimagex"));
    assert!(!validate_file_ext("foo.appimag"));
    assert!(!validate_file_ext("appimage"));
    assert!(!validate_file_ext(".appimage"));
    assert!(!validate_file_ext("foo."));
    assert!(!validate_file_ext(""));
    assert!(!validate_file_ext("dir.appimage/file"));
}

#[test]
fn icon_check_reports_the_probe() {
    assert!(validate_src_icon(true));
    assert!(!validate_src_icon(false));
}

#[test]
fn wrong_extension_is_rejected_with_no_steps() {
    let req = request("notes.txt", "", "/tmp/apps", "/home/user");
    let plan = plan_install(&req, false, false);
    assert!(matches!(plan, InstallPlan::RejectBundle));
}

#[test]
fn missing_icon_rejects_before_any_copy() {
    let req = request("App.AppImage", "./missing.svg", "/tmp/apps", "/home/user");
    let plan = plan_install(&req, false, false);
    assert!(matches!(plan, InstallPlan::RejectIcon));
}

#[test]
fn example_scenario_plans_the_copy() {
    let req = request("./App-1.2.AppImage", "", "/tmp/apps", "/home/user");
    let plan = plan_install(&req, false, false);
    match plan {
        InstallPlan::Proceed(pp) => {
            assert!(pp.icon_copy.is_none());
            assert_eq!(pp.bundle_src, "./App-1.2.AppImage");
            assert_eq!(pp.bundle_target, "/tmp/apps/App-1.2.AppImage");
            assert!(!pp.conflict);
            let content = generate_desktop_file(
                "MyApp",
                "",
                &resolve_icon_field(false, ""),
                "",
                &pp.bundle_target,
            );
            assert!(content.contains("Exec=/tmp/apps/App-1.2.AppImage"));
            assert!(content.contains("\nIcon=\n"));
        }
        _ => panic!("expected a proceed plan"),
    }
    assert_eq!(
        descriptor_path("/home/user", "MyApp"),
        "/home/user/.local/share/applications/MyApp.desktop"
    );
}

#[test]
fn icon_copy_targets_the_icons_directory() {
    let req = request("App.AppImage", "/art/ico.png", "/tmp/apps", "/home/user");
    let plan = plan_install(&req, true, false);
    match plan {
        InstallPlan::Proceed(pp) => match pp.icon_copy {
            Some(CopyOp { src, dst }) => {
                assert_eq!(src, "/art/ico.png");
                assert_eq!(dst, "/home/user/.local/share/icons/ico.png");
            }
            None => panic!("expected an icon copy"),
        },
        _ => panic!("expected a proceed plan"),
    }
}

#[test]
fn existing_target_requires_confirmation() {
    let req = request("App.AppImage", "", "/tmp/apps", "/home/user");
    let plan = plan_install(&req, false, true);
    match plan {
        InstallPlan::Proceed(pp) => assert!(pp.conflict),
        _ => panic!("expected a proceed plan"),
    }
}

#[test]
fn only_exact_lowercase_y_accepts_removal() {
    assert!(confirm_removal("y"));
    assert!(!confirm_removal("Y"));
    assert!(!confirm_removal("yes"));
    assert!(!confirm_removal(""));
    assert!(!confirm_removal("n"));
    assert!(!confirm_removal("y "));
}

#[test]
fn failed_icon_copy_leaves_the_field_empty() {
    assert_eq!(resolve_icon_field(false, "/home/user/.local/share/icons/i.png"), "");
    assert_eq!(
        resolve_icon_field(true, "/home/user/.local/share/icons/i.png"),
        "/home/user/.local/share/icons/i.png"
    );
}

#[test]
fn descriptor_text_is_the_exact_template() {
    let content = generate_desktop_file("N", "D", "I", "C", "T");
    assert_eq!(
        content,
        "\n[Desktop Entry]\nType=Application\nName=N\nExec=T\nIcon=I\nComment=D\nTerminal=false\nCategories=C;\n\nTryExec=T\nPrefersNonDefaultGPU=false\n        "
    );
}

#[test]
fn descriptor_mentions_target_twice_and_ends_categories() {
    let content = generate_desktop_file("App", "desc", "/icons/i.png", "Graphics", "/apps/a.AppImage");
    assert!(content.contains("Exec=/apps/a.AppImage"));
    assert!(content.contains("TryExec=/apps/a.AppImage"));
    assert!(content.contains("Categories=Graphics;\n"));
}
