use std::path::MAIN_SEPARATOR;

use hachimi_installer::error::Error;
use hachimi_installer::installer::{target_display_label, Installer, UMAMUSUME_STEAM_APP_ID};
use hachimi_installer::target::Target;
use hachimi_installer::version_info::TargetVersionInfo;

fn in_dir(dir: &str, file: &str) -> String {
    format!("{}{}{}", dir, MAIN_SEPARATOR, file)
}

fn installer_in(dir: Option<&str>) -> Installer {
    Installer::custom(dir.map(|d| d.to_string()), Target::CriManaVpx, None, || None)
}

#[test]
fn target_path_joins_dll_name_onto_install_dir() {
    let installer = installer_in(Some("uma"));
    assert_eq!(
        installer.get_target_path(Target::CriManaVpx),
        Some(in_dir("uma", "cri_mana_vpx.dll"))
    );
}

#[test]
fn paths_are_none_without_install_dir() {
    let installer = installer_in(None);
    assert_eq!(installer.get_target_path(Target::CriManaVpx), None);
    assert_eq!(installer.get_current_target_path(), None);
    assert_eq!(installer.get_backup_exe_path(), None);
    assert_eq!(installer.get_orig_exe_path(), None);
}

#[test]
fn exe_paths_in_install_dir() {
    let installer = installer_in(Some("game"));
    assert_eq!(
        installer.get_orig_exe_path(),
        Some(in_dir("game", "UmamusumePrettyDerby_Jpn.exe"))
    );
    assert_eq!(
        installer.get_backup_exe_path(),
        Some(in_dir("game", "UmamusumePrettyDerby_Jpn.old.exe"))
    );
}

#[test]
fn current_target_path_defaults_to_dll_name() {
    let installer = installer_in(Some("uma"));
    assert_eq!(installer.get_current_target_path(), installer.get_target_path(Target::CriManaVpx));
}

#[test]
fn relative_custom_target_is_joined_onto_install_dir() {
    let installer = Installer::custom(
        Some("uma".to_string()),
        Target::CriManaVpx,
        Some("hachimi.dll".to_string()),
        || None,
    );
    assert_eq!(installer.get_current_target_path(), Some(in_dir("uma", "hachimi.dll")));
}

#[test]
fn absolute_custom_target_ignores_install_dir() {
    let absolute = "/opt/hachimi/hachimi.dll";
    assert!(std::path::Path::new(absolute).is_absolute());
    let installer = Installer::custom(
        Some("uma".to_string()),
        Target::CriManaVpx,
        Some(absolute.to_string()),
        || None,
    );
    assert_eq!(installer.get_current_target_path(), Some(absolute.to_string()));
}

#[test]
fn absolute_custom_target_still_needs_install_dir() {
    let installer = Installer::custom(
        None,
        Target::CriManaVpx,
        Some("/opt/hachimi/hachimi.dll".to_string()),
        || None,
    );
    assert_eq!(installer.get_current_target_path(), None);
}

#[test]
fn custom_detects_install_dir_only_when_missing() {
    let calls = std::cell::Cell::new(0u32);
    let given = Installer::custom(Some("given".to_string()), Target::CriManaVpx, None, || {
        calls.set(calls.get() + 1);
        Some("detected".to_string())
    });
    assert_eq!(given.install_dir, Some("given".to_string()));
    assert_eq!(calls.get(), 0);
    let detected = Installer::custom(None, Target::CriManaVpx, None, || {
        calls.set(calls.get() + 1);
        Some("detected".to_string())
    });
    assert_eq!(detected.install_dir, Some("detected".to_string()));
    assert_eq!(calls.get(), 1);
    assert!(detected.hwnd.is_none());
    assert!(detected.custom_target.is_none());
}

#[test]
fn default_installer_uses_detected_dir_and_default_target() {
    let installer = Installer::with_detected_install_dir(|| Some("steam/uma".to_string()));
    assert_eq!(installer.install_dir, Some("steam/uma".to_string()));
    assert!(installer.target == Target::CriManaVpx);
    assert!(installer.custom_target.is_none());
    let none = Installer::with_detected_install_dir(|| None);
    assert_eq!(none.install_dir, None);
}

#[test]
fn operations_fail_without_install_dir() {
    let installer = installer_in(None);
    assert!(matches!(installer.pre_install(), Err(Error::NoInstallDir)));
    assert!(matches!(installer.install(), Err(Error::NoInstallDir)));
    assert!(matches!(installer.post_install(), Err(Error::NoInstallDir)));
    assert!(matches!(installer.uninstall(), Err(Error::NoInstallDir)));
    assert!(matches!(installer.restore_after_uninstall(true), Err(Error::NoInstallDir)));
    assert!(matches!(installer.restore_after_uninstall(false), Err(Error::NoInstallDir)));
}

#[test]
fn pre_install_backs_up_game_exe() {
    let installer = installer_in(Some("game"));
    let paths = installer.pre_install().unwrap();
    assert_eq!(paths.orig_exe, in_dir("game", "UmamusumePrettyDerby_Jpn.exe"));
    assert_eq!(paths.backup_exe, in_dir("game", "UmamusumePrettyDerby_Jpn.old.exe"));
}

#[test]
fn install_writes_current_target() {
    let installer = installer_in(Some("game"));
    assert_eq!(installer.install().unwrap(), in_dir("game", "cri_mana_vpx.dll"));
    assert_eq!(installer.post_install().unwrap(), in_dir("game", "UmamusumePrettyDerby_Jpn.exe"));
}

#[test]
fn uninstall_restores_backup_when_present() {
    let installer = installer_in(Some("game"));
    assert_eq!(installer.uninstall().unwrap(), in_dir("game", "cri_mana_vpx.dll"));
    let restore = installer.restore_after_uninstall(true).unwrap();
    assert_eq!(restore.backup_exe, in_dir("game", "UmamusumePrettyDerby_Jpn.old.exe"));
    assert_eq!(restore.orig_exe, in_dir("game", "UmamusumePrettyDerby_Jpn.exe"));
}

#[test]
fn uninstall_without_backup_fails_to_restore() {
    let installer = installer_in(Some("game"));
    assert!(installer.uninstall().is_ok());
    assert!(matches!(installer.restore_after_uninstall(false), Err(Error::FailedToRestore)));
}

#[test]
fn uninstall_reverses_pre_install_backup() {
    let installer = installer_in(Some("game"));
    let backup = installer.pre_install().unwrap();
    let restore = installer.restore_after_uninstall(true).unwrap();
    assert_eq!(backup.orig_exe, restore.orig_exe);
    assert_eq!(backup.backup_exe, restore.backup_exe);
}

#[test]
fn uninstall_removes_what_install_writes() {
    let installer = Installer::custom(
        Some("game".to_string()),
        Target::CriManaVpx,
        Some("sub/hachimi.dll".to_string()),
        || None,
    );
    assert_eq!(installer.install().unwrap(), installer.uninstall().unwrap());
}

#[test]
fn backup_exe_differs_from_game_exe() {
    for dir in ["game", "", "a/b/", "C:"] {
        let installer = installer_in(Some(dir));
        assert_ne!(installer.get_backup_exe_path(), installer.get_orig_exe_path());
    }
}

#[test]
fn custom_target_absoluteness() {
    let with = |t: Option<&str>| Installer::custom(Some("uma".to_string()), Target::CriManaVpx, t.map(|t| t.to_string()), || None);
    assert!(with(Some("/opt/hachimi/hachimi.dll")).custom_target_is_absolute());
    assert!(!with(Some("hachimi.dll")).custom_target_is_absolute());
    assert!(!with(None).custom_target_is_absolute());
}

fn table(entries: &[(&str, &str)]) -> Vec<(String, String)> {
    entries.iter().map(|(k, v)| (k.to_string(), v.to_string())).collect()
}

#[test]
fn version_info_needs_install_dir_and_file() {
    let t = table(&[("ProductName", "Hachimi")]);
    assert!(installer_in(None).get_target_version_info(Target::CriManaVpx, Some(Some(&t))).is_none());
    assert!(installer_in(Some("uma")).get_target_version_info(Target::CriManaVpx, None).is_none());
}

#[test]
fn version_info_without_table_is_empty() {
    let info = installer_in(Some("uma")).get_target_version_info(Target::CriManaVpx, Some(None)).unwrap();
    assert_eq!(info.name, None);
    assert_eq!(info.version, None);
}

#[test]
fn version_info_reads_product_name_and_version() {
    let t = table(&[
        ("CompanyName", "kairusds"),
        ("ProductVersion", "v1.2.3"),
        ("ProductName", "Hachimi"),
        ("FileVersion", "1.0"),
    ]);
    let info = installer_in(Some("uma")).get_target_version_info(Target::CriManaVpx, Some(Some(&t))).unwrap();
    assert_eq!(info.name, Some("Hachimi".to_string()));
    assert_eq!(info.version, Some("v1.2.3".to_string()));
}

#[test]
fn display_label_of_missing_file_is_dll_name() {
    let installer = installer_in(Some("uma"));
    let t = table(&[("ProductName", "Hachimi")]);
    assert_eq!(installer.get_target_display_label(Target::CriManaVpx, None), "cri_mana_vpx.dll");
    assert_eq!(installer_in(None).get_target_display_label(Target::CriManaVpx, Some(Some(&t))), "cri_mana_vpx.dll");
}

#[test]
fn display_label_of_dll_without_name_is_unknown() {
    let installer = installer_in(Some("uma"));
    assert_eq!(installer.get_target_display_label(Target::CriManaVpx, Some(None)), "* cri_mana_vpx.dll (Unknown)");
    let t = table(&[("ProductVersion", "1")]);
    assert_eq!(installer.get_target_display_label(Target::CriManaVpx, Some(Some(&t))), "* cri_mana_vpx.dll (Unknown)");
}

#[test]
fn display_label_of_named_dll() {
    let installer = installer_in(Some("uma"));
    let t = table(&[("ProductName", "Unity")]);
    assert_eq!(installer.get_target_display_label(Target::CriManaVpx, Some(Some(&t))), "* cri_mana_vpx.dll (Unity)");
}

#[test]
fn target_display_label_uses_version_info() {
    let info = Some(TargetVersionInfo { name: Some("Hachimi".to_string()), version: Some("1.0".to_string()) });
    assert_eq!(target_display_label(Target::CriManaVpx, &info), "* cri_mana_vpx.dll (Hachimi)");
    assert_eq!(target_display_label(Target::CriManaVpx, &None), "cri_mana_vpx.dll");
}

#[test]
fn hachimi_target_found_by_product_name() {
    let installer = installer_in(Some("uma"));
    let hachimi = table(&[("ProductName", "Hachimi")]);
    let other = table(&[("ProductName", "CRI Middleware")]);
    assert_eq!(installer.get_hachimi_installed_target(&[Some(Some(&hachimi))]), Some(Target::CriManaVpx));
    assert_eq!(installer.get_hachimi_installed_target(&[Some(Some(&other))]), None);
    assert_eq!(installer.get_hachimi_installed_target(&[Some(None)]), None);
    assert_eq!(installer.get_hachimi_installed_target(&[None]), None);
    assert_eq!(installer.get_hachimi_installed_target(&[]), None);
    assert_eq!(installer_in(None).get_hachimi_installed_target(&[Some(Some(&hachimi))]), None);
}

#[test]
fn error_message_keys() {
    assert_eq!(Error::NoInstallDir.message_key(), "error.no_install_dir");
    assert_eq!(Error::FailedToRestore.message_key(), "error.failed_to_restore");
    let io = Error::from(std::io::Error::new(std::io::ErrorKind::Other, "disk"));
    assert!(matches!(io, Error::IoError(_)));
    assert_eq!(io.message_key(), "error.io_error");
}

#[test]
fn steam_app_id_is_umamusume() {
    assert_eq!(UMAMUSUME_STEAM_APP_ID, 3564400);
}

#[test]
fn installed_check_asks_about_current_target_path() {
    let installer = installer_in(Some("uma"));
    let asked = std::cell::RefCell::new(Vec::new());
    assert!(installer.is_current_target_installed(|p| {
        asked.borrow_mut().push(p.to_string());
        true
    }));
    assert!(!installer.is_current_target_installed(|_| false));
    assert_eq!(asked.borrow().clone(), vec![in_dir("uma", "cri_mana_vpx.dll")]);
}

#[test]
fn installed_check_is_false_without_install_dir() {
    let called = std::cell::Cell::new(false);
    assert!(!installer_in(None).is_current_target_installed(|_| {
        called.set(true);
        true
    }));
    assert!(!called.get());
}
