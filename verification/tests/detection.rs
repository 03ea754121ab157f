use xiaohai::detect::{detect_module_installed, detect_registry_rule, dotnet_fx48_status,
    vcredist_2015_2022_x64_status, DetectError, PrereqStatus};
use xiaohai::host::{Host, RegValue};
use xiaohai::manifest::{DetectRule, FileExistsRule, ModuleConfig, ModuleKind, ModuleManifest,
    RegistryExpectedValue, RegistryHive, RegistryValueKind, RegistryValueRule};
use xiaohai::memhost::MemHost;

fn host() -> MemHost {
    MemHost::new("C:/Users/me/Desktop".to_string(), "C:/Users/me/StartMenu".to_string())
}

fn module_with_detect(detect: DetectRule) -> ModuleManifest {
    ModuleManifest {
        id: "m1".to_string(),
        display_name: "Module One".to_string(),
        enabled: true,
        kind: ModuleKind::FileCopy,
        detect,
        payload: None,
        installer: None,
        uninstaller: None,
        remove_desktop_shortcuts: Vec::new(),
        plugin: None,
        config: ModuleConfig { server_url: None, data_subdir: None, file_replacements: Vec::new() },
    }
}

#[test]
fn detect_none_rule_is_never_installed() {
    let h = host();
    let module = module_with_detect(DetectRule::NoDetect);
    let r = detect_module_installed(&h, &"C:/stage".to_string(), &module);
    assert_eq!(r.unwrap(), false);
}

#[test]
fn detect_file_exists_present_and_absent() {
    let mut h = host();
    h.write_file(&"C:/stage/present.txt".to_string(), &"x".to_string());
    let present = module_with_detect(DetectRule::FileExists(FileExistsRule {
        path: "present.txt".to_string(),
    }));
    let missing = module_with_detect(DetectRule::FileExists(FileExistsRule {
        path: "missing.txt".to_string(),
    }));
    let base = "C:/stage".to_string();
    assert_eq!(detect_module_installed(&h, &base, &present).unwrap(), true);
    assert_eq!(detect_module_installed(&h, &base, &missing).unwrap(), false);
}

#[test]
fn detect_file_exists_absolute_path() {
    let mut h = host();
    h.write_file(&"C:/test.txt".to_string(), &"x".to_string());
    let rule = module_with_detect(DetectRule::FileExists(FileExistsRule {
        path: "C:/test.txt".to_string(),
    }));
    assert_eq!(detect_module_installed(&h, &"D:/elsewhere".to_string(), &rule).unwrap(), true);
}

#[test]
fn detect_registry_rule_dword_at_least_hkcu() {
    let mut h = host();
    let key = "Software\\XiaoHaiTest\\detect_dword".to_string();
    let name = "Release".to_string();
    h.set_registry_value(RegistryHive::Hkcu, &key, &name, RegValue::Dword(528040));
    let rule_met = RegistryValueRule {
        hive: RegistryHive::Hkcu,
        key: key.clone(),
        value_name: name.clone(),
        kind: RegistryValueKind::Dword,
        expected: RegistryExpectedValue::DwordAtLeast(528040),
    };
    assert!(detect_registry_rule(&h, &rule_met).unwrap());
    let rule_unmet = RegistryValueRule {
        hive: RegistryHive::Hkcu,
        key,
        value_name: name,
        kind: RegistryValueKind::Dword,
        expected: RegistryExpectedValue::DwordAtLeast(528041),
    };
    assert!(!detect_registry_rule(&h, &rule_unmet).unwrap());
}

#[test]
fn detect_registry_rule_sz_equals_hkcu() {
    let mut h = host();
    let key = "Software\\XiaoHaiTest\\detect_sz".to_string();
    let name = "ServerUrl".to_string();
    h.set_registry_value(
        RegistryHive::Hkcu,
        &key,
        &name,
        RegValue::Sz("https://example.invalid".to_string()),
    );
    let rule_met = RegistryValueRule {
        hive: RegistryHive::Hkcu,
        key: key.clone(),
        value_name: name.clone(),
        kind: RegistryValueKind::Sz,
        expected: RegistryExpectedValue::SzEquals("https://example.invalid".to_string()),
    };
    assert!(detect_registry_rule(&h, &rule_met).unwrap());
    let rule_unmet = RegistryValueRule {
        hive: RegistryHive::Hkcu,
        key,
        value_name: name,
        kind: RegistryValueKind::Sz,
        expected: RegistryExpectedValue::SzEquals("https://nope.invalid".to_string()),
    };
    assert!(!detect_registry_rule(&h, &rule_unmet).unwrap());
}

#[test]
fn detect_type_mismatch_is_false_not_error() {
    let mut h = host();
    let key = "Software\\XiaoHaiTest\\mismatch".to_string();
    let name = "Value".to_string();
    h.set_registry_value(RegistryHive::Hklm, &key, &name, RegValue::Sz("12345".to_string()));
    let rule = RegistryValueRule {
        hive: RegistryHive::Hklm,
        key,
        value_name: name,
        kind: RegistryValueKind::Sz,
        expected: RegistryExpectedValue::DwordAtLeast(1),
    };
    assert_eq!(detect_registry_rule(&h, &rule).unwrap(), false);
}

#[test]
fn detect_missing_registry_value_is_error() {
    let h = host();
    let rule = RegistryValueRule {
        hive: RegistryHive::Hklm,
        key: "Software\\Nothing".to_string(),
        value_name: "Absent".to_string(),
        kind: RegistryValueKind::Dword,
        expected: RegistryExpectedValue::DwordEquals(1),
    };
    assert!(matches!(detect_registry_rule(&h, &rule), Err(DetectError::RegistryRead { .. })));
}

#[test]
fn detect_wrong_declared_type_is_error() {
    let mut h = host();
    let key = "Software\\XiaoHaiTest\\typed".to_string();
    let name = "Release".to_string();
    h.set_registry_value(RegistryHive::Hklm, &key, &name, RegValue::Sz("text".to_string()));
    let rule = RegistryValueRule {
        hive: RegistryHive::Hklm,
        key,
        value_name: name,
        kind: RegistryValueKind::Dword,
        expected: RegistryExpectedValue::DwordEquals(1),
    };
    assert!(matches!(detect_registry_rule(&h, &rule), Err(DetectError::RegistryRead { .. })));
}

#[test]
fn dotnet_status_reads_release_threshold() {
    let mut h = host();
    let key = "SOFTWARE\\Microsoft\\NET Framework Setup\\NDP\\v4\\Full".to_string();
    let name = "Release".to_string();
    h.set_registry_value(RegistryHive::Hklm, &key, &name, RegValue::Dword(528040));
    assert_eq!(dotnet_fx48_status(&h).unwrap(), PrereqStatus::Installed);
    h.set_registry_value(RegistryHive::Hklm, &key, &name, RegValue::Dword(528039));
    assert_eq!(dotnet_fx48_status(&h).unwrap(), PrereqStatus::Missing);
}

#[test]
fn vcredist_status_reads_installed_marker() {
    let mut h = host();
    let key = "SOFTWARE\\Microsoft\\VisualStudio\\14.0\\VC\\Runtimes\\x64".to_string();
    let name = "Installed".to_string();
    h.set_registry_value(RegistryHive::Hklm, &key, &name, RegValue::Dword(1));
    assert_eq!(vcredist_2015_2022_x64_status(&h).unwrap(), PrereqStatus::Installed);
    h.set_registry_value(RegistryHive::Hklm, &key, &name, RegValue::Dword(0));
    assert_eq!(vcredist_2015_2022_x64_status(&h).unwrap(), PrereqStatus::Missing);
}

#[test]
fn hive_name_labels() {
    assert_eq!(xiaohai::hive_name(RegistryHive::Hklm), "HKLM");
    assert_eq!(xiaohai::hive_name(RegistryHive::Hkcu), "HKCU");
}
