use xiaohai::host::{Host, ProcessOutput, RegValue};
use xiaohai::manifest::RegistryHive;
use xiaohai::install::{install, InstallError};
use xiaohai::manifest::{AutorunManifest, BundleManifest, DetectRule, FileExistsRule,
    FileReplacement, FirewallManifest, FirewallRule, FirewallDirection, FirewallAction,
    FirewallProfile, Healthcheck, KeyValue, ModuleConfig, ModuleKind, ModuleManifest,
    ModulePayload, PayloadInstaller, PluginRegistration, PostConfigManifest, PrerequisiteItem,
    PrerequisitesManifest, ServiceManifest, ShortcutManifest};
use xiaohai::memhost::MemHost;
use xiaohai::uninstall::uninstall;

fn host() -> MemHost {
    MemHost::new("C:/Users/me/Desktop".to_string(), "C:/Users/me/StartMenu".to_string())
}

fn base_manifest() -> BundleManifest {
    BundleManifest {
        product_name: "XiaoHai Assistant Suite".to_string(),
        product_code: "xiaohai-suite".to_string(),
        version: "1.0.0".to_string(),
        install_root: "C:/Apps/Bundle".to_string(),
        prerequisites: PrerequisitesManifest {
            dotnet_fx48: PrerequisiteItem { enabled: false, installer: None },
            vcredist_2015_2022_x64: PrerequisiteItem { enabled: false, installer: None },
        },
        modules: Vec::new(),
        shortcuts: ShortcutManifest {
            assistant_exe: "assistant.exe".to_string(),
            assistant_name: "XiaoHaiAssistant".to_string(),
            icon_path: None,
            start_menu: false,
            desktop: false,
        },
        post_config: PostConfigManifest { server_url: None, data_root: None, plugin_dir: None },
        firewall: FirewallManifest { enabled: false, rules: Vec::new() },
        service: ServiceManifest {
            enabled: false,
            name: String::new(),
            display_name: String::new(),
            description: String::new(),
            exe: String::new(),
            args: Vec::new(),
        },
        autorun: AutorunManifest { enabled: false, name: String::new(), command: String::new() },
    }
}

fn filecopy_module(id: &str, detect: DetectRule, subdir: Option<&str>) -> ModuleManifest {
    ModuleManifest {
        id: id.to_string(),
        display_name: format!("{id} module"),
        enabled: true,
        kind: ModuleKind::FileCopy,
        detect,
        payload: Some(ModulePayload {
            path: "payload".to_string(),
            install_subdir: subdir.map(|s| s.to_string()),
        }),
        installer: None,
        uninstaller: None,
        remove_desktop_shortcuts: Vec::new(),
        plugin: None,
        config: ModuleConfig { server_url: None, data_subdir: None, file_replacements: Vec::new() },
    }
}

fn exe_module(id: &str, installer: Option<PayloadInstaller>) -> ModuleManifest {
    ModuleManifest {
        id: id.to_string(),
        display_name: format!("{id} module"),
        enabled: true,
        kind: ModuleKind::Exe,
        detect: DetectRule::NoDetect,
        payload: None,
        installer,
        uninstaller: None,
        remove_desktop_shortcuts: Vec::new(),
        plugin: None,
        config: ModuleConfig { server_url: None, data_subdir: None, file_replacements: Vec::new() },
    }
}

fn plant_payload(h: &mut MemHost) {
    h.ensure_dir(&"C:/stage/payload".to_string());
    h.ensure_dir(&"C:/stage/payload/nested".to_string());
    h.write_file(&"C:/stage/payload/nested/hello.txt".to_string(), &"hello".to_string());
}

const BASE: &str = "C:/stage";
const PD: &str = "C:/ProgramData";

#[test]
fn e2e_install_then_uninstall_filecopy_in_sandbox() {
    let mut h = host();
    plant_payload(&mut h);
    let mut manifest = base_manifest();
    let mut module = filecopy_module("myapp", DetectRule::NoDetect, Some("appdir"));
    module.plugin = Some(PluginRegistration {
        id: "plugin_a".to_string(),
        name: "Plugin A".to_string(),
        exe: "appdir/app.exe".to_string(),
        args: Vec::new(),
        icon: None,
        healthcheck: Some(Healthcheck::Process),
    });
    manifest.modules.push(module);

    let state = install(&mut h, &manifest, &BASE.to_string(), &PD.to_string()).unwrap();
    let installed = "C:/Apps/Bundle/appdir/nested/hello.txt".to_string();
    assert_eq!(h.read_file(&installed).unwrap(), "hello");
    let plugin_path = "C:/ProgramData/XiaoHaiAssistant/plugins/plugin_a.json".to_string();
    let doc = h.plugin_doc_at(&plugin_path).expect("expected plugin registration artifact");
    assert_eq!(doc.module_id, "myapp");
    assert_eq!(doc.plugin.name, "Plugin A");
    let state_path = "C:/ProgramData/XiaoHaiAssistant/install-state.json".to_string();
    let stored = h.read_state_doc(&state_path).expect("expected state document");
    assert_eq!(stored.product_code, "xiaohai-suite");
    assert_eq!(state.modules.len(), 1);
    assert_eq!(state.modules[0].id, "myapp");
    assert!(state.modules[0].installed);
    assert_eq!(state.modules[0].install_root.as_deref(), Some("C:/Apps/Bundle"));

    uninstall(&mut h, &manifest, &BASE.to_string(), &PD.to_string()).unwrap();
    assert!(!h.dir_exists(&"C:/Apps/Bundle".to_string()), "install_root should be removed");
    assert!(
        !h.dir_exists(&"C:/ProgramData/XiaoHaiAssistant".to_string()),
        "ProgramData vendor dir should be removed"
    );
    assert!(!h.path_exists(&installed));
    assert!(h.read_state_doc(&state_path).is_none());
}

#[test]
fn reinstall_skips_detected_modules_and_changes_nothing() {
    let mut h = host();
    plant_payload(&mut h);
    let mut manifest = base_manifest();
    // after the first run the copied file itself becomes the detection signal
    let module = filecopy_module(
        "myapp",
        DetectRule::FileExists(FileExistsRule {
            path: "C:/Apps/Bundle/appdir/nested/hello.txt".to_string(),
        }),
        Some("appdir"),
    );
    manifest.modules.push(module);

    let first = install(&mut h, &manifest, &BASE.to_string(), &PD.to_string()).unwrap();
    assert_eq!(first.modules[0].install_root.as_deref(), Some("C:/Apps/Bundle"));
    let runs_after_first = h.run_count();
    let installed = "C:/Apps/Bundle/appdir/nested/hello.txt".to_string();
    let content_after_first = h.read_file(&installed).unwrap();

    let second = install(&mut h, &manifest, &BASE.to_string(), &PD.to_string()).unwrap();
    assert_eq!(second.modules.len(), 1);
    assert!(second.modules[0].installed);
    assert!(second.modules[0].install_root.is_none(), "second run must record a skip");
    assert_eq!(h.run_count(), runs_after_first, "no installer may run again");
    assert_eq!(h.read_file(&installed).unwrap(), content_after_first);
}

#[test]
fn default_exit_codes_accept_reboot_codes() {
    for code in [0, 3010, 1641] {
        let mut h = host();
        h.add_program(
            &"C:/stage/setup.exe".to_string(),
            ProcessOutput { exit_code: code, stdout: String::new(), stderr: String::new() },
        );
        let mut manifest = base_manifest();
        manifest.modules.push(exe_module(
            "native",
            Some(PayloadInstaller {
                path: "setup.exe".to_string(),
                args: vec!["/quiet".to_string()],
                success_exit_codes: Vec::new(),
            }),
        ));
        let state = install(&mut h, &manifest, &BASE.to_string(), &PD.to_string()).unwrap();
        assert_eq!(state.modules.len(), 1);
        assert_eq!(h.run_count(), 1);
        assert_eq!(h.run_exe(0), "C:/stage/setup.exe");
    }
}

#[test]
fn unexpected_exit_code_fails_with_captured_output() {
    let mut h = host();
    h.add_program(
        &"C:/stage/setup.exe".to_string(),
        ProcessOutput {
            exit_code: 7,
            stdout: "out text".to_string(),
            stderr: "err text".to_string(),
        },
    );
    let mut manifest = base_manifest();
    manifest.modules.push(exe_module(
        "native",
        Some(PayloadInstaller {
            path: "setup.exe".to_string(),
            args: Vec::new(),
            success_exit_codes: Vec::new(),
        }),
    ));
    let r = install(&mut h, &manifest, &BASE.to_string(), &PD.to_string());
    match r {
        Err(InstallError::ExitCode { code, stdout, stderr, .. }) => {
            assert_eq!(code, 7);
            assert_eq!(stdout, "out text");
            assert_eq!(stderr, "err text");
        },
        _ => panic!("expected an exit-code failure"),
    }
}

#[test]
fn custom_success_codes_replace_the_default_set() {
    for (code, ok) in [(42, true), (0, false)] {
        let mut h = host();
        h.add_program(
            &"C:/stage/setup.exe".to_string(),
            ProcessOutput { exit_code: code, stdout: String::new(), stderr: String::new() },
        );
        let mut manifest = base_manifest();
        manifest.modules.push(exe_module(
            "native",
            Some(PayloadInstaller {
                path: "setup.exe".to_string(),
                args: Vec::new(),
                success_exit_codes: vec![42],
            }),
        ));
        let r = install(&mut h, &manifest, &BASE.to_string(), &PD.to_string());
        assert_eq!(r.is_ok(), ok, "exit code {code}");
    }
}

#[test]
fn missing_installer_is_a_configuration_error() {
    let mut h = host();
    let mut manifest = base_manifest();
    manifest.modules.push(exe_module("native", None));
    let r = install(&mut h, &manifest, &BASE.to_string(), &PD.to_string());
    assert!(matches!(r, Err(InstallError::MissingInstaller { .. })));
}

#[test]
fn missing_payload_is_a_configuration_error() {
    let mut h = host();
    let mut manifest = base_manifest();
    let mut module = filecopy_module("copy", DetectRule::NoDetect, None);
    module.payload = None;
    manifest.modules.push(module);
    let r = install(&mut h, &manifest, &BASE.to_string(), &PD.to_string());
    assert!(matches!(r, Err(InstallError::MissingPayload { .. })));
}

#[test]
fn missing_payload_source_is_an_error() {
    let mut h = host();
    let mut manifest = base_manifest();
    manifest.modules.push(filecopy_module("copy", DetectRule::NoDetect, None));
    let r = install(&mut h, &manifest, &BASE.to_string(), &PD.to_string());
    assert!(matches!(r, Err(InstallError::CopySourceMissing { .. })));
}

#[test]
fn spawn_failure_is_an_error() {
    let mut h = host();
    let mut manifest = base_manifest();
    manifest.modules.push(exe_module(
        "native",
        Some(PayloadInstaller {
            path: "setup.exe".to_string(),
            args: Vec::new(),
            success_exit_codes: Vec::new(),
        }),
    ));
    let r = install(&mut h, &manifest, &BASE.to_string(), &PD.to_string());
    assert!(matches!(r, Err(InstallError::SpawnFailed { .. })));
}

#[test]
fn disabled_modules_are_omitted_entirely() {
    let mut h = host();
    let mut manifest = base_manifest();
    let mut module = exe_module("native", None);
    module.enabled = false;
    manifest.modules.push(module);
    let state = install(&mut h, &manifest, &BASE.to_string(), &PD.to_string()).unwrap();
    assert_eq!(state.modules.len(), 0);
}

#[test]
fn file_replacements_rewrite_configuration() {
    let mut h = host();
    plant_payload(&mut h);
    h.write_file(
        &"C:/Apps/Bundle/app.conf".to_string(),
        &"server={{SERVER_URL}};retry={{SERVER_URL}}".to_string(),
    );
    let mut manifest = base_manifest();
    let mut module = filecopy_module("copy", DetectRule::NoDetect, None);
    module.config.file_replacements.push(FileReplacement {
        file: "app.conf".to_string(),
        replacements: vec![KeyValue {
            key: "{{SERVER_URL}}".to_string(),
            value: "https://example.invalid".to_string(),
        }],
    });
    manifest.modules.push(module);
    install(&mut h, &manifest, &BASE.to_string(), &PD.to_string()).unwrap();
    assert_eq!(
        h.read_file(&"C:/Apps/Bundle/app.conf".to_string()).unwrap(),
        "server=https://example.invalid;retry=https://example.invalid"
    );
}

#[test]
fn missing_replacement_target_is_skipped() {
    let mut h = host();
    plant_payload(&mut h);
    let mut manifest = base_manifest();
    let mut module = filecopy_module("copy", DetectRule::NoDetect, None);
    module.config.file_replacements.push(FileReplacement {
        file: "absent.conf".to_string(),
        replacements: vec![KeyValue { key: "a".to_string(), value: "b".to_string() }],
    });
    manifest.modules.push(module);
    assert!(install(&mut h, &manifest, &BASE.to_string(), &PD.to_string()).is_ok());
}

#[test]
fn data_subdir_is_created_under_the_data_root() {
    let mut h = host();
    plant_payload(&mut h);
    let mut manifest = base_manifest();
    let mut module = filecopy_module("copy", DetectRule::NoDetect, None);
    module.config.data_subdir = Some("copy-data".to_string());
    manifest.modules.push(module);
    install(&mut h, &manifest, &BASE.to_string(), &PD.to_string()).unwrap();
    assert!(h.dir_exists(&"C:/ProgramData/XiaoHaiAssistant/data/copy-data".to_string()));
}

#[test]
fn missing_prerequisite_runs_its_installer() {
    let mut h = host();
    plant_payload(&mut h);
    h.set_registry_value(
        RegistryHive::Hklm,
        &"SOFTWARE\\Microsoft\\NET Framework Setup\\NDP\\v4\\Full".to_string(),
        &"Release".to_string(),
        RegValue::Dword(100),
    );
    h.add_program(
        &"C:/stage/ndp48.exe".to_string(),
        ProcessOutput { exit_code: 0, stdout: String::new(), stderr: String::new() },
    );
    let mut manifest = base_manifest();
    manifest.prerequisites.dotnet_fx48 = PrerequisiteItem {
        enabled: true,
        installer: Some(PayloadInstaller {
            path: "ndp48.exe".to_string(),
            args: vec!["/q".to_string()],
            success_exit_codes: Vec::new(),
        }),
    };
    manifest.modules.push(filecopy_module("copy", DetectRule::NoDetect, None));
    install(&mut h, &manifest, &BASE.to_string(), &PD.to_string()).unwrap();
    assert_eq!(h.run_count(), 1);
    assert_eq!(h.run_exe(0), "C:/stage/ndp48.exe");
}

#[test]
fn installed_prerequisite_is_left_alone() {
    let mut h = host();
    plant_payload(&mut h);
    h.set_registry_value(
        RegistryHive::Hklm,
        &"SOFTWARE\\Microsoft\\NET Framework Setup\\NDP\\v4\\Full".to_string(),
        &"Release".to_string(),
        RegValue::Dword(528040),
    );
    let mut manifest = base_manifest();
    manifest.prerequisites.dotnet_fx48 = PrerequisiteItem {
        enabled: true,
        installer: None,
    };
    manifest.modules.push(filecopy_module("copy", DetectRule::NoDetect, None));
    install(&mut h, &manifest, &BASE.to_string(), &PD.to_string()).unwrap();
    assert_eq!(h.run_count(), 0);
}

#[test]
fn integration_applies_shortcuts_service_firewall_and_autorun() {
    let mut h = host();
    plant_payload(&mut h);
    let mut manifest = base_manifest();
    manifest.modules.push(filecopy_module("copy", DetectRule::NoDetect, None));
    manifest.shortcuts.desktop = true;
    manifest.shortcuts.start_menu = true;
    manifest.service = ServiceManifest {
        enabled: true,
        name: "XiaoHaiAgent".to_string(),
        display_name: "XiaoHai Agent".to_string(),
        description: "background agent".to_string(),
        exe: "agent.exe".to_string(),
        args: Vec::new(),
    };
    manifest.firewall = FirewallManifest {
        enabled: true,
        rules: vec![FirewallRule {
            name: "xiaohai-in".to_string(),
            program: "C:/Apps/Bundle/assistant.exe".to_string(),
            direction: FirewallDirection::In,
            action: FirewallAction::Allow,
            profile: FirewallProfile::Any,
        }],
    };
    manifest.autorun = AutorunManifest {
        enabled: true,
        name: String::new(),
        command: String::new(),
    };
    let state = install(&mut h, &manifest, &BASE.to_string(), &PD.to_string()).unwrap();
    assert!(h.has_shortcut(&"C:/Users/me/Desktop/XiaoHaiAssistant.lnk".to_string()));
    assert!(h.has_shortcut(&"C:/Users/me/StartMenu/XiaoHaiAssistant.lnk".to_string()));
    assert!(h.has_service(&"XiaoHaiAgent".to_string()));
    assert!(h.has_firewall_rule(&"xiaohai-in".to_string()));
    assert_eq!(
        h.autorun_command(&"XiaoHaiAssistant".to_string()).unwrap(),
        "\"C:/Apps/Bundle/assistant.exe\""
    );
    assert_eq!(state.created_shortcuts.len(), 2);
    assert_eq!(state.created_shortcuts[0].location, "desktop");
    assert_eq!(state.created_shortcuts[1].location, "start_menu");
    assert_eq!(state.firewall_rules, vec!["xiaohai-in".to_string()]);
    assert_eq!(state.service_name.as_deref(), Some("XiaoHaiAgent"));
    assert_eq!(state.autorun_name.as_deref(), Some("XiaoHaiAssistant"));
}
