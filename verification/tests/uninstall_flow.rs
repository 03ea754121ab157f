use xiaohai::host::{Host, ProcessOutput};
use xiaohai::install::{install, InstallError};
use xiaohai::manifest::{AutorunManifest, BundleManifest, DetectRule, FirewallManifest,
    ModuleConfig, ModuleKind, ModuleManifest, ModulePayload, PayloadInstaller,
    PostConfigManifest, PrerequisiteItem, PrerequisitesManifest, ServiceManifest,
    ShortcutManifest};
use xiaohai::memhost::MemHost;
use xiaohai::uninstall::uninstall;

fn host() -> MemHost {
    MemHost::new("C:/Users/me/Desktop".to_string(), "C:/Users/me/StartMenu".to_string())
}

fn base_manifest() -> BundleManifest {
    BundleManifest {
        product_name: "XiaoHai Assistant Suite".to_string(),
        product_code: "xiaohai-suite".to_string(),
        version: "1.0.0".to_string(),
        install_root: "C:/Apps/Bundle".to_string(),
        prerequisites: PrerequisitesManifest {
            dotnet_fx48: PrerequisiteItem { enabled: false, installer: None },
            vcredist_2015_2022_x64: PrerequisiteItem { enabled: false, installer: None },
        },
        modules: Vec::new(),
        shortcuts: ShortcutManifest {
            assistant_exe: "assistant.exe".to_string(),
            assistant_name: "XiaoHaiAssistant".to_string(),
            icon_path: None,
            start_menu: false,
            desktop: false,
        },
        post_config: PostConfigManifest { server_url: None, data_root: None, plugin_dir: None },
        firewall: FirewallManifest { enabled: false, rules: Vec::new() },
        service: ServiceManifest {
            enabled: false,
            name: String::new(),
            display_name: String::new(),
            description: String::new(),
            exe: String::new(),
            args: Vec::new(),
        },
        autorun: AutorunManifest { enabled: false, name: String::new(), command: String::new() },
    }
}

fn exe_module(id: &str, uninstaller: Option<PayloadInstaller>) -> ModuleManifest {
    ModuleManifest {
        id: id.to_string(),
        display_name: format!("{id} module"),
        enabled: true,
        kind: ModuleKind::Exe,
        detect: DetectRule::NoDetect,
        payload: None,
        installer: Some(PayloadInstaller {
            path: "setup.exe".to_string(),
            args: Vec::new(),
            success_exit_codes: Vec::new(),
        }),
        uninstaller,
        remove_desktop_shortcuts: Vec::new(),
        plugin: None,
        config: ModuleConfig { server_url: None, data_subdir: None, file_replacements: Vec::new() },
    }
}

const BASE: &str = "C:/stage";
const PD: &str = "C:/ProgramData";

#[test]
fn fallback_autorun_removal_without_state_document() {
    let mut h = host();
    h.set_autorun(&"N".to_string(), &"run something".to_string());
    let mut manifest = base_manifest();
    manifest.autorun = AutorunManifest {
        enabled: true,
        name: "N".to_string(),
        command: String::new(),
    };
    assert!(h.read_state_doc(
        &"C:/ProgramData/XiaoHaiAssistant/install-state.json".to_string()
    ).is_none());
    uninstall(&mut h, &manifest, &BASE.to_string(), &PD.to_string()).unwrap();
    assert!(h.autorun_command(&"N".to_string()).is_none(), "autorun entry N must be removed");
}

#[test]
fn fallback_autorun_uses_default_name_when_empty() {
    let mut h = host();
    h.set_autorun(&"XiaoHaiAssistant".to_string(), &"cmd".to_string());
    let mut manifest = base_manifest();
    manifest.autorun = AutorunManifest {
        enabled: true,
        name: String::new(),
        command: String::new(),
    };
    uninstall(&mut h, &manifest, &BASE.to_string(), &PD.to_string()).unwrap();
    assert!(h.autorun_command(&"XiaoHaiAssistant".to_string()).is_none());
}

#[test]
fn rollback_reverses_recorded_mutations() {
    let mut h = host();
    h.ensure_dir(&"C:/stage/payload".to_string());
    h.write_file(&"C:/stage/payload/a.txt".to_string(), &"a".to_string());
    let mut manifest = base_manifest();
    manifest.modules.push(ModuleManifest {
        id: "copy".to_string(),
        display_name: "copy module".to_string(),
        enabled: true,
        kind: ModuleKind::FileCopy,
        detect: DetectRule::NoDetect,
        payload: Some(ModulePayload { path: "payload".to_string(), install_subdir: None }),
        installer: None,
        uninstaller: None,
        remove_desktop_shortcuts: Vec::new(),
        plugin: None,
        config: ModuleConfig { server_url: None, data_subdir: None, file_replacements: Vec::new() },
    });
    manifest.shortcuts.desktop = true;
    manifest.service.enabled = true;
    manifest.service.name = "XiaoHaiAgent".to_string();
    manifest.autorun = AutorunManifest {
        enabled: true,
        name: "XiaoHai".to_string(),
        command: "\"C:/Apps/Bundle/assistant.exe\"".to_string(),
    };
    install(&mut h, &manifest, &BASE.to_string(), &PD.to_string()).unwrap();
    assert!(h.has_shortcut(&"C:/Users/me/Desktop/XiaoHaiAssistant.lnk".to_string()));
    assert!(h.has_service(&"XiaoHaiAgent".to_string()));
    assert!(h.autorun_command(&"XiaoHai".to_string()).is_some());

    uninstall(&mut h, &manifest, &BASE.to_string(), &PD.to_string()).unwrap();
    assert!(!h.has_shortcut(&"C:/Users/me/Desktop/XiaoHaiAssistant.lnk".to_string()));
    assert!(!h.has_service(&"XiaoHaiAgent".to_string()));
    assert!(h.autorun_command(&"XiaoHai".to_string()).is_none());
}

#[test]
fn failing_uninstaller_aborts_the_run() {
    let mut h = host();
    h.add_program(
        &"C:/stage/setup.exe".to_string(),
        ProcessOutput { exit_code: 0, stdout: String::new(), stderr: String::new() },
    );
    h.add_program(
        &"C:/stage/remove.exe".to_string(),
        ProcessOutput { exit_code: 1, stdout: String::new(), stderr: "broken".to_string() },
    );
    let mut manifest = base_manifest();
    manifest.modules.push(exe_module(
        "native",
        Some(PayloadInstaller {
            path: "remove.exe".to_string(),
            args: Vec::new(),
            success_exit_codes: Vec::new(),
        }),
    ));
    install(&mut h, &manifest, &BASE.to_string(), &PD.to_string()).unwrap();
    let r = uninstall(&mut h, &manifest, &BASE.to_string(), &PD.to_string());
    assert!(matches!(r, Err(InstallError::ExitCode { code: 1, .. })));
}

#[test]
fn module_without_uninstaller_is_skipped_not_failed() {
    let mut h = host();
    h.add_program(
        &"C:/stage/setup.exe".to_string(),
        ProcessOutput { exit_code: 0, stdout: String::new(), stderr: String::new() },
    );
    let mut manifest = base_manifest();
    manifest.modules.push(exe_module("native", None));
    install(&mut h, &manifest, &BASE.to_string(), &PD.to_string()).unwrap();
    let runs = h.run_count();
    uninstall(&mut h, &manifest, &BASE.to_string(), &PD.to_string()).unwrap();
    assert_eq!(h.run_count(), runs, "no uninstaller may run");
}

#[test]
fn successful_uninstaller_runs_once() {
    let mut h = host();
    h.add_program(
        &"C:/stage/setup.exe".to_string(),
        ProcessOutput { exit_code: 0, stdout: String::new(), stderr: String::new() },
    );
    h.add_program(
        &"C:/stage/remove.exe".to_string(),
        ProcessOutput { exit_code: 0, stdout: String::new(), stderr: String::new() },
    );
    let mut manifest = base_manifest();
    manifest.modules.push(exe_module(
        "native",
        Some(PayloadInstaller {
            path: "remove.exe".to_string(),
            args: vec!["/uninstall".to_string()],
            success_exit_codes: Vec::new(),
        }),
    ));
    install(&mut h, &manifest, &BASE.to_string(), &PD.to_string()).unwrap();
    uninstall(&mut h, &manifest, &BASE.to_string(), &PD.to_string()).unwrap();
    assert_eq!(h.run_count(), 2);
    assert_eq!(h.run_exe(1), "C:/stage/remove.exe");
}
