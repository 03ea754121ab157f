use xiaohai::commands::{detect, doctor};
use xiaohai::detect::PrereqStatus;
use xiaohai::host::{Host, RegValue};
use xiaohai::manifest::{AutorunManifest, BundleManifest, DetectRule, FileExistsRule,
    FirewallManifest, ModuleConfig, ModuleKind, ModuleManifest, PostConfigManifest,
    PrerequisiteItem, PrerequisitesManifest, RegistryHive, ServiceManifest, ShortcutManifest};
use xiaohai::memhost::MemHost;

fn host() -> MemHost {
    MemHost::new("C:/Users/me/Desktop".to_string(), "C:/Users/me/StartMenu".to_string())
}

fn manifest_with(modules: Vec<ModuleManifest>) -> BundleManifest {
    BundleManifest {
        product_name: "XiaoHai Assistant Suite".to_string(),
        product_code: "xiaohai-suite".to_string(),
        version: "1.0.0".to_string(),
        install_root: "C:/Apps/Bundle".to_string(),
        prerequisites: PrerequisitesManifest {
            dotnet_fx48: PrerequisiteItem { enabled: false, installer: None },
            vcredist_2015_2022_x64: PrerequisiteItem { enabled: false, installer: None },
        },
        modules,
        shortcuts: ShortcutManifest {
            assistant_exe: "assistant.exe".to_string(),
            assistant_name: "XiaoHaiAssistant".to_string(),
            icon_path: None,
            start_menu: false,
            desktop: false,
        },
        post_config: PostConfigManifest { server_url: None, data_root: None, plugin_dir: None },
        firewall: FirewallManifest { enabled: false, rules: Vec::new() },
        service: ServiceManifest {
            enabled: false,
            name: String::new(),
            display_name: String::new(),
            description: String::new(),
            exe: String::new(),
            args: Vec::new(),
        },
        autorun: AutorunManifest { enabled: false, name: String::new(), command: String::new() },
    }
}

fn file_module(id: &str, name: &str, target: &str) -> ModuleManifest {
    ModuleManifest {
        id: id.to_string(),
        display_name: name.to_string(),
        enabled: true,
        kind: ModuleKind::FileCopy,
        detect: DetectRule::FileExists(FileExistsRule { path: target.to_string() }),
        payload: None,
        installer: None,
        uninstaller: None,
        remove_desktop_shortcuts: Vec::new(),
        plugin: None,
        config: ModuleConfig { server_url: None, data_subdir: None, file_replacements: Vec::new() },
    }
}

#[test]
fn e2e_detect_reports_file_exists_correctly() {
    let mut h = host();
    h.write_file(&"C:/stage/present.txt".to_string(), &"x".to_string());
    let manifest = manifest_with(vec![
        file_module("present", "PresentModule", "present.txt"),
        file_module("missing", "MissingModule", "missing.txt"),
    ]);
    let lines = detect(&h, &manifest, &"C:/stage".to_string()).unwrap();
    assert_eq!(lines.len(), 2);
    assert_eq!(lines[0].display_name, "PresentModule");
    assert_eq!(lines[0].id, "present");
    assert!(lines[0].installed);
    assert_eq!(lines[1].display_name, "MissingModule");
    assert_eq!(lines[1].id, "missing");
    assert!(!lines[1].installed);
}

#[test]
fn detect_omits_disabled_modules() {
    let h = host();
    let mut module = file_module("off", "OffModule", "whatever.txt");
    module.enabled = false;
    let manifest = manifest_with(vec![module]);
    let lines = detect(&h, &manifest, &"C:/stage".to_string()).unwrap();
    assert_eq!(lines.len(), 0);
}

#[test]
fn doctor_reports_both_prerequisites() {
    let mut h = host();
    h.set_registry_value(
        RegistryHive::Hklm,
        &"SOFTWARE\\Microsoft\\NET Framework Setup\\NDP\\v4\\Full".to_string(),
        &"Release".to_string(),
        RegValue::Dword(533320),
    );
    h.set_registry_value(
        RegistryHive::Hklm,
        &"SOFTWARE\\Microsoft\\VisualStudio\\14.0\\VC\\Runtimes\\x64".to_string(),
        &"Installed".to_string(),
        RegValue::Dword(0),
    );
    let report = doctor(&h).unwrap();
    assert_eq!(report.dotnet_fx48, PrereqStatus::Installed);
    assert_eq!(report.vcredist_2015_2022_x64, PrereqStatus::Missing);
}
