use xiaohai::commands::detect;
use xiaohai::host::Host;
use xiaohai::install::{install, InstallError};
use xiaohai::manifest::{AutorunManifest, BundleManifest, DetectRule, FileExistsRule,
    FileReplacement, FirewallManifest, KeyValue, ModuleConfig, ModuleKind, ModuleManifest,
    ModulePayload, PluginRegistration, PostConfigManifest, PrerequisiteItem,
    PrerequisitesManifest, ServiceManifest, ShortcutManifest};
use xiaohai::memhost::MemHost;
use xiaohai::uninstall::uninstall;

fn host() -> MemHost {
    MemHost::new("C:/Users/me/Desktop".to_string(), "C:/Users/me/StartMenu".to_string())
}

fn base_manifest() -> BundleManifest {
    BundleManifest {
        product_name: "XiaoHai Assistant Suite".to_string(),
        product_code: "xiaohai-suite".to_string(),
        version: "1.0.0".to_string(),
        install_root: "C:/Apps/Bundle".to_string(),
        prerequisites: PrerequisitesManifest {
            dotnet_fx48: PrerequisiteItem { enabled: false, installer: None },
            vcredist_2015_2022_x64: PrerequisiteItem { enabled: false, installer: None },
        },
        modules: Vec::new(),
        shortcuts: ShortcutManifest {
            assistant_exe: "assistant.exe".to_string(),
            assistant_name: "XiaoHaiAssistant".to_string(),
            icon_path: None,
            start_menu: false,
            desktop: false,
        },
        post_config: PostConfigManifest { server_url: None, data_root: None, plugin_dir: None },
        firewall: FirewallManifest { enabled: false, rules: Vec::new() },
        service: ServiceManifest {
            enabled: false,
            name: String::new(),
            display_name: String::new(),
            description: String::new(),
            exe: String::new(),
            args: Vec::new(),
        },
        autorun: AutorunManifest { enabled: false, name: String::new(), command: String::new() },
    }
}

fn filecopy_module(id: &str) -> ModuleManifest {
    ModuleManifest {
        id: id.to_string(),
        display_name: format!("{id} module"),
        enabled: true,
        kind: ModuleKind::FileCopy,
        detect: DetectRule::NoDetect,
        payload: Some(ModulePayload { path: "payload".to_string(), install_subdir: None }),
        installer: None,
        uninstaller: None,
        remove_desktop_shortcuts: Vec::new(),
        plugin: None,
        config: ModuleConfig { server_url: None, data_subdir: None, file_replacements: Vec::new() },
    }
}

const BASE: &str = "C:/stage";
const PD: &str = "C:/ProgramData";

#[test]
fn single_file_payload_is_copied_to_the_destination() {
    let mut h = host();
    h.write_file(&"C:/stage/tool.exe".to_string(), &"binary".to_string());
    let mut manifest = base_manifest();
    let mut module = filecopy_module("tool");
    module.payload = Some(ModulePayload {
        path: "tool.exe".to_string(),
        install_subdir: Some("tools".to_string()),
    });
    manifest.modules.push(module);
    install(&mut h, &manifest, &BASE.to_string(), &PD.to_string()).unwrap();
    assert_eq!(h.read_file(&"C:/Apps/Bundle/tools".to_string()).unwrap(), "binary");
}

#[test]
fn destination_defaults_to_the_module_id() {
    let mut h = host();
    h.ensure_dir(&"C:/stage/payload".to_string());
    h.write_file(&"C:/stage/payload/a.txt".to_string(), &"a".to_string());
    let mut manifest = base_manifest();
    manifest.modules.push(filecopy_module("myid"));
    install(&mut h, &manifest, &BASE.to_string(), &PD.to_string()).unwrap();
    assert_eq!(h.read_file(&"C:/Apps/Bundle/myid/a.txt".to_string()).unwrap(), "a");
}

#[test]
fn plugin_dir_override_places_artifacts_there() {
    let mut h = host();
    h.ensure_dir(&"C:/stage/payload".to_string());
    h.write_file(&"C:/stage/payload/a.txt".to_string(), &"a".to_string());
    let mut manifest = base_manifest();
    manifest.post_config.plugin_dir = Some("C:/Custom/plugins".to_string());
    let mut module = filecopy_module("withplugin");
    module.plugin = Some(PluginRegistration {
        id: "p1".to_string(),
        name: "P One".to_string(),
        exe: "a.exe".to_string(),
        args: Vec::new(),
        icon: None,
        healthcheck: None,
    });
    manifest.modules.push(module);
    install(&mut h, &manifest, &BASE.to_string(), &PD.to_string()).unwrap();
    assert!(h.plugin_doc_at(&"C:/Custom/plugins/p1.json".to_string()).is_some());

    // artifact deletion sweeps the conventional plugin directory only
    uninstall(&mut h, &manifest, &BASE.to_string(), &PD.to_string()).unwrap();
    assert!(h.plugin_doc_at(&"C:/Custom/plugins/p1.json".to_string()).is_some());
}

#[test]
fn data_root_override_hosts_the_module_subdir() {
    let mut h = host();
    h.ensure_dir(&"C:/stage/payload".to_string());
    h.write_file(&"C:/stage/payload/a.txt".to_string(), &"a".to_string());
    let mut manifest = base_manifest();
    manifest.post_config.data_root = Some("D:/Data".to_string());
    let mut module = filecopy_module("withdata");
    module.config.data_subdir = Some("store".to_string());
    manifest.modules.push(module);
    install(&mut h, &manifest, &BASE.to_string(), &PD.to_string()).unwrap();
    assert!(h.dir_exists(&"D:/Data/store".to_string()));
}

#[test]
fn vendor_desktop_shortcuts_are_removed_after_install() {
    let mut h = host();
    h.ensure_dir(&"C:/stage/payload".to_string());
    h.write_file(&"C:/stage/payload/a.txt".to_string(), &"a".to_string());
    // shortcuts the module's own installer would have dropped on the desktop
    let vendor_lnk = "C:/Users/me/Desktop/VendorApp.lnk".to_string();
    let other_lnk = "C:/Users/me/Desktop/Unrelated.lnk".to_string();
    let no_args: Vec<String> = Vec::new();
    h.create_shortcut(
        xiaohai::host::ShortcutLocation::Desktop,
        &"VendorApp".to_string(),
        &"C:/x.exe".to_string(),
        &no_args,
        None,
        None,
    );
    h.create_shortcut(
        xiaohai::host::ShortcutLocation::Desktop,
        &"Unrelated".to_string(),
        &"C:/y.exe".to_string(),
        &no_args,
        None,
        None,
    );
    let mut manifest = base_manifest();
    let mut module = filecopy_module("gov");
    module.remove_desktop_shortcuts = vec!["VendorApp".to_string()];
    manifest.modules.push(module);
    install(&mut h, &manifest, &BASE.to_string(), &PD.to_string()).unwrap();
    assert!(!h.has_shortcut(&vendor_lnk));
    assert!(h.has_shortcut(&other_lnk));
}

#[test]
fn detect_command_reports_true_after_install() {
    let mut h = host();
    h.ensure_dir(&"C:/stage/payload".to_string());
    h.write_file(&"C:/stage/payload/a.txt".to_string(), &"a".to_string());
    let mut manifest = base_manifest();
    let mut module = filecopy_module("observed");
    module.detect = DetectRule::FileExists(FileExistsRule {
        path: "C:/Apps/Bundle/observed/a.txt".to_string(),
    });
    manifest.modules.push(module);
    let before = detect(&h, &manifest, &BASE.to_string()).unwrap();
    assert!(!before[0].installed);
    install(&mut h, &manifest, &BASE.to_string(), &PD.to_string()).unwrap();
    let after = detect(&h, &manifest, &BASE.to_string()).unwrap();
    assert!(after[0].installed);
}

#[test]
fn state_records_the_kind_label() {
    let mut h = host();
    h.ensure_dir(&"C:/stage/payload".to_string());
    h.write_file(&"C:/stage/payload/a.txt".to_string(), &"a".to_string());
    let mut manifest = base_manifest();
    manifest.modules.push(filecopy_module("labelled"));
    let state = install(&mut h, &manifest, &BASE.to_string(), &PD.to_string()).unwrap();
    assert_eq!(state.modules[0].kind, "FileCopy");
    assert_eq!(state.state_id.len(), 36);
}

#[test]
fn replacement_target_that_is_a_directory_is_an_error() {
    let mut h = host();
    h.ensure_dir(&"C:/stage/payload".to_string());
    h.write_file(&"C:/stage/payload/a.txt".to_string(), &"a".to_string());
    h.ensure_dir(&"C:/Apps/Bundle/conf.d".to_string());
    let mut manifest = base_manifest();
    let mut module = filecopy_module("badconf");
    module.config.file_replacements.push(FileReplacement {
        file: "conf.d".to_string(),
        replacements: vec![KeyValue { key: "a".to_string(), value: "b".to_string() }],
    });
    manifest.modules.push(module);
    let r = install(&mut h, &manifest, &BASE.to_string(), &PD.to_string());
    assert!(matches!(r, Err(InstallError::ConfigRead { .. })));
}
