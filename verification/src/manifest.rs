//! Typed model of the deployment manifest.
//!
//! The manifest describes one product bundle: product identity, the target
//! install root, prerequisite components, an ordered list of modules, and the
//! post-install configuration (shortcuts, plugin registrations, firewall,
//! service and autorun settings). These types are pure data; the engine
//! interprets them.

use vstd::prelude::*;

use crate::listmap::{dup_opt_string, dup_string_vec, DupView};

verus! {

/// Root object of the deployment manifest.
pub struct BundleManifest {
    /// Product display name.
    pub product_name: String,
    /// Stable product identity / namespace key.
    pub product_code: String,
    /// Product version, for display and auditing.
    pub version: String,
    /// Absolute install root directory.
    pub install_root: String,
    /// Prerequisite components.
    pub prerequisites: PrerequisitesManifest,
    /// Ordered module list; earlier modules install first.
    pub modules: Vec<ModuleManifest>,
    /// Shortcut governance and unified entry-point shortcut settings.
    pub shortcuts: ShortcutManifest,
    /// Global post-install configuration.
    pub post_config: PostConfigManifest,
    /// Firewall rule configuration.
    pub firewall: FirewallManifest,
    /// Background service configuration.
    pub service: ServiceManifest,
    /// Login autorun configuration.
    pub autorun: AutorunManifest,
}

/// The set of prerequisite components a bundle may declare.
pub struct PrerequisitesManifest {
    /// .NET Framework 4.8, detected through its registry release number.
    pub dotnet_fx48: PrerequisiteItem,
    /// Visual C++ 2015-2022 redistributable (x64).
    pub vcredist_2015_2022_x64: PrerequisiteItem,
}

/// One prerequisite component.
pub struct PrerequisiteItem {
    /// Whether the prerequisite is managed at all.
    pub enabled: bool,
    /// Installer to run when the prerequisite is missing.
    pub installer: Option<PayloadInstaller>,
}

/// One independently installable module.
pub struct ModuleManifest {
    /// Unique module id within the manifest.
    pub id: String,
    /// Display name.
    pub display_name: String,
    /// Disabled modules are omitted entirely.
    pub enabled: bool,
    /// How the module installs.
    pub kind: ModuleKind,
    /// Rule deciding whether the module is already installed.
    pub detect: DetectRule,
    /// Payload for file-copy modules.
    pub payload: Option<ModulePayload>,
    /// Installer for native-installer modules.
    pub installer: Option<PayloadInstaller>,
    /// Uninstaller for native-installer modules; a module without one is
    /// skipped during uninstall.
    pub uninstaller: Option<PayloadInstaller>,
    /// Desktop shortcut names (without extension) to remove after install.
    pub remove_desktop_shortcuts: Vec<String>,
    /// Optional plugin registration for the launcher.
    pub plugin: Option<PluginRegistration>,
    /// Module-level post-install configuration.
    pub config: ModuleConfig,
}

/// How a module installs.
#[derive(Clone, Copy, Debug, PartialEq, Eq, Structural)]
pub enum ModuleKind {
    /// Native installer package.
    Msi,
    /// Native executable installer.
    Exe,
    /// Raw file payload copied under the install root.
    FileCopy,
}

/// Payload of a file-copy module.
pub struct ModulePayload {
    /// Payload source, absolute or relative to the manifest's directory.
    pub path: String,
    /// Destination subdirectory under the install root; the module id is
    /// used when absent.
    pub install_subdir: Option<String>,
}

/// Detection rule deciding whether a module is already installed.
pub enum DetectRule {
    /// No detection: the module always counts as not installed.
    NoDetect,
    /// Compare a registry value against an expectation.
    RegistryValue(RegistryValueRule),
    /// Check that a file exists.
    FileExists(FileExistsRule),
}

/// Registry detection: read a named value and compare it.
pub struct RegistryValueRule {
    /// Root hive.
    pub hive: RegistryHive,
    /// Subkey path below the hive.
    pub key: String,
    /// Value name inside the key.
    pub value_name: String,
    /// Declared type the value is read as.
    pub kind: RegistryValueKind,
    /// Expected value.
    pub expected: RegistryExpectedValue,
}

/// Registry root hive.
#[derive(Clone, Copy, Debug, PartialEq, Eq, Structural)]
pub enum RegistryHive {
    /// HKEY_LOCAL_MACHINE.
    Hklm,
    /// HKEY_CURRENT_USER.
    Hkcu,
}

/// Type a registry value is read as.
#[derive(Clone, Copy, Debug, PartialEq, Eq, Structural)]
pub enum RegistryValueKind {
    /// 32-bit unsigned number.
    Dword,
    /// String value.
    Sz,
}

/// Expectation a read registry value is compared against. A comparison
/// between a numeric expectation and a string value (or the reverse) is
/// "not satisfied", never an error.
pub enum RegistryExpectedValue {
    /// Numeric value at least the given threshold.
    DwordAtLeast(u32),
    /// Numeric value equal to the given number.
    DwordEquals(u32),
    /// String value equal to the given string.
    SzEquals(String),
}

/// File-existence detection rule.
pub struct FileExistsRule {
    /// Target path, absolute or relative to the manifest's directory.
    pub path: String,
}

/// An external installer or uninstaller invocation.
pub struct PayloadInstaller {
    /// Executable path, absolute or relative to the manifest's directory.
    pub path: String,
    /// Command-line arguments.
    pub args: Vec<String>,
    /// Exit codes treated as success; an empty list means the default set
    /// 0, 3010 and 1641.
    pub success_exit_codes: Vec<i32>,
}

/// Registration of one launchable application, consumed by the launcher.
pub struct PluginRegistration {
    /// Plugin id; also names the registration artifact.
    pub id: String,
    /// Display name.
    pub name: String,
    /// Executable path, absolute or relative to the install root.
    pub exe: String,
    /// Launch arguments.
    pub args: Vec<String>,
    /// Optional icon path.
    pub icon: Option<String>,
    /// Optional health-check strategy.
    pub healthcheck: Option<Healthcheck>,
}

/// Health-check strategy for a registered plugin.
pub enum Healthcheck {
    /// Judge by the presence of the plugin's process.
    Process,
    /// Probe a named channel.
    Pipe { name: String },
    /// Probe an HTTP endpoint.
    Http { url: String },
}

/// Mathematical view of a health-check strategy.
pub enum HealthcheckV {
    /// Judge by the presence of the plugin's process.
    Process,
    /// Probe a named channel.
    Pipe { name: Seq<char> },
    /// Probe an HTTP endpoint.
    Http { url: Seq<char> },
}

impl View for Healthcheck {
    type V = HealthcheckV;

    open spec fn view(&self) -> HealthcheckV {
        match self {
            Healthcheck::Process => HealthcheckV::Process,
            Healthcheck::Pipe { name } => HealthcheckV::Pipe { name: name@ },
            Healthcheck::Http { url } => HealthcheckV::Http { url: url@ },
        }
    }
}

/// Mathematical view of a plugin registration.
pub struct PluginRegistrationV {
    /// Plugin id.
    pub id: Seq<char>,
    /// Display name.
    pub name: Seq<char>,
    /// Executable path.
    pub exe: Seq<char>,
    /// Launch arguments.
    pub args: Seq<Seq<char>>,
    /// Optional icon path.
    pub icon: Option<Seq<char>>,
    /// Optional health-check strategy.
    pub healthcheck: Option<HealthcheckV>,
}

impl View for PluginRegistration {
    type V = PluginRegistrationV;

    open spec fn view(&self) -> PluginRegistrationV {
        PluginRegistrationV {
            id: self.id@,
            name: self.name@,
            exe: self.exe@,
            args: self.args@.map_values(|a: String| a@),
            icon: match self.icon {
                Some(p) => Some(p@),
                None => None,
            },
            healthcheck: match self.healthcheck {
                Some(hc) => Some(hc@),
                None => None,
            },
        }
    }
}

/// Module-level post-install configuration.
pub struct ModuleConfig {
    /// Server address available to configuration steps.
    pub server_url: Option<String>,
    /// Subdirectory to create under the global data root.
    pub data_subdir: Option<String>,
    /// Literal text substitutions applied to configuration files.
    pub file_replacements: Vec<FileReplacement>,
}

/// Text substitutions for one configuration file.
pub struct FileReplacement {
    /// Target file, absolute or relative to the install root.
    pub file: String,
    /// Key-to-value substitutions, applied in order.
    pub replacements: Vec<KeyValue>,
}

/// One literal substitution.
pub struct KeyValue {
    /// Substring to replace.
    pub key: String,
    /// Replacement text.
    pub value: String,
}

/// Shortcut governance and the unified entry-point shortcut.
pub struct ShortcutManifest {
    /// Entry-point executable, relative to the install root.
    pub assistant_exe: String,
    /// Display name of the entry-point shortcut.
    pub assistant_name: String,
    /// Optional icon path, relative to the install root.
    pub icon_path: Option<String>,
    /// Create a start-menu shortcut.
    pub start_menu: bool,
    /// Create a desktop shortcut.
    pub desktop: bool,
}

/// Global post-install configuration.
pub struct PostConfigManifest {
    /// Global server address.
    pub server_url: Option<String>,
    /// Data root override; the default vendor data root is used when absent.
    pub data_root: Option<String>,
    /// Plugin directory override; the default vendor plugin directory is
    /// used when absent.
    pub plugin_dir: Option<String>,
}

/// Firewall configuration.
pub struct FirewallManifest {
    /// Whether firewall rules are managed at all.
    pub enabled: bool,
    /// Rules to create.
    pub rules: Vec<FirewallRule>,
}

/// One firewall rule.
pub struct FirewallRule {
    /// Rule name, used for creation and removal.
    pub name: String,
    /// Program path the rule applies to.
    pub program: String,
    /// Traffic direction.
    pub direction: FirewallDirection,
    /// Allow or block.
    pub action: FirewallAction,
    /// Network profile the rule applies to.
    pub profile: FirewallProfile,
}

/// Firewall rule direction.
#[derive(Clone, Copy, Debug, PartialEq, Eq, Structural)]
pub enum FirewallDirection {
    /// Inbound.
    In,
    /// Outbound.
    Out,
}

/// Firewall rule action.
#[derive(Clone, Copy, Debug, PartialEq, Eq, Structural)]
pub enum FirewallAction {
    /// Allow traffic.
    Allow,
    /// Block traffic.
    Block,
}

/// Firewall network profile.
#[derive(Clone, Copy, Debug, PartialEq, Eq, Structural)]
pub enum FirewallProfile {
    /// All profiles.
    Any,
    /// Domain networks.
    Domain,
    /// Private networks.
    Private,
    /// Public networks.
    Public,
}

/// Background service configuration.
pub struct ServiceManifest {
    /// Whether a service is installed.
    pub enabled: bool,
    /// Service name.
    pub name: String,
    /// Service display name.
    pub display_name: String,
    /// Service description.
    pub description: String,
    /// Service executable, relative to the install root.
    pub exe: String,
    /// Service start arguments.
    pub args: Vec<String>,
}

/// Login autorun configuration.
pub struct AutorunManifest {
    /// Whether an autorun entry is written.
    pub enabled: bool,
    /// Autorun entry name; a default name is used when empty.
    pub name: String,
    /// Autorun command; the quoted entry-point path is used when empty.
    pub command: String,
}

/// An equal copy of a health-check strategy.
pub fn dup_healthcheck(h: &Healthcheck) -> (r: Healthcheck)
    ensures
        r == *h,
{
    match h {
        Healthcheck::Process => Healthcheck::Process,
        Healthcheck::Pipe { name } => Healthcheck::Pipe { name: name.clone() },
        Healthcheck::Http { url } => Healthcheck::Http { url: url.clone() },
    }
}

/// An equal copy of a plugin registration.
pub fn dup_registration(p: &PluginRegistration) -> (r: PluginRegistration)
    ensures
        r@ == p@,
{
    PluginRegistration {
        id: p.id.clone(),
        name: p.name.clone(),
        exe: p.exe.clone(),
        args: dup_string_vec(&p.args),
        icon: dup_opt_string(&p.icon),
        healthcheck: match &p.healthcheck {
            Some(hc) => Some(dup_healthcheck(hc)),
            None => None,
        },
    }
}

impl DupView for PluginRegistration {
    fn dup(&self) -> (r: PluginRegistration) {
        dup_registration(self)
    }
}

} // verus!
