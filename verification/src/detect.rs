//! Detection: deciding whether a module or prerequisite is already
//! installed.
//!
//! A detection rule yields a definitive yes or no, or an error: a module
//! with no rule always counts as not installed, a file-existence rule
//! resolves its path against the manifest's directory, and a registry rule
//! reads the named value as its declared type and compares it against the
//! expectation. A registry value that is absent or has another type is a
//! detection error; a comparison between a numeric expectation and a string
//! value (or the reverse) is merely "not satisfied".

use vstd::prelude::*;

use crate::host::{Host, HostModel, RegLocV, RegValue, RegValueV, kind_matches};
use crate::manifest::{DetectRule, ModuleManifest, RegistryExpectedValue, RegistryHive,
    RegistryValueKind, RegistryValueRule};
use crate::paths::resolve_path;

verus! {

/// A detection failure.
#[derive(Debug)]
pub enum DetectError {
    /// A manifest path was empty.
    EmptyPath,
    /// A registry value could not be read as its declared type.
    RegistryRead { hive: RegistryHive, key: String, value_name: String },
}

/// Mathematical view of a detection failure.
pub enum DetectErrorV {
    /// A manifest path was empty.
    EmptyPath,
    /// A registry value could not be read as its declared type.
    RegistryRead { hive: RegistryHive, key: Seq<char>, value_name: Seq<char> },
}

impl View for DetectError {
    type V = DetectErrorV;

    open spec fn view(&self) -> DetectErrorV {
        match self {
            DetectError::EmptyPath => DetectErrorV::EmptyPath,
            DetectError::RegistryRead { hive, key, value_name } => DetectErrorV::RegistryRead {
                hive: *hive,
                key: key@,
                value_name: value_name@,
            },
        }
    }
}

/// Whether a read registry value satisfies the expectation. A mismatch
/// between the value's type and the expectation's type is not satisfied.
pub open spec fn registry_rule_satisfied(v: RegValueV, expected: RegistryExpectedValue) -> bool {
    match v {
        RegValueV::Dword(d) => match expected {
            RegistryExpectedValue::DwordAtLeast(min) => d >= min,
            RegistryExpectedValue::DwordEquals(eq) => d == eq,
            RegistryExpectedValue::SzEquals(_) => false,
        },
        RegValueV::Sz(s) => match expected {
            RegistryExpectedValue::SzEquals(eq) => s == eq@,
            RegistryExpectedValue::DwordAtLeast(_) => false,
            RegistryExpectedValue::DwordEquals(_) => false,
        },
    }
}

/// What a registry rule yields on a host: the comparison's outcome, or an
/// error when the value is absent or has another type than declared.
pub open spec fn registry_rule_eval(m: HostModel, rule: RegistryValueRule) -> Result<
    bool,
    DetectErrorV,
> {
    let loc = RegLocV { hive: rule.hive, key: rule.key@, name: rule.value_name@ };
    if m.registry.dom().contains(loc) && kind_matches(m.registry[loc], rule.kind) {
        Ok(registry_rule_satisfied(m.registry[loc], rule.expected))
    } else {
        Err(
            DetectErrorV::RegistryRead {
                hive: rule.hive,
                key: rule.key@,
                value_name: rule.value_name@,
            },
        )
    }
}

/// What a detection rule yields on a host.
pub open spec fn detect_eval(m: HostModel, base_dir: Seq<char>, rule: DetectRule) -> Result<
    bool,
    DetectErrorV,
> {
    match rule {
        DetectRule::NoDetect => Ok(false),
        DetectRule::RegistryValue(r) => registry_rule_eval(m, r),
        DetectRule::FileExists(f) => match crate::paths::resolve_spec(base_dir, f.path@) {
            Ok(p) => Ok(m.path_exists(p)),
            Err(_) => Err(DetectErrorV::EmptyPath),
        },
    }
}

/// Compares a read registry value against the expectation.
pub fn eval_registry_expectation(v: &RegValue, expected: &RegistryExpectedValue) -> (r: bool)
    ensures
        r == registry_rule_satisfied(v@, *expected),
{
    match v {
        RegValue::Dword(d) => match expected {
            RegistryExpectedValue::DwordAtLeast(min) => *d >= *min,
            RegistryExpectedValue::DwordEquals(eq) => *d == *eq,
            RegistryExpectedValue::SzEquals(_) => false,
        },
        RegValue::Sz(s) => match expected {
            RegistryExpectedValue::SzEquals(eq) => *s == *eq,
            RegistryExpectedValue::DwordAtLeast(_) => false,
            RegistryExpectedValue::DwordEquals(_) => false,
        },
    }
}

/// Evaluates a registry rule on the host.
pub fn detect_registry_rule<H: Host>(h: &H, rule: &RegistryValueRule) -> (r: Result<
    bool,
    DetectError,
>)
    ensures
        match r {
            Ok(b) => registry_rule_eval(h.m(), *rule) == Ok::<bool, DetectErrorV>(b),
            Err(e) => registry_rule_eval(h.m(), *rule) == Err::<bool, DetectErrorV>(e@),
        },
{
    match h.read_registry(rule.hive, &rule.key, &rule.value_name, rule.kind) {
        Some(v) => Ok(eval_registry_expectation(&v, &rule.expected)),
        None => Err(
            DetectError::RegistryRead {
                hive: rule.hive,
                key: rule.key.clone(),
                value_name: rule.value_name.clone(),
            },
        ),
    }
}

/// Evaluates a module's detection rule on the host: no rule means "not
/// installed", a file rule checks the resolved path, a registry rule reads
/// and compares the named value.
pub fn detect_module_installed<H: Host>(h: &H, base_dir: &String, module: &ModuleManifest) -> (r:
    Result<bool, DetectError>)
    ensures
        match r {
            Ok(b) => detect_eval(h.m(), base_dir@, module.detect) == Ok::<bool, DetectErrorV>(b),
            Err(e) => detect_eval(h.m(), base_dir@, module.detect) == Err::<bool, DetectErrorV>(
                e@,
            ),
        },
{
    match &module.detect {
        DetectRule::NoDetect => Ok(false),
        DetectRule::RegistryValue(rule) => detect_registry_rule(h, rule),
        DetectRule::FileExists(rule) => match resolve_path(base_dir, &rule.path) {
            Ok(p) => Ok(h.path_exists(&p)),
            Err(_) => Err(DetectError::EmptyPath),
        },
    }
}

/// Whether a prerequisite is installed.
#[derive(Clone, Copy, Debug, PartialEq, Eq, Structural)]
pub enum PrereqStatus {
    /// The prerequisite is present.
    Installed,
    /// The prerequisite is absent.
    Missing,
}

/// Registry location of the .NET Framework 4.8 release number.
pub open spec fn dotnet_release_loc() -> RegLocV {
    RegLocV {
        hive: RegistryHive::Hklm,
        key: "SOFTWARE\\Microsoft\\NET Framework Setup\\NDP\\v4\\Full"@,
        name: "Release"@,
    }
}

/// Whether the host's registry says .NET Framework 4.8 is installed: the
/// release number is present and at least 528040.
pub open spec fn dotnet_eval(m: HostModel) -> Result<bool, DetectErrorV> {
    if m.registry.dom().contains(dotnet_release_loc()) && m.registry[dotnet_release_loc()] matches
        RegValueV::Dword(d) {
        Ok(m.registry[dotnet_release_loc()]->Dword_0 >= 528040)
    } else {
        Err(
            DetectErrorV::RegistryRead {
                hive: RegistryHive::Hklm,
                key: dotnet_release_loc().key,
                value_name: dotnet_release_loc().name,
            },
        )
    }
}

/// Reads the .NET Framework 4.8 release number and compares it against the
/// installation threshold.
pub fn detect_dotnet_fx48_installed<H: Host>(h: &H) -> (r: Result<bool, DetectError>)
    ensures
        match r {
            Ok(b) => dotnet_eval(h.m()) == Ok::<bool, DetectErrorV>(b),
            Err(e) => dotnet_eval(h.m()) == Err::<bool, DetectErrorV>(e@),
        },
{
    let key: String = "SOFTWARE\\Microsoft\\NET Framework Setup\\NDP\\v4\\Full".to_owned();
    let name: String = "Release".to_owned();
    match h.read_registry(RegistryHive::Hklm, &key, &name, RegistryValueKind::Dword) {
        Some(RegValue::Dword(release)) => Ok(release >= 528040),
        _ => Err(
            DetectError::RegistryRead { hive: RegistryHive::Hklm, key, value_name: name },
        ),
    }
}

/// Registry location of the VC++ 2015-2022 x64 runtime marker.
pub open spec fn vcredist_loc() -> RegLocV {
    RegLocV {
        hive: RegistryHive::Hklm,
        key: "SOFTWARE\\Microsoft\\VisualStudio\\14.0\\VC\\Runtimes\\x64"@,
        name: "Installed"@,
    }
}

/// Whether the host's registry says the VC++ 2015-2022 x64 runtime is
/// installed: the marker is present and equal to 1.
pub open spec fn vcredist_eval(m: HostModel) -> Result<bool, DetectErrorV> {
    if m.registry.dom().contains(vcredist_loc()) && m.registry[vcredist_loc()] matches
        RegValueV::Dword(d) {
        Ok(m.registry[vcredist_loc()]->Dword_0 == 1)
    } else {
        Err(
            DetectErrorV::RegistryRead {
                hive: RegistryHive::Hklm,
                key: vcredist_loc().key,
                value_name: vcredist_loc().name,
            },
        )
    }
}

/// Reads the VC++ 2015-2022 x64 runtime marker.
pub fn detect_vcredist_2015_2022_x64_installed<H: Host>(h: &H) -> (r: Result<bool, DetectError>)
    ensures
        match r {
            Ok(b) => vcredist_eval(h.m()) == Ok::<bool, DetectErrorV>(b),
            Err(e) => vcredist_eval(h.m()) == Err::<bool, DetectErrorV>(e@),
        },
{
    let key: String = "SOFTWARE\\Microsoft\\VisualStudio\\14.0\\VC\\Runtimes\\x64".to_owned();
    let name: String = "Installed".to_owned();
    match h.read_registry(RegistryHive::Hklm, &key, &name, RegistryValueKind::Dword) {
        Some(RegValue::Dword(installed)) => Ok(installed == 1),
        _ => Err(
            DetectError::RegistryRead { hive: RegistryHive::Hklm, key, value_name: name },
        ),
    }
}

/// The prerequisite status a detection outcome stands for.
pub open spec fn status_of(b: bool) -> PrereqStatus {
    if b {
        PrereqStatus::Installed
    } else {
        PrereqStatus::Missing
    }
}

/// The status of .NET Framework 4.8 on the host.
pub fn dotnet_fx48_status<H: Host>(h: &H) -> (r: Result<PrereqStatus, DetectError>)
    ensures
        match r {
            Ok(st) => dotnet_eval(h.m()) matches Ok(b) && st == status_of(b),
            Err(e) => dotnet_eval(h.m()) == Err::<bool, DetectErrorV>(e@),
        },
{
    match detect_dotnet_fx48_installed(h) {
        Ok(true) => Ok(PrereqStatus::Installed),
        Ok(false) => Ok(PrereqStatus::Missing),
        Err(e) => Err(e),
    }
}

/// The status of the VC++ 2015-2022 x64 runtime on the host.
pub fn vcredist_2015_2022_x64_status<H: Host>(h: &H) -> (r: Result<PrereqStatus, DetectError>)
    ensures
        match r {
            Ok(st) => vcredist_eval(h.m()) matches Ok(b) && st == status_of(b),
            Err(e) => vcredist_eval(h.m()) == Err::<bool, DetectErrorV>(e@),
        },
{
    match detect_vcredist_2015_2022_x64_installed(h) {
        Ok(true) => Ok(PrereqStatus::Installed),
        Ok(false) => Ok(PrereqStatus::Missing),
        Err(e) => Err(e),
    }
}

} // verus!
