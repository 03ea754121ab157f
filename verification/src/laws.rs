//! Statements the engine's contracts together guarantee.
//!
//! Each proof function here states one law of the engine over the host
//! model; the tests exercise the same laws on concrete hosts.

use vstd::prelude::*;

use crate::detect::{detect_eval, DetectErrorV};
use crate::host::{HostModel, RegLocV, RegValueV};
use crate::install::{effective_success_codes, modules_spec};
use crate::manifest::{BundleManifest, DetectRule, FileExistsRule, ModuleManifest,
    PayloadInstaller, RegistryExpectedValue, RegistryValueRule};
use crate::paths::{is_absolute, join_seq, program_data_dir_spec, state_file_spec};
use crate::uninstall::uninstall_spec;

verus! {

/// Detection correctness for file rules: a file-exists rule reports exactly
/// whether the resolved target exists, and never errs on a non-empty path.
pub proof fn lemma_detect_file_exists(m: HostModel, base_dir: Seq<char>, rule: FileExistsRule)
    requires
        rule.path@.len() > 0,
    ensures
        detect_eval(m, base_dir, DetectRule::FileExists(rule)) == Ok::<bool, DetectErrorV>(
            m.path_exists(
                if is_absolute(rule.path@) {
                    rule.path@
                } else {
                    join_seq(base_dir, rule.path@)
                },
            ),
        ),
{
}

/// Detection correctness for threshold rules: a dword-at-least rule on a
/// numeric stored value reports exactly the comparison — true at the
/// threshold, false below it.
pub proof fn lemma_detect_dword_at_least(
    m: HostModel,
    base_dir: Seq<char>,
    rule: RegistryValueRule,
    stored: u32,
    min: u32,
)
    requires
        rule.kind is Dword,
        rule.expected == RegistryExpectedValue::DwordAtLeast(min),
        m.registry.dom().contains(
            RegLocV { hive: rule.hive, key: rule.key@, name: rule.value_name@ },
        ),
        m.registry[RegLocV { hive: rule.hive, key: rule.key@, name: rule.value_name@ }]
            == RegValueV::Dword(stored),
    ensures
        detect_eval(m, base_dir, DetectRule::RegistryValue(rule)) == Ok::<bool, DetectErrorV>(
            stored >= min,
        ),
{
}

/// Detection correctness for mismatched types: a numeric expectation
/// compared against a string stored value (read as a string) is "not
/// satisfied" — never an error.
pub proof fn lemma_detect_type_mismatch(
    m: HostModel,
    base_dir: Seq<char>,
    rule: RegistryValueRule,
    stored: Seq<char>,
)
    requires
        rule.kind is Sz,
        rule.expected matches RegistryExpectedValue::DwordAtLeast(_) || rule.expected matches
            RegistryExpectedValue::DwordEquals(_),
        m.registry.dom().contains(
            RegLocV { hive: rule.hive, key: rule.key@, name: rule.value_name@ },
        ),
        m.registry[RegLocV { hive: rule.hive, key: rule.key@, name: rule.value_name@ }]
            == RegValueV::Sz(stored),
    ensures
        detect_eval(m, base_dir, DetectRule::RegistryValue(rule)) == Ok::<bool, DetectErrorV>(
            false,
        ),
{
}

/// Exit-code policy, default set: an installer that declares no success
/// codes treats exactly 0, 3010 and 1641 as success.
pub proof fn lemma_default_exit_codes(inst: PayloadInstaller, code: i32)
    requires
        inst.success_exit_codes@.len() == 0,
    ensures
        effective_success_codes(inst).contains(code) <==> (code == 0 || code == 3010 || code
            == 1641),
{
    let s = effective_success_codes(inst);
    assert(s[0] == 0i32 && s[1] == 3010i32 && s[2] == 1641i32);
    if code == 0 || code == 3010 || code == 1641 {
        assert(s.contains(code));
    }
    if s.contains(code) {
        let i = choose|i: int| 0 <= i < s.len() && s[i] == code;
        assert(i == 0 || i == 1 || i == 2);
    }
}

/// Exit-code policy, declared set: an installer that declares success codes
/// treats exactly those as success — any other code, including 0, fails.
pub proof fn lemma_declared_exit_codes(inst: PayloadInstaller, code: i32)
    requires
        inst.success_exit_codes@.len() > 0,
    ensures
        effective_success_codes(inst).contains(code) <==> inst.success_exit_codes@.contains(code),
{
}

/// Idempotent re-install, module pass: on a host whose detection reports
/// every enabled module installed, the module pass changes nothing and
/// records a skip entry — installed, with no install root — for each
/// enabled module.
pub proof fn lemma_modules_all_detected_skip(
    m: HostModel,
    manifest: BundleManifest,
    base_dir: Seq<char>,
    data_root: Seq<char>,
    mods: Seq<ModuleManifest>,
)
    requires
        forall|i: int|
            0 <= i < mods.len() && (#[trigger] mods[i]).enabled ==> detect_eval(
                m,
                base_dir,
                mods[i].detect,
            ) == Ok::<bool, DetectErrorV>(true),
    ensures
        ({
            let r = modules_spec(m, manifest, base_dir, data_root, mods);
            &&& r.0 == m
            &&& r.1 matches Ok(entries)
            &&& (forall|j: int|
                0 <= j < (r.1->Ok_0).len() ==> (#[trigger] (r.1->Ok_0)[j]).installed && (
                r.1->Ok_0)[j].install_root is None)
        }),
    decreases mods.len(),
{
    if mods.len() > 0 {
        assert(forall|i: int|
            0 <= i < mods.skip(1).len() && (#[trigger] mods.skip(1)[i]).enabled ==> detect_eval(
                m,
                base_dir,
                mods.skip(1)[i].detect,
            ) == Ok::<bool, DetectErrorV>(true));
        lemma_modules_all_detected_skip(m, manifest, base_dir, data_root, mods.skip(1));
        if mods[0].enabled {
            assert(detect_eval(m, base_dir, mods[0].detect) == Ok::<bool, DetectErrorV>(true));
            let r = modules_spec(m, manifest, base_dir, data_root, mods);
            let rest = modules_spec(m, manifest, base_dir, data_root, mods.skip(1));
            match rest.1 {
                Ok(tail) => {
                    assert(r.1->Ok_0 == seq![crate::install::skip_entry(mods[0])] + tail);
                    assert(forall|j: int|
                        0 <= j < (r.1->Ok_0).len() ==> (#[trigger] (r.1->Ok_0)[j]).installed && (
                        r.1->Ok_0)[j].install_root is None);
                },
                Err(_) => {
                    assert(false);
                },
            }
        }
    }
}

/// Fallback autorun removal: an uninstall run that finds no state document
/// against a manifest with autorun enabled removes the manifest's effective
/// autorun entry name, and nothing later in the run writes autorun entries.
pub proof fn lemma_fallback_autorun(
    m: HostModel,
    manifest: BundleManifest,
    base_dir: Seq<char>,
    program_data: Seq<char>,
)
    requires
        !m.state_docs.dom().contains(state_file_spec(program_data)),
        manifest.autorun.enabled,
    ensures
        uninstall_spec(m, manifest, base_dir, program_data).0.autorun == m.autorun.remove(
            crate::install::autorun_name_of(manifest),
        ),
{
    let m1 = m.without_autorun(crate::install::autorun_name_of(manifest));
    let m2 = crate::uninstall::remove_plugins_spec(m1, program_data);
    assert(m2.autorun == m1.autorun);
    lemma_uninstall_modules_preserve_autorun(m2, manifest, base_dir, manifest.modules@);
    let um = crate::uninstall::uninstall_modules_spec(m2, manifest, base_dir, manifest.modules@);
    match um.1 {
        Some(_) => {
        },
        None => {
            assert(crate::uninstall::remove_roots_spec(um.0, manifest, program_data).autorun
                == um.0.autorun);
        },
    }
}

/// The module pass of uninstall never touches autorun entries.
pub proof fn lemma_uninstall_modules_preserve_autorun(
    m: HostModel,
    manifest: BundleManifest,
    base_dir: Seq<char>,
    mods: Seq<ModuleManifest>,
)
    ensures
        crate::uninstall::uninstall_modules_spec(m, manifest, base_dir, mods).0.autorun
            == m.autorun,
    decreases mods.len(),
{
    if mods.len() > 0 {
        if !mods[0].enabled {
            lemma_uninstall_modules_preserve_autorun(m, manifest, base_dir, mods.skip(1));
        } else if mods[0].kind is FileCopy {
            let dir = crate::uninstall::module_dir(manifest.install_root@, mods[0]);
            let m2 = if m.dirs.contains(dir) {
                m.without_tree(dir)
            } else {
                m
            };
            lemma_uninstall_modules_preserve_autorun(m2, manifest, base_dir, mods.skip(1));
        } else {
            match mods[0].uninstaller {
                None => {
                    lemma_uninstall_modules_preserve_autorun(m, manifest, base_dir, mods.skip(1));
                },
                Some(u) => {
                    let r = crate::install::run_installer_spec(m, base_dir, u);
                    assert(r.0.autorun == m.autorun);
                    match r.1 {
                        Some(_) => {
                        },
                        None => {
                            lemma_uninstall_modules_preserve_autorun(
                                r.0,
                                manifest,
                                base_dir,
                                mods.skip(1),
                            );
                        },
                    }
                },
            }
        }
    }
}

/// Install-uninstall round trip, directory part: a successful uninstall run
/// leaves neither the install root directory nor the vendor data directory
/// on the host.
pub proof fn lemma_uninstall_removes_roots(
    m: HostModel,
    manifest: BundleManifest,
    base_dir: Seq<char>,
    program_data: Seq<char>,
)
    requires
        uninstall_spec(m, manifest, base_dir, program_data).1 is None,
    ensures
        !uninstall_spec(m, manifest, base_dir, program_data).0.dirs.contains(
            manifest.install_root@,
        ),
        !uninstall_spec(m, manifest, base_dir, program_data).0.dirs.contains(
            program_data_dir_spec(program_data),
        ),
{
}

/// Whether two hosts agree on everything durable: directories, files,
/// registry values, shortcuts, services, firewall rules, autorun entries
/// and plugin artifacts. The execution log and the state documents are the
/// run's own bookkeeping and are left out.
pub open spec fn persistent_eq(a: HostModel, b: HostModel) -> bool {
    &&& a.dirs == b.dirs
    &&& a.files == b.files
    &&& a.registry == b.registry
    &&& a.shortcuts == b.shortcuts
    &&& a.services == b.services
    &&& a.firewall == b.firewall
    &&& a.autorun == b.autorun
    &&& a.plugin_docs == b.plugin_docs
    &&& a.desktop_dir == b.desktop_dir
    &&& a.start_menu_dir == b.start_menu_dir
}

/// Detection only reads durable state: hosts that agree on it agree on
/// every detection outcome.
pub proof fn lemma_detect_same(a: HostModel, b: HostModel, base_dir: Seq<char>, rule: DetectRule)
    requires
        persistent_eq(a, b),
    ensures
        detect_eval(a, base_dir, rule) == detect_eval(b, base_dir, rule),
{
    match rule {
        DetectRule::NoDetect => {},
        DetectRule::RegistryValue(r) => {},
        DetectRule::FileExists(f) => {
            match crate::paths::resolve_spec(base_dir, f.path@) {
                Ok(p) => {
                    assert(a.path_exists(p) == b.path_exists(p));
                },
                Err(_) => {},
            }
        },
    }
}

/// Running installers touches nothing durable.
pub proof fn lemma_run_installer_persistent(
    m: HostModel,
    base_dir: Seq<char>,
    inst: PayloadInstaller,
)
    ensures
        persistent_eq(crate::install::run_installer_spec(m, base_dir, inst).0, m),
{
}

/// Prerequisite handling touches nothing durable: it only reads the
/// registry and runs installers.
pub proof fn lemma_prereqs_persistent(m: HostModel, manifest: BundleManifest, base_dir: Seq<char>)
    ensures
        persistent_eq(crate::install::prereqs_spec(m, manifest, base_dir).0, m),
{
    let p1 = crate::install::prereq_one_spec(
        m,
        base_dir,
        manifest.prerequisites.dotnet_fx48,
        crate::detect::dotnet_eval(m),
        "dotnet_fx48"@,
    );
    lemma_run_installer_persistent_any(m, base_dir, manifest.prerequisites.dotnet_fx48);
    assert(persistent_eq(p1.0, m));
    lemma_run_installer_persistent_any(p1.0, base_dir, manifest.prerequisites.vcredist_2015_2022_x64);
}

/// One prerequisite step touches nothing durable.
proof fn lemma_run_installer_persistent_any(
    m: HostModel,
    base_dir: Seq<char>,
    item: crate::manifest::PrerequisiteItem,
)
    ensures
        forall|detected: Result<bool, DetectErrorV>, idname: Seq<char>|
            persistent_eq(
                #[trigger] crate::install::prereq_one_spec(m, base_dir, item, detected, idname).0,
                m,
            ),
{
    assert forall|detected: Result<bool, DetectErrorV>, idname: Seq<char>|
        persistent_eq(
            #[trigger] crate::install::prereq_one_spec(m, base_dir, item, detected, idname).0,
            m,
        ) by {
        match item.installer {
            Some(inst) => {
                lemma_run_installer_persistent(m, base_dir, inst);
            },
            None => {},
        }
    }
}

/// Re-creating layout directories that already exist changes nothing.
pub proof fn lemma_layout_noop(m: HostModel, program_data: Seq<char>)
    requires
        m.dirs.contains(crate::paths::program_data_dir_spec(program_data)),
        m.dirs.contains(crate::paths::plugin_dir_spec(program_data)),
        m.dirs.contains(crate::paths::data_root_spec(program_data)),
    ensures
        crate::install::ensure_layout_spec(m, program_data) == m,
{
    assert(m.dirs.insert(crate::paths::program_data_dir_spec(program_data)) =~= m.dirs);
    assert(m.with_dir(crate::paths::program_data_dir_spec(program_data)) =~= m);
    assert(m.with_dir(crate::paths::program_data_dir_spec(program_data)).with_dir(
        crate::paths::plugin_dir_spec(program_data),
    ) =~= m);
    assert(crate::install::ensure_layout_spec(m, program_data) =~= m);
}

/// Re-writing plugin artifacts the host already carries changes nothing.
pub proof fn lemma_write_plugins_noop(m: HostModel, mods: Seq<ModuleManifest>, dir: Seq<char>)
    requires
        forall|j: int|
            0 <= j < mods.len() && (#[trigger] mods[j]).enabled && mods[j].plugin is Some ==> {
                let reg = mods[j].plugin->0;
                &&& m.plugin_docs.dom().contains(crate::install::plugin_path(dir, reg))
                &&& m.plugin_docs[crate::install::plugin_path(dir, reg)]
                    == crate::install::plugin_doc_of(mods[j], reg)
            },
    ensures
        crate::install::write_plugins_spec(m, mods, dir) == m,
    decreases mods.len(),
{
    if mods.len() > 0 {
        let m2 = match mods[0].plugin {
            Some(reg) => if mods[0].enabled {
                m.with_plugin_doc(
                    crate::install::plugin_path(dir, reg),
                    crate::install::plugin_doc_of(mods[0], reg),
                )
            } else {
                m
            },
            None => m,
        };
        match mods[0].plugin {
            Some(reg) => {
                if mods[0].enabled {
                    assert(m.plugin_docs.insert(
                        crate::install::plugin_path(dir, reg),
                        crate::install::plugin_doc_of(mods[0], reg),
                    ) =~= m.plugin_docs);
                    assert(m2 =~= m);
                }
            },
            None => {},
        }
        assert(m2 == m);
        assert(forall|j: int|
            0 <= j < mods.skip(1).len() && (#[trigger] mods.skip(1)[j]).enabled
                && mods.skip(1)[j].plugin is Some ==> mods.skip(1)[j] == mods[j + 1]);
        lemma_write_plugins_noop(m, mods.skip(1), dir);
    }
}

/// Removing desktop shortcuts the host does not carry changes nothing.
pub proof fn lemma_remove_names_noop(m: HostModel, names: Seq<String>)
    requires
        forall|j: int|
            0 <= j < names.len() ==> !m.shortcuts.contains(
                m.shortcut_path(crate::host::ShortcutLocation::Desktop, (#[trigger] names[j])@),
            ),
    ensures
        crate::install::remove_names_spec(m, names) == m,
    decreases names.len(),
{
    if names.len() > 0 {
        let p = m.shortcut_path(crate::host::ShortcutLocation::Desktop, names[0]@);
        assert(m.shortcuts.remove(p) =~= m.shortcuts);
        assert(m.without_shortcut(p) =~= m);
        assert(forall|j: int| 0 <= j < names.skip(1).len() ==> (#[trigger] names.skip(1)[j]) == names[j + 1]);
        lemma_remove_names_noop(m, names.skip(1));
    }
}

/// The shortcut-governance removal pass changes nothing when none of the
/// listed vendor shortcuts exist.
pub proof fn lemma_remove_modules_shortcuts_noop(m: HostModel, mods: Seq<ModuleManifest>)
    requires
        forall|i: int, j: int|
            0 <= i < mods.len() && (#[trigger] mods[i]).enabled && 0 <= j
                < mods[i].remove_desktop_shortcuts.len() ==> !m.shortcuts.contains(
                m.shortcut_path(
                    crate::host::ShortcutLocation::Desktop,
                    (#[trigger] mods[i].remove_desktop_shortcuts@[j])@,
                ),
            ),
    ensures
        crate::install::remove_modules_shortcuts_spec(m, mods) == m,
    decreases mods.len(),
{
    if mods.len() > 0 {
        if mods[0].enabled {
            assert(forall|j: int|
                0 <= j < mods[0].remove_desktop_shortcuts@.len() ==> !m.shortcuts.contains(
                    m.shortcut_path(
                        crate::host::ShortcutLocation::Desktop,
                        (#[trigger] mods[0].remove_desktop_shortcuts@[j])@,
                    ),
                ));
            lemma_remove_names_noop(m, mods[0].remove_desktop_shortcuts@);
        }
        assert(forall|i: int|
            0 <= i < mods.skip(1).len() ==> (#[trigger] mods.skip(1)[i]) == mods[i + 1]);
        lemma_remove_modules_shortcuts_noop(m, mods.skip(1));
    }
}

/// Re-creating the entry-point shortcuts the host already carries changes
/// nothing.
pub proof fn lemma_manage_shortcuts_noop(m: HostModel, manifest: BundleManifest)
    requires
        forall|i: int, j: int|
            0 <= i < manifest.modules@.len() && (#[trigger] manifest.modules@[i]).enabled && 0 <= j
                < manifest.modules@[i].remove_desktop_shortcuts.len() ==> !m.shortcuts.contains(
                m.shortcut_path(
                    crate::host::ShortcutLocation::Desktop,
                    (#[trigger] manifest.modules@[i].remove_desktop_shortcuts@[j])@,
                ),
            ),
        manifest.shortcuts.desktop ==> m.shortcuts.contains(
            m.shortcut_path(
                crate::host::ShortcutLocation::Desktop,
                manifest.shortcuts.assistant_name@,
            ),
        ),
        manifest.shortcuts.start_menu ==> m.shortcuts.contains(
            m.shortcut_path(
                crate::host::ShortcutLocation::StartMenuPrograms,
                manifest.shortcuts.assistant_name@,
            ),
        ),
    ensures
        crate::install::manage_shortcuts_spec(m, manifest).0 == m,
{
    lemma_remove_modules_shortcuts_noop(m, manifest.modules@);
    if manifest.shortcuts.desktop {
        let p = m.shortcut_path(
            crate::host::ShortcutLocation::Desktop,
            manifest.shortcuts.assistant_name@,
        );
        assert(m.shortcuts.insert(p) =~= m.shortcuts);
        assert(m.with_shortcut(p) =~= m);
    }
    if manifest.shortcuts.start_menu {
        let p = m.shortcut_path(
            crate::host::ShortcutLocation::StartMenuPrograms,
            manifest.shortcuts.assistant_name@,
        );
        assert(m.shortcuts.insert(p) =~= m.shortcuts);
        assert(m.with_shortcut(p) =~= m);
    }
}

/// Re-adding firewall rules the host already carries changes nothing.
pub proof fn lemma_add_rules_noop(m: HostModel, rules: Seq<crate::manifest::FirewallRule>)
    requires
        forall|j: int| 0 <= j < rules.len() ==> m.firewall.contains((#[trigger] rules[j]).name@),
    ensures
        crate::install::add_rules_spec(m, rules) == m,
    decreases rules.len(),
{
    if rules.len() > 0 {
        assert(m.firewall.insert(rules[0].name@) =~= m.firewall);
        assert(m.with_firewall(rules[0].name@) =~= m);
        assert(forall|j: int|
            0 <= j < rules.skip(1).len() ==> (#[trigger] rules.skip(1)[j]) == rules[j + 1]);
        lemma_add_rules_noop(m, rules.skip(1));
    }
}

/// Re-applying system integration the host already carries changes nothing.
pub proof fn lemma_integrate_noop(m: HostModel, manifest: BundleManifest)
    requires
        manifest.autorun.enabled ==> m.autorun.dom().contains(
            crate::install::autorun_name_of(manifest),
        ) && m.autorun[crate::install::autorun_name_of(manifest)]
            == crate::install::autorun_command_of(manifest),
        manifest.service.enabled ==> m.services.contains(manifest.service.name@),
        manifest.firewall.enabled ==> (forall|j: int|
            0 <= j < manifest.firewall.rules@.len() ==> m.firewall.contains(
                (#[trigger] manifest.firewall.rules@[j]).name@,
            )),
    ensures
        crate::install::integrate_spec(m, manifest).0 == m,
{
    if manifest.autorun.enabled {
        assert(m.autorun.insert(
            crate::install::autorun_name_of(manifest),
            crate::install::autorun_command_of(manifest),
        ) =~= m.autorun);
        assert(m.with_autorun(
            crate::install::autorun_name_of(manifest),
            crate::install::autorun_command_of(manifest),
        ) =~= m);
    }
    if manifest.service.enabled {
        assert(m.services.insert(manifest.service.name@) =~= m.services);
        assert(m.with_service(manifest.service.name@) =~= m);
    }
    if manifest.firewall.enabled {
        lemma_add_rules_noop(m, manifest.firewall.rules@);
    }
}

/// Idempotent re-install: on a host that already carries a deployment —
/// every enabled module's detection reports installed, the layout
/// directories, plugin artifacts, entry-point shortcuts, autorun entry,
/// service and firewall rules are in place, the vendor shortcuts slated for
/// removal are gone, and the prerequisites pass — a second install run
/// succeeds, records a skip for every enabled module, and leaves every
/// durable part of the host exactly as it found it.
pub proof fn lemma_reinstall_idempotent(
    m: HostModel,
    manifest: BundleManifest,
    base_dir: Seq<char>,
    program_data: Seq<char>,
)
    requires
        forall|i: int|
            0 <= i < manifest.modules@.len() && (#[trigger] manifest.modules@[i]).enabled
                ==> detect_eval(m, base_dir, manifest.modules@[i].detect) == Ok::<
                bool,
                DetectErrorV,
            >(true),
        crate::install::prereqs_spec(m, manifest, base_dir).1 is None,
        m.dirs.contains(crate::paths::program_data_dir_spec(program_data)),
        m.dirs.contains(crate::paths::plugin_dir_spec(program_data)),
        m.dirs.contains(crate::paths::data_root_spec(program_data)),
        m.dirs.contains(crate::install::plugin_dir_of(manifest, program_data)),
        forall|j: int|
            0 <= j < manifest.modules@.len() && (#[trigger] manifest.modules@[j]).enabled
                && manifest.modules@[j].plugin is Some ==> {
                let reg = manifest.modules@[j].plugin->0;
                let dir = crate::install::plugin_dir_of(manifest, program_data);
                &&& m.plugin_docs.dom().contains(crate::install::plugin_path(dir, reg))
                &&& m.plugin_docs[crate::install::plugin_path(dir, reg)]
                    == crate::install::plugin_doc_of(manifest.modules@[j], reg)
            },
        forall|i: int, j: int|
            0 <= i < manifest.modules@.len() && (#[trigger] manifest.modules@[i]).enabled && 0 <= j
                < manifest.modules@[i].remove_desktop_shortcuts.len() ==> !m.shortcuts.contains(
                m.shortcut_path(
                    crate::host::ShortcutLocation::Desktop,
                    (#[trigger] manifest.modules@[i].remove_desktop_shortcuts@[j])@,
                ),
            ),
        manifest.shortcuts.desktop ==> m.shortcuts.contains(
            m.shortcut_path(
                crate::host::ShortcutLocation::Desktop,
                manifest.shortcuts.assistant_name@,
            ),
        ),
        manifest.shortcuts.start_menu ==> m.shortcuts.contains(
            m.shortcut_path(
                crate::host::ShortcutLocation::StartMenuPrograms,
                manifest.shortcuts.assistant_name@,
            ),
        ),
        manifest.autorun.enabled ==> m.autorun.dom().contains(
            crate::install::autorun_name_of(manifest),
        ) && m.autorun[crate::install::autorun_name_of(manifest)]
            == crate::install::autorun_command_of(manifest),
        manifest.service.enabled ==> m.services.contains(manifest.service.name@),
        manifest.firewall.enabled ==> (forall|j: int|
            0 <= j < manifest.firewall.rules@.len() ==> m.firewall.contains(
                (#[trigger] manifest.firewall.rules@[j]).name@,
            )),
    ensures
        ({
            let r = crate::install::install_spec(m, manifest, base_dir, program_data);
            &&& r.1 is Ok
            &&& persistent_eq(r.0, m)
            &&& (forall|j: int|
                0 <= j < (r.1->Ok_0).modules.len() ==> (#[trigger] (r.1->Ok_0).modules[j]).installed
                    && (r.1->Ok_0).modules[j].install_root is None)
        }),
{
    lemma_layout_noop(m, program_data);
    let m1 = crate::install::ensure_layout_spec(m, program_data);
    assert(m1 == m);
    let pr = crate::install::prereqs_spec(m1, manifest, base_dir);
    lemma_prereqs_persistent(m1, manifest, base_dir);
    let m2 = pr.0;
    assert(persistent_eq(m2, m));
    assert forall|i: int|
        0 <= i < manifest.modules@.len() && (#[trigger] manifest.modules@[i]).enabled
            implies detect_eval(m2, base_dir, manifest.modules@[i].detect) == Ok::<
        bool,
        DetectErrorV,
    >(true) by {
        lemma_detect_same(m2, m, base_dir, manifest.modules@[i].detect);
    }
    lemma_modules_all_detected_skip(
        m2,
        manifest,
        base_dir,
        crate::install::data_root_of(manifest, program_data),
        manifest.modules@,
    );
    let ms = crate::install::modules_spec(
        m2,
        manifest,
        base_dir,
        crate::install::data_root_of(manifest, program_data),
        manifest.modules@,
    );
    assert(ms.0 == m2);
    let dir = crate::install::plugin_dir_of(manifest, program_data);
    assert(m2.dirs.insert(dir) =~= m2.dirs);
    assert(ms.0.with_dir(dir) =~= m2);
    lemma_write_plugins_noop(m2, manifest.modules@, dir);
    let m4 = crate::install::write_plugins_spec(ms.0.with_dir(dir), manifest.modules@, dir);
    assert(m4 == m2);
    assert(m2.shortcuts == m.shortcuts && m2.desktop_dir == m.desktop_dir && m2.start_menu_dir
        == m.start_menu_dir);
    assert forall|i: int, j: int|
        0 <= i < manifest.modules@.len() && (#[trigger] manifest.modules@[i]).enabled && 0 <= j
            < manifest.modules@[i].remove_desktop_shortcuts.len() implies !m2.shortcuts.contains(
        m2.shortcut_path(
            crate::host::ShortcutLocation::Desktop,
            (#[trigger] manifest.modules@[i].remove_desktop_shortcuts@[j])@,
        ),
    ) by {
        assert(m2.shortcut_path(
            crate::host::ShortcutLocation::Desktop,
            manifest.modules@[i].remove_desktop_shortcuts@[j]@,
        ) == m.shortcut_path(
            crate::host::ShortcutLocation::Desktop,
            manifest.modules@[i].remove_desktop_shortcuts@[j]@,
        ));
    }
    lemma_manage_shortcuts_noop(m2, manifest);
    let sc = crate::install::manage_shortcuts_spec(m4, manifest);
    assert(sc.0 == m2);
    lemma_integrate_noop(m2, manifest);
    let ig = crate::install::integrate_spec(sc.0, manifest);
    assert(ig.0 == m2);
    let r = crate::install::install_spec(m, manifest, base_dir, program_data);
    assert(r.0 == ig.0 && r.1 is Ok);
    assert(persistent_eq(r.0, m));
    assert((r.1->Ok_0).modules == ms.1->Ok_0);
}

} // verus!
