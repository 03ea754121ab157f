//! Uninstall orchestration.
//!
//! Teardown is best-effort and ordered to minimise lingering side effects:
//! the recorded mutations of the state document — firewall rules, the
//! autorun entry, the service and the created shortcuts — are reversed
//! first; with no state document but a manifest that declares autorun, the
//! manifest's own entry name is removed as a defensive fallback. The plugin
//! artifacts are deleted, each enabled module runs its uninstaller (the one
//! step whose failure aborts the run) or has its copied directory removed,
//! and finally the install root and the vendor data directory are deleted.

use vstd::prelude::*;

use crate::host::{Host, HostModel};
use crate::install::autorun_name_of;
use crate::manifest::{BundleManifest, ModuleKind, ModuleManifest};
use crate::paths::{join_seq, under};
use crate::state::{CreatedShortcutV, InstallState, InstallStateV, seq_views};

verus! {

/// What removing a list of firewall rules by name does to the host.
pub open spec fn remove_fw_rules_spec(m: HostModel, names: Seq<Seq<char>>) -> HostModel
    decreases names.len(),
{
    if names.len() == 0 {
        m
    } else {
        remove_fw_rules_spec(m.without_firewall(names[0]), names.skip(1))
    }
}

/// What removing a list of recorded shortcuts does to the host.
pub open spec fn remove_created_spec(m: HostModel, scs: Seq<CreatedShortcutV>) -> HostModel
    decreases scs.len(),
{
    if scs.len() == 0 {
        m
    } else {
        remove_created_spec(m.without_shortcut(scs[0].path), scs.skip(1))
    }
}

/// What replaying a state document in reverse does to the host: its
/// firewall rules, autorun entry, service and shortcuts are removed.
pub open spec fn rollback_spec(m: HostModel, st: InstallStateV) -> HostModel {
    let m1 = remove_fw_rules_spec(m, st.firewall_rules);
    let m2 = match st.autorun_name {
        Some(n) => m1.without_autorun(n),
        None => m1,
    };
    let m3 = match st.service_name {
        Some(s) => m2.without_service(s),
        None => m2,
    };
    remove_created_spec(m3, st.created_shortcuts)
}

/// Replays the state document's recorded mutations in reverse.
pub fn rollback_state<H: Host>(h: &mut H, st: &InstallState)
    ensures
        final (h).m() == rollback_spec(old(h).m(), st@),
{
    let ghost m0 = h.m();
    let ghost fwv = seq_views(st.firewall_rules@);
    let mut i: usize = 0;
    proof {
        assert(fwv.skip(0) =~= fwv);
    }
    while i < st.firewall_rules.len()
        invariant
            0 <= i <= st.firewall_rules@.len(),
            fwv == seq_views(st.firewall_rules@),
            remove_fw_rules_spec(h.m(), fwv.skip(i as int)) == remove_fw_rules_spec(m0, fwv),
        decreases st.firewall_rules@.len() - i,
    {
        proof {
            assert(fwv.skip(i as int)[0] == fwv[i as int]);
            assert(fwv.skip(i as int).skip(1) =~= fwv.skip(i + 1));
        }
        h.remove_firewall_rule(&st.firewall_rules[i]);
        i = i + 1;
    }
    proof {
        assert(fwv.skip(fwv.len() as int) =~= Seq::<Seq<char>>::empty());
    }
    match &st.autorun_name {
        Some(n) => {
            h.remove_autorun(n);
        },
        None => {},
    }
    match &st.service_name {
        Some(s) => {
            h.remove_service(s);
        },
        None => {},
    }
    let ghost m3 = h.m();
    let ghost scv = crate::state::shortcut_views(st.created_shortcuts@);
    let mut j: usize = 0;
    proof {
        assert(scv.skip(0) =~= scv);
    }
    while j < st.created_shortcuts.len()
        invariant
            0 <= j <= st.created_shortcuts@.len(),
            scv == crate::state::shortcut_views(st.created_shortcuts@),
            remove_created_spec(h.m(), scv.skip(j as int)) == remove_created_spec(m3, scv),
        decreases st.created_shortcuts@.len() - j,
    {
        proof {
            assert(scv.skip(j as int)[0] == scv[j as int]);
            assert(scv.skip(j as int).skip(1) =~= scv.skip(j + 1));
        }
        h.remove_shortcut_path(&st.created_shortcuts[j].path);
        j = j + 1;
    }
    proof {
        assert(scv.skip(scv.len() as int) =~= Seq::<CreatedShortcutV>::empty());
    }
}

/// What deleting the plugin artifacts does to the host: with the default
/// plugin directory present, every artifact below it is removed.
pub open spec fn remove_plugins_spec(m: HostModel, program_data: Seq<char>) -> HostModel {
    let dir = crate::paths::plugin_dir_spec(program_data);
    if m.dirs.contains(dir) {
        m.without_plugin_docs_under(dir)
    } else {
        m
    }
}

/// Whether `q` is among the first `k` listed paths.
pub open spec fn is_listed(nm: Seq<Seq<char>>, k: int, q: Seq<char>) -> bool {
    exists|t: int| 0 <= t < k && (#[trigger] nm[t]) == q
}

/// Deletes every plugin artifact in the default plugin directory; a missing
/// directory is fine.
pub fn remove_plugins<H: Host>(h: &mut H, program_data: &String)
    ensures
        final (h).m() == remove_plugins_spec(old(h).m(), program_data@),
{
    let dir = crate::paths::default_plugin_dir(program_data);
    if !h.dir_exists(&dir) {
        return ;
    }
    let ghost m0 = h.m();
    let docs = h.list_plugin_docs(&dir);
    let ghost nm = seq_views(docs@);
    let mut k: usize = 0;
    while k < docs.len()
        invariant
            0 <= k <= docs@.len(),
            nm == seq_views(docs@),
            seq_views(docs@).no_duplicates(),
            forall|t: int|
                0 <= t < docs@.len() ==> under(dir@, #[trigger] docs@[t]@)
                    && m0.plugin_docs.dom().contains(docs@[t]@),
            forall|q: Seq<char>|
                m0.plugin_docs.dom().contains(q) && under(dir@, q) ==> seq_views(docs@).contains(
                    q,
                ),
            h.m() == (HostModel { plugin_docs: h.m().plugin_docs, ..m0 }),
            forall|q: Seq<char>|
                #![trigger m0.plugin_docs.dom().contains(q)]
                (h.m().plugin_docs.dom().contains(q) <==> (m0.plugin_docs.dom().contains(q)
                    && !is_listed(nm, k as int, q))) && (h.m().plugin_docs.dom().contains(q)
                    ==> h.m().plugin_docs[q] == m0.plugin_docs[q]),
        decreases docs@.len() - k,
    {
        let ghost before = h.m().plugin_docs;
        proof {
            assert forall|q: Seq<char>|
                #![trigger m0.plugin_docs.dom().contains(q)]
                before.dom().contains(q) implies m0.plugin_docs.dom().contains(q) && !is_listed(
                nm,
                k as int,
                q,
            ) && before[q] == m0.plugin_docs[q] by {
                assert(h.m().plugin_docs.dom().contains(q) == before.dom().contains(q));
            }
            assert forall|q: Seq<char>|
                #![trigger m0.plugin_docs.dom().contains(q)]
                m0.plugin_docs.dom().contains(q) && !is_listed(nm, k as int, q) implies before.dom().contains(
                q,
            ) by {
                assert(h.m().plugin_docs.dom().contains(q) == before.dom().contains(q));
            }
        }
        h.remove_plugin_doc(&docs[k]);
        proof {
            assert(h.m().plugin_docs == before.remove(docs@[k as int]@));
            assert forall|q: Seq<char>|
                #![trigger m0.plugin_docs.dom().contains(q)]
                (h.m().plugin_docs.dom().contains(q) <==> (m0.plugin_docs.dom().contains(q)
                    && !is_listed(nm, k + 1, q))) && (h.m().plugin_docs.dom().contains(q)
                    ==> h.m().plugin_docs[q] == m0.plugin_docs[q]) by {
                assert(h.m().plugin_docs == before.remove(docs@[k as int]@));
                if h.m().plugin_docs.dom().contains(q) {
                    assert(before.dom().contains(q) && q != docs@[k as int]@);
                    assert(m0.plugin_docs.dom().contains(q));
                    assert(before[q] == m0.plugin_docs[q]);
                    assert(h.m().plugin_docs[q] == before[q]);
                }
                if q == docs@[k as int]@ {
                    assert(nm[k as int] == q);
                    assert(is_listed(nm, k + 1, q));
                } else {
                    if is_listed(nm, k as int, q) {
                        let t = choose|t: int| 0 <= t < k && (#[trigger] nm[t]) == q;
                        assert(is_listed(nm, k + 1, q));
                    }
                    if is_listed(nm, k + 1, q) {
                        let t = choose|t: int| 0 <= t < k + 1 && (#[trigger] nm[t]) == q;
                        if t == k {
                            assert(false);
                        }
                        assert(is_listed(nm, k as int, q));
                    }
                }
            }
        }
        k = k + 1;
    }
    proof {
        let target = remove_plugins_spec(m0, program_data@);
        assert forall|q: Seq<char>|
            #![trigger m0.plugin_docs.dom().contains(q)]
            h.m().plugin_docs.dom().contains(q) <==> target.plugin_docs.dom().contains(q) by {
            if under(dir@, q) && m0.plugin_docs.dom().contains(q) {
                assert(seq_views(docs@).contains(q));
                let t = choose|t: int| 0 <= t < nm.len() && nm[t] == q;
                assert(is_listed(nm, docs@.len() as int, q));
            }
            if is_listed(nm, docs@.len() as int, q) {
                let t = choose|t: int| 0 <= t < docs@.len() && (#[trigger] nm[t]) == q;
                assert(docs@[t]@ == q);
                assert(under(dir@, q));
            }
        }
        assert forall|q: Seq<char>|
            #![trigger m0.plugin_docs.dom().contains(q)]
            h.m().plugin_docs.dom().contains(q) implies h.m().plugin_docs[q]
            == target.plugin_docs[q] by {}
        assert(h.m().plugin_docs =~= target.plugin_docs);
        assert(h.m() =~= target);
    }
}

/// The directory a file-copy module occupies under the install root.
pub open spec fn module_dir(install_root: Seq<char>, module: ModuleManifest) -> Seq<char> {
    match module.payload {
        Some(p) => match p.install_subdir {
            Some(sub) => join_seq(install_root, sub@),
            None => join_seq(install_root, module.id@),
        },
        None => join_seq(install_root, module.id@),
    }
}

/// What the module pass of uninstall does to the host: each enabled
/// native-installer module runs its declared uninstaller — a failure there
/// aborts the run, a module without one is passed over — and each enabled
/// file-copy module has its directory removed if present.
pub open spec fn uninstall_modules_spec(
    m: HostModel,
    manifest: BundleManifest,
    base_dir: Seq<char>,
    mods: Seq<ModuleManifest>,
) -> (HostModel, Option<crate::install::InstallErrorV>)
    decreases mods.len(),
{
    if mods.len() == 0 {
        (m, None)
    } else if !mods[0].enabled {
        uninstall_modules_spec(m, manifest, base_dir, mods.skip(1))
    } else if mods[0].kind is FileCopy {
        let dir = module_dir(manifest.install_root@, mods[0]);
        let m2 = if m.dirs.contains(dir) {
            m.without_tree(dir)
        } else {
            m
        };
        uninstall_modules_spec(m2, manifest, base_dir, mods.skip(1))
    } else {
        match mods[0].uninstaller {
            None => uninstall_modules_spec(m, manifest, base_dir, mods.skip(1)),
            Some(u) => {
                let r = crate::install::run_installer_spec(m, base_dir, u);
                match r.1 {
                    Some(e) => (r.0, Some(e)),
                    None => uninstall_modules_spec(r.0, manifest, base_dir, mods.skip(1)),
                }
            },
        }
    }
}

/// What the final directory removals do to the host: the install root and
/// the vendor data directory are deleted where present.
pub open spec fn remove_roots_spec(
    m: HostModel,
    manifest: BundleManifest,
    program_data: Seq<char>,
) -> HostModel {
    let m3 = if m.dirs.contains(manifest.install_root@) {
        m.without_tree(manifest.install_root@)
    } else {
        m
    };
    let pd = crate::paths::program_data_dir_spec(program_data);
    if m3.dirs.contains(pd) {
        m3.without_tree(pd)
    } else {
        m3
    }
}

/// The tail of an uninstall run after the module pass: on success the two
/// root directories are removed.
pub open spec fn finish_spec(
    t: (HostModel, Option<crate::install::InstallErrorV>),
    manifest: BundleManifest,
    program_data: Seq<char>,
) -> (HostModel, Option<crate::install::InstallErrorV>) {
    match t.1 {
        Some(e) => t,
        None => (remove_roots_spec(t.0, manifest, program_data), None),
    }
}

/// What a whole uninstall run does to the host: the state document's
/// mutations are reversed (or, with no document, the manifest's declared
/// autorun entry is removed), the plugin artifacts are deleted, every
/// enabled module is uninstalled, and the install root and vendor data
/// directory are removed. The only aborting failure is a failing
/// uninstaller invocation.
pub open spec fn uninstall_spec(
    m: HostModel,
    manifest: BundleManifest,
    base_dir: Seq<char>,
    program_data: Seq<char>,
) -> (HostModel, Option<crate::install::InstallErrorV>) {
    let sp = crate::paths::state_file_spec(program_data);
    let m1 = if m.state_docs.dom().contains(sp) {
        rollback_spec(m, m.state_docs[sp])
    } else if manifest.autorun.enabled {
        m.without_autorun(autorun_name_of(manifest))
    } else {
        m
    };
    let m2 = remove_plugins_spec(m1, program_data);
    finish_spec(
        uninstall_modules_spec(m2, manifest, base_dir, manifest.modules@),
        manifest,
        program_data,
    )
}

/// Returns the effective autorun entry name of the manifest.
pub fn effective_autorun_name(manifest: &BundleManifest) -> (r: String)
    ensures
        r@ == autorun_name_of(*manifest),
{
    if manifest.autorun.name.as_str().unicode_len() == 0 {
        "XiaoHaiAssistant".to_owned()
    } else {
        manifest.autorun.name.clone()
    }
}

/// Runs a whole uninstall: best-effort rollback of the recorded mutations
/// (or the manifest's autorun entry when no state document exists), plugin
/// artifact deletion, per-module uninstallers and directory removals, and
/// removal of the install root and the vendor data directory. Only a
/// failing uninstaller invocation aborts the run.
pub fn uninstall<H: Host>(
    h: &mut H,
    manifest: &BundleManifest,
    base_dir: &String,
    program_data: &String,
) -> (r: Result<(), crate::install::InstallError>)
    ensures
        match r {
            Ok(_) => uninstall_spec(old(h).m(), *manifest, base_dir@, program_data@) == (
                final (h).m(),
                None::<crate::install::InstallErrorV>,
            ),
            Err(e) => uninstall_spec(old(h).m(), *manifest, base_dir@, program_data@) == (
                final (h).m(),
                Some(e@),
            ),
        },
{
    let state_path = crate::paths::default_state_file(program_data);
    match h.read_state_doc(&state_path) {
        Some(st) => {
            rollback_state(h, &st);
        },
        None => {
            if manifest.autorun.enabled {
                let name = effective_autorun_name(manifest);
                h.remove_autorun(&name);
            }
        },
    }
    remove_plugins(h, program_data);
    let ghost m2 = h.m();
    let mut i: usize = 0;
    proof {
        assert(manifest.modules@.skip(0) =~= manifest.modules@);
    }
    while i < manifest.modules.len()
        invariant
            0 <= i <= manifest.modules@.len(),
            uninstall_modules_spec(
                h.m(),
                *manifest,
                base_dir@,
                manifest.modules@.skip(i as int),
            ) == uninstall_modules_spec(m2, *manifest, base_dir@, manifest.modules@),
            finish_spec(
                uninstall_modules_spec(m2, *manifest, base_dir@, manifest.modules@),
                *manifest,
                program_data@,
            ) == uninstall_spec(old(h).m(), *manifest, base_dir@, program_data@),
        decreases manifest.modules@.len() - i,
    {
        let ghost rest = manifest.modules@.skip(i as int);
        proof {
            assert(rest[0] == manifest.modules@[i as int]);
            assert(rest.skip(1) =~= manifest.modules@.skip(i + 1));
        }
        let module = &manifest.modules[i];
        if module.enabled {
            match module.kind {
                ModuleKind::FileCopy => {
                    let dir = match &module.payload {
                        Some(p) => match &p.install_subdir {
                            Some(sub) => crate::paths::join_path(&manifest.install_root, sub),
                            None => crate::paths::join_path(&manifest.install_root, &module.id),
                        },
                        None => crate::paths::join_path(&manifest.install_root, &module.id),
                    };
                    if h.dir_exists(&dir) {
                        h.remove_dir_all(&dir);
                    }
                },
                _ => {
                    match &module.uninstaller {
                        Some(u) => {
                            match crate::install::run_installer(h, base_dir, u) {
                                Err(e) => {
                                    return Err(e);
                                },
                                Ok(_) => {},
                            }
                        },
                        None => {},
                    }
                },
            }
        }
        i = i + 1;
    }
    proof {
        assert(manifest.modules@.skip(manifest.modules@.len() as int) =~= Seq::<
            ModuleManifest,
        >::empty());
    }
    if h.dir_exists(&manifest.install_root) {
        h.remove_dir_all(&manifest.install_root);
    }
    let pd_dir = crate::paths::program_data_dir(program_data);
    if h.dir_exists(&pd_dir) {
        h.remove_dir_all(&pd_dir);
    }
    Ok(())
}

} // verus!
