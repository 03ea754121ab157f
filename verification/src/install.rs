//! Install orchestration.
//!
//! The install run works through the manifest in order: the program-data
//! layout is created, missing prerequisites are installed, each enabled
//! module is detected and — unless already present — installed and
//! configured, plugin registrations are written, shortcuts and the optional
//! service, firewall rules and autorun entry are applied, and the state
//! document is persisted. Any failure aborts the run at once; the state
//! document is then not written, and the host keeps the mutations made so
//! far.
//!
//! Every step has a functional description of its effect on the host model;
//! the contracts of the executable functions say the step performs exactly
//! that effect.

use vstd::prelude::*;

use crate::detect::{detect_eval, detect_module_installed, DetectError, DetectErrorV};
use crate::host::{Host, HostModel, PluginDocV, ShortcutLocation};
use crate::manifest::{BundleManifest, FileReplacement, FirewallRule, ModuleKind, ModuleManifest,
    ModulePayload, PayloadInstaller, PluginRegistration, PrerequisiteItem};
use crate::paths::{join_seq, resolve_path, resolve_spec, under};
use crate::state::{module_views, seq_views, shortcut_views, CreatedShortcut, CreatedShortcutV,
    InstallState, InstalledModule, InstalledModuleV};
use crate::textsubst::replaced_all;

verus! {

/// Why an install run aborted.
#[derive(Debug)]
pub enum InstallError {
    /// Detection failed.
    Detect(DetectError),
    /// An enabled native-installer module or prerequisite lacks its
    /// installer.
    MissingInstaller { module_id: String },
    /// An enabled file-copy module lacks its payload.
    MissingPayload { module_id: String },
    /// A manifest path was empty.
    EmptyPath,
    /// An external program could not be spawned.
    SpawnFailed { path: String },
    /// An external program exited with a code outside its success set; the
    /// captured output is carried verbatim.
    ExitCode { path: String, code: i32, stdout: String, stderr: String },
    /// A file-copy payload source does not exist.
    CopySourceMissing { path: String },
    /// A configuration target exists but cannot be read as a text file.
    ConfigRead { path: String },
}

/// Mathematical view of an install failure.
pub enum InstallErrorV {
    /// Detection failed.
    Detect(DetectErrorV),
    /// An enabled native-installer module or prerequisite lacks its
    /// installer.
    MissingInstaller { module_id: Seq<char> },
    /// An enabled file-copy module lacks its payload.
    MissingPayload { module_id: Seq<char> },
    /// A manifest path was empty.
    EmptyPath,
    /// An external program could not be spawned.
    SpawnFailed { path: Seq<char> },
    /// An external program exited with a code outside its success set.
    ExitCode { path: Seq<char>, code: i32, stdout: Seq<char>, stderr: Seq<char> },
    /// A file-copy payload source does not exist.
    CopySourceMissing { path: Seq<char> },
    /// A configuration target exists but cannot be read as a text file.
    ConfigRead { path: Seq<char> },
}

impl View for InstallError {
    type V = InstallErrorV;

    open spec fn view(&self) -> InstallErrorV {
        match self {
            InstallError::Detect(e) => InstallErrorV::Detect(e@),
            InstallError::MissingInstaller { module_id } => InstallErrorV::MissingInstaller {
                module_id: module_id@,
            },
            InstallError::MissingPayload { module_id } => InstallErrorV::MissingPayload {
                module_id: module_id@,
            },
            InstallError::EmptyPath => InstallErrorV::EmptyPath,
            InstallError::SpawnFailed { path } => InstallErrorV::SpawnFailed { path: path@ },
            InstallError::ExitCode { path, code, stdout, stderr } => InstallErrorV::ExitCode {
                path: path@,
                code: *code,
                stdout: stdout@,
                stderr: stderr@,
            },
            InstallError::CopySourceMissing { path } => InstallErrorV::CopySourceMissing {
                path: path@,
            },
            InstallError::ConfigRead { path } => InstallErrorV::ConfigRead { path: path@ },
        }
    }
}

/// The exit codes an installer treats as success: the declared set, or
/// 0, 3010 and 1641 when none is declared (3010 and 1641 are the native
/// installers' success-pending-reboot codes).
pub open spec fn effective_success_codes(inst: PayloadInstaller) -> Seq<i32> {
    if inst.success_exit_codes@.len() == 0 {
        seq![0i32, 3010i32, 1641i32]
    } else {
        inst.success_exit_codes@
    }
}

/// Whether the exit code counts as success for the installer.
pub fn is_success_code(inst: &PayloadInstaller, code: i32) -> (r: bool)
    ensures
        r == effective_success_codes(*inst).contains(code),
{
    if inst.success_exit_codes.len() == 0 {
        let r = code == 0 || code == 3010 || code == 1641;
        proof {
            let s = effective_success_codes(*inst);
            assert(s[0] == 0i32 && s[1] == 3010i32 && s[2] == 1641i32);
            if !r {
                assert forall|i: int| 0 <= i < s.len() implies s[i] != code by {}
            }
        }
        r
    } else {
        let mut i: usize = 0;
        while i < inst.success_exit_codes.len()
            invariant
                0 <= i <= inst.success_exit_codes@.len(),
                forall|j: int| 0 <= j < i ==> inst.success_exit_codes@[j] != code,
            decreases inst.success_exit_codes@.len() - i,
        {
            if inst.success_exit_codes[i] == code {
                assert(effective_success_codes(*inst)[i as int] == code);
                return true;
            }
            i = i + 1;
        }
        false
    }
}

/// What running an installer does to the host: the resolved program runs
/// and its execution is recorded; the run fails when the path is empty,
/// the program cannot be spawned, or the exit code is outside the
/// installer's success set.
pub open spec fn run_installer_spec(m: HostModel, base_dir: Seq<char>, inst: PayloadInstaller) -> (
    HostModel,
    Option<InstallErrorV>,
) {
    match resolve_spec(base_dir, inst.path@) {
        Err(_) => (m, Some(InstallErrorV::EmptyPath)),
        Ok(exe) => {
            if !m.programs.dom().contains(exe) {
                (m, Some(InstallErrorV::SpawnFailed { path: exe }))
            } else {
                let out = m.programs[exe];
                let m2 = m.with_run(exe, seq_views(inst.args@));
                if effective_success_codes(inst).contains(out.exit_code) {
                    (m2, None)
                } else {
                    (
                        m2,
                        Some(
                            InstallErrorV::ExitCode {
                                path: exe,
                                code: out.exit_code,
                                stdout: out.stdout,
                                stderr: out.stderr,
                            },
                        ),
                    )
                }
            }
        },
    }
}

/// Resolves and runs an installer or uninstaller, and checks its exit code
/// against the installer's success set. An out-of-set code is an error
/// carrying the captured output verbatim.
pub fn run_installer<H: Host>(h: &mut H, base_dir: &String, inst: &PayloadInstaller) -> (r: Result<
    (),
    InstallError,
>)
    ensures
        match r {
            Ok(_) => run_installer_spec(old(h).m(), base_dir@, *inst) == (
                final (h).m(),
                None::<InstallErrorV>,
            ),
            Err(e) => run_installer_spec(old(h).m(), base_dir@, *inst) == (
                final (h).m(),
                Some(e@),
            ),
        },
{
    let exe = match resolve_path(base_dir, &inst.path) {
        Ok(p) => p,
        Err(_) => {
            return Err(InstallError::EmptyPath);
        },
    };
    match h.run_process(&exe, &inst.args) {
        None => Err(InstallError::SpawnFailed { path: exe }),
        Some(out) => {
            if is_success_code(inst, out.exit_code) {
                Ok(())
            } else {
                Err(
                    InstallError::ExitCode {
                        path: exe,
                        code: out.exit_code,
                        stdout: out.stdout,
                        stderr: out.stderr,
                    },
                )
            }
        },
    }
}

/// Whether `q` is a path the first `j` listed sources copy onto: it lies
/// below `dst` and some listed source of index below `j` maps to it.
pub open spec fn is_copied_target(
    nm: Seq<Seq<char>>,
    j: int,
    src: Seq<char>,
    dst: Seq<char>,
    q: Seq<char>,
) -> bool {
    under(dst, q) && (exists|t: int| 0 <= t < j && (#[trigger] nm[t]) == src + q.skip(
        dst.len() as int,
    ))
}

/// What copying a payload does to the host: a source file is copied to the
/// destination path; a source directory is recreated at the destination
/// with every file below it copied under the same relative path; a missing
/// source is an error.
pub open spec fn copy_tree_spec(m: HostModel, src: Seq<char>, dst: Seq<char>) -> Result<
    HostModel,
    InstallErrorV,
> {
    if m.files.dom().contains(src) {
        Ok(m.with_file(dst, m.files[src]))
    } else if m.dirs.contains(src) {
        Ok(m.with_dir(dst).with_tree_copied(src, dst))
    } else {
        Err(InstallErrorV::CopySourceMissing { path: src })
    }
}

/// Copies a payload file or tree to the destination.
pub fn copy_tree<H: Host>(h: &mut H, src: &String, dst: &String) -> (r: Result<(), InstallError>)
    ensures
        match r {
            Ok(_) => copy_tree_spec(old(h).m(), src@, dst@) == Ok::<HostModel, InstallErrorV>(
                final (h).m(),
            ),
            Err(e) => copy_tree_spec(old(h).m(), src@, dst@) == Err::<HostModel, InstallErrorV>(e@)
                && final (h).m() == old(h).m(),
        },
{
    match h.read_file(src) {
        Some(content) => {
            h.write_file(dst, &content);
            Ok(())
        },
        None => {
            if h.dir_exists(src) {
                h.ensure_dir(dst);
                let ghost m1 = h.m();
                let names = h.list_files_under(src);
                let ghost nm = seq_views(names@);
                let mut contents: Vec<String> = Vec::new();
                let mut i: usize = 0;
                while i < names.len()
                    invariant
                        0 <= i <= names@.len(),
                        h.m() == m1,
                        nm == seq_views(names@),
                        forall|t: int|
                            0 <= t < names@.len() ==> under(src@, #[trigger] names@[t]@)
                                && m1.files.dom().contains(names@[t]@),
                        contents@.len() == i,
                        forall|t: int|
                            0 <= t < i ==> (#[trigger] contents@[t]@) == m1.files[names@[t]@],
                    decreases names@.len() - i,
                {
                    match h.read_file(&names[i]) {
                        Some(c) => {
                            contents.push(c);
                        },
                        None => {
                            proof {
                                assert(false);
                            }
                            contents.push(String::new());
                        },
                    }
                    i = i + 1;
                }
                let src_len = src.as_str().unicode_len();
                let mut j: usize = 0;
                while j < names.len()
                    invariant
                        0 <= j <= names@.len(),
                        src_len == src@.len(),
                        contents@.len() == names@.len(),
                        nm == seq_views(names@),
                        seq_views(names@).no_duplicates(),
                        forall|t: int|
                            0 <= t < names@.len() ==> under(src@, #[trigger] names@[t]@)
                                && m1.files.dom().contains(names@[t]@),
                        forall|q: Seq<char>|
                            m1.files.dom().contains(q) && under(src@, q) ==> seq_views(
                                names@,
                            ).contains(q),
                        forall|t: int|
                            0 <= t < names@.len() ==> (#[trigger] contents@[t]@)
                                == m1.files[names@[t]@],
                        h.m() == (HostModel { files: h.m().files, ..m1 }),
                        forall|q: Seq<char>|
                            #![trigger under(dst@, q)]
                            is_copied_target(nm, j as int, src@, dst@, q)
                                ==> h.m().files.dom().contains(q) && h.m().files[q] == m1.files[src@
                                + q.skip(dst@.len() as int)],
                        forall|q: Seq<char>|
                            #![trigger under(dst@, q)]
                            !is_copied_target(nm, j as int, src@, dst@, q) ==> (
                            h.m().files.dom().contains(q) <==> m1.files.dom().contains(q)) && (
                            m1.files.dom().contains(q) ==> h.m().files[q] == m1.files[q]),
                    decreases names@.len() - j,
                {
                    let name = &names[j];
                    let ghost p = names@[j as int]@;
                    let nlen = name.as_str().unicode_len();
                    let rest = name.as_str().substring_char(src_len, nlen);
                    let mut target = dst.clone();
                    target.append(rest);
                    proof {
                        assert(p =~= p.subrange(0, src_len as int) + p.skip(src_len as int));
                        assert(p.subrange(0, src_len as int) == src@);
                        assert(rest@ =~= p.skip(src_len as int));
                        assert(target@ == dst@ + p.skip(src_len as int));
                        assert(target@.skip(dst@.len() as int) =~= p.skip(src_len as int));
                        assert(target@.subrange(0, dst@.len() as int) =~= dst@);
                        assert(target@[dst@.len() as int] == p[src_len as int]);
                        assert(under(dst@, target@));
                        assert(src@ + target@.skip(dst@.len() as int) =~= p);
                    }
                    let ghost before = h.m().files;
                    h.write_file(&target, &contents[j]);
                    proof {
                        assert(h.m().files == before.insert(target@, contents@[j as int]@));
                        assert(h.m() == (HostModel { files: h.m().files, ..m1 }));
                        assert forall|q: Seq<char>|
                            #![trigger under(dst@, q)]
                            is_copied_target(nm, j + 1, src@, dst@, q) implies h.m(
                        ).files.dom().contains(q) && h.m().files[q] == m1.files[src@ + q.skip(
                            dst@.len() as int,
                        )] by {
                            let t = choose|t: int|
                                0 <= t < j + 1 && (#[trigger] nm[t]) == src@ + q.skip(
                                    dst@.len() as int,
                                );
                            assert(q =~= q.subrange(0, dst@.len() as int) + q.skip(
                                dst@.len() as int,
                            ));
                            assert(q == dst@ + q.skip(dst@.len() as int));
                            if t == j {
                                assert(nm[t] == p);
                                assert(q.skip(dst@.len() as int) =~= p.skip(src_len as int));
                                assert(q == target@);
                                assert(h.m().files[q] == contents@[j as int]@);
                                assert(contents@[j as int]@ == m1.files[names@[j as int]@]);
                                assert(m1.files[src@ + q.skip(dst@.len() as int)]
                                    == m1.files[names@[j as int]@]);
                            } else {
                                if q == target@ {
                                    assert(nm[t] == p);
                                    assert(seq_views(names@)[t] == seq_views(names@)[j as int]);
                                    assert(false);
                                }
                                assert(is_copied_target(nm, j as int, src@, dst@, q));
                                assert(before.dom().contains(q) && before[q] == m1.files[src@
                                    + q.skip(dst@.len() as int)]);
                            }
                        }
                        assert forall|q: Seq<char>|
                            #![trigger under(dst@, q)]
                            !is_copied_target(nm, j + 1, src@, dst@, q) implies (h.m(
                        ).files.dom().contains(q) <==> m1.files.dom().contains(q)) && (
                        m1.files.dom().contains(q) ==> h.m().files[q] == m1.files[q]) by {
                            assert(nm[j as int] == src@ + target@.skip(dst@.len() as int));
                            if q == target@ {
                                assert(is_copied_target(nm, j + 1, src@, dst@, q));
                            } else {
                                if is_copied_target(nm, j as int, src@, dst@, q) {
                                    let t = choose|t: int|
                                        0 <= t < j && (#[trigger] nm[t]) == src@ + q.skip(
                                            dst@.len() as int,
                                        );
                                    assert(0 <= t < j + 1 && nm[t] == src@ + q.skip(
                                        dst@.len() as int,
                                    ));
                                    assert(is_copied_target(nm, j + 1, src@, dst@, q));
                                }
                                assert(!is_copied_target(nm, j as int, src@, dst@, q));
                                assert((before.dom().contains(q) <==> m1.files.dom().contains(q))
                                    && (m1.files.dom().contains(q) ==> before[q] == m1.files[q]));
                                assert(h.m().files.dom().contains(q) <==> before.dom().contains(
                                    q,
                                ));
                                assert(before.dom().contains(q) ==> h.m().files[q] == before[q]);
                            }
                        }
                    }
                    j = j + 1;
                }
                proof {
                    let copied = m1.with_tree_copied(src@, dst@);
                    assert forall|q: Seq<char>|
                        #![trigger copied.files.dom().contains(q)]
                        #![trigger h.m().files.dom().contains(q)]
                        (copied.files.dom().contains(q) <==> h.m().files.dom().contains(q)) && (
                        copied.files.dom().contains(q) ==> h.m().files[q] == copied.files[q]) by {
                        if under(dst@, q) && m1.files.dom().contains(
                            src@ + q.skip(dst@.len() as int),
                        ) {
                            let p2 = src@ + q.skip(dst@.len() as int);
                            assert(p2.subrange(0, src@.len() as int) =~= src@);
                            assert(q =~= q.subrange(0, dst@.len() as int) + q.skip(
                                dst@.len() as int,
                            ));
                            assert(p2[src@.len() as int] == q[dst@.len() as int]);
                            assert(under(src@, p2));
                            assert(seq_views(names@).contains(p2));
                            let t = choose|t: int| 0 <= t < nm.len() && (#[trigger] nm[t]) == p2;
                            assert(is_copied_target(nm, names@.len() as int, src@, dst@, q));
                            assert(h.m().files.dom().contains(q) && h.m().files[q]
                                == m1.files[p2]);
                            assert(copied.files.dom().contains(q) && copied.files[q]
                                == m1.files[p2]);
                        } else {
                            if is_copied_target(nm, names@.len() as int, src@, dst@, q) {
                                let t = choose|t: int|
                                    0 <= t < names@.len() && (#[trigger] nm[t]) == src@ + q.skip(
                                        dst@.len() as int,
                                    );
                                assert(m1.files.dom().contains(names@[t]@));
                                assert(false);
                            }
                            assert((h.m().files.dom().contains(q) <==> m1.files.dom().contains(q))
                                && (m1.files.dom().contains(q) ==> h.m().files[q]
                                == m1.files[q]));
                            assert(!copied.files.dom().contains(q) || m1.files.dom().contains(q));
                            assert(m1.files.dom().contains(q) ==> copied.files.dom().contains(q)
                                && copied.files[q] == m1.files[q]);
                        }
                    }
                    assert(h.m().files =~= copied.files);
                    assert(h.m() =~= copied);
                    assert(copy_tree_spec(old(h).m(), src@, dst@) == Ok::<
                        HostModel,
                        InstallErrorV,
                    >(copied));
                }
                Ok(())
            } else {
                Err(InstallError::CopySourceMissing { path: src.clone() })
            }
        },
    }
}

/// The label recorded for a module kind.
pub open spec fn kind_label(k: ModuleKind) -> Seq<char> {
    match k {
        ModuleKind::Msi => "Msi"@,
        ModuleKind::Exe => "Exe"@,
        ModuleKind::FileCopy => "FileCopy"@,
    }
}

/// Returns the label recorded for a module kind.
pub fn kind_label_string(k: ModuleKind) -> (r: String)
    ensures
        r@ == kind_label(k),
{
    match k {
        ModuleKind::Msi => "Msi".to_owned(),
        ModuleKind::Exe => "Exe".to_owned(),
        ModuleKind::FileCopy => "FileCopy".to_owned(),
    }
}

/// The record of a module skipped because detection found it installed.
pub open spec fn skip_entry(module: ModuleManifest) -> InstalledModuleV {
    InstalledModuleV {
        id: module.id@,
        display_name: module.display_name@,
        kind: kind_label(module.kind),
        installed: true,
        install_root: None,
        uninstall_hint: None,
    }
}

/// The record of a module this run installed under the given root.
pub open spec fn done_entry(module: ModuleManifest, install_root: Seq<char>) -> InstalledModuleV {
    InstalledModuleV {
        id: module.id@,
        display_name: module.display_name@,
        kind: kind_label(module.kind),
        installed: true,
        install_root: Some(install_root),
        uninstall_hint: None,
    }
}

/// The effective data root: the configured override, or the default below
/// the vendor directory.
pub open spec fn data_root_of(manifest: BundleManifest, program_data: Seq<char>) -> Seq<char> {
    match manifest.post_config.data_root {
        Some(d) => d@,
        None => crate::paths::data_root_spec(program_data),
    }
}

/// Returns the effective data root.
pub fn effective_data_root(manifest: &BundleManifest, program_data: &String) -> (r: String)
    ensures
        r@ == data_root_of(*manifest, program_data@),
{
    match &manifest.post_config.data_root {
        Some(d) => d.clone(),
        None => crate::paths::default_data_root(program_data),
    }
}

/// The effective plugin directory: the configured override, or the default
/// below the vendor directory.
pub open spec fn plugin_dir_of(manifest: BundleManifest, program_data: Seq<char>) -> Seq<char> {
    match manifest.post_config.plugin_dir {
        Some(d) => d@,
        None => crate::paths::plugin_dir_spec(program_data),
    }
}

/// Returns the effective plugin directory.
pub fn effective_plugin_dir(manifest: &BundleManifest, program_data: &String) -> (r: String)
    ensures
        r@ == plugin_dir_of(*manifest, program_data@),
{
    match &manifest.post_config.plugin_dir {
        Some(d) => d.clone(),
        None => crate::paths::default_plugin_dir(program_data),
    }
}

/// What one file-replacement rule does to the host: the target resolves
/// under the install root and its text is rewritten; a missing target is
/// skipped; a target that is not a text file cannot be read.
pub open spec fn config_replace_one(
    m: HostModel,
    install_root: Seq<char>,
    fr: FileReplacement,
) -> Result<HostModel, InstallErrorV> {
    match resolve_spec(install_root, fr.file@) {
        Err(_) => Err(InstallErrorV::EmptyPath),
        Ok(target) => {
            if !m.path_exists(target) {
                Ok(m)
            } else if m.files.dom().contains(target) {
                Ok(m.with_file(target, replaced_all(m.files[target], fr.replacements@)))
            } else {
                Err(InstallErrorV::ConfigRead { path: target })
            }
        },
    }
}

/// What a list of file-replacement rules does to the host, stopping at the
/// first failure.
pub open spec fn config_replaces(
    m: HostModel,
    install_root: Seq<char>,
    frs: Seq<FileReplacement>,
) -> (HostModel, Option<InstallErrorV>)
    decreases frs.len(),
{
    if frs.len() == 0 {
        (m, None)
    } else {
        match config_replace_one(m, install_root, frs[0]) {
            Err(e) => (m, Some(e)),
            Ok(m2) => config_replaces(m2, install_root, frs.skip(1)),
        }
    }
}

/// What a module's post-install configuration does to the host: its data
/// subdirectory is created under the data root, then its file replacements
/// are applied.
pub open spec fn module_config_spec(
    m: HostModel,
    manifest: BundleManifest,
    module: ModuleManifest,
    data_root: Seq<char>,
) -> (HostModel, Option<InstallErrorV>) {
    let m1 = match module.config.data_subdir {
        Some(sub) => m.with_dir(join_seq(data_root, sub@)),
        None => m,
    };
    config_replaces(m1, manifest.install_root@, module.config.file_replacements@)
}

/// Applies a module's post-install configuration: creates the declared data
/// subdirectory and rewrites each declared configuration file. A target
/// file that does not exist is skipped.
pub fn apply_module_config<H: Host>(
    h: &mut H,
    manifest: &BundleManifest,
    module: &ModuleManifest,
    data_root: &String,
) -> (r: Result<(), InstallError>)
    ensures
        match r {
            Ok(_) => module_config_spec(old(h).m(), *manifest, *module, data_root@) == (
                final (h).m(),
                None::<InstallErrorV>,
            ),
            Err(e) => module_config_spec(old(h).m(), *manifest, *module, data_root@) == (
                final (h).m(),
                Some(e@),
            ),
        },
{
    match &module.config.data_subdir {
        Some(sub) => {
            let d = crate::paths::join_path(data_root, sub);
            h.ensure_dir(&d);
        },
        None => {},
    }
    let ghost m1 = h.m();
    let frs = &module.config.file_replacements;
    let mut i: usize = 0;
    proof {
        assert(frs@.skip(0) =~= frs@);
    }
    while i < frs.len()
        invariant
            0 <= i <= frs@.len(),
            config_replaces(h.m(), manifest.install_root@, frs@.skip(i as int)) == config_replaces(
                m1,
                manifest.install_root@,
                frs@,
            ),
            config_replaces(m1, manifest.install_root@, frs@) == module_config_spec(
                old(h).m(),
                *manifest,
                *module,
                data_root@,
            ),
        decreases frs@.len() - i,
    {
        let ghost rest = frs@.skip(i as int);
        proof {
            assert(rest[0] == frs@[i as int]);
            assert(rest.skip(1) =~= frs@.skip(i + 1));
        }
        let fr = &frs[i];
        let target = match resolve_path(&manifest.install_root, &fr.file) {
            Ok(t) => t,
            Err(_) => {
                return Err(InstallError::EmptyPath);
            },
        };
        if h.path_exists(&target) {
            match h.read_file(&target) {
                Some(content) => {
                    let rewritten = crate::textsubst::apply_replacements(&content, &fr.replacements);
                    h.write_file(&target, &rewritten);
                },
                None => {
                    return Err(InstallError::ConfigRead { path: target });
                },
            }
        }
        i = i + 1;
    }
    proof {
        assert(frs@.skip(frs@.len() as int) =~= Seq::<FileReplacement>::empty());
    }
    Ok(())
}

/// The destination a file-copy payload lands in: the declared subdirectory
/// under the install root, or one named by the module id.
pub open spec fn payload_dest(
    install_root: Seq<char>,
    module: ModuleManifest,
    p: ModulePayload,
) -> Seq<char> {
    match p.install_subdir {
        Some(sub) => join_seq(install_root, sub@),
        None => join_seq(install_root, module.id@),
    }
}

/// What processing one enabled module does to the host: detection decides
/// between a skip record and an install; an install runs the native
/// installer or copies the payload, then applies the module configuration.
pub open spec fn module_step_spec(
    m: HostModel,
    manifest: BundleManifest,
    base_dir: Seq<char>,
    data_root: Seq<char>,
    module: ModuleManifest,
) -> (HostModel, Result<InstalledModuleV, InstallErrorV>) {
    match detect_eval(m, base_dir, module.detect) {
        Err(e) => (m, Err(InstallErrorV::Detect(e))),
        Ok(true) => (m, Ok(skip_entry(module))),
        Ok(false) => {
            let step = if module.kind is FileCopy {
                match module.payload {
                    None => (m, Some(InstallErrorV::MissingPayload { module_id: module.id@ })),
                    Some(p) => match resolve_spec(base_dir, p.path@) {
                        Err(_) => (m, Some(InstallErrorV::EmptyPath)),
                        Ok(src) => match copy_tree_spec(
                            m,
                            src,
                            payload_dest(manifest.install_root@, module, p),
                        ) {
                            Ok(m2) => (m2, None),
                            Err(e) => (m, Some(e)),
                        },
                    },
                }
            } else {
                match module.installer {
                    None => (m, Some(InstallErrorV::MissingInstaller { module_id: module.id@ })),
                    Some(inst) => run_installer_spec(m, base_dir, inst),
                }
            };
            match step.1 {
                Some(e) => (step.0, Err(e)),
                None => {
                    let cfg = module_config_spec(step.0, manifest, module, data_root);
                    match cfg.1 {
                        Some(e) => (cfg.0, Err(e)),
                        None => (cfg.0, Ok(done_entry(module, manifest.install_root@))),
                    }
                },
            }
        },
    }
}

/// Processes one enabled module: detects it, installs it unless already
/// present, applies its configuration, and yields its state record.
pub fn install_module<H: Host>(
    h: &mut H,
    manifest: &BundleManifest,
    base_dir: &String,
    data_root: &String,
    module: &ModuleManifest,
) -> (r: Result<InstalledModule, InstallError>)
    ensures
        match r {
            Ok(entry) => module_step_spec(old(h).m(), *manifest, base_dir@, data_root@, *module)
                == (final (h).m(), Ok::<InstalledModuleV, InstallErrorV>(entry@)),
            Err(e) => module_step_spec(old(h).m(), *manifest, base_dir@, data_root@, *module) == (
                final (h).m(),
                Err::<InstalledModuleV, InstallErrorV>(e@),
            ),
        },
{
    let already = match detect_module_installed(h, base_dir, module) {
        Ok(b) => b,
        Err(e) => {
            return Err(InstallError::Detect(e));
        },
    };
    if already {
        let entry = InstalledModule {
            id: module.id.clone(),
            display_name: module.display_name.clone(),
            kind: kind_label_string(module.kind),
            installed: true,
            install_root: None,
            uninstall_hint: None,
        };
        return Ok(entry);
    }
    let step = match module.kind {
        ModuleKind::FileCopy => {
            match &module.payload {
                None => Err(InstallError::MissingPayload { module_id: module.id.clone() }),
                Some(p) => {
                    match resolve_path(base_dir, &p.path) {
                        Ok(src) => {
                            let dst = match &p.install_subdir {
                                Some(sub) => crate::paths::join_path(&manifest.install_root, sub),
                                None => crate::paths::join_path(&manifest.install_root, &module.id),
                            };
                            copy_tree(h, &src, &dst)
                        },
                        Err(_) => Err(InstallError::EmptyPath),
                    }
                },
            }
        },
        _ => {
            match &module.installer {
                None => Err(InstallError::MissingInstaller { module_id: module.id.clone() }),
                Some(inst) => run_installer(h, base_dir, inst),
            }
        },
    };
    match step {
        Err(e) => Err(e),
        Ok(_) => {
            match apply_module_config(h, manifest, module, data_root) {
                Err(e) => Err(e),
                Ok(_) => {
                    let entry = InstalledModule {
                        id: module.id.clone(),
                        display_name: module.display_name.clone(),
                        kind: kind_label_string(module.kind),
                        installed: true,
                        install_root: Some(manifest.install_root.clone()),
                        uninstall_hint: None,
                    };
                    Ok(entry)
                },
            }
        },
    }
}

/// The record of a successful install run, before the random identity and
/// timestamp are attached.
pub struct InstallRecordV {
    /// Installed-module records, in manifest order.
    pub modules: Seq<InstalledModuleV>,
    /// Shortcuts created by the run.
    pub created_shortcuts: Seq<CreatedShortcutV>,
    /// Firewall rule names created by the run.
    pub firewall_rules: Seq<Seq<char>>,
    /// Service name installed by the run, if any.
    pub service_name: Option<Seq<char>>,
    /// Autorun entry name written by the run, if any.
    pub autorun_name: Option<Seq<char>>,
}

/// What creating the program-data layout does to the host: the vendor
/// directory and its default plugin and data directories exist.
pub open spec fn ensure_layout_spec(m: HostModel, program_data: Seq<char>) -> HostModel {
    m.with_dir(crate::paths::program_data_dir_spec(program_data)).with_dir(
        crate::paths::plugin_dir_spec(program_data),
    ).with_dir(crate::paths::data_root_spec(program_data))
}

/// Creates the vendor directory and its default plugin and data
/// directories.
pub fn ensure_programdata_layout<H: Host>(h: &mut H, program_data: &String)
    ensures
        final (h).m() == ensure_layout_spec(old(h).m(), program_data@),
{
    let base = crate::paths::program_data_dir(program_data);
    h.ensure_dir(&base);
    let plugins = crate::paths::default_plugin_dir(program_data);
    h.ensure_dir(&plugins);
    let data = crate::paths::default_data_root(program_data);
    h.ensure_dir(&data);
}

/// What handling one prerequisite does to the host: nothing when disabled
/// or already present; otherwise its installer runs, and a missing
/// installer is a configuration error.
pub open spec fn prereq_one_spec(
    m: HostModel,
    base_dir: Seq<char>,
    item: PrerequisiteItem,
    detected: Result<bool, DetectErrorV>,
    idname: Seq<char>,
) -> (HostModel, Option<InstallErrorV>) {
    if !item.enabled {
        (m, None)
    } else {
        match detected {
            Err(e) => (m, Some(InstallErrorV::Detect(e))),
            Ok(true) => (m, None),
            Ok(false) => match item.installer {
                None => (m, Some(InstallErrorV::MissingInstaller { module_id: idname })),
                Some(inst) => run_installer_spec(m, base_dir, inst),
            },
        }
    }
}

/// What prerequisite handling does to the host: the two known
/// prerequisites are detected and installed in order.
pub open spec fn prereqs_spec(m: HostModel, manifest: BundleManifest, base_dir: Seq<char>) -> (
    HostModel,
    Option<InstallErrorV>,
) {
    let p1 = prereq_one_spec(
        m,
        base_dir,
        manifest.prerequisites.dotnet_fx48,
        crate::detect::dotnet_eval(m),
        "dotnet_fx48"@,
    );
    match p1.1 {
        Some(e) => p1,
        None => prereq_one_spec(
            p1.0,
            base_dir,
            manifest.prerequisites.vcredist_2015_2022_x64,
            crate::detect::vcredist_eval(p1.0),
            "vcredist_2015_2022_x64"@,
        ),
    }
}

/// Installs the enabled prerequisites that detection reports missing. An
/// enabled, missing prerequisite without an installer is a configuration
/// error.
pub fn install_prerequisites<H: Host>(
    h: &mut H,
    manifest: &BundleManifest,
    base_dir: &String,
) -> (r: Result<(), InstallError>)
    ensures
        match r {
            Ok(_) => prereqs_spec(old(h).m(), *manifest, base_dir@) == (
                final (h).m(),
                None::<InstallErrorV>,
            ),
            Err(e) => prereqs_spec(old(h).m(), *manifest, base_dir@) == (final (h).m(), Some(e@)),
        },
{
    if manifest.prerequisites.dotnet_fx48.enabled {
        match crate::detect::dotnet_fx48_status(h) {
            Err(e) => {
                return Err(InstallError::Detect(e));
            },
            Ok(crate::detect::PrereqStatus::Missing) => {
                match &manifest.prerequisites.dotnet_fx48.installer {
                    None => {
                        return Err(
                            InstallError::MissingInstaller { module_id: "dotnet_fx48".to_owned() },
                        );
                    },
                    Some(inst) => {
                        match run_installer(h, base_dir, inst) {
                            Err(e) => {
                                return Err(e);
                            },
                            Ok(_) => {},
                        }
                    },
                }
            },
            Ok(crate::detect::PrereqStatus::Installed) => {},
        }
    }
    if manifest.prerequisites.vcredist_2015_2022_x64.enabled {
        match crate::detect::vcredist_2015_2022_x64_status(h) {
            Err(e) => {
                return Err(InstallError::Detect(e));
            },
            Ok(crate::detect::PrereqStatus::Missing) => {
                match &manifest.prerequisites.vcredist_2015_2022_x64.installer {
                    None => {
                        return Err(
                            InstallError::MissingInstaller {
                                module_id: "vcredist_2015_2022_x64".to_owned(),
                            },
                        );
                    },
                    Some(inst) => {
                        match run_installer(h, base_dir, inst) {
                            Err(e) => {
                                return Err(e);
                            },
                            Ok(_) => {},
                        }
                    },
                }
            },
            Ok(crate::detect::PrereqStatus::Installed) => {},
        }
    }
    Ok(())
}

/// What processing a module list does to the host, stopping at the first
/// failure: disabled modules are passed over, the others each yield a
/// state record.
pub open spec fn modules_spec(
    m: HostModel,
    manifest: BundleManifest,
    base_dir: Seq<char>,
    data_root: Seq<char>,
    mods: Seq<ModuleManifest>,
) -> (HostModel, Result<Seq<InstalledModuleV>, InstallErrorV>)
    decreases mods.len(),
{
    if mods.len() == 0 {
        (m, Ok(Seq::<InstalledModuleV>::empty()))
    } else if !mods[0].enabled {
        modules_spec(m, manifest, base_dir, data_root, mods.skip(1))
    } else {
        let step = module_step_spec(m, manifest, base_dir, data_root, mods[0]);
        match step.1 {
            Err(e) => (step.0, Err(e)),
            Ok(entry) => {
                let rest = modules_spec(step.0, manifest, base_dir, data_root, mods.skip(1));
                match rest.1 {
                    Err(e) => (rest.0, Err(e)),
                    Ok(tail) => (rest.0, Ok(seq![entry] + tail)),
                }
            },
        }
    }
}

/// A module-list outcome with earlier records put in front.
pub open spec fn with_prefix(
    prefix: Seq<InstalledModuleV>,
    t: (HostModel, Result<Seq<InstalledModuleV>, InstallErrorV>),
) -> (HostModel, Result<Seq<InstalledModuleV>, InstallErrorV>) {
    match t.1 {
        Ok(tail) => (t.0, Ok(prefix + tail)),
        Err(e) => (t.0, Err(e)),
    }
}

/// Processes every enabled module of the manifest in order, stopping at the
/// first failure, and yields their state records.
pub fn process_modules<H: Host>(
    h: &mut H,
    manifest: &BundleManifest,
    base_dir: &String,
    data_root: &String,
) -> (r: Result<Vec<InstalledModule>, InstallError>)
    ensures
        match r {
            Ok(entries) => modules_spec(
                old(h).m(),
                *manifest,
                base_dir@,
                data_root@,
                manifest.modules@,
            ) == (final (h).m(), Ok::<Seq<InstalledModuleV>, InstallErrorV>(
                module_views(entries@),
            )),
            Err(e) => modules_spec(old(h).m(), *manifest, base_dir@, data_root@, manifest.modules@)
                == (final (h).m(), Err::<Seq<InstalledModuleV>, InstallErrorV>(e@)),
        },
{
    let ghost m0 = h.m();
    let mut entries: Vec<InstalledModule> = Vec::new();
    let mut i: usize = 0;
    proof {
        assert(manifest.modules@.skip(0) =~= manifest.modules@);
        assert(module_views(entries@) =~= Seq::<InstalledModuleV>::empty());
        assert(with_prefix(
            module_views(entries@),
            modules_spec(h.m(), *manifest, base_dir@, data_root@, manifest.modules@.skip(0)),
        ) == modules_spec(m0, *manifest, base_dir@, data_root@, manifest.modules@));
    }
    while i < manifest.modules.len()
        invariant
            0 <= i <= manifest.modules@.len(),
            m0 == old(h).m(),
            with_prefix(
                module_views(entries@),
                modules_spec(
                    h.m(),
                    *manifest,
                    base_dir@,
                    data_root@,
                    manifest.modules@.skip(i as int),
                ),
            ) == modules_spec(m0, *manifest, base_dir@, data_root@, manifest.modules@),
        decreases manifest.modules@.len() - i,
    {
        let ghost rest = manifest.modules@.skip(i as int);
        proof {
            assert(rest[0] == manifest.modules@[i as int]);
            assert(rest.skip(1) =~= manifest.modules@.skip(i + 1));
        }
        let module = &manifest.modules[i];
        if module.enabled {
            match install_module(h, manifest, base_dir, data_root, module) {
                Err(e) => {
                    return Err(e);
                },
                Ok(entry) => {
                    let ghost prefix = module_views(entries@);
                    let ghost ev = entry@;
                    entries.push(entry);
                    proof {
                        assert(module_views(entries@) =~= prefix.push(ev));
                        let r2 = modules_spec(
                            h.m(),
                            *manifest,
                            base_dir@,
                            data_root@,
                            manifest.modules@.skip(i + 1),
                        );
                        match r2.1 {
                            Ok(tail) => {
                                assert(prefix + (seq![ev] + tail) =~= prefix.push(ev) + tail);
                            },
                            Err(_) => {},
                        }
                    }
                },
            }
        }
        i = i + 1;
    }
    proof {
        assert(manifest.modules@.skip(manifest.modules@.len() as int) =~= Seq::<
            ModuleManifest,
        >::empty());
        assert(module_views(entries@) + Seq::<InstalledModuleV>::empty() =~= module_views(
            entries@,
        ));
    }
    Ok(entries)
}

/// The path a plugin registration artifact is written at.
pub open spec fn plugin_path(dir: Seq<char>, reg: PluginRegistration) -> Seq<char> {
    join_seq(dir, reg.id@ + ".json"@)
}

/// The artifact written for a module's plugin registration: the
/// registration with the owning module id attached.
pub open spec fn plugin_doc_of(module: ModuleManifest, reg: PluginRegistration) -> PluginDocV {
    PluginDocV { module_id: module.id@, plugin: reg@ }
}

/// What writing the plugin registrations does to the host: each enabled
/// module with a registration gets one artifact in the plugin directory,
/// named by the registration's own id.
pub open spec fn write_plugins_spec(m: HostModel, mods: Seq<ModuleManifest>, dir: Seq<char>) -> HostModel
    decreases mods.len(),
{
    if mods.len() == 0 {
        m
    } else {
        let m2 = match mods[0].plugin {
            Some(reg) => if mods[0].enabled {
                m.with_plugin_doc(plugin_path(dir, reg), plugin_doc_of(mods[0], reg))
            } else {
                m
            },
            None => m,
        };
        write_plugins_spec(m2, mods.skip(1), dir)
    }
}

/// Writes one registration artifact for each enabled module that declares
/// a plugin, into the effective plugin directory.
pub fn write_plugins<H: Host>(h: &mut H, manifest: &BundleManifest, program_data: &String)
    ensures
        final (h).m() == write_plugins_spec(
            old(h).m().with_dir(plugin_dir_of(*manifest, program_data@)),
            manifest.modules@,
            plugin_dir_of(*manifest, program_data@),
        ),
{
    let dir = effective_plugin_dir(manifest, program_data);
    h.ensure_dir(&dir);
    let ghost m1 = h.m();
    let mut i: usize = 0;
    proof {
        assert(manifest.modules@.skip(0) =~= manifest.modules@);
    }
    while i < manifest.modules.len()
        invariant
            0 <= i <= manifest.modules@.len(),
            dir@ == plugin_dir_of(*manifest, program_data@),
            write_plugins_spec(h.m(), manifest.modules@.skip(i as int), dir@)
                == write_plugins_spec(m1, manifest.modules@, dir@),
        decreases manifest.modules@.len() - i,
    {
        let ghost rest = manifest.modules@.skip(i as int);
        proof {
            assert(rest[0] == manifest.modules@[i as int]);
            assert(rest.skip(1) =~= manifest.modules@.skip(i + 1));
        }
        let module = &manifest.modules[i];
        if module.enabled {
            match &module.plugin {
                Some(reg) => {
                    let mut file_name = reg.id.clone();
                    file_name.append(".json");
                    let path = crate::paths::join_path(&dir, &file_name);
                    let doc = crate::host::PluginDoc {
                        module_id: module.id.clone(),
                        plugin: crate::manifest::dup_registration(reg),
                    };
                    proof {
                        assert(path@ == plugin_path(dir@, manifest.modules@[i as int].plugin->0));
                        assert(doc@ == plugin_doc_of(
                            manifest.modules@[i as int],
                            manifest.modules@[i as int].plugin->0,
                        ));
                    }
                    h.write_plugin_doc(&path, &doc);
                },
                None => {},
            }
        }
        i = i + 1;
    }
    proof {
        assert(manifest.modules@.skip(manifest.modules@.len() as int) =~= Seq::<
            ModuleManifest,
        >::empty());
    }
}

/// What removing a list of desktop shortcuts does to the host.
pub open spec fn remove_names_spec(m: HostModel, names: Seq<String>) -> HostModel
    decreases names.len(),
{
    if names.len() == 0 {
        m
    } else {
        remove_names_spec(
            m.without_shortcut(m.shortcut_path(ShortcutLocation::Desktop, names[0]@)),
            names.skip(1),
        )
    }
}

/// The paths of the listed desktop shortcuts that exist on the host and
/// are removed, in list order.
pub open spec fn removed_paths_spec(m: HostModel, names: Seq<String>) -> Seq<Seq<char>>
    decreases names.len(),
{
    if names.len() == 0 {
        Seq::<Seq<char>>::empty()
    } else {
        let p = m.shortcut_path(ShortcutLocation::Desktop, names[0]@);
        let tail = removed_paths_spec(m.without_shortcut(p), names.skip(1));
        if m.shortcuts.contains(p) {
            seq![p] + tail
        } else {
            tail
        }
    }
}

/// Removes the named desktop shortcuts and yields the paths of those that
/// existed.
pub fn remove_shortcuts_from_desktop<H: Host>(h: &mut H, names: &Vec<String>) -> (r: Vec<String>)
    ensures
        final (h).m() == remove_names_spec(old(h).m(), names@),
        seq_views(r@) == removed_paths_spec(old(h).m(), names@),
{
    let mut removed: Vec<String> = Vec::new();
    let ghost m0 = h.m();
    let mut i: usize = 0;
    proof {
        assert(names@.skip(0) =~= names@);
        assert(seq_views(removed@) =~= Seq::<Seq<char>>::empty());
        assert(Seq::<Seq<char>>::empty() + removed_paths_spec(h.m(), names@.skip(0))
            =~= removed_paths_spec(m0, names@));
    }
    while i < names.len()
        invariant
            0 <= i <= names@.len(),
            remove_names_spec(h.m(), names@.skip(i as int)) == remove_names_spec(m0, names@),
            seq_views(removed@) + removed_paths_spec(h.m(), names@.skip(i as int))
                == removed_paths_spec(m0, names@),
        decreases names@.len() - i,
    {
        let ghost rest = names@.skip(i as int);
        proof {
            assert(rest[0] == names@[i as int]);
            assert(rest.skip(1) =~= names@.skip(i + 1));
        }
        let ghost before = h.m();
        let ghost p = h.m().shortcut_path(ShortcutLocation::Desktop, names@[i as int]@);
        let existed = h.remove_shortcut_by_name(ShortcutLocation::Desktop, &names[i]);
        if existed {
            let name = &names[i];
            let folder = h.desktop_dir();
            let mut file_name = name.clone();
            file_name.append(".lnk");
            let path = crate::paths::join_path(&folder, &file_name);
            let ghost removed_before = removed@;
            removed.push(path);
            proof {
                assert(h.m().desktop_dir == before.desktop_dir);
                assert(seq_views(removed@) =~= seq_views(removed_before).push(p));
                assert(seq_views(removed_before).push(p) + removed_paths_spec(
                    h.m(),
                    names@.skip(i + 1),
                ) =~= seq_views(removed_before) + (seq![p] + removed_paths_spec(
                    h.m(),
                    names@.skip(i + 1),
                )));
            }
        }
        i = i + 1;
    }
    proof {
        assert(names@.skip(names@.len() as int) =~= Seq::<String>::empty());
        assert(seq_views(removed@) + Seq::<Seq<char>>::empty() =~= seq_views(removed@));
    }
    removed
}

/// What the shortcut-governance pass of every enabled module does to the
/// host: each module's listed vendor desktop shortcuts are removed.
pub open spec fn remove_modules_shortcuts_spec(m: HostModel, mods: Seq<ModuleManifest>) -> HostModel
    decreases mods.len(),
{
    if mods.len() == 0 {
        m
    } else {
        let m2 = if mods[0].enabled {
            remove_names_spec(m, mods[0].remove_desktop_shortcuts@)
        } else {
            m
        };
        remove_modules_shortcuts_spec(m2, mods.skip(1))
    }
}

/// What shortcut governance does to the host: vendor desktop shortcuts are
/// removed, then the unified entry-point shortcuts are created where the
/// manifest asks for them; the records of the created shortcuts are
/// reported.
pub open spec fn manage_shortcuts_spec(m: HostModel, manifest: BundleManifest) -> (
    HostModel,
    Seq<CreatedShortcutV>,
) {
    let m1 = remove_modules_shortcuts_spec(m, manifest.modules@);
    let after_desktop: (HostModel, Seq<CreatedShortcutV>) = if manifest.shortcuts.desktop {
        let p = m1.shortcut_path(ShortcutLocation::Desktop, manifest.shortcuts.assistant_name@);
        (m1.with_shortcut(p), seq![CreatedShortcutV { location: "desktop"@, path: p }])
    } else {
        (m1, Seq::<CreatedShortcutV>::empty())
    };
    if manifest.shortcuts.start_menu {
        let p = after_desktop.0.shortcut_path(
            ShortcutLocation::StartMenuPrograms,
            manifest.shortcuts.assistant_name@,
        );
        (
            after_desktop.0.with_shortcut(p),
            after_desktop.1.push(CreatedShortcutV { location: "start_menu"@, path: p }),
        )
    } else {
        after_desktop
    }
}

/// Removes each enabled module's vendor desktop shortcuts and creates the
/// unified entry-point shortcuts; yields the created-shortcut records.
pub fn manage_shortcuts<H: Host>(h: &mut H, manifest: &BundleManifest) -> (r: Vec<CreatedShortcut>)
    ensures
        (final (h).m(), shortcut_views(r@)) == manage_shortcuts_spec(old(h).m(), *manifest),
{
    let ghost m0 = h.m();
    let mut i: usize = 0;
    proof {
        assert(manifest.modules@.skip(0) =~= manifest.modules@);
    }
    while i < manifest.modules.len()
        invariant
            0 <= i <= manifest.modules@.len(),
            remove_modules_shortcuts_spec(h.m(), manifest.modules@.skip(i as int))
                == remove_modules_shortcuts_spec(m0, manifest.modules@),
        decreases manifest.modules@.len() - i,
    {
        let ghost rest = manifest.modules@.skip(i as int);
        proof {
            assert(rest[0] == manifest.modules@[i as int]);
            assert(rest.skip(1) =~= manifest.modules@.skip(i + 1));
        }
        let module = &manifest.modules[i];
        if module.enabled {
            let _removed = remove_shortcuts_from_desktop(h, &module.remove_desktop_shortcuts);
        }
        i = i + 1;
    }
    proof {
        assert(manifest.modules@.skip(manifest.modules@.len() as int) =~= Seq::<
            ModuleManifest,
        >::empty());
    }
    let assistant_exe = crate::paths::join_path(
        &manifest.install_root,
        &manifest.shortcuts.assistant_exe,
    );
    let icon = match &manifest.shortcuts.icon_path {
        Some(p) => Some(crate::paths::join_path(&manifest.install_root, p)),
        None => None,
    };
    let no_args: Vec<String> = Vec::new();
    let mut created: Vec<CreatedShortcut> = Vec::new();
    if manifest.shortcuts.desktop {
        let p = h.create_shortcut(
            ShortcutLocation::Desktop,
            &manifest.shortcuts.assistant_name,
            &assistant_exe,
            &no_args,
            None,
            match &icon {
                Some(ic) => Some(ic),
                None => None,
            },
        );
        created.push(CreatedShortcut { location: "desktop".to_owned(), path: p });
    }
    if manifest.shortcuts.start_menu {
        let p = h.create_shortcut(
            ShortcutLocation::StartMenuPrograms,
            &manifest.shortcuts.assistant_name,
            &assistant_exe,
            &no_args,
            None,
            match &icon {
                Some(ic) => Some(ic),
                None => None,
            },
        );
        let ghost created_before = created@;
        created.push(CreatedShortcut { location: "start_menu".to_owned(), path: p });
        proof {
            assert(shortcut_views(created@) =~= shortcut_views(created_before).push(
                created@.last()@,
            ));
        }
    }
    proof {
        let spec_r = manage_shortcuts_spec(m0, *manifest);
        assert(shortcut_views(created@) =~= spec_r.1);
    }
    created
}

/// The views of an optional string.
pub open spec fn opt_view(o: Option<String>) -> Option<Seq<char>> {
    match o {
        Some(s) => Some(s@),
        None => None,
    }
}

/// The effective autorun entry name: the declared one, or the product's
/// default entry name when empty.
pub open spec fn autorun_name_of(manifest: BundleManifest) -> Seq<char> {
    if manifest.autorun.name@.len() == 0 {
        "XiaoHaiAssistant"@
    } else {
        manifest.autorun.name@
    }
}

/// The entry-point executable under the install root.
pub open spec fn assistant_exe_path(manifest: BundleManifest) -> Seq<char> {
    join_seq(manifest.install_root@, manifest.shortcuts.assistant_exe@)
}

/// The effective autorun command: the declared one, or the quoted
/// entry-point path when empty.
pub open spec fn autorun_command_of(manifest: BundleManifest) -> Seq<char> {
    if manifest.autorun.command@.len() == 0 {
        "\""@ + assistant_exe_path(manifest) + "\""@
    } else {
        manifest.autorun.command@
    }
}

/// The names of a list of firewall rules.
pub open spec fn firewall_rule_names(rules: Seq<FirewallRule>) -> Seq<Seq<char>> {
    rules.map_values(|r: FirewallRule| r.name@)
}

/// What adding a list of firewall rules does to the host.
pub open spec fn add_rules_spec(m: HostModel, rules: Seq<FirewallRule>) -> HostModel
    decreases rules.len(),
{
    if rules.len() == 0 {
        m
    } else {
        add_rules_spec(m.with_firewall(rules[0].name@), rules.skip(1))
    }
}

/// What system integration does to the host: the autorun entry, the
/// service and the firewall rules are applied where enabled; the recorded
/// names are reported.
pub open spec fn integrate_spec(m: HostModel, manifest: BundleManifest) -> (
    HostModel,
    Option<Seq<char>>,
    Option<Seq<char>>,
    Seq<Seq<char>>,
) {
    let after_autorun: (HostModel, Option<Seq<char>>) = if manifest.autorun.enabled {
        (
            m.with_autorun(autorun_name_of(manifest), autorun_command_of(manifest)),
            Some(autorun_name_of(manifest)),
        )
    } else {
        (m, None)
    };
    let after_service: (HostModel, Option<Seq<char>>) = if manifest.service.enabled {
        (after_autorun.0.with_service(manifest.service.name@), Some(manifest.service.name@))
    } else {
        (after_autorun.0, None)
    };
    if manifest.firewall.enabled {
        (
            add_rules_spec(after_service.0, manifest.firewall.rules@),
            after_autorun.1,
            after_service.1,
            firewall_rule_names(manifest.firewall.rules@),
        )
    } else {
        (after_service.0, after_autorun.1, after_service.1, Seq::<Seq<char>>::empty())
    }
}

/// Applies the manifest's autorun, service and firewall settings, and
/// yields the recorded autorun name, service name and firewall rule names.
pub fn install_service_and_firewall<H: Host>(h: &mut H, manifest: &BundleManifest) -> (r: (
    Option<String>,
    Option<String>,
    Vec<String>,
))
    ensures
        ({
            let spec_r = integrate_spec(old(h).m(), *manifest);
            final (h).m() == spec_r.0 && opt_view(r.0) == spec_r.1 && opt_view(r.1) == spec_r.2
                && seq_views(r.2@) == spec_r.3
        }),
{
    let autorun_name: Option<String> = if manifest.autorun.enabled {
        let name = if manifest.autorun.name.as_str().unicode_len() == 0 {
            "XiaoHaiAssistant".to_owned()
        } else {
            manifest.autorun.name.clone()
        };
        let command = if manifest.autorun.command.as_str().unicode_len() == 0 {
            let exe = crate::paths::join_path(
                &manifest.install_root,
                &manifest.shortcuts.assistant_exe,
            );
            let mut c = "\"".to_owned();
            c.append(exe.as_str());
            c.append("\"");
            proof {
                assert(c@ =~= autorun_command_of(*manifest));
            }
            c
        } else {
            manifest.autorun.command.clone()
        };
        h.set_autorun(&name, &command);
        Some(name)
    } else {
        None
    };
    let service_name: Option<String> = if manifest.service.enabled {
        let exe = crate::paths::join_path(&manifest.install_root, &manifest.service.exe);
        h.install_service(
            &manifest.service.name,
            &manifest.service.display_name,
            &manifest.service.description,
            &exe,
            &manifest.service.args,
        );
        Some(manifest.service.name.clone())
    } else {
        None
    };
    let mut firewall_names: Vec<String> = Vec::new();
    if manifest.firewall.enabled {
        let ghost m2 = h.m();
        let rules = &manifest.firewall.rules;
        let mut i: usize = 0;
        proof {
            assert(rules@.skip(0) =~= rules@);
            assert(seq_views(firewall_names@) =~= firewall_rule_names(rules@.take(0)));
        }
        while i < rules.len()
            invariant
                0 <= i <= rules@.len(),
                add_rules_spec(h.m(), rules@.skip(i as int)) == add_rules_spec(m2, rules@),
                seq_views(firewall_names@) == firewall_rule_names(rules@.take(i as int)),
            decreases rules@.len() - i,
        {
            let ghost rest = rules@.skip(i as int);
            proof {
                assert(rest[0] == rules@[i as int]);
                assert(rest.skip(1) =~= rules@.skip(i + 1));
            }
            h.add_firewall_rule(&rules[i]);
            let ghost names_before = firewall_names@;
            firewall_names.push(rules[i].name.clone());
            proof {
                assert(seq_views(firewall_names@) =~= seq_views(names_before).push(
                    rules@[i as int].name@,
                ));
                assert(firewall_rule_names(rules@.take(i + 1)) =~= firewall_rule_names(
                    rules@.take(i as int),
                ).push(rules@[i as int].name@));
            }
            i = i + 1;
        }
        proof {
            assert(rules@.skip(rules@.len() as int) =~= Seq::<FirewallRule>::empty());
            assert(rules@.take(rules@.len() as int) =~= rules@);
        }
    } else {
        proof {
            assert(seq_views(firewall_names@) =~= Seq::<Seq<char>>::empty());
        }
    }
    (autorun_name, service_name, firewall_names)
}

/// Writes the state document at the conventional location below the vendor
/// directory.
pub fn persist_state<H: Host>(h: &mut H, state: &InstallState, program_data: &String)
    ensures
        final (h).m() == old(h).m().with_state_doc(
            crate::paths::state_file_spec(program_data@),
            state@,
        ),
{
    let path = crate::paths::default_state_file(program_data);
    h.write_state_doc(&path, state);
}

/// What a whole install run does to the host, and what it yields: the
/// program-data layout, the prerequisites, every enabled module in manifest
/// order, the plugin artifacts, the shortcuts and the system integration —
/// stopping at the first failure, whose partial host state remains.
pub open spec fn install_spec(
    m: HostModel,
    manifest: BundleManifest,
    base_dir: Seq<char>,
    program_data: Seq<char>,
) -> (HostModel, Result<InstallRecordV, InstallErrorV>) {
    let m1 = ensure_layout_spec(m, program_data);
    let pr = prereqs_spec(m1, manifest, base_dir);
    match pr.1 {
        Some(e) => (pr.0, Err(e)),
        None => {
            let ms = modules_spec(
                pr.0,
                manifest,
                base_dir,
                data_root_of(manifest, program_data),
                manifest.modules@,
            );
            match ms.1 {
                Err(e) => (ms.0, Err(e)),
                Ok(entries) => {
                    let dir = plugin_dir_of(manifest, program_data);
                    let m4 = write_plugins_spec(ms.0.with_dir(dir), manifest.modules@, dir);
                    let sc = manage_shortcuts_spec(m4, manifest);
                    let ig = integrate_spec(sc.0, manifest);
                    (
                        ig.0,
                        Ok(
                            InstallRecordV {
                                modules: entries,
                                created_shortcuts: sc.1,
                                firewall_rules: ig.3,
                                service_name: ig.2,
                                autorun_name: ig.1,
                            },
                        ),
                    )
                },
            }
        },
    }
}

/// Runs a whole install: creates the program-data layout, installs missing
/// prerequisites, processes every enabled module in manifest order,
/// registers plugins, applies shortcuts and system integration, and
/// persists the state document. The first failure aborts the run; the host
/// keeps the mutations made so far and no state document is written.
pub fn install<H: Host>(
    h: &mut H,
    manifest: &BundleManifest,
    base_dir: &String,
    program_data: &String,
) -> (r: Result<InstallState, InstallError>)
    ensures
        match r {
            Ok(st) => ({
                let spec_r = install_spec(old(h).m(), *manifest, base_dir@, program_data@);
                &&& spec_r.1 matches Ok(rec)
                &&& st@.modules == rec.modules
                &&& st@.created_shortcuts == rec.created_shortcuts
                &&& st@.firewall_rules == rec.firewall_rules
                &&& st@.service_name == rec.service_name
                &&& st@.autorun_name == rec.autorun_name
                &&& st@.product_code == manifest.product_code@
                &&& st@.version == manifest.version@
                &&& final (h).m() == spec_r.0.with_state_doc(
                    crate::paths::state_file_spec(program_data@),
                    st@,
                )
            }),
            Err(e) => ({
                let spec_r = install_spec(old(h).m(), *manifest, base_dir@, program_data@);
                spec_r.1 == Err::<InstallRecordV, InstallErrorV>(e@) && final (h).m() == spec_r.0
            }),
        },
{
    ensure_programdata_layout(h, program_data);
    match install_prerequisites(h, manifest, base_dir) {
        Err(e) => {
            return Err(e);
        },
        Ok(_) => {},
    }
    let data_root = effective_data_root(manifest, program_data);
    let entries = match process_modules(h, manifest, base_dir, &data_root) {
        Err(e) => {
            return Err(e);
        },
        Ok(v) => v,
    };
    write_plugins(h, manifest, program_data);
    let created = manage_shortcuts(h, manifest);
    let names = install_service_and_firewall(h, manifest);
    let mut state = InstallState::new(manifest.product_code.clone(), manifest.version.clone());
    state.modules = entries;
    state.created_shortcuts = created;
    state.autorun_name = names.0;
    state.service_name = names.1;
    state.firewall_rules = names.2;
    persist_state(h, &state, program_data);
    Ok(state)
}

} // verus!
