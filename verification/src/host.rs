//! The abstract host a deployment runs against.
//!
//! [`Host`] collects the collaborator operations the engine needs — file and
//! directory bookkeeping, registry reads for detection, external process
//! execution, shortcut, service, firewall and autorun mutations, and the
//! state and plugin documents. Every operation carries an exact contract
//! over [`HostModel`], the mathematical view of the host: directories and
//! text files by path, registry values, installable program behaviours and
//! the log of executed programs, and the sets of shortcuts, services,
//! firewall rules and autorun entries.
//!
//! The model is an idealized host: bookkeeping mutations succeed, and
//! removing an absent resource is a successful no-op — the best-effort
//! semantics the engine's rollback relies on. What can genuinely fail is
//! kept in the model: a registry value that is missing or has the wrong
//! type, and a program that cannot be spawned or exits with an unexpected
//! code.

use vstd::prelude::*;

use crate::manifest::{dup_registration, FirewallRule, PluginRegistration, PluginRegistrationV,
    RegistryHive, RegistryValueKind};
use crate::paths::{join_seq, under_or_eq};
use crate::listmap::{dup_string_vec, DupView};
use crate::state::{dup_created_shortcut, dup_module, seq_views, InstallState, InstallStateV};

verus! {

/// A registry value as read from the host.
pub enum RegValue {
    /// 32-bit unsigned number.
    Dword(u32),
    /// String value.
    Sz(String),
}

/// Mathematical view of a registry value.
pub enum RegValueV {
    /// 32-bit unsigned number.
    Dword(u32),
    /// String value.
    Sz(Seq<char>),
}

impl View for RegValue {
    type V = RegValueV;

    open spec fn view(&self) -> RegValueV {
        match self {
            RegValue::Dword(d) => RegValueV::Dword(*d),
            RegValue::Sz(s) => RegValueV::Sz(s@),
        }
    }
}

/// Whether a registry value has the given declared type.
pub open spec fn kind_matches(v: RegValueV, kind: RegistryValueKind) -> bool {
    match v {
        RegValueV::Dword(_) => kind is Dword,
        RegValueV::Sz(_) => kind is Sz,
    }
}

/// Location of a registry value: hive, subkey path and value name.
pub struct RegLocV {
    /// Root hive.
    pub hive: RegistryHive,
    /// Subkey path below the hive.
    pub key: Seq<char>,
    /// Value name inside the key.
    pub name: Seq<char>,
}

/// What a finished external program reported.
pub struct ProcessOutput {
    /// Exit code; a process killed without one reports -1.
    pub exit_code: i32,
    /// Captured standard output.
    pub stdout: String,
    /// Captured standard error.
    pub stderr: String,
}

/// Mathematical view of a process outcome.
pub struct ProcessOutputV {
    /// Exit code.
    pub exit_code: i32,
    /// Captured standard output.
    pub stdout: Seq<char>,
    /// Captured standard error.
    pub stderr: Seq<char>,
}

impl View for ProcessOutput {
    type V = ProcessOutputV;

    open spec fn view(&self) -> ProcessOutputV {
        ProcessOutputV { exit_code: self.exit_code, stdout: self.stdout@, stderr: self.stderr@ }
    }
}

/// One recorded program execution.
pub struct RunV {
    /// Executable path.
    pub exe: Seq<char>,
    /// Arguments.
    pub args: Seq<Seq<char>>,
}

/// A plugin registration artifact: the registration plus the id of the
/// module that owns it, attached as an explicit construction step.
pub struct PluginDoc {
    /// Owning module id.
    pub module_id: String,
    /// The registration itself.
    pub plugin: PluginRegistration,
}

/// Mathematical view of a plugin registration artifact.
pub struct PluginDocV {
    /// Owning module id.
    pub module_id: Seq<char>,
    /// The registration itself.
    pub plugin: PluginRegistrationV,
}

impl View for PluginDoc {
    type V = PluginDocV;

    open spec fn view(&self) -> PluginDocV {
        PluginDocV { module_id: self.module_id@, plugin: self.plugin@ }
    }
}

/// Where a shortcut is placed.
#[derive(Clone, Copy, Debug, PartialEq, Eq, Structural)]
pub enum ShortcutLocation {
    /// The desktop directory.
    Desktop,
    /// The start-menu programs directory.
    StartMenuPrograms,
}

/// Mathematical view of the host.
#[verifier::ext_equal]
pub struct HostModel {
    /// Directories that exist, by path.
    pub dirs: Set<Seq<char>>,
    /// Text files that exist: path to content.
    pub files: Map<Seq<char>, Seq<char>>,
    /// Registry values readable for detection.
    pub registry: Map<RegLocV, RegValueV>,
    /// Behaviour of the programs that can be spawned: executable path to
    /// outcome. A path outside this map fails to spawn.
    pub programs: Map<Seq<char>, ProcessOutputV>,
    /// Programs executed so far, in order.
    pub runs: Seq<RunV>,
    /// Shortcut files that exist, by path.
    pub shortcuts: Set<Seq<char>>,
    /// Installed services, by name.
    pub services: Set<Seq<char>>,
    /// Firewall rules, by name.
    pub firewall: Set<Seq<char>>,
    /// Autorun entries: name to command.
    pub autorun: Map<Seq<char>, Seq<char>>,
    /// State documents, by path.
    pub state_docs: Map<Seq<char>, InstallStateV>,
    /// Plugin registration artifacts, by path.
    pub plugin_docs: Map<Seq<char>, PluginDocV>,
    /// The desktop directory.
    pub desktop_dir: Seq<char>,
    /// The start-menu programs directory.
    pub start_menu_dir: Seq<char>,
}

impl HostModel {
    /// The model with one more directory.
    pub open spec fn with_dir(self, p: Seq<char>) -> HostModel {
        HostModel { dirs: self.dirs.insert(p), ..self }
    }

    /// The model with a file written.
    pub open spec fn with_file(self, p: Seq<char>, content: Seq<char>) -> HostModel {
        HostModel { files: self.files.insert(p, content), ..self }
    }

    /// The model with one more readable registry value.
    pub open spec fn with_registry(self, loc: RegLocV, v: RegValueV) -> HostModel {
        HostModel { registry: self.registry.insert(loc, v), ..self }
    }

    /// The model with one more spawnable program.
    pub open spec fn with_program(self, exe: Seq<char>, out: ProcessOutputV) -> HostModel {
        HostModel { programs: self.programs.insert(exe, out), ..self }
    }

    /// The model with one program execution recorded.
    pub open spec fn with_run(self, exe: Seq<char>, args: Seq<Seq<char>>) -> HostModel {
        HostModel { runs: self.runs.push(RunV { exe, args }), ..self }
    }

    /// The model with a shortcut created.
    pub open spec fn with_shortcut(self, p: Seq<char>) -> HostModel {
        HostModel { shortcuts: self.shortcuts.insert(p), ..self }
    }

    /// The model with a shortcut removed.
    pub open spec fn without_shortcut(self, p: Seq<char>) -> HostModel {
        HostModel { shortcuts: self.shortcuts.remove(p), ..self }
    }

    /// The model with a service installed.
    pub open spec fn with_service(self, name: Seq<char>) -> HostModel {
        HostModel { services: self.services.insert(name), ..self }
    }

    /// The model with a service removed.
    pub open spec fn without_service(self, name: Seq<char>) -> HostModel {
        HostModel { services: self.services.remove(name), ..self }
    }

    /// The model with a firewall rule added.
    pub open spec fn with_firewall(self, name: Seq<char>) -> HostModel {
        HostModel { firewall: self.firewall.insert(name), ..self }
    }

    /// The model with a firewall rule removed.
    pub open spec fn without_firewall(self, name: Seq<char>) -> HostModel {
        HostModel { firewall: self.firewall.remove(name), ..self }
    }

    /// The model with an autorun entry written.
    pub open spec fn with_autorun(self, name: Seq<char>, command: Seq<char>) -> HostModel {
        HostModel { autorun: self.autorun.insert(name, command), ..self }
    }

    /// The model with an autorun entry removed.
    pub open spec fn without_autorun(self, name: Seq<char>) -> HostModel {
        HostModel { autorun: self.autorun.remove(name), ..self }
    }

    /// The model with a state document written.
    pub open spec fn with_state_doc(self, p: Seq<char>, st: InstallStateV) -> HostModel {
        HostModel { state_docs: self.state_docs.insert(p, st), ..self }
    }

    /// The model with a plugin artifact written.
    pub open spec fn with_plugin_doc(self, p: Seq<char>, doc: PluginDocV) -> HostModel {
        HostModel { plugin_docs: self.plugin_docs.insert(p, doc), ..self }
    }

    /// The model with a plugin artifact removed.
    pub open spec fn without_plugin_doc(self, p: Seq<char>) -> HostModel {
        HostModel { plugin_docs: self.plugin_docs.remove(p), ..self }
    }

    /// The model with every plugin artifact strictly below the directory
    /// removed.
    pub open spec fn without_plugin_docs_under(self, dir: Seq<char>) -> HostModel {
        HostModel {
            plugin_docs: self.plugin_docs.remove_keys(
                Set::new(|q: Seq<char>| crate::paths::under(dir, q)),
            ),
            ..self
        }
    }

    /// The model with everything at or below `p` removed: directories,
    /// files, shortcuts, state documents and plugin artifacts.
    pub open spec fn without_tree(self, p: Seq<char>) -> HostModel {
        HostModel {
            dirs: self.dirs.difference(Set::new(|q: Seq<char>| under_or_eq(p, q))),
            files: self.files.remove_keys(Set::new(|q: Seq<char>| under_or_eq(p, q))),
            shortcuts: self.shortcuts.difference(Set::new(|q: Seq<char>| under_or_eq(p, q))),
            state_docs: self.state_docs.remove_keys(Set::new(|q: Seq<char>| under_or_eq(p, q))),
            plugin_docs: self.plugin_docs.remove_keys(Set::new(|q: Seq<char>| under_or_eq(p, q))),
            ..self
        }
    }

    /// The model with a whole payload tree copied: every file below `src`
    /// reappears below `dst` under the same relative path.
    pub open spec fn with_tree_copied(self, src: Seq<char>, dst: Seq<char>) -> HostModel {
        HostModel {
            files: self.files.union_prefer_right(
                Map::new(
                    |q: Seq<char>|
                        crate::paths::under(dst, q) && self.files.dom().contains(
                            src + q.skip(dst.len() as int),
                        ),
                    |q: Seq<char>| self.files[src + q.skip(dst.len() as int)],
                ),
            ),
            ..self
        }
    }

    /// Whether a path names an existing file or directory.
    pub open spec fn path_exists(self, p: Seq<char>) -> bool {
        self.files.dom().contains(p) || self.dirs.contains(p)
    }

    /// The directory a shortcut location stands for.
    pub open spec fn shortcut_folder(self, location: ShortcutLocation) -> Seq<char> {
        match location {
            ShortcutLocation::Desktop => self.desktop_dir,
            ShortcutLocation::StartMenuPrograms => self.start_menu_dir,
        }
    }

    /// The path of a named shortcut at a location.
    pub open spec fn shortcut_path(self, location: ShortcutLocation, name: Seq<char>) -> Seq<
        char,
    > {
        join_seq(self.shortcut_folder(location), name + ".lnk"@)
    }
}

/// The collaborator interface the engine is verified against.
///
/// Implementations hand the engine an idealized host; the in-memory host in
/// this crate is one such implementation, verified against the same
/// contracts, and adapters around the live system are expected to honour
/// them (a removal of an absent resource reports success, as its effect is
/// already in place).
pub trait Host: Sized {
    /// The mathematical view of the host.
    spec fn m(&self) -> HostModel;

    /// Whether a file or directory exists at `path`.
    fn path_exists(&self, path: &String) -> (r: bool)
        ensures
            r == self.m().path_exists(path@),
    ;

    /// Whether a directory exists at `path`.
    fn dir_exists(&self, path: &String) -> (r: bool)
        ensures
            r == self.m().dirs.contains(path@),
    ;

    /// Creates the directory at `path`.
    fn ensure_dir(&mut self, path: &String)
        ensures
            final(self).m() == old(self).m().with_dir(path@),
    ;

    /// Reads the text file at `path`, if it exists.
    fn read_file(&self, path: &String) -> (r: Option<String>)
        ensures
            match r {
                Some(content) => self.m().files.dom().contains(path@) && content@ == self.m().files[
                    path@
                ],
                None => !self.m().files.dom().contains(path@),
            },
    ;

    /// Writes the text file at `path`.
    fn write_file(&mut self, path: &String, content: &String)
        ensures
            final(self).m() == old(self).m().with_file(path@, content@),
    ;

    /// All files strictly below the directory `dir`, as full paths, each
    /// exactly once, in no promised order.
    fn list_files_under(&self, dir: &String) -> (r: Vec<String>)
        ensures
            seq_views(r@).no_duplicates(),
            forall|i: int|
                0 <= i < r@.len() ==> crate::paths::under(dir@, #[trigger] r@[i]@)
                    && self.m().files.dom().contains(r@[i]@),
            forall|q: Seq<char>|
                self.m().files.dom().contains(q) && crate::paths::under(dir@, q)
                    ==> seq_views(r@).contains(q),
    ;

    /// Reads the registry value at the given location as the declared type.
    /// Yields nothing when the value is absent or has another type.
    fn read_registry(
        &self,
        hive: RegistryHive,
        key: &String,
        name: &String,
        kind: RegistryValueKind,
    ) -> (r: Option<RegValue>)
        ensures
            ({
                let loc = RegLocV { hive, key: key@, name: name@ };
                match r {
                    Some(v) => self.m().registry.dom().contains(loc) && v@ == self.m().registry[loc]
                        && kind_matches(v@, kind),
                    None => !(self.m().registry.dom().contains(loc) && kind_matches(
                        self.m().registry[loc],
                        kind,
                    )),
                }
            }),
    ;

    /// Runs a program to completion and captures its outcome. Yields
    /// nothing when the program cannot be spawned.
    fn run_process(&mut self, exe: &String, args: &Vec<String>) -> (r: Option<ProcessOutput>)
        ensures
            match r {
                Some(out) => old(self).m().programs.dom().contains(exe@) && out@ == old(
                    self,
                ).m().programs[exe@] && final(self).m() == old(self).m().with_run(exe@, seq_views(args@)),
                None => !old(self).m().programs.dom().contains(exe@) && final(self).m() == old(self).m(),
            },
    ;

    /// Creates a shortcut and yields the path of the shortcut file.
    fn create_shortcut(
        &mut self,
        location: ShortcutLocation,
        name: &String,
        target_exe: &String,
        args: &Vec<String>,
        working_dir: Option<&String>,
        icon: Option<&String>,
    ) -> (r: String)
        ensures
            r@ == old(self).m().shortcut_path(location, name@),
            final(self).m() == old(self).m().with_shortcut(r@),
    ;

    /// Removes the named shortcut at a location; yields whether it existed.
    fn remove_shortcut_by_name(&mut self, location: ShortcutLocation, name: &String) -> (r: bool)
        ensures
            r == old(self).m().shortcuts.contains(old(self).m().shortcut_path(location, name@)),
            final(self).m() == old(self).m().without_shortcut(
                old(self).m().shortcut_path(location, name@),
            ),
    ;

    /// Removes the shortcut file at `path`.
    fn remove_shortcut_path(&mut self, path: &String)
        ensures
            final(self).m() == old(self).m().without_shortcut(path@),
    ;

    /// Installs or updates the named service.
    fn install_service(
        &mut self,
        name: &String,
        display_name: &String,
        description: &String,
        exe: &String,
        args: &Vec<String>,
    )
        ensures
            final(self).m() == old(self).m().with_service(name@),
    ;

    /// Removes the named service.
    fn remove_service(&mut self, name: &String)
        ensures
            final(self).m() == old(self).m().without_service(name@),
    ;

    /// Adds a firewall rule.
    fn add_firewall_rule(&mut self, rule: &FirewallRule)
        ensures
            final(self).m() == old(self).m().with_firewall(rule.name@),
    ;

    /// Removes the named firewall rule.
    fn remove_firewall_rule(&mut self, name: &String)
        ensures
            final(self).m() == old(self).m().without_firewall(name@),
    ;

    /// Writes the named autorun entry.
    fn set_autorun(&mut self, name: &String, command: &String)
        ensures
            final(self).m() == old(self).m().with_autorun(name@, command@),
    ;

    /// Removes the named autorun entry.
    fn remove_autorun(&mut self, name: &String)
        ensures
            final(self).m() == old(self).m().without_autorun(name@),
    ;

    /// Writes the state document at `path`.
    fn write_state_doc(&mut self, path: &String, state: &InstallState)
        ensures
            final(self).m() == old(self).m().with_state_doc(path@, state@),
    ;

    /// Reads the state document at `path`, if present.
    fn read_state_doc(&self, path: &String) -> (r: Option<InstallState>)
        ensures
            match r {
                Some(st) => self.m().state_docs.dom().contains(path@) && st@
                    == self.m().state_docs[path@],
                None => !self.m().state_docs.dom().contains(path@),
            },
    ;

    /// Writes a plugin registration artifact at `path`.
    fn write_plugin_doc(&mut self, path: &String, doc: &PluginDoc)
        ensures
            final(self).m() == old(self).m().with_plugin_doc(path@, doc@),
    ;

    /// All plugin artifacts strictly below the directory `dir`, as full
    /// paths, each exactly once, in no promised order.
    fn list_plugin_docs(&self, dir: &String) -> (r: Vec<String>)
        ensures
            seq_views(r@).no_duplicates(),
            forall|i: int|
                0 <= i < r@.len() ==> crate::paths::under(dir@, #[trigger] r@[i]@)
                    && self.m().plugin_docs.dom().contains(r@[i]@),
            forall|q: Seq<char>|
                self.m().plugin_docs.dom().contains(q) && crate::paths::under(dir@, q)
                    ==> seq_views(r@).contains(q),
    ;

    /// Removes the plugin artifact at `path`.
    fn remove_plugin_doc(&mut self, path: &String)
        ensures
            final(self).m() == old(self).m().without_plugin_doc(path@),
    ;

    /// Removes the directory at `path` together with everything below it.
    fn remove_dir_all(&mut self, path: &String)
        ensures
            final(self).m() == old(self).m().without_tree(path@),
    ;

    /// The desktop directory.
    fn desktop_dir(&self) -> (r: String)
        ensures
            r@ == self.m().desktop_dir,
    ;

    /// The start-menu programs directory.
    fn start_menu_dir(&self) -> (r: String)
        ensures
            r@ == self.m().start_menu_dir,
    ;
}

/// An equal copy of a registry value.
pub fn dup_reg_value(v: &RegValue) -> (r: RegValue)
    ensures
        r == *v,
{
    match v {
        RegValue::Dword(d) => RegValue::Dword(*d),
        RegValue::Sz(s) => RegValue::Sz(s.clone()),
    }
}

impl DupView for RegValue {
    fn dup(&self) -> (r: RegValue) {
        dup_reg_value(self)
    }
}

/// An equal copy of a process outcome.
pub fn dup_output(v: &ProcessOutput) -> (r: ProcessOutput)
    ensures
        r == *v,
{
    ProcessOutput {
        exit_code: v.exit_code,
        stdout: v.stdout.clone(),
        stderr: v.stderr.clone(),
    }
}

impl DupView for ProcessOutput {
    fn dup(&self) -> (r: ProcessOutput) {
        dup_output(self)
    }
}

/// An equal copy of a plugin artifact.
pub fn dup_plugin_doc(d: &PluginDoc) -> (r: PluginDoc)
    ensures
        r@ == d@,
{
    PluginDoc { module_id: d.module_id.clone(), plugin: dup_registration(&d.plugin) }
}

impl DupView for PluginDoc {
    fn dup(&self) -> (r: PluginDoc) {
        dup_plugin_doc(self)
    }
}

} // verus!
