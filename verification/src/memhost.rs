//! An in-memory host.
//!
//! [`MemHost`] implements [`Host`] over plain vectors and is verified
//! against the same contracts the engine assumes. It doubles as the fake
//! host the tests drive deployments against: registry values and program
//! behaviours are planted up front, and every observable effect of a run
//! can be read back.

use vstd::prelude::*;

use crate::host::{Host, HostModel, PluginDoc, ProcessOutput, RegLocV, RegValue, RegValueV,
    ShortcutLocation};
use crate::listmap::{assoc_get, assoc_insert, assoc_keys_under, assoc_remove_key,
    assoc_remove_under, assoc_view, dup_string_vec, strset, strset_contains, strset_insert,
    strset_remove, strset_remove_under, DupView};
use crate::manifest::{FirewallRule, Healthcheck, PluginRegistration, RegistryHive,
    RegistryValueKind};
use crate::paths::join_path;
use crate::state::{CreatedShortcut, InstallState, InstalledModule, seq_views};

verus! {

/// A registry location as stored by the in-memory host.
pub struct RegKey {
    /// Root hive.
    pub hive: RegistryHive,
    /// Subkey path below the hive.
    pub key: String,
    /// Value name inside the key.
    pub name: String,
}

impl View for RegKey {
    type V = RegLocV;

    open spec fn view(&self) -> RegLocV {
        RegLocV { hive: self.hive, key: self.key@, name: self.name@ }
    }
}

/// The map a registry association list denotes.
pub open spec fn reg_view(s: Seq<(RegKey, RegValue)>) -> Map<RegLocV, RegValueV>
    decreases s.len(),
{
    if s.len() == 0 {
        Map::empty()
    } else {
        reg_view(s.drop_last()).insert(s.last().0@, s.last().1@)
    }
}

/// One more registry entry at the end denotes one map insertion.
proof fn lemma_reg_take_succ(s: Seq<(RegKey, RegValue)>, i: int)
    requires
        0 <= i < s.len(),
    ensures
        reg_view(s.take(i + 1)) == reg_view(s.take(i)).insert(s[i].0@, s[i].1@),
{
    assert(s.take(i + 1).drop_last() =~= s.take(i));
    assert(s.take(i + 1).last() == s[i]);
}

/// Looks a registry location up in a map, as an optional value.
pub open spec fn reg_opt_get(m: Map<RegLocV, RegValueV>, k: RegLocV) -> Option<RegValueV> {
    if m.dom().contains(k) {
        Some(m[k])
    } else {
        None
    }
}

/// The sequence of run records a log vector denotes.
pub open spec fn runs_view(s: Seq<(String, Vec<String>)>) -> Seq<crate::host::RunV> {
    s.map_values(|p: (String, Vec<String>)| crate::host::RunV { exe: p.0@, args: seq_views(p.1@) })
}

/// The in-memory host.
pub struct MemHost {
    dirs: Vec<String>,
    files: Vec<(String, String)>,
    registry: Vec<(RegKey, RegValue)>,
    programs: Vec<(String, ProcessOutput)>,
    runs: Vec<(String, Vec<String>)>,
    shortcuts: Vec<String>,
    services: Vec<String>,
    firewall: Vec<String>,
    autorun: Vec<(String, String)>,
    state_docs: Vec<(String, InstallState)>,
    plugin_docs: Vec<(String, PluginDoc)>,
    desktop: String,
    start_menu: String,
}

impl MemHost {
    /// An empty host with the given desktop and start-menu directories.
    pub fn new(desktop: String, start_menu: String) -> (r: MemHost)
        ensures
            r.m().dirs == Set::<Seq<char>>::empty(),
            r.m().files == Map::<Seq<char>, Seq<char>>::empty(),
            r.m().registry == Map::<RegLocV, RegValueV>::empty(),
            r.m().programs == Map::<Seq<char>, crate::host::ProcessOutputV>::empty(),
            r.m().runs == Seq::<crate::host::RunV>::empty(),
            r.m().shortcuts == Set::<Seq<char>>::empty(),
            r.m().services == Set::<Seq<char>>::empty(),
            r.m().firewall == Set::<Seq<char>>::empty(),
            r.m().autorun == Map::<Seq<char>, Seq<char>>::empty(),
            r.m().state_docs == Map::<Seq<char>, crate::state::InstallStateV>::empty(),
            r.m().plugin_docs == Map::<Seq<char>, crate::host::PluginDocV>::empty(),
            r.m().desktop_dir == desktop@,
            r.m().start_menu_dir == start_menu@,
    {
        let r = MemHost {
            dirs: Vec::new(),
            files: Vec::new(),
            registry: Vec::new(),
            programs: Vec::new(),
            runs: Vec::new(),
            shortcuts: Vec::new(),
            services: Vec::new(),
            firewall: Vec::new(),
            autorun: Vec::new(),
            state_docs: Vec::new(),
            plugin_docs: Vec::new(),
            desktop,
            start_menu,
        };
        proof {
            assert(r.m().dirs =~= Set::<Seq<char>>::empty());
            assert(r.m().shortcuts =~= Set::<Seq<char>>::empty());
            assert(r.m().services =~= Set::<Seq<char>>::empty());
            assert(r.m().firewall =~= Set::<Seq<char>>::empty());
            assert(r.m().runs =~= Seq::<crate::host::RunV>::empty());
        }
        r
    }

    /// Plants a registry value for detection to find.
    pub fn set_registry_value(
        &mut self,
        hive: RegistryHive,
        key: &String,
        name: &String,
        value: RegValue,
    )
        ensures
            final (self).m() == old(self).m().with_registry(
                RegLocV { hive, key: key@, name: name@ },
                value@,
            ),
    {
        let ghost v0 = value@;
        let ghost before = self.registry@;
        self.registry.push(
            (RegKey { hive, key: key.clone(), name: name.clone() }, value),
        );
        proof {
            assert(self.registry@.drop_last() =~= before);
            assert(self.registry@.last().0@ == RegLocV { hive, key: key@, name: name@ });
            assert(self.registry@.last().1@ == v0);
            assert(final (self).m() =~= old(self).m().with_registry(
                RegLocV { hive, key: key@, name: name@ },
                v0,
            ));
        }
    }

    /// Plants the behaviour of a spawnable program.
    pub fn add_program(&mut self, path: &String, output: ProcessOutput)
        ensures
            final (self).m() == old(self).m().with_program(path@, output@),
    {
        let ghost o0 = output@;
        assoc_insert(&mut self.programs, path.clone(), output);
        proof {
            assert(final (self).m() =~= old(self).m().with_program(path@, o0));
        }
    }

    /// How many programs have run.
    pub fn run_count(&self) -> (r: usize)
        ensures
            r == self.m().runs.len(),
    {
        self.runs.len()
    }

    /// The executable path of the i-th program run.
    pub fn run_exe(&self, i: usize) -> (r: String)
        requires
            i < self.m().runs.len(),
        ensures
            r@ == self.m().runs[i as int].exe,
    {
        self.runs[i].0.clone()
    }

    /// Whether a shortcut file exists at the path.
    pub fn has_shortcut(&self, path: &String) -> (r: bool)
        ensures
            r == self.m().shortcuts.contains(path@),
    {
        strset_contains(&self.shortcuts, path)
    }

    /// Whether the named service is installed.
    pub fn has_service(&self, name: &String) -> (r: bool)
        ensures
            r == self.m().services.contains(name@),
    {
        strset_contains(&self.services, name)
    }

    /// Whether the named firewall rule exists.
    pub fn has_firewall_rule(&self, name: &String) -> (r: bool)
        ensures
            r == self.m().firewall.contains(name@),
    {
        strset_contains(&self.firewall, name)
    }

    /// The command of the named autorun entry, if present.
    pub fn autorun_command(&self, name: &String) -> (r: Option<String>)
        ensures
            match r {
                Some(c) => self.m().autorun.dom().contains(name@) && c@ == self.m().autorun[name@],
                None => !self.m().autorun.dom().contains(name@),
            },
    {
        match assoc_get(&self.autorun, name) {
            Some(c) => Some(c.clone()),
            None => None,
        }
    }

    /// The plugin artifact at the path, if present.
    pub fn plugin_doc_at(&self, path: &String) -> (r: Option<PluginDoc>)
        ensures
            match r {
                Some(d) => self.m().plugin_docs.dom().contains(path@) && d@
                    == self.m().plugin_docs[path@],
                None => !self.m().plugin_docs.dom().contains(path@),
            },
    {
        match assoc_get(&self.plugin_docs, path) {
            Some(d) => Some(d.dup()),
            None => None,
        }
    }
}

impl Host for MemHost {
    closed spec fn m(&self) -> HostModel {
        HostModel {
            dirs: strset(self.dirs@),
            files: assoc_view(self.files@),
            registry: reg_view(self.registry@),
            programs: assoc_view(self.programs@),
            runs: runs_view(self.runs@),
            shortcuts: strset(self.shortcuts@),
            services: strset(self.services@),
            firewall: strset(self.firewall@),
            autorun: assoc_view(self.autorun@),
            state_docs: assoc_view(self.state_docs@),
            plugin_docs: assoc_view(self.plugin_docs@),
            desktop_dir: self.desktop@,
            start_menu_dir: self.start_menu@,
        }
    }

    fn path_exists(&self, path: &String) -> (r: bool) {
        let in_files = assoc_get(&self.files, path).is_some();
        let in_dirs = strset_contains(&self.dirs, path);
        in_files || in_dirs
    }

    fn dir_exists(&self, path: &String) -> (r: bool) {
        strset_contains(&self.dirs, path)
    }

    fn ensure_dir(&mut self, path: &String) {
        strset_insert(&mut self.dirs, path.clone());
        proof {
            assert(final (self).m() =~= old(self).m().with_dir(path@));
        }
    }

    fn read_file(&self, path: &String) -> (r: Option<String>) {
        match assoc_get(&self.files, path) {
            Some(c) => Some(c.clone()),
            None => None,
        }
    }

    fn write_file(&mut self, path: &String, content: &String) {
        assoc_insert(&mut self.files, path.clone(), content.clone());
        proof {
            assert(final (self).m() =~= old(self).m().with_file(path@, content@));
        }
    }

    fn list_files_under(&self, dir: &String) -> (r: Vec<String>) {
        assoc_keys_under(&self.files, dir)
    }

    fn read_registry(
        &self,
        hive: RegistryHive,
        key: &String,
        name: &String,
        kind: RegistryValueKind,
    ) -> (r: Option<RegValue>) {
        let ghost loc = RegLocV { hive, key: key@, name: name@ };
        let ghost full = self.registry@;
        let mut i: usize = self.registry.len();
        assert(full.take(i as int) =~= full);
        let mut found: Option<&RegValue> = None;
        while i > 0 && found.is_none()
            invariant
                0 <= i <= self.registry.len(),
                self.registry@ == full,
                loc == (RegLocV { hive, key: key@, name: name@ }),
                match found {
                    Some(v) => reg_opt_get(reg_view(full), loc) == Some(v@),
                    None => reg_opt_get(reg_view(full), loc) == reg_opt_get(
                        reg_view(full.take(i as int)),
                        loc,
                    ),
                },
            decreases i,
        {
            i = i - 1;
            proof {
                lemma_reg_take_succ(full, i as int);
            }
            let e = &self.registry[i];
            if e.0.hive == hive && e.0.key == *key && e.0.name == *name {
                assert(full[i as int].0@ == loc);
                found = Some(&self.registry[i].1);
            }
        }
        proof {
            assert(full.take(0) =~= Seq::<(RegKey, RegValue)>::empty());
        }
        match found {
            Some(v) => {
                let matches = match (v, kind) {
                    (RegValue::Dword(_), RegistryValueKind::Dword) => true,
                    (RegValue::Sz(_), RegistryValueKind::Sz) => true,
                    _ => false,
                };
                if matches {
                    Some(v.dup())
                } else {
                    None
                }
            },
            None => None,
        }
    }

    fn run_process(&mut self, exe: &String, args: &Vec<String>) -> (r: Option<ProcessOutput>) {
        let out = match assoc_get(&self.programs, exe) {
            Some(o) => Some(o.dup()),
            None => None,
        };
        match out {
            Some(o) => {
                let ghost before = self.runs@;
                self.runs.push((exe.clone(), dup_string_vec(args)));
                proof {
                    assert(runs_view(self.runs@) =~= runs_view(before).push(
                        crate::host::RunV { exe: exe@, args: seq_views(args@) },
                    ));
                    assert(final (self).m() =~= old(self).m().with_run(exe@, seq_views(args@)));
                }
                Some(o)
            },
            None => None,
        }
    }

    fn create_shortcut(
        &mut self,
        location: ShortcutLocation,
        name: &String,
        target_exe: &String,
        args: &Vec<String>,
        working_dir: Option<&String>,
        icon: Option<&String>,
    ) -> (r: String) {
        let folder = match location {
            ShortcutLocation::Desktop => self.desktop.clone(),
            ShortcutLocation::StartMenuPrograms => self.start_menu.clone(),
        };
        let mut file_name = name.clone();
        file_name.append(".lnk");
        let path = join_path(&folder, &file_name);
        strset_insert(&mut self.shortcuts, path.clone());
        proof {
            assert(path@ == old(self).m().shortcut_path(location, name@));
            assert(final (self).m() =~= old(self).m().with_shortcut(path@));
        }
        path
    }

    fn remove_shortcut_by_name(&mut self, location: ShortcutLocation, name: &String) -> (r: bool) {
        let folder = match location {
            ShortcutLocation::Desktop => self.desktop.clone(),
            ShortcutLocation::StartMenuPrograms => self.start_menu.clone(),
        };
        let mut file_name = name.clone();
        file_name.append(".lnk");
        let path = join_path(&folder, &file_name);
        let existed = strset_contains(&self.shortcuts, &path);
        self.shortcuts = strset_remove(&self.shortcuts, &path);
        proof {
            assert(path@ == old(self).m().shortcut_path(location, name@));
            assert(final (self).m() =~= old(self).m().without_shortcut(path@));
        }
        existed
    }

    fn remove_shortcut_path(&mut self, path: &String) {
        self.shortcuts = strset_remove(&self.shortcuts, path);
        proof {
            assert(final (self).m() =~= old(self).m().without_shortcut(path@));
        }
    }

    fn install_service(
        &mut self,
        name: &String,
        display_name: &String,
        description: &String,
        exe: &String,
        args: &Vec<String>,
    ) {
        strset_insert(&mut self.services, name.clone());
        proof {
            assert(final (self).m() =~= old(self).m().with_service(name@));
        }
    }

    fn remove_service(&mut self, name: &String) {
        self.services = strset_remove(&self.services, name);
        proof {
            assert(final (self).m() =~= old(self).m().without_service(name@));
        }
    }

    fn add_firewall_rule(&mut self, rule: &FirewallRule) {
        strset_insert(&mut self.firewall, rule.name.clone());
        proof {
            assert(final (self).m() =~= old(self).m().with_firewall(rule.name@));
        }
    }

    fn remove_firewall_rule(&mut self, name: &String) {
        self.firewall = strset_remove(&self.firewall, name);
        proof {
            assert(final (self).m() =~= old(self).m().without_firewall(name@));
        }
    }

    fn set_autorun(&mut self, name: &String, command: &String) {
        assoc_insert(&mut self.autorun, name.clone(), command.clone());
        proof {
            assert(final (self).m() =~= old(self).m().with_autorun(name@, command@));
        }
    }

    fn remove_autorun(&mut self, name: &String) {
        self.autorun = assoc_remove_key(&self.autorun, name);
        proof {
            assert(final (self).m() =~= old(self).m().without_autorun(name@));
        }
    }

    fn write_state_doc(&mut self, path: &String, state: &InstallState) {
        assoc_insert(&mut self.state_docs, path.clone(), state.dup());
        proof {
            assert(final (self).m() =~= old(self).m().with_state_doc(path@, state@));
        }
    }

    fn read_state_doc(&self, path: &String) -> (r: Option<InstallState>) {
        match assoc_get(&self.state_docs, path) {
            Some(st) => Some(st.dup()),
            None => None,
        }
    }

    fn write_plugin_doc(&mut self, path: &String, doc: &PluginDoc) {
        assoc_insert(&mut self.plugin_docs, path.clone(), doc.dup());
        proof {
            assert(final (self).m() =~= old(self).m().with_plugin_doc(path@, doc@));
        }
    }

    fn list_plugin_docs(&self, dir: &String) -> (r: Vec<String>) {
        assoc_keys_under(&self.plugin_docs, dir)
    }

    fn remove_plugin_doc(&mut self, path: &String) {
        self.plugin_docs = assoc_remove_key(&self.plugin_docs, path);
        proof {
            assert(final (self).m() =~= old(self).m().without_plugin_doc(path@));
        }
    }

    fn remove_dir_all(&mut self, path: &String) {
        self.dirs = strset_remove_under(&self.dirs, path);
        self.files = assoc_remove_under(&self.files, path);
        self.shortcuts = strset_remove_under(&self.shortcuts, path);
        self.state_docs = assoc_remove_under(&self.state_docs, path);
        self.plugin_docs = assoc_remove_under(&self.plugin_docs, path);
        proof {
            assert(final (self).m().dirs =~= old(self).m().without_tree(path@).dirs);
            assert(final (self).m().files =~= old(self).m().without_tree(path@).files);
            assert(final (self).m().shortcuts =~= old(self).m().without_tree(path@).shortcuts);
            assert(final (self).m().state_docs =~= old(self).m().without_tree(path@).state_docs);
            assert(final (self).m().plugin_docs =~= old(self).m().without_tree(path@).plugin_docs);
            assert(final (self).m() =~= old(self).m().without_tree(path@));
        }
    }

    fn desktop_dir(&self) -> (r: String) {
        self.desktop.clone()
    }

    fn start_menu_dir(&self) -> (r: String) {
        self.start_menu.clone()
    }
}

} // verus!
