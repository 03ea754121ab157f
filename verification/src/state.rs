//! Typed model of the persisted install state.
//!
//! The state records what a successful install run changed on the host —
//! installed modules, created shortcuts, firewall rule names, the service
//! name and the autorun entry name — so that uninstall can replay the
//! mutations in reverse.

use vstd::prelude::*;

use crate::listmap::{dup_opt_string, dup_string_vec, DupView};

verus! {

/// Mathematical view of an installed-module record.
pub struct InstalledModuleV {
    /// Module id.
    pub id: Seq<char>,
    /// Display name.
    pub display_name: Seq<char>,
    /// Module kind label.
    pub kind: Seq<char>,
    /// Whether the module counts as installed.
    pub installed: bool,
    /// Install root recorded for the module; absent for skipped modules.
    pub install_root: Option<Seq<char>>,
    /// Free-form uninstall hint.
    pub uninstall_hint: Option<Seq<char>>,
}

/// Mathematical view of a created-shortcut record.
pub struct CreatedShortcutV {
    /// Where the shortcut was created.
    pub location: Seq<char>,
    /// Full path of the shortcut file.
    pub path: Seq<char>,
}

/// Mathematical view of the install state.
#[verifier::ext_equal]
pub struct InstallStateV {
    /// Random identifier of this state document.
    pub state_id: Seq<char>,
    /// Product identity, copied from the manifest.
    pub product_code: Seq<char>,
    /// Product version, copied from the manifest.
    pub version: Seq<char>,
    /// Installation time as Unix seconds.
    pub installed_at_unix: i64,
    /// Installed-module records, in manifest order.
    pub modules: Seq<InstalledModuleV>,
    /// Shortcuts created by the run.
    pub created_shortcuts: Seq<CreatedShortcutV>,
    /// Firewall rule names created by the run.
    pub firewall_rules: Seq<Seq<char>>,
    /// Service name installed by the run, if any.
    pub service_name: Option<Seq<char>>,
    /// Autorun entry name written by the run, if any.
    pub autorun_name: Option<Seq<char>>,
}

/// One installed-module record.
pub struct InstalledModule {
    /// Module id.
    pub id: String,
    /// Display name.
    pub display_name: String,
    /// Module kind label.
    pub kind: String,
    /// Whether the module counts as installed.
    pub installed: bool,
    /// Install root recorded for the module; absent for skipped modules.
    pub install_root: Option<String>,
    /// Free-form uninstall hint.
    pub uninstall_hint: Option<String>,
}

impl View for InstalledModule {
    type V = InstalledModuleV;

    open spec fn view(&self) -> InstalledModuleV {
        InstalledModuleV {
            id: self.id@,
            display_name: self.display_name@,
            kind: self.kind@,
            installed: self.installed,
            install_root: match self.install_root {
                Some(p) => Some(p@),
                None => None,
            },
            uninstall_hint: match self.uninstall_hint {
                Some(p) => Some(p@),
                None => None,
            },
        }
    }
}

/// One created-shortcut record.
pub struct CreatedShortcut {
    /// Where the shortcut was created.
    pub location: String,
    /// Full path of the shortcut file.
    pub path: String,
}

impl View for CreatedShortcut {
    type V = CreatedShortcutV;

    open spec fn view(&self) -> CreatedShortcutV {
        CreatedShortcutV { location: self.location@, path: self.path@ }
    }
}

/// The view sequences of a string vector.
pub open spec fn seq_views(s: Seq<String>) -> Seq<Seq<char>> {
    s.map_values(|x: String| x@)
}

/// The views of a sequence of installed-module records.
pub open spec fn module_views(s: Seq<InstalledModule>) -> Seq<InstalledModuleV> {
    s.map_values(|m: InstalledModule| m@)
}

/// The views of a sequence of created-shortcut records.
pub open spec fn shortcut_views(s: Seq<CreatedShortcut>) -> Seq<CreatedShortcutV> {
    s.map_values(|c: CreatedShortcut| c@)
}

/// The persisted install state.
pub struct InstallState {
    /// Random identifier of this state document.
    pub state_id: String,
    /// Product identity, copied from the manifest.
    pub product_code: String,
    /// Product version, copied from the manifest.
    pub version: String,
    /// Installation time as Unix seconds.
    pub installed_at_unix: i64,
    /// Installed-module records, in manifest order.
    pub modules: Vec<InstalledModule>,
    /// Shortcuts created by the run.
    pub created_shortcuts: Vec<CreatedShortcut>,
    /// Firewall rule names created by the run.
    pub firewall_rules: Vec<String>,
    /// Service name installed by the run, if any.
    pub service_name: Option<String>,
    /// Autorun entry name written by the run, if any.
    pub autorun_name: Option<String>,
}

impl View for InstallState {
    type V = InstallStateV;

    open spec fn view(&self) -> InstallStateV {
        InstallStateV {
            state_id: self.state_id@,
            product_code: self.product_code@,
            version: self.version@,
            installed_at_unix: self.installed_at_unix,
            modules: module_views(self.modules@),
            created_shortcuts: shortcut_views(self.created_shortcuts@),
            firewall_rules: seq_views(self.firewall_rules@),
            service_name: match self.service_name {
                Some(n) => Some(n@),
                None => None,
            },
            autorun_name: match self.autorun_name {
                Some(n) => Some(n@),
                None => None,
            },
        }
    }
}

/// Relies on uuid::Uuid::new_v4 and its Display form: a fresh random
/// identifier rendered as the 36-character hyphenated text. Nothing is
/// assumed of the value beyond its length.
#[verifier::external_body]
fn fresh_state_id() -> (r: String)
    ensures
        r@.len() == 36,
{
    uuid::Uuid::new_v4().to_string()
}

/// Relies on time::OffsetDateTime::now_utc and unix_timestamp: the current
/// wall-clock time in Unix seconds. Nothing is assumed of the value.
#[verifier::external_body]
fn now_unix() -> i64 {
    time::OffsetDateTime::now_utc().unix_timestamp()
}

impl InstallState {
    /// A fresh, empty install state for the given product: a random state
    /// id, the current time, and no recorded mutations.
    pub fn new(product_code: String, version: String) -> (r: InstallState)
        ensures
            r@.product_code == product_code@,
            r@.version == version@,
            r@.modules == Seq::<InstalledModuleV>::empty(),
            r@.created_shortcuts == Seq::<CreatedShortcutV>::empty(),
            r@.firewall_rules == Seq::<Seq<char>>::empty(),
            r@.service_name is None,
            r@.autorun_name is None,
            r@.state_id.len() == 36,
    {
        let r = InstallState {
            state_id: fresh_state_id(),
            product_code,
            version,
            installed_at_unix: now_unix(),
            modules: Vec::new(),
            created_shortcuts: Vec::new(),
            firewall_rules: Vec::new(),
            service_name: None,
            autorun_name: None,
        };
        proof {
            assert(r@.modules =~= Seq::<InstalledModuleV>::empty());
            assert(r@.created_shortcuts =~= Seq::<CreatedShortcutV>::empty());
            assert(r@.firewall_rules =~= Seq::<Seq<char>>::empty());
        }
        r
    }
}

/// An equal copy of an installed-module record.
pub fn dup_module(m: &InstalledModule) -> (r: InstalledModule)
    ensures
        r == *m,
{
    InstalledModule {
        id: m.id.clone(),
        display_name: m.display_name.clone(),
        kind: m.kind.clone(),
        installed: m.installed,
        install_root: dup_opt_string(&m.install_root),
        uninstall_hint: dup_opt_string(&m.uninstall_hint),
    }
}

impl DupView for InstalledModule {
    fn dup(&self) -> (r: InstalledModule) {
        dup_module(self)
    }
}

/// An equal copy of a created-shortcut record.
pub fn dup_created_shortcut(c: &CreatedShortcut) -> (r: CreatedShortcut)
    ensures
        r == *c,
{
    CreatedShortcut { location: c.location.clone(), path: c.path.clone() }
}

impl DupView for CreatedShortcut {
    fn dup(&self) -> (r: CreatedShortcut) {
        dup_created_shortcut(self)
    }
}

/// An equal copy of an installed-module vector.
pub fn dup_modules(v: &Vec<InstalledModule>) -> (r: Vec<InstalledModule>)
    ensures
        r@ == v@,
{
    let mut out: Vec<InstalledModule> = Vec::new();
    let mut i: usize = 0;
    while i < v.len()
        invariant
            0 <= i <= v.len(),
            out@ == v@.take(i as int),
        decreases v.len() - i,
    {
        out.push(dup_module(&v[i]));
        proof {
            assert(out@ =~= v@.take(i + 1));
        }
        i = i + 1;
    }
    proof {
        assert(v@.take(v@.len() as int) =~= v@);
    }
    out
}

/// An equal copy of a created-shortcut vector.
pub fn dup_shortcuts(v: &Vec<CreatedShortcut>) -> (r: Vec<CreatedShortcut>)
    ensures
        r@ == v@,
{
    let mut out: Vec<CreatedShortcut> = Vec::new();
    let mut i: usize = 0;
    while i < v.len()
        invariant
            0 <= i <= v.len(),
            out@ == v@.take(i as int),
        decreases v.len() - i,
    {
        out.push(dup_created_shortcut(&v[i]));
        proof {
            assert(out@ =~= v@.take(i + 1));
        }
        i = i + 1;
    }
    proof {
        assert(v@.take(v@.len() as int) =~= v@);
    }
    out
}

/// An equal copy of an install state.
pub fn dup_state(st: &InstallState) -> (r: InstallState)
    ensures
        r@ == st@,
{
    InstallState {
        state_id: st.state_id.clone(),
        product_code: st.product_code.clone(),
        version: st.version.clone(),
        installed_at_unix: st.installed_at_unix,
        modules: dup_modules(&st.modules),
        created_shortcuts: dup_shortcuts(&st.created_shortcuts),
        firewall_rules: dup_string_vec(&st.firewall_rules),
        service_name: dup_opt_string(&st.service_name),
        autorun_name: dup_opt_string(&st.autorun_name),
    }
}

impl DupView for InstallState {
    fn dup(&self) -> (r: InstallState) {
        dup_state(self)
    }
}

} // verus!
