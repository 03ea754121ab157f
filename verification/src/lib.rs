//! Manifest-driven install/uninstall orchestration engine.
//!
//! The crate models a host system (files, directories, registry values,
//! shortcuts, services, firewall rules, autorun entries, external process
//! execution) behind the [`host::Host`] trait and verifies the whole
//! orchestration — detection, prerequisite handling, module installation,
//! post-install configuration, plugin registration, system integration and
//! rollback — against that model.

use vstd::prelude::*;

pub mod commands;
pub mod detect;
pub mod firewall;
pub mod host;
pub mod install;
pub mod laws;
pub mod listmap;
pub mod manifest;
pub mod memhost;
pub mod paths;
pub mod process;
pub mod state;
pub mod textsubst;
pub mod token;
pub mod uninstall;

verus! {

/// A human-readable name for a registry hive, as used in error messages.
pub fn hive_name(h: manifest::RegistryHive) -> (r: &'static str)
    ensures
        h is Hklm ==> r@ == "HKLM"@,
        h is Hkcu ==> r@ == "HKCU"@,
{
    match h {
        manifest::RegistryHive::Hklm => "HKLM",
        manifest::RegistryHive::Hkcu => "HKCU",
    }
}

} // verus!
