//! Fabric's game versions and jars.
use vstd::prelude::*;
use vstd::string::*;

use crate::minecraft::fabric::{fabric_jar_url, spec_fabric_jar_url};

verus! {

broadcast use vstd::seq_lib::group_seq_properties;

/// A game version Fabric supports.
#[derive(Debug)]
pub struct ServerVersion {
    pub version: String,
    pub stable: bool,
}

#[derive(Debug)]
pub struct LoaderInstance {
    pub version: String,
}

/// An entry of Fabric's loader list.
#[derive(Debug)]
pub struct LoaderVersion {
    pub loader: LoaderInstance,
}

/// An entry of Fabric's installer list.
#[derive(Debug)]
pub struct InstallerVersion {
    pub url: String,
    pub maven: String,
    pub version: String,
    pub stable: bool,
}

/// The versions offered: the stable ones only when asked, else all, in
/// order.
pub open spec fn spec_versions(v: Seq<ServerVersion>, stable_only: bool, n: int) -> Seq<Seq<char>>
    decreases n,
{
    if n <= 0 {
        Seq::empty()
    } else if v[n - 1].stable || !stable_only {
        spec_versions(v, stable_only, n - 1).push(v[n - 1].version@)
    } else {
        spec_versions(v, stable_only, n - 1)
    }
}

/// The game versions offered (the stable ones only when `stable` is set).
pub fn fabric_versions(versions: &Vec<ServerVersion>, stable: Option<bool>) -> (r: Vec<String>)
    ensures
        r.deep_view() == spec_versions(
            versions@,
            match stable {
                Some(s) => s,
                None => false,
            },
            versions@.len() as int,
        ),
{
    let stable_only = match stable {
        Some(s) => s,
        None => false,
    };
    let mut r: Vec<String> = Vec::new();
    let mut i: usize = 0;
    while i < versions.len()
        invariant
            i <= versions.len(),
            r.deep_view() == spec_versions(versions@, stable_only, i as int),
        decreases versions.len() - i,
    {
        if versions[i].stable || !stable_only {
            let ghost before = r.deep_view();
            r.push(versions[i].version.clone());
            assert(r.deep_view() =~= before.push(versions@[i as int].version@));
        }
        i = i + 1;
    }
    r
}

/// The loader, the installer and the jar address for a game version: the
/// first loader and the first installer of Fabric's lists.
pub fn fabric_jar(requested_version: &str, loaders: &Vec<LoaderVersion>, installers: &Vec<InstallerVersion>) -> (r: (
    String,
    String,
    String,
))
    requires
        loaders@.len() > 0,
        installers@.len() > 0,
    ensures
        r.0@ == loaders@[0].loader.version@,
        r.1@ == installers@[0].version@,
        r.2@ == spec_fabric_jar_url(requested_version@, r.0@, r.1@),
{
    let loader = loaders[0].loader.version.clone();
    let installer = installers[0].version.clone();
    let url = fabric_jar_url(requested_version, loader.as_str(), installer.as_str());
    (loader, installer, url)
}

} // verus!
