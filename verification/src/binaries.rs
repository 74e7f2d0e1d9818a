//! The helper programs the core downloads for itself: 7-Zip, built for the
//! operating system and architecture it runs on.
use vstd::prelude::*;
use vstd::string::*;

use crate::minecraft::fabric::spec_adoptium_arch;
use crate::text::{push_str, str_eq};

verus! {

/// The architecture name the helper builds use: `x64` for `x86_64`, else
/// the name itself.
fn build_arch(arch: &str) -> (a: &str)
    ensures
        a@ == spec_adoptium_arch(arch@),
{
    if str_eq(arch, "x86_64") {
        "x64"
    } else {
        arch
    }
}

/// The file name of the 7-Zip build for an operating system and an
/// architecture (as Rust names them): `7z_<os>_<arch>`.
pub fn seven_zip_name(os: &str, arch: &str) -> (s: String)
    ensures
        s@ == "7z_"@ + os@ + "_"@ + spec_adoptium_arch(arch@),
{
    let mut s = String::from_str("7z_");
    push_str(&mut s, os);
    push_str(&mut s, "_");
    push_str(&mut s, build_arch(arch));
    s
}

/// Where the 7-Zip build for an operating system and an architecture is
/// downloaded from.
pub fn seven_zip_url(os: &str, arch: &str) -> (s: String)
    ensures
        s@ == "https://github.com/Lodestone-Team/dependencies/raw/main/"@ + "7z_"@ + os@ + "_"@
            + spec_adoptium_arch(arch@),
{
    let mut s = String::from_str("https://github.com/Lodestone-Team/dependencies/raw/main/");
    let name = seven_zip_name(os, arch);
    push_str(&mut s, name.as_str());
    s
}

/// Whether a downloaded helper must be made executable: everywhere but on
/// Windows.
pub fn needs_exec_bit(os: &str) -> (b: bool)
    ensures
        b == (os@ != "windows"@),
{
    !str_eq(os, "windows")
}

} // verus!
