//! An instance as first configured: what it runs, where from, and with how
//! much memory.
use vstd::prelude::*;
use vstd::string::*;

use crate::text::{push_str, spec_decimal, to_decimal};

verus! {

#[derive(Debug)]
pub struct InstanceConfig {
    pub name: String,
    pub version: String,
    pub flavour: String,
    /// Where `server.jar` is downloaded from at setup.
    pub url: Option<String>,
    pub port: Option<u32>,
    pub uuid: Option<String>,
    pub min_ram: Option<u32>,
    pub max_ram: Option<u32>,
}

/// Whether a server is starting, running, stopping or stopped.
#[derive(Debug, Clone, Copy, PartialEq, Eq, Structural)]
pub enum Status {
    Starting,
    Stopping,
    Running,
    Stopped,
}

/// The arguments a server of this configuration is started with:
/// `-jar server.jar nogui`, then `-Xms<min>M` and `-Xmx<max>M` for the
/// memory bounds that are set.
pub fn jvm_args(config: &InstanceConfig) -> (r: Vec<String>)
    ensures
        r.deep_view() == seq!["-jar"@, "server.jar"@, "nogui"@] + match config.min_ram {
            Some(m) => seq!["-Xms"@ + spec_decimal(m as nat) + "M"@],
            None => Seq::empty(),
        } + match config.max_ram {
            Some(m) => seq!["-Xmx"@ + spec_decimal(m as nat) + "M"@],
            None => Seq::empty(),
        },
{
    let mut r: Vec<String> = Vec::new();
    r.push(String::from_str("-jar"));
    r.push(String::from_str("server.jar"));
    r.push(String::from_str("nogui"));
    let ghost a = r.deep_view();
    assert(a =~= seq!["-jar"@, "server.jar"@, "nogui"@]);
    match config.min_ram {
        Some(m) => {
            let mut s = String::from_str("-Xms");
            push_str(&mut s, to_decimal(m as u64).as_str());
            push_str(&mut s, "M");
            r.push(s);
        },
        None => {},
    }
    let ghost b = r.deep_view();
    match config.max_ram {
        Some(m) => {
            let mut s = String::from_str("-Xmx");
            push_str(&mut s, to_decimal(m as u64).as_str());
            push_str(&mut s, "M");
            r.push(s);
        },
        None => {},
    }
    assert(r.deep_view() =~= seq!["-jar"@, "server.jar"@, "nogui"@] + match config.min_ram {
        Some(m) => seq!["-Xms"@ + spec_decimal(m as nat) + "M"@],
        None => Seq::empty(),
    } + match config.max_ram {
        Some(m) => seq!["-Xmx"@ + spec_decimal(m as nat) + "M"@],
        None => Seq::empty(),
    });
    r
}

} // verus!
