//! Identifiers shared across the crate.
use vstd::prelude::*;

verus! {

/// The identifier of an instance.
#[derive(Debug, PartialEq, Eq, Hash)]
pub struct InstanceUuid(pub String);

impl Clone for InstanceUuid {
    fn clone(&self) -> (r: Self)
        ensures
            r == *self,
    {
        InstanceUuid(self.0.clone())
    }
}

impl View for InstanceUuid {
    type V = Seq<char>;

    open spec fn view(&self) -> Seq<char> {
        self.0@
    }
}

impl InstanceUuid {
    pub fn new(s: String) -> (u: InstanceUuid)
        ensures
            u@ == s@,
    {
        InstanceUuid(s)
    }

    pub fn as_str(&self) -> (s: &str)
        ensures
            s@ == self@,
    {
        self.0.as_str()
    }

    /// Whether two identifiers are the same.
    pub fn same_as(&self, other: &InstanceUuid) -> (b: bool)
        ensures
            b == (self@ == other@),
    {
        self.0 == other.0
    }
}

/// A time-ordered event identifier: milliseconds since the Unix epoch.
#[derive(Debug, Clone, Copy, PartialEq, Eq, Structural)]
pub struct Snowflake(pub i64);

/// The current time in milliseconds since the Unix epoch (chrono's
/// `Utc::now().timestamp_millis()`). Nothing is promised of it: it is the
/// time.
#[verifier::external_body]
fn now_millis() -> (t: i64) {
    chrono::Utc::now().timestamp_millis()
}

impl Snowflake {
    /// A fresh identifier taken from the current time.
    pub fn default() -> (s: Snowflake) {
        Snowflake(now_millis())
    }
}

/// The identity file of an instance: its identifier, when it was created
/// (seconds since the Unix epoch), and the version of the layout it was
/// written in.
#[derive(Debug)]
pub struct DotLodestoneConfig {
    pub uuid: InstanceUuid,
    pub creation_time: i64,
    pub lodestone_version: String,
}

/// The identifier of a running macro.
#[derive(Debug, Clone, Copy, PartialEq, Eq, Structural, Hash)]
pub struct MacroPID(pub u64);

/// Whether the game type of an instance's identity file names a Minecraft
/// instance: `minecraft`, in any case of its ASCII letters.
pub fn is_minecraft_game_type(game_type: &str) -> (b: bool)
    ensures
        b == crate::text::spec_eq_ignore_case(game_type@, "minecraft"@),
{
    let c = crate::text::str_chars(game_type);
    crate::text::eq_ignore_case(c.as_slice(), "minecraft")
}

} // verus!
