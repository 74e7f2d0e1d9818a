//! The settings of the core as a whole: its name, whether it runs in safe
//! mode, and the domain it is reached at. Every change is written out by a
//! persistence step that the caller supplies, and undone when that fails.
use vstd::prelude::*;
use vstd::string::*;

use crate::error::Error;
use crate::text::push_str;

verus! {

/// The name of the user running the core (whoami's `realname`, falling back
/// to the user name, then to a fixed default). Nothing is promised of it: it
/// depends on the machine.
#[verifier::external_body]
fn real_name() -> (s: String) {
    whoami::realname()
}

#[derive(Debug)]
pub struct GlobalSettingsData {
    pub core_name: String,
    pub safe_mode: bool,
    pub domain: Option<String>,
}

impl GlobalSettingsData {
    /// The settings of a new core: named after its user (`<name>'s Lodestone
    /// Core`), in safe mode, with no domain.
    pub fn default() -> (d: GlobalSettingsData)
        ensures
            exists|n: Seq<char>| d.core_name@ == n + "'s Lodestone Core"@,
            d.safe_mode,
            d.domain is None,
    {
        let mut core_name = real_name();
        push_str(&mut core_name, "'s Lodestone Core");
        GlobalSettingsData { core_name, safe_mode: true, domain: None }
    }
}

/// The settings, with the changes made through the setters.
pub struct GlobalSettings {
    data: GlobalSettingsData,
}

/// Whether a persistence step can be asked to write any settings.
pub open spec fn spec_settings_persist_ready<F: Fn(&GlobalSettingsData) -> Result<(), Error>>(
    persist: &F,
) -> bool {
    forall|d: &GlobalSettingsData| persist.requires((d,))
}

/// Whether `r` is what a persistence step may give when asked to write the
/// settings `d`.
pub open spec fn spec_persisted<F: Fn(&GlobalSettingsData) -> Result<(), Error>>(
    persist: &F,
    d: GlobalSettingsData,
    r: Result<(), Error>,
) -> bool {
    call_ensures(*persist, (&d,), r)
}

impl GlobalSettings {
    pub fn new(data: GlobalSettingsData) -> (s: GlobalSettings)
        ensures
            s.spec_data() == data,
    {
        GlobalSettings { data }
    }

    pub closed spec fn spec_data(&self) -> GlobalSettingsData {
        self.data
    }

    /// The settings as they stand.
    pub fn data(&self) -> (d: &GlobalSettingsData)
        ensures
            *d == self.spec_data(),
    {
        &self.data
    }

    /// Replaces all the settings (as read from disk).
    pub fn replace(&mut self, data: GlobalSettingsData)
        ensures
            final(self).spec_data() == data,
    {
        self.data = data;
    }

    /// Sets the core's name and writes the settings; when writing fails the
    /// old name is put back and the step's error is given.
    pub fn set_core_name<F: Fn(&GlobalSettingsData) -> Result<(), Error>>(
        &mut self,
        name: String,
        persist: &F,
    ) -> (r: Result<(), Error>)
        requires
            spec_settings_persist_ready(persist),
        ensures
            spec_persisted(
                persist,
                GlobalSettingsData { core_name: name, ..old(self).spec_data() },
                r,
            ),
            r is Ok ==> final(self).spec_data() == (GlobalSettingsData {
                core_name: name,
                ..old(self).spec_data()
            }),
            r is Err ==> final(self).spec_data() == old(self).spec_data(),
    {
        let mut old_name = name;
        std::mem::swap(&mut old_name, &mut self.data.core_name);
        match persist(&self.data) {
            Ok(done) => Ok(done),
            Err(e) => {
                self.data.core_name = old_name;
                Err(e)
            },
        }
    }

    /// The core's name.
    pub fn core_name(&self) -> (n: String)
        ensures
            n == self.spec_data().core_name,
    {
        self.data.core_name.clone()
    }

    /// Sets safe mode and writes the settings; when writing fails the old
    /// value is put back and the step's error is given.
    pub fn set_safe_mode<F: Fn(&GlobalSettingsData) -> Result<(), Error>>(
        &mut self,
        safe_mode: bool,
        persist: &F,
    ) -> (r: Result<(), Error>)
        requires
            spec_settings_persist_ready(persist),
        ensures
            spec_persisted(
                persist,
                GlobalSettingsData { safe_mode, ..old(self).spec_data() },
                r,
            ),
            r is Ok ==> final(self).spec_data() == (GlobalSettingsData {
                safe_mode,
                ..old(self).spec_data()
            }),
            r is Err ==> final(self).spec_data() == old(self).spec_data(),
    {
        let old_safe_mode = self.data.safe_mode;
        self.data.safe_mode = safe_mode;
        match persist(&self.data) {
            Ok(done) => Ok(done),
            Err(e) => {
                self.data.safe_mode = old_safe_mode;
                Err(e)
            },
        }
    }

    /// Whether the core runs in safe mode.
    pub fn safe_mode(&self) -> (b: bool)
        ensures
            b == self.spec_data().safe_mode,
    {
        self.data.safe_mode
    }

    /// Sets the domain and writes the settings; when writing fails the old
    /// domain is put back and the step's error is given.
    pub fn set_domain<F: Fn(&GlobalSettingsData) -> Result<(), Error>>(
        &mut self,
        domain: Option<String>,
        persist: &F,
    ) -> (r: Result<(), Error>)
        requires
            spec_settings_persist_ready(persist),
        ensures
            spec_persisted(
                persist,
                GlobalSettingsData { domain, ..old(self).spec_data() },
                r,
            ),
            r is Ok ==> final(self).spec_data() == (GlobalSettingsData {
                domain,
                ..old(self).spec_data()
            }),
            r is Err ==> final(self).spec_data() == old(self).spec_data(),
    {
        let mut old_domain = domain;
        std::mem::swap(&mut old_domain, &mut self.data.domain);
        match persist(&self.data) {
            Ok(done) => Ok(done),
            Err(e) => {
                self.data.domain = old_domain;
                Err(e)
            },
        }
    }

    /// The domain, if one was set.
    pub fn domain(&self) -> (d: Option<String>)
        ensures
            d == self.spec_data().domain,
    {
        match &self.data.domain {
            Some(d) => Some(d.clone()),
            None => None,
        }
    }
}

/// What was set is what is read back: after a setter succeeds, the getter
/// gives the value set, and the other settings are as they were.
pub proof fn lemma_set_then_get(before: GlobalSettingsData, after: GlobalSettingsData, name: String)
    requires
        after == (GlobalSettingsData { core_name: name, ..before }),
    ensures
        after.core_name == name,
        after.safe_mode == before.safe_mode,
        after.domain == before.domain,
{
}

} // verus!
