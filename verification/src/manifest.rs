//! Configurable values and the manifest entries that describe one setting of
//! an instance: its identifier, display name, description, value, type and
//! flags.
use vstd::prelude::*;
use vstd::string::*;

use crate::error::{Error, ErrorKind};
use crate::text::{bool_text, spec_bool_text, spec_decimal, spec_signed_decimal, to_decimal, to_signed_decimal};

verus! {

#[derive(Debug, Clone, PartialEq, Eq)]
pub enum ConfigurableValue {
    String(String),
    Integer(i32),
    UnsignedInteger(u32),
    Boolean(bool),
    Enum(String),
}

pub enum ConfigurableValueView {
    String(Seq<char>),
    Integer(i32),
    UnsignedInteger(u32),
    Boolean(bool),
    Enum(Seq<char>),
}

impl View for ConfigurableValue {
    type V = ConfigurableValueView;

    open spec fn view(&self) -> ConfigurableValueView {
        match self {
            ConfigurableValue::String(s) => ConfigurableValueView::String(s@),
            ConfigurableValue::Integer(i) => ConfigurableValueView::Integer(*i),
            ConfigurableValue::UnsignedInteger(u) => ConfigurableValueView::UnsignedInteger(*u),
            ConfigurableValue::Boolean(b) => ConfigurableValueView::Boolean(*b),
            ConfigurableValue::Enum(s) => ConfigurableValueView::Enum(s@),
        }
    }
}

pub open spec fn opt_value_view(v: Option<ConfigurableValue>) -> Option<ConfigurableValueView> {
    match v {
        Some(x) => Some(x@),
        None => None,
    }
}

#[derive(Debug, Clone, PartialEq, Eq)]
#[allow(inconsistent_fields)]
pub enum ConfigurableValueType {
    String { regex: Option<String> },
    Integer { min: Option<i32>, max: Option<i32> },
    UnsignedInteger { min: Option<u32>, max: Option<u32> },
    Boolean,
    Enum { options: Vec<String> },
}

#[allow(inconsistent_fields)]
pub enum ConfigurableValueTypeView {
    String { regex: Option<Seq<char>> },
    Integer { min: Option<i32>, max: Option<i32> },
    UnsignedInteger { min: Option<u32>, max: Option<u32> },
    Boolean,
    Enum { options: Seq<Seq<char>> },
}

impl View for ConfigurableValueType {
    type V = ConfigurableValueTypeView;

    open spec fn view(&self) -> ConfigurableValueTypeView {
        match self {
            ConfigurableValueType::String { regex } => ConfigurableValueTypeView::String {
                regex: match regex {
                    Some(r) => Some(r@),
                    None => None,
                },
            },
            ConfigurableValueType::Integer { min, max } => ConfigurableValueTypeView::Integer {
                min: *min,
                max: *max,
            },
            ConfigurableValueType::UnsignedInteger { min, max } =>
                ConfigurableValueTypeView::UnsignedInteger { min: *min, max: *max },
            ConfigurableValueType::Boolean => ConfigurableValueTypeView::Boolean,
            ConfigurableValueType::Enum { options } => ConfigurableValueTypeView::Enum {
                options: options.deep_view(),
            },
        }
    }
}

/// The type that a value has when nothing more is said of it.
pub open spec fn spec_infer_type(v: ConfigurableValueView) -> ConfigurableValueTypeView {
    match v {
        ConfigurableValueView::String(_) => ConfigurableValueTypeView::String { regex: None },
        ConfigurableValueView::Integer(_) => ConfigurableValueTypeView::Integer {
            min: None,
            max: None,
        },
        ConfigurableValueView::UnsignedInteger(_) => ConfigurableValueTypeView::UnsignedInteger {
            min: None,
            max: None,
        },
        ConfigurableValueView::Boolean(_) => ConfigurableValueTypeView::Boolean,
        ConfigurableValueView::Enum(s) => ConfigurableValueTypeView::Enum { options: seq![s] },
    }
}

/// The text of a value.
pub open spec fn spec_value_text(v: ConfigurableValueView) -> Seq<char> {
    match v {
        ConfigurableValueView::String(s) => s,
        ConfigurableValueView::Integer(i) => spec_signed_decimal(i as int),
        ConfigurableValueView::UnsignedInteger(u) => spec_decimal(u as nat),
        ConfigurableValueView::Boolean(b) => spec_bool_text(b),
        ConfigurableValueView::Enum(s) => s,
    }
}

impl ConfigurableValue {
    /// The type this value has when nothing more is said of it.
    pub fn infer_type(&self) -> (t: ConfigurableValueType)
        ensures
            t@ == spec_infer_type(self@),
    {
        match self {
            ConfigurableValue::String(_) => ConfigurableValueType::String { regex: None },
            ConfigurableValue::Integer(_) => ConfigurableValueType::Integer { min: None, max: None },
            ConfigurableValue::UnsignedInteger(_) => ConfigurableValueType::UnsignedInteger {
                min: None,
                max: None,
            },
            ConfigurableValue::Boolean(_) => ConfigurableValueType::Boolean,
            ConfigurableValue::Enum(s) => {
                let mut options: Vec<String> = Vec::new();
                options.push(s.clone());
                let t = ConfigurableValueType::Enum { options };
                assert(t@ == spec_infer_type(self@)) by {
                    assert(options.deep_view() =~= seq![s@]);
                }
                t
            },
        }
    }

    pub fn try_as_boolean(&self) -> (res: Result<bool, Error>)
        ensures
            match self@ {
                ConfigurableValueView::Boolean(b) => res == Ok::<bool, Error>(b),
                _ => res is Err && res->Err_0.kind == ErrorKind::BadRequest,
            },
    {
        match self {
            ConfigurableValue::Boolean(b) => Ok(*b),
            _ => Err(Error::new(ErrorKind::BadRequest, "Expected a boolean value")),
        }
    }

    pub fn try_as_unsigned_integer(&self) -> (res: Result<u32, Error>)
        ensures
            match self@ {
                ConfigurableValueView::UnsignedInteger(u) => res == Ok::<u32, Error>(u),
                _ => res is Err && res->Err_0.kind == ErrorKind::BadRequest,
            },
    {
        match self {
            ConfigurableValue::UnsignedInteger(u) => Ok(*u),
            _ => Err(Error::new(ErrorKind::BadRequest, "Expected an unsigned integer value")),
        }
    }

    pub fn try_as_integer(&self) -> (res: Result<i32, Error>)
        ensures
            match self@ {
                ConfigurableValueView::Integer(i) => res == Ok::<i32, Error>(i),
                _ => res is Err && res->Err_0.kind == ErrorKind::BadRequest,
            },
    {
        match self {
            ConfigurableValue::Integer(i) => Ok(*i),
            _ => Err(Error::new(ErrorKind::BadRequest, "Expected an integer value")),
        }
    }

    pub fn try_as_string(&self) -> (res: Result<&String, Error>)
        ensures
            match self@ {
                ConfigurableValueView::String(s) => res is Ok && res->Ok_0@ == s,
                _ => res is Err && res->Err_0.kind == ErrorKind::BadRequest,
            },
    {
        match self {
            ConfigurableValue::String(s) => Ok(s),
            _ => Err(Error::new(ErrorKind::BadRequest, "Expected a string value")),
        }
    }

    pub fn try_as_enum(&self) -> (res: Result<&String, Error>)
        ensures
            match self@ {
                ConfigurableValueView::Enum(s) => res is Ok && res->Ok_0@ == s,
                _ => res is Err && res->Err_0.kind == ErrorKind::BadRequest,
            },
    {
        match self {
            ConfigurableValue::Enum(s) => Ok(s),
            _ => Err(Error::new(ErrorKind::BadRequest, "Expected an enum value")),
        }
    }

    /// The text of this value, as it is written to a properties file.
    pub fn to_string(&self) -> (s: String)
        ensures
            s@ == spec_value_text(self@),
    {
        match self {
            ConfigurableValue::String(s) => s.clone(),
            ConfigurableValue::Integer(i) => to_signed_decimal(*i as i64),
            ConfigurableValue::UnsignedInteger(u) => to_decimal(*u as u64),
            ConfigurableValue::Boolean(b) => bool_text(*b),
            ConfigurableValue::Enum(s) => s.clone(),
        }
    }
}

#[derive(Debug, Clone, PartialEq, Eq)]
pub struct SettingManifest {
    setting_id: String,
    name: String,
    description: String,
    value: Option<ConfigurableValue>,
    value_type: ConfigurableValueType,
    default_value: Option<ConfigurableValue>,
    is_secret: bool,
    is_required: bool,
    is_mutable: bool,
}

pub struct SettingManifestView {
    pub setting_id: Seq<char>,
    pub name: Seq<char>,
    pub description: Seq<char>,
    pub value: Option<ConfigurableValueView>,
    pub value_type: ConfigurableValueTypeView,
    pub default_value: Option<ConfigurableValueView>,
    pub is_secret: bool,
    pub is_required: bool,
    pub is_mutable: bool,
}

impl View for SettingManifest {
    type V = SettingManifestView;

    closed spec fn view(&self) -> SettingManifestView {
        SettingManifestView {
            setting_id: self.setting_id@,
            name: self.name@,
            description: self.description@,
            value: opt_value_view(self.value),
            value_type: self.value_type@,
            default_value: opt_value_view(self.default_value),
            is_secret: self.is_secret,
            is_required: self.is_required,
            is_mutable: self.is_mutable,
        }
    }
}

impl SettingManifest {
    /// A required setting whose type is the one its value has.
    pub fn new_required_value(
        setting_id: String,
        name: String,
        description: String,
        value: ConfigurableValue,
        default_value: Option<ConfigurableValue>,
        is_secret: bool,
        is_mutable: bool,
    ) -> (m: SettingManifest)
        ensures
            m@ == (SettingManifestView {
                setting_id: setting_id@,
                name: name@,
                description: description@,
                value: Some(value@),
                value_type: spec_infer_type(value@),
                default_value: opt_value_view(default_value),
                is_secret,
                is_required: true,
                is_mutable,
            }),
    {
        let value_type = value.infer_type();
        SettingManifest {
            setting_id,
            name,
            description,
            value: Some(value),
            value_type,
            default_value,
            is_secret,
            is_required: true,
            is_mutable,
        }
    }

    /// A setting that may be left without a value.
    pub fn new_optional_value(
        setting_id: String,
        name: String,
        description: String,
        value: Option<ConfigurableValue>,
        value_type: ConfigurableValueType,
        default_value: Option<ConfigurableValue>,
        is_secret: bool,
        is_mutable: bool,
    ) -> (m: SettingManifest)
        ensures
            m@ == (SettingManifestView {
                setting_id: setting_id@,
                name: name@,
                description: description@,
                value: opt_value_view(value),
                value_type: value_type@,
                default_value: opt_value_view(default_value),
                is_secret,
                is_required: false,
                is_mutable,
            }),
    {
        SettingManifest {
            setting_id,
            name,
            description,
            value,
            value_type,
            default_value,
            is_secret,
            is_required: false,
            is_mutable,
        }
    }

    /// A required setting with an explicitly given type.
    pub fn new_value_with_type(
        setting_id: String,
        name: String,
        description: String,
        value: Option<ConfigurableValue>,
        value_type: ConfigurableValueType,
        default_value: Option<ConfigurableValue>,
        is_secret: bool,
        is_mutable: bool,
    ) -> (m: SettingManifest)
        ensures
            m@ == (SettingManifestView {
                setting_id: setting_id@,
                name: name@,
                description: description@,
                value: opt_value_view(value),
                value_type: value_type@,
                default_value: opt_value_view(default_value),
                is_secret,
                is_required: true,
                is_mutable,
            }),
    {
        SettingManifest {
            setting_id,
            name,
            description,
            value,
            value_type,
            default_value,
            is_secret,
            is_required: true,
            is_mutable,
        }
    }

    pub fn get_identifier(&self) -> (s: &String)
        ensures
            s@ == self@.setting_id,
    {
        &self.setting_id
    }

    pub fn get_name(&self) -> (s: &String)
        ensures
            s@ == self@.name,
    {
        &self.name
    }

    pub fn get_description(&self) -> (s: &String)
        ensures
            s@ == self@.description,
    {
        &self.description
    }

    pub fn get_value(&self) -> (v: Option<&ConfigurableValue>)
        ensures
            match v {
                Some(x) => self@.value == Some(x@),
                None => self@.value is None,
            },
    {
        match &self.value {
            Some(v) => Some(v),
            None => None,
        }
    }

    pub fn get_value_type(&self) -> (t: &ConfigurableValueType)
        ensures
            t@ == self@.value_type,
    {
        &self.value_type
    }

    pub fn is_secret(&self) -> (b: bool)
        ensures
            b == self@.is_secret,
    {
        self.is_secret
    }

    pub fn is_required(&self) -> (b: bool)
        ensures
            b == self@.is_required,
    {
        self.is_required
    }

    pub fn is_mutable(&self) -> (b: bool)
        ensures
            b == self@.is_mutable,
    {
        self.is_mutable
    }
}

/// A titled group of settings.
#[derive(Debug, Clone)]
pub struct SectionManifest {
    pub section_id: String,
    pub name: String,
    pub description: String,
    pub settings: Vec<SettingManifest>,
}

pub struct SectionManifestView {
    pub section_id: Seq<char>,
    pub name: Seq<char>,
    pub description: Seq<char>,
    pub settings: Seq<SettingManifestView>,
}

impl View for SectionManifest {
    type V = SectionManifestView;

    open spec fn view(&self) -> SectionManifestView {
        SectionManifestView {
            section_id: self.section_id@,
            name: self.name@,
            description: self.description@,
            settings: self.settings@.map_values(|m: SettingManifest| m@),
        }
    }
}

impl SectionManifest {
    pub fn new(
        section_id: String,
        name: String,
        description: String,
        settings: Vec<SettingManifest>,
    ) -> (m: SectionManifest)
        ensures
            m.section_id == section_id,
            m.name == name,
            m.description == description,
            m.settings == settings,
    {
        SectionManifest { section_id, name, description, settings }
    }
}

/// The first setting of a list with the given identifier.
pub open spec fn spec_first_setting(settings: Seq<SettingManifestView>, id: Seq<char>) -> Option<
    SettingManifestView,
>
    decreases settings.len(),
{
    if settings.len() == 0 {
        None
    } else if settings[0].setting_id == id {
        Some(settings[0])
    } else {
        spec_first_setting(settings.drop_first(), id)
    }
}

/// The first setting with the given identifier, looking through the
/// sections in order.
pub open spec fn spec_find_setting(sections: Seq<SectionManifestView>, id: Seq<char>) -> Option<
    SettingManifestView,
>
    decreases sections.len(),
{
    if sections.len() == 0 {
        None
    } else {
        match spec_first_setting(sections[0].settings, id) {
            Some(m) => Some(m),
            None => spec_find_setting(sections.drop_first(), id),
        }
    }
}

fn first_setting<'a>(settings: &'a Vec<SettingManifest>, id: &str) -> (r: Option<&'a SettingManifest>)
    ensures
        match r {
            Some(m) => spec_first_setting(settings@.map_values(|m: SettingManifest| m@), id@)
                == Some(m@),
            None => spec_first_setting(settings@.map_values(|m: SettingManifest| m@), id@) is None,
        },
{
    let ghost all = settings@.map_values(|m: SettingManifest| m@);
    let mut i: usize = 0;
    assert(all.skip(0) =~= all);
    while i < settings.len()
        invariant
            i <= settings.len(),
            all == settings@.map_values(|m: SettingManifest| m@),
            spec_first_setting(all, id@) == spec_first_setting(all.skip(i as int), id@),
        decreases settings.len() - i,
    {
        assert(all.skip(i as int).drop_first() =~= all.skip(i as int + 1));
        assert(all.skip(i as int)[0] == settings@[i as int]@);
        if crate::text::str_eq(settings[i].get_identifier().as_str(), id) {
            return Some(&settings[i]);
        }
        i = i + 1;
    }
    None
}

/// A setup form as filled in: the instance's name and description, whether
/// it starts with the core and restarts after a crash, and the sections of
/// settings with their values.
#[derive(Debug, Clone)]
pub struct SetupValue {
    pub name: String,
    pub description: Option<String>,
    pub auto_start: bool,
    pub restart_on_crash: bool,
    pub setting_sections: Vec<SectionManifest>,
}

impl SetupValue {
    pub open spec fn spec_sections(&self) -> Seq<SectionManifestView> {
        self.setting_sections@.map_values(|s: SectionManifest| s@)
    }

    /// The setting of the given identifier: the first one, looking through
    /// the sections in order.
    pub fn get_unique_setting(&self, id: &str) -> (r: Option<&SettingManifest>)
        ensures
            match r {
                Some(m) => spec_find_setting(self.spec_sections(), id@) == Some(m@),
                None => spec_find_setting(self.spec_sections(), id@) is None,
            },
    {
        let ghost all = self.spec_sections();
        let mut i: usize = 0;
        assert(all.skip(0) =~= all);
        while i < self.setting_sections.len()
            invariant
                i <= self.setting_sections.len(),
                all == self.spec_sections(),
                spec_find_setting(all, id@) == spec_find_setting(all.skip(i as int), id@),
            decreases self.setting_sections.len() - i,
        {
            assert(all.skip(i as int).drop_first() =~= all.skip(i as int + 1));
            assert(all.skip(i as int)[0] == self.setting_sections@[i as int]@);
            match first_setting(&self.setting_sections[i].settings, id) {
                Some(m) => {
                    return Some(m);
                },
                None => {},
            }
            i = i + 1;
        }
        None
    }
}

} // verus!
