//! The command-line settings of a Minecraft instance (memory bounds, the java
//! command and extra arguments), and the instance settings that are either a
//! command-line setting or a server property.
use vstd::prelude::*;
use vstd::string::*;

use crate::error::{Error, ErrorKind};
use crate::manifest::{
    ConfigurableValue, ConfigurableValueType, ConfigurableValueTypeView, ConfigurableValueView,
    SettingManifest, SettingManifestView,
};
use crate::minecraft::configurable::{
    spec_has_name, spec_identifier, spec_property_description, spec_property_from_manifest,
    spec_property_manifest, spec_property_name, spec_from_key_val, spec_key_of, spec_key_text,
    spec_property_key, lemma_identifier_names_kind, lemma_key_text, lemma_parsed_property_keyed,
    PropertyKey, ServerPropertySetting, ServerPropertyView,
};
use crate::text::{
    chars_eq, chars_range, find_char, lemma_find, lemma_find_at, lemma_find_none, parse_u32, push_char, push_str,
    spec_find, spec_parse_unsigned, str_chars, string_from_chars,
};

verus! {

// ---------------------------------------------------------------------------
// Splitting and joining
// ---------------------------------------------------------------------------

/// The pieces of `s` between occurrences of `c` (std's `str::split` with a
/// character pattern): always at least one piece, possibly empty.
pub open spec fn spec_split(s: Seq<char>, c: char) -> Seq<Seq<char>>
    decreases s.len(),
{
    match spec_find(s, c) {
        None => seq![s],
        Some(i) => {
            proof {
                lemma_find(s, c);
            }
            seq![s.subrange(0, i)] + spec_split(s.subrange(i + 1, s.len() as int), c)
        },
    }
}

/// The pieces joined with `sep` between them (std's `join`).
pub open spec fn spec_join(parts: Seq<Seq<char>>, sep: Seq<char>) -> Seq<char>
    decreases parts.len(),
{
    if parts.len() == 0 {
        Seq::empty()
    } else if parts.len() == 1 {
        parts[0]
    } else {
        spec_join(parts.drop_last(), sep) + sep + parts.last()
    }
}

fn split_from(s: &[char], start: usize, c: char) -> (v: Vec<String>)
    requires
        start <= s.len(),
    ensures
        v.deep_view() == spec_split(s@.subrange(start as int, s@.len() as int), c),
    decreases s.len() - start,
{
    let rest = chars_range(s, start, s.len());
    proof {
        lemma_find(rest@, c);
    }
    match find_char(rest.as_slice(), c) {
        None => {
            let mut v: Vec<String> = Vec::new();
            v.push(string_from_chars(rest.as_slice()));
            assert(v.deep_view() =~= seq![rest@]);
            v
        },
        Some(j) => {
            let head = chars_range(rest.as_slice(), 0, j);
            let mut v: Vec<String> = Vec::new();
            v.push(string_from_chars(head.as_slice()));
            let ghost first = v.deep_view();
            assert(first =~= seq![rest@.subrange(0, j as int)]);
            let mut tail = split_from(s, start + j + 1, c);
            let ghost tail_view = tail.deep_view();
            assert(rest@.subrange(j as int + 1, rest@.len() as int) =~= s@.subrange(
                start + j + 1,
                s@.len() as int,
            ));
            v.append(&mut tail);
            assert(v.deep_view() =~= first + tail_view);
            v
        },
    }
}

/// Splits characters at every occurrence of `c`, like std's `str::split`.
pub fn split_chars(s: &[char], c: char) -> (v: Vec<String>)
    ensures
        v.deep_view() == spec_split(s@, c),
{
    assert(s@.subrange(0, s@.len() as int) =~= s@);
    split_from(s, 0, c)
}

/// Joins strings with a separator character between them.
pub fn join_with(parts: &Vec<String>, sep: char) -> (s: String)
    ensures
        s@ == spec_join(parts.deep_view(), seq![sep]),
{
    let mut s = String::new();
    let mut i: usize = 0;
    while i < parts.len()
        invariant
            i <= parts.len(),
            s@ == spec_join(parts.deep_view().take(i as int), seq![sep]),
        decreases parts.len() - i,
    {
        let ghost pv = parts.deep_view();
        assert(pv.take(i as int + 1).drop_last() =~= pv.take(i as int));
        if i > 0 {
            push_char(&mut s, sep);
        } else {
            assert(pv.take(0) =~= Seq::<Seq<char>>::empty());
        }
        push_str(&mut s, parts[i].as_str());
        assert(pv.take(i as int + 1).last() == parts@[i as int]@);
        assert(s@ =~= spec_join(pv.take(i as int + 1), seq![sep]));
        i = i + 1;
    }
    assert(parts.deep_view().take(parts.len() as int) =~= parts.deep_view());
    s
}

/// Splitting a text with one more piece after a separator gives the pieces
/// of the text and then that piece, when the piece holds no separator.
proof fn lemma_split_snoc(x: Seq<char>, c: char, l: Seq<char>)
    requires
        !l.contains(c),
    ensures
        spec_split(x + seq![c] + l, c) == spec_split(x, c).push(l),
    decreases x.len(),
{
    let s = x + seq![c] + l;
    lemma_find(x, c);
    lemma_find_none(l, c);
    match spec_find(x, c) {
        Some(i) => {
            lemma_find_at(s, c, i);
            let rest = x.subrange(i + 1, x.len() as int);
            lemma_split_snoc(rest, c, l);
            assert(s.subrange(0, i) =~= x.subrange(0, i));
            assert(s.subrange(i + 1, s.len() as int) =~= rest + seq![c] + l);
            assert(spec_split(s, c) == seq![x.subrange(0, i)] + spec_split(rest + seq![c] + l, c));
            assert(spec_split(x, c) == seq![x.subrange(0, i)] + spec_split(rest, c));
            assert(seq![x.subrange(0, i)] + spec_split(rest, c).push(l) =~= (seq![x.subrange(0, i)]
                + spec_split(rest, c)).push(l));
        },
        None => {
            lemma_find_at(s, c, x.len() as int);
            assert(s.subrange(0, x.len() as int) =~= x);
            assert(s.subrange(x.len() as int + 1, s.len() as int) =~= l);
            assert(spec_split(s, c) == seq![x] + spec_split(l, c));
            assert(spec_split(l, c) == seq![l]);
            assert(spec_split(x, c) == seq![x]);
            assert(seq![x] + seq![l] =~= seq![x].push(l));
        },
    }
}

/// Splitting pieces joined with a separator gives the pieces back, when
/// there is at least one and none holds the separator.
pub proof fn lemma_split_join(parts: Seq<Seq<char>>, c: char)
    requires
        parts.len() > 0,
        forall|i: int| 0 <= i < parts.len() ==> !(#[trigger] parts[i]).contains(c),
    ensures
        spec_split(spec_join(parts, seq![c]), c) == parts,
    decreases parts.len(),
{
    if parts.len() == 1 {
        lemma_find_none(parts[0], c);
        assert(seq![parts[0]] =~= parts);
    } else {
        let init = parts.drop_last();
        assert forall|i: int| 0 <= i < init.len() implies !(#[trigger] init[i]).contains(c) by {
            assert(init[i] == parts[i]);
        }
        lemma_split_join(init, c);
        lemma_split_snoc(spec_join(init, seq![c]), c, parts.last());
        assert(init.push(parts.last()) =~= parts);
    }
}

// ---------------------------------------------------------------------------
// Command-line settings
// ---------------------------------------------------------------------------

#[derive(Debug, Clone, PartialEq, Eq)]
pub enum CmdArgSetting {
    MinRam(u32),
    MaxRam(u32),
    JavaCmd(String),
    Args(Vec<String>),
}

pub enum CmdArgView {
    MinRam(u32),
    MaxRam(u32),
    JavaCmd(Seq<char>),
    Args(Seq<Seq<char>>),
}

impl View for CmdArgSetting {
    type V = CmdArgView;

    open spec fn view(&self) -> CmdArgView {
        match self {
            CmdArgSetting::MinRam(x) => CmdArgView::MinRam(*x),
            CmdArgSetting::MaxRam(x) => CmdArgView::MaxRam(*x),
            CmdArgSetting::JavaCmd(s) => CmdArgView::JavaCmd(s@),
            CmdArgSetting::Args(a) => CmdArgView::Args(a.deep_view()),
        }
    }
}

pub open spec fn spec_cmd_arg_identifier(s: CmdArgView) -> Seq<char> {
    match s {
        CmdArgView::MinRam(_) => "min_ram"@,
        CmdArgView::MaxRam(_) => "max_ram"@,
        CmdArgView::JavaCmd(_) => "java_cmd"@,
        CmdArgView::Args(_) => "cmd_args"@,
    }
}

pub open spec fn spec_cmd_arg_name(s: CmdArgView) -> Seq<char> {
    match s {
        CmdArgView::MinRam(_) => "Minimum RAM"@,
        CmdArgView::MaxRam(_) => "Maximum RAM"@,
        CmdArgView::JavaCmd(_) => "Java command"@,
        CmdArgView::Args(_) => "Command line arguments"@,
    }
}

pub open spec fn spec_cmd_arg_description(s: CmdArgView) -> Seq<char> {
    match s {
        CmdArgView::MinRam(_) => "The minimum amount of RAM to allocate to the server instance"@,
        CmdArgView::MaxRam(_) => "The maximum amount of RAM to allocate to the server instance"@,
        CmdArgView::JavaCmd(_) => "The command to use to run the java executable"@,
        CmdArgView::Args(_) => "The command line arguments to pass to the server"@,
    }
}

pub open spec fn min_ram_key() -> Seq<char> {
    seq!['m', 'i', 'n', '_', 'r', 'a', 'm']
}

pub open spec fn max_ram_key() -> Seq<char> {
    seq!['m', 'a', 'x', '_', 'r', 'a', 'm']
}

pub open spec fn java_cmd_key() -> Seq<char> {
    seq!['j', 'a', 'v', 'a', '_', 'c', 'm', 'd']
}

pub open spec fn cmd_args_key() -> Seq<char> {
    seq!['c', 'm', 'd', '_', 'a', 'r', 'g', 's']
}

/// Whether a key names a command-line setting.
pub open spec fn spec_is_cmd_arg_key(key: Seq<char>) -> bool {
    key == min_ram_key() || key == max_ram_key() || key == java_cmd_key() || key == cmd_args_key()
}

/// The command-line setting a key and value give: memory bounds must be `u32`
/// numbers (else an internal error), the arguments are split at spaces, and any
/// other key is a bad request.
pub open spec fn spec_cmd_arg_from_key_val(key: Seq<char>, val: Seq<char>) -> Result<CmdArgView, ErrorKind> {
    if key == min_ram_key() {
        match spec_parse_unsigned(val, u32::MAX as nat) {
            Some(n) => Ok(CmdArgView::MinRam(n as u32)),
            None => Err(ErrorKind::Internal),
        }
    } else if key == max_ram_key() {
        match spec_parse_unsigned(val, u32::MAX as nat) {
            Some(n) => Ok(CmdArgView::MaxRam(n as u32)),
            None => Err(ErrorKind::Internal),
        }
    } else if key == java_cmd_key() {
        Ok(CmdArgView::JavaCmd(val))
    } else if key == cmd_args_key() {
        Ok(CmdArgView::Args(spec_split(val, ' ')))
    } else {
        Err(ErrorKind::BadRequest)
    }
}

/// The manifest entry that describes a command-line setting.
pub open spec fn spec_cmd_arg_manifest(s: CmdArgView) -> SettingManifestView {
    SettingManifestView {
        setting_id: spec_cmd_arg_identifier(s),
        name: spec_cmd_arg_name(s),
        description: spec_cmd_arg_description(s),
        value: Some(
            match s {
                CmdArgView::MinRam(x) => ConfigurableValueView::UnsignedInteger(x),
                CmdArgView::MaxRam(x) => ConfigurableValueView::UnsignedInteger(x),
                CmdArgView::JavaCmd(c) => ConfigurableValueView::String(c),
                CmdArgView::Args(a) => ConfigurableValueView::String(spec_join(a, seq![' '])),
            },
        ),
        value_type: match s {
            CmdArgView::MinRam(_) => ConfigurableValueTypeView::UnsignedInteger {
                min: Some(0),
                max: None,
            },
            CmdArgView::MaxRam(_) => ConfigurableValueTypeView::UnsignedInteger {
                min: Some(0),
                max: None,
            },
            _ => ConfigurableValueTypeView::String { regex: None },
        },
        default_value: None,
        is_secret: false,
        is_required: false,
        is_mutable: true,
    }
}

/// What reading a command-line setting back from a manifest entry gives. The
/// memory bounds are read as signed integers and converted with `as`.
pub open spec fn spec_cmd_arg_from_manifest(m: SettingManifestView) -> Result<CmdArgView, ErrorKind> {
    let id = m.setting_id;
    if id == "min_ram"@ || id == "max_ram"@ {
        match m.value {
            None => Err(ErrorKind::Internal),
            Some(ConfigurableValueView::Integer(i)) => if id == "min_ram"@ {
                Ok(CmdArgView::MinRam(i as u32))
            } else {
                Ok(CmdArgView::MaxRam(i as u32))
            },
            Some(_) => Err(ErrorKind::BadRequest),
        }
    } else if id == "java_cmd"@ || id == "cmd_args"@ {
        match m.value {
            None => Err(ErrorKind::Internal),
            Some(ConfigurableValueView::String(s)) => if id == "java_cmd"@ {
                Ok(CmdArgView::JavaCmd(s))
            } else {
                Ok(CmdArgView::Args(spec_split(s, ' ')))
            },
            Some(_) => Err(ErrorKind::BadRequest),
        }
    } else {
        Err(ErrorKind::BadRequest)
    }
}

impl CmdArgSetting {
    pub fn get_section_id() -> (s: &'static str)
        ensures
            s@ == "cmd_args_section"@,
    {
        "cmd_args_section"
    }

    pub fn get_identifier(&self) -> (s: &'static str)
        ensures
            s@ == spec_cmd_arg_identifier(self@),
    {
        match self {
            CmdArgSetting::MinRam(_) => "min_ram",
            CmdArgSetting::MaxRam(_) => "max_ram",
            CmdArgSetting::JavaCmd(_) => "java_cmd",
            CmdArgSetting::Args(_) => "cmd_args",
        }
    }

    pub fn get_name(&self) -> (s: &'static str)
        ensures
            s@ == spec_cmd_arg_name(self@),
    {
        match self {
            CmdArgSetting::MinRam(_) => "Minimum RAM",
            CmdArgSetting::MaxRam(_) => "Maximum RAM",
            CmdArgSetting::JavaCmd(_) => "Java command",
            CmdArgSetting::Args(_) => "Command line arguments",
        }
    }

    pub fn get_description(&self) -> (s: &'static str)
        ensures
            s@ == spec_cmd_arg_description(self@),
    {
        match self {
            CmdArgSetting::MinRam(_) => "The minimum amount of RAM to allocate to the server instance",
            CmdArgSetting::MaxRam(_) => "The maximum amount of RAM to allocate to the server instance",
            CmdArgSetting::JavaCmd(_) => "The command to use to run the java executable",
            CmdArgSetting::Args(_) => "The command line arguments to pass to the server",
        }
    }

    /// The command-line setting a key and value give.
    pub fn from_key_val(key: &str, val: &str) -> (res: Result<CmdArgSetting, Error>)
        ensures
            match res {
                Ok(s) => spec_cmd_arg_from_key_val(key@, val@) == Ok::<CmdArgView, ErrorKind>(s@),
                Err(e) => spec_cmd_arg_from_key_val(key@, val@) == Err::<CmdArgView, ErrorKind>(e.kind),
            },
    {
        let k = str_chars(key);
        let v = str_chars(val);
        if chars_eq(k.as_slice(), &['m', 'i', 'n', '_', 'r', 'a', 'm']) {
            match parse_u32(v.as_slice()) {
                Some(n) => Ok(CmdArgSetting::MinRam(n)),
                None => Err(Error::new(ErrorKind::Internal, "Invalid value. Expected a u32")),
            }
        } else if chars_eq(k.as_slice(), &['m', 'a', 'x', '_', 'r', 'a', 'm']) {
            match parse_u32(v.as_slice()) {
                Some(n) => Ok(CmdArgSetting::MaxRam(n)),
                None => Err(Error::new(ErrorKind::Internal, "Invalid value. Expected a u32")),
            }
        } else if chars_eq(k.as_slice(), &['j', 'a', 'v', 'a', '_', 'c', 'm', 'd']) {
            Ok(CmdArgSetting::JavaCmd(string_from_chars(v.as_slice())))
        } else if chars_eq(k.as_slice(), &['c', 'm', 'd', '_', 'a', 'r', 'g', 's']) {
            Ok(CmdArgSetting::Args(split_chars(v.as_slice(), ' ')))
        } else {
            Err(Error::new(ErrorKind::BadRequest, "Invalid key"))
        }
    }

    /// Whether a key names a command-line setting.
    pub fn is_key_valid(key: &str) -> (b: bool)
        ensures
            b == spec_is_cmd_arg_key(key@),
    {
        let k = str_chars(key);
        chars_eq(k.as_slice(), &['m', 'i', 'n', '_', 'r', 'a', 'm'])
            || chars_eq(k.as_slice(), &['m', 'a', 'x', '_', 'r', 'a', 'm'])
            || chars_eq(k.as_slice(), &['j', 'a', 'v', 'a', '_', 'c', 'm', 'd'])
            || chars_eq(k.as_slice(), &['c', 'm', 'd', '_', 'a', 'r', 'g', 's'])
    }

    /// Reads a command-line setting back from its manifest entry.
    pub fn try_from_setting_manifest(value: SettingManifest) -> (res: Result<CmdArgSetting, Error>)
        ensures
            match res {
                Ok(s) => spec_cmd_arg_from_manifest(value@) == Ok::<CmdArgView, ErrorKind>(s@),
                Err(e) => spec_cmd_arg_from_manifest(value@) == Err::<CmdArgView, ErrorKind>(e.kind),
            },
    {
        let id = value.get_identifier();
        let is_min = str_eq_lit(id, "min_ram");
        let is_max = str_eq_lit(id, "max_ram");
        let is_java = str_eq_lit(id, "java_cmd");
        let is_args = str_eq_lit(id, "cmd_args");
        if !(is_min || is_max || is_java || is_args) {
            return Err(Error::new(ErrorKind::BadRequest, "Invalid key"));
        }
        let v = match value.get_value() {
            Some(v) => v,
            None => {
                return Err(Error::new(ErrorKind::Internal, "Expected a value"));
            },
        };
        if is_min {
            Ok(CmdArgSetting::MinRam(v.try_as_integer()? as u32))
        } else if is_max {
            Ok(CmdArgSetting::MaxRam(v.try_as_integer()? as u32))
        } else if is_java {
            Ok(CmdArgSetting::JavaCmd(v.try_as_string()?.clone()))
        } else {
            let s = v.try_as_string()?;
            let c = str_chars(s.as_str());
            Ok(CmdArgSetting::Args(split_chars(c.as_slice(), ' ')))
        }
    }
}

fn str_eq_lit(s: &String, lit: &str) -> (b: bool)
    ensures
        b == (s@ == lit@),
{
    crate::text::str_eq(s.as_str(), lit)
}

impl SettingManifest {
    /// The manifest entry that describes a command-line setting.
    pub fn from_cmd_arg(value: CmdArgSetting) -> (m: SettingManifest)
        ensures
            m@ == spec_cmd_arg_manifest(value@),
    {
        let id = String::from_str(value.get_identifier());
        let name = String::from_str(value.get_name());
        let description = String::from_str(value.get_description());
        match value {
            CmdArgSetting::MinRam(x) => SettingManifest::new_optional_value(
                id,
                name,
                description,
                Some(ConfigurableValue::UnsignedInteger(x)),
                ConfigurableValueType::UnsignedInteger { min: Some(0), max: None },
                None,
                false,
                true,
            ),
            CmdArgSetting::MaxRam(x) => SettingManifest::new_optional_value(
                id,
                name,
                description,
                Some(ConfigurableValue::UnsignedInteger(x)),
                ConfigurableValueType::UnsignedInteger { min: Some(0), max: None },
                None,
                false,
                true,
            ),
            CmdArgSetting::JavaCmd(c) => SettingManifest::new_optional_value(
                id,
                name,
                description,
                Some(ConfigurableValue::String(c)),
                ConfigurableValueType::String { regex: None },
                None,
                false,
                true,
            ),
            CmdArgSetting::Args(a) => SettingManifest::new_optional_value(
                id,
                name,
                description,
                Some(ConfigurableValue::String(join_with(&a, ' '))),
                ConfigurableValueType::String { regex: None },
                None,
                false,
                true,
            ),
        }
    }
}

/// A command-line setting read back from the manifest entry that describes
/// it is the setting itself: the java command always, the extra arguments
/// when there is at least one and none holds a space. (The memory bounds do
/// not come back: their entries hold unsigned integers, and they are read as
/// signed ones, which is refused.)
pub proof fn lemma_cmd_arg_roundtrip(v: CmdArgView)
    ensures
        match v {
            CmdArgView::JavaCmd(_) => spec_cmd_arg_from_manifest(spec_cmd_arg_manifest(v)) == Ok::<
                CmdArgView,
                ErrorKind,
            >(v),
            CmdArgView::Args(a) => (a.len() > 0 && forall|i: int|
                0 <= i < a.len() ==> !(#[trigger] a[i]).contains(' ')) ==> spec_cmd_arg_from_manifest(
                spec_cmd_arg_manifest(v),
            ) == Ok::<CmdArgView, ErrorKind>(v),
            _ => spec_cmd_arg_from_manifest(spec_cmd_arg_manifest(v)) == Err::<CmdArgView, ErrorKind>(
                ErrorKind::BadRequest,
            ),
        },
{
    reveal_strlit("min_ram");
    reveal_strlit("max_ram");
    reveal_strlit("java_cmd");
    reveal_strlit("cmd_args");
    assert("java_cmd"@[0] == 'j' && "cmd_args"@[0] == 'c');
    assert("min_ram"@[0] == 'm' && "max_ram"@[0] == 'm');
    assert("java_cmd"@ != "min_ram"@ && "java_cmd"@ != "max_ram"@);
    assert("cmd_args"@ != "min_ram"@ && "cmd_args"@ != "max_ram"@ && "cmd_args"@ != "java_cmd"@);
    match v {
        CmdArgView::Args(a) => {
            if a.len() > 0 && forall|i: int| 0 <= i < a.len() ==> !(#[trigger] a[i]).contains(' ') {
                lemma_split_join(a, ' ');
            }
        },
        _ => {},
    }
}

// ---------------------------------------------------------------------------
// Instance settings
// ---------------------------------------------------------------------------

#[derive(Debug, Clone, PartialEq, Eq)]
pub enum InstanceSetting {
    CmdArg(CmdArgSetting),
    ServerProperty(ServerPropertySetting),
}

pub enum InstanceSettingView {
    CmdArg(CmdArgView),
    ServerProperty(ServerPropertyView),
}

impl View for InstanceSetting {
    type V = InstanceSettingView;

    open spec fn view(&self) -> InstanceSettingView {
        match self {
            InstanceSetting::CmdArg(s) => InstanceSettingView::CmdArg(s@),
            InstanceSetting::ServerProperty(p) => InstanceSettingView::ServerProperty(p@),
        }
    }
}

/// Whether an instance setting can be shown by name.
pub open spec fn spec_instance_setting_has_name(s: InstanceSettingView) -> bool {
    match s {
        InstanceSettingView::CmdArg(_) => true,
        InstanceSettingView::ServerProperty(p) => spec_has_name(p),
    }
}

/// The instance setting a key and value give: command-line keys give a
/// command-line setting, every other key a server property.
pub open spec fn spec_instance_setting_from_key_val(key: Seq<char>, val: Seq<char>) -> Result<InstanceSettingView, ErrorKind> {
    if spec_is_cmd_arg_key(key) {
        match spec_cmd_arg_from_key_val(key, val) {
            Ok(s) => Ok(InstanceSettingView::CmdArg(s)),
            Err(e) => Err(e),
        }
    } else {
        match spec_from_key_val(key, val) {
            Some(p) => Ok(InstanceSettingView::ServerProperty(p)),
            None => Err(ErrorKind::Internal),
        }
    }
}

/// The key an instance setting is written under.
pub open spec fn spec_instance_setting_identifier(s: InstanceSettingView) -> Seq<char> {
    match s {
        InstanceSettingView::CmdArg(c) => spec_cmd_arg_identifier(c),
        InstanceSettingView::ServerProperty(p) => spec_identifier(p),
    }
}

/// Whether two instance settings are of the same kind: the same
/// command-line setting, or server properties of the same key.
pub open spec fn spec_same_setting_kind(a: InstanceSettingView, b: InstanceSettingView) -> bool {
    match (a, b) {
        (InstanceSettingView::CmdArg(x), InstanceSettingView::CmdArg(y)) => spec_cmd_arg_identifier(x)
            == spec_cmd_arg_identifier(y),
        (InstanceSettingView::ServerProperty(x), InstanceSettingView::ServerProperty(y)) =>
            spec_property_key(x) == spec_property_key(y),
        _ => false,
    }
}

/// No command-line key is a known property key.
#[verifier::rlimit(100)]
proof fn lemma_cmd_arg_keys_unknown()
    ensures
        spec_key_of(min_ram_key()) is None,
        spec_key_of(max_ram_key()) is None,
        spec_key_of(java_cmd_key()) is None,
        spec_key_of(cmd_args_key()) is None,
{
    assert(min_ram_key().len() == 7 && min_ram_key()[3] == '_');
    assert(max_ram_key().len() == 7 && max_ram_key()[3] == '_');
    assert(java_cmd_key().len() == 8 && java_cmd_key()[4] == '_');
    assert(cmd_args_key().len() == 8 && cmd_args_key()[3] == '_');
}

/// No text of a known property key names a command-line setting.
proof fn lemma_key_text_not_cmd_arg(k: PropertyKey)
    ensures
        !spec_is_cmd_arg_key(spec_key_text(k)),
{
    lemma_key_text(k);
    lemma_cmd_arg_keys_unknown();
}

/// An instance setting read from a key and a value is keyed by that key,
/// command-line settings and server properties, known or not, alike.
pub proof fn lemma_parsed_setting_keyed(key: Seq<char>, v: Seq<char>)
    ensures
        spec_instance_setting_from_key_val(key, v) matches Ok(s) ==> spec_instance_setting_identifier(s)
            == key,
{
    reveal_strlit("min_ram");
    reveal_strlit("max_ram");
    reveal_strlit("java_cmd");
    reveal_strlit("cmd_args");
    lemma_parsed_property_keyed(key, v);
}

/// An instance setting's key names its kind: read back from its key with
/// any value, a setting other than an unknown server property gives a
/// setting of the same kind or an error.
pub proof fn lemma_setting_identifier_names_kind(s: InstanceSettingView, v: Seq<char>)
    ensures
        !(s matches InstanceSettingView::ServerProperty(p) && p is Unknown) ==> (
        spec_instance_setting_from_key_val(spec_instance_setting_identifier(s), v) matches Ok(t)
            ==> spec_same_setting_kind(s, t)),
{
    reveal_strlit("min_ram");
    reveal_strlit("max_ram");
    reveal_strlit("java_cmd");
    reveal_strlit("cmd_args");
    match s {
        InstanceSettingView::CmdArg(c) => {
            assert("min_ram"@ =~= min_ram_key());
            assert("max_ram"@ =~= max_ram_key());
            assert("java_cmd"@ =~= java_cmd_key());
            assert("cmd_args"@ =~= cmd_args_key());
        },
        InstanceSettingView::ServerProperty(p) => {
            lemma_identifier_names_kind(p, v);
            match spec_property_key(p) {
                Some(k) => {
                    lemma_key_text_not_cmd_arg(k);
                },
                None => {},
            }
        },
    }
}

/// The manifest entry that describes an instance setting.
pub open spec fn spec_instance_setting_manifest(s: InstanceSettingView) -> SettingManifestView {
    match s {
        InstanceSettingView::CmdArg(c) => spec_cmd_arg_manifest(c),
        InstanceSettingView::ServerProperty(p) => spec_property_manifest(p),
    }
}

/// What reading an instance setting back from a manifest entry gives.
pub open spec fn spec_instance_setting_from_manifest(m: SettingManifestView) -> Result<InstanceSettingView, ErrorKind> {
    if spec_is_cmd_arg_key(m.setting_id) {
        match spec_cmd_arg_from_manifest(m) {
            Ok(s) => Ok(InstanceSettingView::CmdArg(s)),
            Err(e) => Err(e),
        }
    } else {
        match spec_property_from_manifest(m) {
            Ok(p) => Ok(InstanceSettingView::ServerProperty(p)),
            Err(e) => Err(e),
        }
    }
}

impl InstanceSetting {
    pub fn get_identifier(&self) -> (s: String)
        ensures
            s@ == spec_instance_setting_identifier(self@),
    {
        match self {
            InstanceSetting::CmdArg(setting) => String::from_str(setting.get_identifier()),
            InstanceSetting::ServerProperty(setting) => setting.get_identifier(),
        }
    }

    pub fn get_name(&self) -> (s: String)
        requires
            spec_instance_setting_has_name(self@),
        ensures
            s@ == match self@ {
                InstanceSettingView::CmdArg(c) => spec_cmd_arg_name(c),
                InstanceSettingView::ServerProperty(p) => spec_property_name(p),
            },
    {
        match self {
            InstanceSetting::CmdArg(setting) => String::from_str(setting.get_name()),
            InstanceSetting::ServerProperty(setting) => setting.get_name(),
        }
    }

    pub fn get_description(&self) -> (s: String)
        ensures
            s@ == match self@ {
                InstanceSettingView::CmdArg(c) => spec_cmd_arg_description(c),
                InstanceSettingView::ServerProperty(p) => spec_property_description(p),
            },
    {
        match self {
            InstanceSetting::CmdArg(setting) => String::from_str(setting.get_description()),
            InstanceSetting::ServerProperty(setting) => setting.get_description(),
        }
    }

    /// The instance setting a key and value give.
    pub fn from_key_val(key: &str, value: &str) -> (res: Result<InstanceSetting, Error>)
        ensures
            match res {
                Ok(s) => spec_instance_setting_from_key_val(key@, value@) == Ok::<InstanceSettingView, ErrorKind>(s@),
                Err(e) => spec_instance_setting_from_key_val(key@, value@) == Err::<InstanceSettingView, ErrorKind>(e.kind),
            },
    {
        if CmdArgSetting::is_key_valid(key) {
            Ok(InstanceSetting::CmdArg(CmdArgSetting::from_key_val(key, value)?))
        } else {
            Ok(InstanceSetting::ServerProperty(ServerPropertySetting::from_key_val(key, value)?))
        }
    }

    /// Reads an instance setting back from its manifest entry.
    pub fn try_from_setting_manifest(setting: SettingManifest) -> (res: Result<InstanceSetting, Error>)
        ensures
            match res {
                Ok(s) => spec_instance_setting_from_manifest(setting@) == Ok::<InstanceSettingView, ErrorKind>(s@),
                Err(e) => spec_instance_setting_from_manifest(setting@) == Err::<InstanceSettingView, ErrorKind>(e.kind),
            },
    {
        if CmdArgSetting::is_key_valid(setting.get_identifier().as_str()) {
            Ok(InstanceSetting::CmdArg(CmdArgSetting::try_from_setting_manifest(setting)?))
        } else {
            Ok(InstanceSetting::ServerProperty(ServerPropertySetting::try_from_setting_manifest(setting)?))
        }
    }
}

impl SettingManifest {
    /// The manifest entry that describes an instance setting.
    pub fn from_instance_setting(setting: InstanceSetting) -> (m: SettingManifest)
        requires
            spec_instance_setting_has_name(setting@),
        ensures
            m@ == spec_instance_setting_manifest(setting@),
    {
        match setting {
            InstanceSetting::CmdArg(s) => SettingManifest::from_cmd_arg(s),
            InstanceSetting::ServerProperty(p) => SettingManifest::from_server_property(p),
        }
    }
}

} // verus!
