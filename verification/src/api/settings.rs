use vstd::prelude::*;
use vstd::string::StrSliceExecFns;

verus! {

/// Whether two strings hold the same characters.
pub fn str_eq(a: &str, b: &str) -> (r: bool)
    ensures
        r == (a@ == b@),
{
    let n = a.unicode_len();
    if n != b.unicode_len() {
        return false;
    }
    let mut i: usize = 0;
    while i < n
        invariant
            n == a@.len(),
            n == b@.len(),
            i <= n,
            forall|j: int| 0 <= j < i ==> a@[j] == b@[j],
        decreases n - i,
    {
        if a.get_char(i) != b.get_char(i) {
            return false;
        }
        i = i + 1;
    }
    assert(a@ =~= b@);
    true
}

/// The settings this library handles.
#[derive(Debug, Clone, Copy, PartialEq, Eq, Structural)]
pub enum SettingId {
    AmbientSoundMode,
    WindNoiseSuppression,
    PressSensitivity,
    SpatialAudio,
    SpatialAudioMode,
    SpatialAudioMusicMode,
    AmbientSoundPrompt,
    SupportTwoConnections,
}

/// The groups that settings are shown in.
#[derive(Debug, Clone, Copy, PartialEq, Eq, Structural)]
pub enum CategoryId {
    SoundModes,
    Miscellaneous,
}

/// A setting as shown to the user: its kind, its allowed values and its current value.
#[allow(inconsistent_fields)]
#[derive(Debug, Clone, PartialEq, Eq)]
pub enum Setting {
    Toggle { value: bool },
    I32Range { start: i32, end: i32, step: i32, value: i32 },
    Select { options: Vec<&'static str>, value: &'static str },
}

/// A value the user asks a setting to take.
#[derive(Debug, Clone, PartialEq, Eq)]
pub enum Value {
    Bool(bool),
    I32(i32),
    String(String),
}

/// Why a value could not be applied to a setting.
#[derive(Debug, Clone, Copy, PartialEq, Eq, Structural)]
pub enum ValueError {
    /// The value is of another kind than the setting takes.
    WrongType,
    /// The value names no variant of the setting's options.
    UnknownVariant,
}

impl Value {
    pub fn try_as_bool(&self) -> (r: Result<bool, ValueError>)
        ensures
            match *self {
                Value::Bool(b) => r == Ok::<bool, ValueError>(b),
                _ => r == Err::<bool, ValueError>(ValueError::WrongType),
            },
    {
        match self {
            Value::Bool(b) => Ok(*b),
            _ => Err(ValueError::WrongType),
        }
    }

    pub fn try_as_i32(&self) -> (r: Result<i32, ValueError>)
        ensures
            match *self {
                Value::I32(v) => r == Ok::<i32, ValueError>(v),
                _ => r == Err::<i32, ValueError>(ValueError::WrongType),
            },
    {
        match self {
            Value::I32(v) => Ok(*v),
            _ => Err(ValueError::WrongType),
        }
    }

    pub fn try_as_str(&self) -> (r: Result<&str, ValueError>)
        ensures
            match *self {
                Value::String(s) => r matches Ok(t) && t@ == s@,
                _ => r == Err::<&str, ValueError>(ValueError::WrongType),
            },
    {
        match self {
            Value::String(s) => Ok(s.as_str()),
            _ => Err(ValueError::WrongType),
        }
    }
}

/// `r` offers the options named `names`, in order, with `current` chosen.
pub open spec fn spec_is_select(r: Setting, names: Seq<Seq<char>>, current: Seq<char>) -> bool {
    &&& r matches Setting::Select { options, value }
    &&& r->Select_value@ == current
    &&& r->options@.len() == names.len()
    &&& forall|i: int| 0 <= i < names.len() ==> #[trigger] r->options@[i]@ == names[i]
}

/// A selection among `options` with `value` chosen.
pub fn select(options: Vec<&'static str>, value: &'static str) -> (r: Setting)
    ensures
        r matches Setting::Select { options: o, value: v } && o@ == options@ && v == value,
{
    Setting::Select { options, value }
}

} // verus!
