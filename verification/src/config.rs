//! The persisted configuration: a record of named values from which a
//! parameter set is read.
//!
//! How the record is written down in storage is not decided here. The caller
//! decodes it into [`ConfigEntry`] values; this module finds the fields of the
//! parameter set among them and checks each value.

use vstd::prelude::*;
use crate::scalar::Scalar;
use crate::tunables::Tunables;

verus! {

/// A value of the record.
#[derive(Clone, Copy, Debug, PartialEq, Eq, Structural)]
pub enum ConfigValue {
    /// A number: its value as a real, and as an integer if it is written as
    /// one.
    Number { value: Scalar, integer: Option<i64> },
    /// A truth value.
    Flag(bool),
    /// A value of any other kind, such as text or a nested record.
    Other,
}

/// A named value of the record.
#[derive(Debug)]
pub struct ConfigEntry {
    pub name: String,
    pub value: ConfigValue,
}

/// The fields of a parameter set, in the order in which they are read.
#[derive(Clone, Copy, Debug, PartialEq, Eq, Structural)]
pub enum Field {
    EscapeThreshold,
    MaxIteration,
    PanSpeed,
    ScrollSensitivity,
    UseExtendedPrecision,
}

/// Why a record gives no parameter set.
#[derive(Clone, Copy, Debug, PartialEq, Eq, Structural)]
pub enum ConfigError {
    /// The record has no entry of this name.
    Missing(Field),
    /// The entry holds a value of another kind than the field takes.
    Mistyped(Field),
    /// The value is of the right kind but not one the field may take.
    Invalid(Field),
}

impl Field {
    /// The name of the field in a record.
    pub open spec fn name(self) -> Seq<char> {
        match self {
            Field::EscapeThreshold => "escape_threshold"@,
            Field::MaxIteration => "max_iteration"@,
            Field::PanSpeed => "pan_speed"@,
            Field::ScrollSensitivity => "scroll_sensitivity"@,
            Field::UseExtendedPrecision => "use_extended_precision"@,
        }
    }

    /// The name of the field in a record.
    pub fn key(self) -> (k: &'static str)
        ensures
            k@ == self.name(),
    {
        match self {
            Field::EscapeThreshold => "escape_threshold",
            Field::MaxIteration => "max_iteration",
            Field::PanSpeed => "pan_speed",
            Field::ScrollSensitivity => "scroll_sensitivity",
            Field::UseExtendedPrecision => "use_extended_precision",
        }
    }
}

/// The value that a record gives to `name`: that of the first entry so named.
/// Entries of other names are passed over.
pub open spec fn lookup(entries: Seq<ConfigEntry>, name: Seq<char>) -> Option<ConfigValue>
    decreases entries.len(),
{
    if entries.len() == 0 {
        None
    } else if entries.first().name@ == name {
        Some(entries.first().value)
    } else {
        lookup(entries.drop_first(), name)
    }
}

/// A field that takes a real number above zero.
pub open spec fn real_field(entries: Seq<ConfigEntry>, field: Field) -> Result<
    Scalar,
    ConfigError,
> {
    match lookup(entries, field.name()) {
        None => Err(ConfigError::Missing(field)),
        Some(ConfigValue::Number { value, .. }) => if value.positive() {
            Ok(value)
        } else {
            Err(ConfigError::Invalid(field))
        },
        Some(_) => Err(ConfigError::Mistyped(field)),
    }
}

/// A field that takes a count: a number written as an integer, from zero to
/// `i32::MAX`.
pub open spec fn count_field(entries: Seq<ConfigEntry>, field: Field) -> Result<i32, ConfigError> {
    match lookup(entries, field.name()) {
        None => Err(ConfigError::Missing(field)),
        Some(ConfigValue::Number { integer: Some(n), .. }) => if 0 <= n <= i32::MAX {
            Ok(n as i32)
        } else {
            Err(ConfigError::Invalid(field))
        },
        Some(_) => Err(ConfigError::Mistyped(field)),
    }
}

/// A field that takes a flag.
pub open spec fn flag_field(entries: Seq<ConfigEntry>, field: Field) -> Result<bool, ConfigError> {
    match lookup(entries, field.name()) {
        None => Err(ConfigError::Missing(field)),
        Some(ConfigValue::Flag(b)) => Ok(b),
        Some(_) => Err(ConfigError::Mistyped(field)),
    }
}

/// Whether the record gives `field` a value that the field may take, and if
/// not, why.
pub open spec fn validate_field(entries: Seq<ConfigEntry>, field: Field) -> Result<(), ConfigError> {
    match field {
        Field::MaxIteration => match count_field(entries, field) {
            Ok(_) => Ok(()),
            Err(e) => Err(e),
        },
        Field::UseExtendedPrecision => match flag_field(entries, field) {
            Ok(_) => Ok(()),
            Err(e) => Err(e),
        },
        _ => match real_field(entries, field) {
            Ok(_) => Ok(()),
            Err(e) => Err(e),
        },
    }
}

/// The parameter set that a record holds. All five fields are required; the
/// first field, in the order of [`Field`], that is missing, mistyped or
/// invalid decides the error.
pub open spec fn parse_tunables(entries: Seq<ConfigEntry>) -> Result<Tunables, ConfigError> {
    match real_field(entries, Field::EscapeThreshold) {
        Err(e) => Err(e),
        Ok(escape_threshold) => match count_field(entries, Field::MaxIteration) {
            Err(e) => Err(e),
            Ok(max_iteration) => match real_field(entries, Field::PanSpeed) {
                Err(e) => Err(e),
                Ok(pan_speed) => match real_field(entries, Field::ScrollSensitivity) {
                    Err(e) => Err(e),
                    Ok(scroll_sensitivity) => match flag_field(
                        entries,
                        Field::UseExtendedPrecision,
                    ) {
                        Err(e) => Err(e),
                        Ok(use_extended_precision) => Ok(
                            Tunables {
                                escape_threshold,
                                max_iteration,
                                pan_speed,
                                scroll_sensitivity,
                                use_extended_precision,
                            },
                        ),
                    },
                },
            },
        },
    }
}

/// Finds the value that the record gives to `name`.
pub fn find(entries: &Vec<ConfigEntry>, name: &str) -> (r: Option<ConfigValue>)
    ensures
        r == lookup(entries@, name@),
{
    let key = name.to_owned();
    let mut i: usize = 0;
    assert(entries@.skip(0) =~= entries@);
    while i < entries.len()
        invariant
            i <= entries.len(),
            key@ == name@,
            lookup(entries@, name@) == lookup(entries@.skip(i as int), name@),
        decreases entries.len() - i,
    {
        proof {
            let rest = entries@.skip(i as int);
            assert(rest.first() == entries@[i as int]);
            assert(rest.drop_first() =~= entries@.skip(i + 1));
        }
        if entries[i].name == key {
            return Some(entries[i].value);
        }
        i += 1;
    }
    None
}

/// Reads a field that takes a real number above zero.
pub fn read_real(entries: &Vec<ConfigEntry>, field: Field) -> (r: Result<Scalar, ConfigError>)
    ensures
        r == real_field(entries@, field),
{
    match find(entries, field.key()) {
        None => Err(ConfigError::Missing(field)),
        Some(ConfigValue::Number { value, .. }) => if value.is_positive() {
            Ok(value)
        } else {
            Err(ConfigError::Invalid(field))
        },
        Some(_) => Err(ConfigError::Mistyped(field)),
    }
}

/// Reads a field that takes a count.
pub fn read_count(entries: &Vec<ConfigEntry>, field: Field) -> (r: Result<i32, ConfigError>)
    ensures
        r == count_field(entries@, field),
{
    match find(entries, field.key()) {
        None => Err(ConfigError::Missing(field)),
        Some(ConfigValue::Number { integer: Some(n), .. }) => if 0 <= n && n <= 0x7FFF_FFFF {
            Ok(n as i32)
        } else {
            Err(ConfigError::Invalid(field))
        },
        Some(_) => Err(ConfigError::Mistyped(field)),
    }
}

/// Reads a field that takes a flag.
pub fn read_flag(entries: &Vec<ConfigEntry>, field: Field) -> (r: Result<bool, ConfigError>)
    ensures
        r == flag_field(entries@, field),
{
    match find(entries, field.key()) {
        None => Err(ConfigError::Missing(field)),
        Some(ConfigValue::Flag(b)) => Ok(b),
        Some(_) => Err(ConfigError::Mistyped(field)),
    }
}

impl Tunables {
    /// Reads a parameter set from a record. Entries of unknown names are
    /// passed over; a set that is returned is valid.
    pub fn from_record(entries: &Vec<ConfigEntry>) -> (r: Result<Tunables, ConfigError>)
        ensures
            r == parse_tunables(entries@),
            r matches Ok(t) ==> t.valid(),
    {
        let escape_threshold = match read_real(entries, Field::EscapeThreshold) {
            Ok(s) => s,
            Err(e) => {
                return Err(e);
            },
        };
        let max_iteration = match read_count(entries, Field::MaxIteration) {
            Ok(n) => n,
            Err(e) => {
                return Err(e);
            },
        };
        let pan_speed = match read_real(entries, Field::PanSpeed) {
            Ok(s) => s,
            Err(e) => {
                return Err(e);
            },
        };
        let scroll_sensitivity = match read_real(entries, Field::ScrollSensitivity) {
            Ok(s) => s,
            Err(e) => {
                return Err(e);
            },
        };
        let use_extended_precision = match read_flag(entries, Field::UseExtendedPrecision) {
            Ok(b) => b,
            Err(e) => {
                return Err(e);
            },
        };
        Ok(
            Tunables {
                escape_threshold,
                max_iteration,
                pan_speed,
                scroll_sensitivity,
                use_extended_precision,
            },
        )
    }
}

/// [`lookup`] finds the first entry of the given name: it gives a value
/// exactly when some entry has the name, and then the value of the entry
/// before which no entry has it.
pub proof fn lemma_lookup_finds_first(entries: Seq<ConfigEntry>, name: Seq<char>)
    ensures
        lookup(entries, name) is None <==> forall|i: int|
            0 <= i < entries.len() ==> (#[trigger] entries[i]).name@ != name,
        lookup(entries, name) matches Some(value) ==> exists|i: int|
            0 <= i < entries.len() && (#[trigger] entries[i]).name@ == name && entries[i].value
                == value && forall|j: int| 0 <= j < i ==> (#[trigger] entries[j]).name@ != name,
    decreases entries.len(),
{
    if entries.len() > 0 && entries.first().name@ != name {
        let rest = entries.drop_first();
        lemma_lookup_finds_first(rest, name);
        if lookup(rest, name) is None {
            assert forall|i: int| 0 <= i < entries.len() implies (#[trigger] entries[i]).name@
                != name by {
                if i > 0 {
                    assert(rest[i - 1] == entries[i]);
                }
            }
        } else {
            let value = lookup(rest, name)->0;
            let k = choose|i: int|
                0 <= i < rest.len() && (#[trigger] rest[i]).name@ == name && rest[i].value == value
                    && forall|j: int| 0 <= j < i ==> (#[trigger] rest[j]).name@ != name;
            assert(entries[k + 1] == rest[k]);
            assert forall|j: int| 0 <= j < k + 1 implies (#[trigger] entries[j]).name@ != name by {
                if j > 0 {
                    assert(rest[j - 1] == entries[j]);
                }
            }
        }
    }
}

/// A parameter set read from a record is valid, and a record in which any
/// field is missing, mistyped or invalid gives no parameter set.
pub proof fn lemma_record_is_read_whole_or_not_at_all(entries: Seq<ConfigEntry>, field: Field)
    ensures
        parse_tunables(entries) matches Ok(tunables) ==> tunables.valid(),
        validate_field(entries, field) is Err ==> parse_tunables(entries) is Err,
{
}

} // verus!
