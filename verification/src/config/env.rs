//! Reading settings from a snapshot of the process environment.
use vstd::prelude::*;

use super::parse::{parse_bool, parse_i64, parse_unsigned, spec_parse_bool, spec_parse_signed, spec_parse_unsigned};
use crate::text::{str_eq, trim, trim_str};

verus! {

#[derive(Debug)]
pub enum ConfigError {
    /// A required variable is absent or blank.
    Missing(&'static str),
    Invalid { name: &'static str, reason: String },
}

impl ConfigError {
    /// `self` reports the variable `name` as missing.
    pub open spec fn is_missing(self, name: Seq<char>) -> bool {
        self matches ConfigError::Missing(n) && n@ == name
    }

    /// `self` reports the variable `name` as invalid, for `reason`.
    pub open spec fn is_invalid(self, name: Seq<char>, reason: Seq<char>) -> bool {
        self matches ConfigError::Invalid { name: n, reason: r } && n@ == name && r@ == reason
    }

    /// `self` is the error that `fault` describes.
    pub open spec fn reports(self, fault: SettingFault) -> bool {
        match fault {
            SettingFault::Missing(name) => self.is_missing(name),
            SettingFault::Invalid(name, reason) => self.is_invalid(name, reason),
        }
    }

    pub fn invalid(name: &'static str, reason: String) -> (e: ConfigError)
        ensures
            e.is_invalid(name@, reason@),
    {
        ConfigError::Invalid { name, reason }
    }
}

/// Why a setting cannot be read: the variable is missing, or its value is
/// invalid for the given reason.
pub enum SettingFault {
    Missing(Seq<char>),
    Invalid(Seq<char>, Seq<char>),
}

/// The first fault of two settings read in this order.
pub open spec fn first_fault(first: Option<SettingFault>, then: Option<SettingFault>) -> Option<
    SettingFault,
> {
    if first is Some {
        first
    } else {
        then
    }
}

/// The environment variables of the process, as `(name, value)` pairs.
pub struct EnvVars {
    pub vars: Vec<(String, String)>,
}

/// The position of the first variable called `name`.
pub open spec fn first_match(vars: Seq<(Seq<char>, Seq<char>)>, name: Seq<char>, i: int) -> bool {
    0 <= i < vars.len() && vars[i].0 == name && forall|j: int| 0 <= j < i ==> vars[j].0 != name
}

/// The value of the variable `name`, if it is set.
pub open spec fn spec_lookup(vars: Seq<(Seq<char>, Seq<char>)>, name: Seq<char>) -> Option<Seq<char>> {
    if exists|i: int| first_match(vars, name, i) {
        Some(vars[choose|i: int| first_match(vars, name, i)].1)
    } else {
        None
    }
}

impl View for EnvVars {
    type V = Seq<(Seq<char>, Seq<char>)>;

    open spec fn view(&self) -> Seq<(Seq<char>, Seq<char>)> {
        self.vars@.map_values(|p: (String, String)| (p.0@, p.1@))
    }
}

impl EnvVars {
    pub fn new(vars: Vec<(String, String)>) -> (e: EnvVars)
        ensures
            e.vars == vars,
    {
        EnvVars { vars }
    }

    /// The value of the variable `name`, if it is set.
    pub fn lookup(&self, name: &str) -> (r: Option<String>)
        ensures
            match (r, spec_lookup(self@, name@)) {
                (Some(v), Some(w)) => v@ == w,
                (None, None) => true,
                _ => false,
            },
    {
        let mut i: usize = 0;
        while i < self.vars.len()
            invariant
                i <= self.vars.len(),
                forall|j: int| 0 <= j < i ==> self@[j].0 != name@,
            decreases self.vars.len() - i,
        {
            if str_eq(self.vars[i].0.as_str(), name) {
                proof {
                    assert(first_match(self@, name@, i as int));
                    let k = choose|k: int| first_match(self@, name@, k);
                    assert(k == i) by {
                        if k < i {
                            assert(self@[k].0 != name@);
                        } else if k > i {
                            assert(self@[i as int].0 != name@);
                        }
                    }
                }
                return Some(self.vars[i].1.clone());
            }
            i += 1;
        }
        assert(!exists|k: int| first_match(self@, name@, k)) by {
            if exists|k: int| first_match(self@, name@, k) {
                let k = choose|k: int| first_match(self@, name@, k);
                assert(self@[k].0 != name@);
            }
        }
        None
    }
}

/// A type a setting can be parsed into.
pub trait ConfigValue: View + Sized {
    /// The value `text` denotes, or the reason it is invalid.
    spec fn spec_parse(text: Seq<char>) -> Result<Self::V, Seq<char>>;

    fn parse_config(text: &str) -> (r: Result<Self, String>)
        ensures
            match r {
                Ok(v) => Self::spec_parse(text@) == Ok::<Self::V, Seq<char>>(v@),
                Err(m) => Self::spec_parse(text@) == Err::<Self::V, Seq<char>>(m@),
            },
    ;
}

/// The setting `name`: absent when unset or blank, otherwise the parse of its
/// trimmed value; the error is the reason the value is invalid.
pub open spec fn spec_optional<T: ConfigValue>(vars: Seq<(Seq<char>, Seq<char>)>, name: Seq<char>) -> Result<
    Option<T::V>,
    Seq<char>,
> {
    match spec_lookup(vars, name) {
        Some(value) => if trim(value).len() == 0 {
            Ok(None)
        } else {
            match T::spec_parse(trim(value)) {
                Ok(v) => Ok(Some(v)),
                Err(reason) => Err(reason),
            }
        },
        None => Ok(None),
    }
}

/// The setting `name` with `default` when it is absent; `None` when its value
/// is invalid.
pub open spec fn spec_value_or<T: ConfigValue>(
    vars: Seq<(Seq<char>, Seq<char>)>,
    name: Seq<char>,
    default: T::V,
) -> Option<T::V> {
    match spec_optional::<T>(vars, name) {
        Ok(Some(v)) => Some(v),
        Ok(None) => Some(default),
        Err(_) => None,
    }
}

/// The required setting `name`; `None` when it is absent or invalid.
pub open spec fn spec_required<T: ConfigValue>(vars: Seq<(Seq<char>, Seq<char>)>, name: Seq<char>) -> Option<
    T::V,
> {
    match spec_optional::<T>(vars, name) {
        Ok(Some(v)) => Some(v),
        _ => None,
    }
}

/// The fault of the optional setting `name`: only an invalid value.
pub open spec fn optional_fault<T: ConfigValue>(
    vars: Seq<(Seq<char>, Seq<char>)>,
    name: Seq<char>,
) -> Option<SettingFault> {
    match spec_optional::<T>(vars, name) {
        Err(reason) => Some(SettingFault::Invalid(name, reason)),
        Ok(_) => None,
    }
}

/// The fault of the required setting `name`: missing or invalid.
pub open spec fn required_fault<T: ConfigValue>(
    vars: Seq<(Seq<char>, Seq<char>)>,
    name: Seq<char>,
) -> Option<SettingFault> {
    match spec_optional::<T>(vars, name) {
        Err(reason) => Some(SettingFault::Invalid(name, reason)),
        Ok(None) => Some(SettingFault::Missing(name)),
        Ok(Some(_)) => None,
    }
}

/// Reads the optional setting `name`. An unset or blank variable is absent; a
/// value that does not parse is reported as invalid, with the parser's reason.
pub fn optional<T: ConfigValue>(vars: &EnvVars, name: &'static str) -> (r: Result<
    Option<T>,
    ConfigError,
>)
    ensures
        match (r, spec_optional::<T>(vars@, name@)) {
            (Ok(Some(v)), Ok(Some(w))) => v@ == w,
            (Ok(None), Ok(None)) => true,
            (Err(e), Err(reason)) => e.is_invalid(name@, reason),
            _ => false,
        },
{
    match vars.lookup(name) {
        Some(value) => {
            let trimmed = trim_str(value.as_str());
            if trimmed.as_str().is_empty() {
                Ok(None)
            } else {
                match T::parse_config(trimmed.as_str()) {
                    Ok(v) => Ok(Some(v)),
                    Err(reason) => Err(ConfigError::invalid(name, reason)),
                }
            }
        },
        None => Ok(None),
    }
}

/// Reads the setting `name`, falling back to `default` when it is absent.
pub fn optional_or<T: ConfigValue>(vars: &EnvVars, name: &'static str, default: T) -> (r: Result<
    T,
    ConfigError,
>)
    ensures
        match (r, spec_optional::<T>(vars@, name@)) {
            (Ok(v), Ok(Some(w))) => v@ == w,
            (Ok(v), Ok(None)) => v@ == default@,
            (Err(e), Err(reason)) => e.is_invalid(name@, reason),
            _ => false,
        },
{
    match optional::<T>(vars, name)? {
        Some(v) => Ok(v),
        None => Ok(default),
    }
}

/// Reads the setting `name`, which must be present.
pub fn required<T: ConfigValue>(vars: &EnvVars, name: &'static str) -> (r: Result<T, ConfigError>)
    ensures
        match (r, spec_optional::<T>(vars@, name@)) {
            (Ok(v), Ok(Some(w))) => v@ == w,
            (Err(e), Ok(None)) => e.is_missing(name@),
            (Err(e), Err(reason)) => e.is_invalid(name@, reason),
            _ => false,
        },
{
    match optional::<T>(vars, name)? {
        Some(v) => Ok(v),
        None => Err(ConfigError::Missing(name)),
    }
}

impl ConfigValue for String {
    open spec fn spec_parse(text: Seq<char>) -> Result<Seq<char>, Seq<char>> {
        Ok(text)
    }

    fn parse_config(text: &str) -> (r: Result<String, String>) {
        Ok(text.to_owned())
    }
}

impl ConfigValue for bool {
    open spec fn spec_parse(text: Seq<char>) -> Result<bool, Seq<char>> {
        match spec_parse_bool(text) {
            Some(b) => Ok(b),
            None => Err("provided string was not `true` or `false`"@),
        }
    }

    fn parse_config(text: &str) -> (r: Result<bool, String>) {
        match parse_bool(text) {
            Some(b) => Ok(b),
            None => Err("provided string was not `true` or `false`".to_owned()),
        }
    }
}

/// The reason an unsigned setting is invalid, or its value.
pub open spec fn spec_parse_unsigned_setting(text: Seq<char>, max: int) -> Result<int, Seq<char>> {
    match spec_parse_unsigned(text, max) {
        Ok(n) => Ok(n),
        Err(e) => Err(e.spec_message()),
    }
}

impl ConfigValue for u16 {
    open spec fn spec_parse(text: Seq<char>) -> Result<u16, Seq<char>> {
        match spec_parse_unsigned_setting(text, u16::MAX as int) {
            Ok(n) => Ok(n as u16),
            Err(m) => Err(m),
        }
    }

    fn parse_config(text: &str) -> (r: Result<u16, String>) {
        match parse_unsigned(text, u16::MAX as u64) {
            Ok(n) => Ok(n as u16),
            Err(e) => Err(e.message()),
        }
    }
}

impl ConfigValue for u32 {
    open spec fn spec_parse(text: Seq<char>) -> Result<u32, Seq<char>> {
        match spec_parse_unsigned_setting(text, u32::MAX as int) {
            Ok(n) => Ok(n as u32),
            Err(m) => Err(m),
        }
    }

    fn parse_config(text: &str) -> (r: Result<u32, String>) {
        match parse_unsigned(text, u32::MAX as u64) {
            Ok(n) => Ok(n as u32),
            Err(e) => Err(e.message()),
        }
    }
}

impl ConfigValue for u64 {
    open spec fn spec_parse(text: Seq<char>) -> Result<u64, Seq<char>> {
        match spec_parse_unsigned_setting(text, u64::MAX as int) {
            Ok(n) => Ok(n as u64),
            Err(m) => Err(m),
        }
    }

    fn parse_config(text: &str) -> (r: Result<u64, String>) {
        match parse_unsigned(text, u64::MAX) {
            Ok(n) => Ok(n),
            Err(e) => Err(e.message()),
        }
    }
}

impl ConfigValue for usize {
    open spec fn spec_parse(text: Seq<char>) -> Result<usize, Seq<char>> {
        match spec_parse_unsigned_setting(text, usize::MAX as int) {
            Ok(n) => Ok(n as usize),
            Err(m) => Err(m),
        }
    }

    fn parse_config(text: &str) -> (r: Result<usize, String>) {
        match parse_unsigned(text, usize::MAX as u64) {
            Ok(n) => Ok(n as usize),
            Err(e) => Err(e.message()),
        }
    }
}

impl ConfigValue for i64 {
    open spec fn spec_parse(text: Seq<char>) -> Result<i64, Seq<char>> {
        match spec_parse_signed(text, i64::MIN as int, i64::MAX as int) {
            Ok(n) => Ok(n as i64),
            Err(e) => Err(e.spec_message()),
        }
    }

    fn parse_config(text: &str) -> (r: Result<i64, String>) {
        match parse_i64(text) {
            Ok(n) => Ok(n),
            Err(e) => Err(e.message()),
        }
    }
}

} // verus!
