//! The ways in which synthesis fails.

use vstd::prelude::*;

verus! {

/// Why no record type was produced. The first fault found ends the run, and
/// nothing is produced beside it.
#[derive(Clone, Copy, Debug, PartialEq, Eq, Structural)]
pub enum ConfigError {
    /// A configuration names a key that its scope does not know.
    UnknownConfigKey,
    /// A configuration names one key twice.
    DuplicateConfigKey,
    /// A configuration is not a list of entries, or the value of a key is
    /// missing, has the wrong shape or is refused by the host language.
    MalformedConfig,
    /// A variant with named fields was denied its payload type and given no
    /// field type.
    AmbiguousFieldType,
    /// The input is not an enum.
    UnsupportedInputShape,
}

/// A fault of a configuration, and the token at which it lies: the index, in
/// the argument list of the configuration annotation, of the key of the
/// faulty entry, or of the token at which the list stops being a list of
/// entries. There is no such token where the annotation has no argument list,
/// and where the fault lies in what the configuration asks of the variant.
#[derive(Clone, Copy, Debug, PartialEq, Eq, Structural)]
pub struct ConfigFault {
    pub error: ConfigError,
    pub at: Option<usize>,
}

/// Where a fault lies.
#[derive(Clone, Copy, Debug, PartialEq, Eq, Structural)]
pub enum Site {
    /// In the type definition itself.
    Input,
    /// In the configuration written on the enum.
    Config,
    /// In the variant at this index, counted from 0: in its configuration, or
    /// in what its configuration asks of its fields.
    Variant(usize),
}

/// A fault, and where it lies: the site, and for a fault of a configuration
/// the token in the argument list of the configuration annotation.
#[derive(Clone, Copy, Debug, PartialEq, Eq, Structural)]
pub struct Fault {
    pub error: ConfigError,
    pub site: Site,
    pub at: Option<usize>,
}

/// A fault of a configuration, as a fault of the site at which the
/// configuration stands.
pub open spec fn fault_in(site: Site, fault: ConfigFault) -> Fault {
    Fault { error: fault.error, site, at: fault.at }
}

impl ConfigFault {
    /// This fault, as a fault of the site at which the configuration stands.
    pub fn in_site(self, site: Site) -> (res: Fault)
        ensures
            res == fault_in(site, self),
    {
        Fault { error: self.error, site, at: self.at }
    }
}

/// What each fault says to the user.
pub open spec fn message_of(fault: ConfigError) -> Seq<char> {
    match fault {
        ConfigError::UnknownConfigKey => "unexpected key in the configuration"@,
        ConfigError::DuplicateConfigKey => "a key is given twice in the configuration"@,
        ConfigError::MalformedConfig =>
            "the configuration is not a list of `key`, `key = value` or `key(...)` entries with values of the right shape"@,
        ConfigError::AmbiguousFieldType =>
            "field_ty_override is required for named fields if gen_variant_ty is false"@,
        ConfigError::UnsupportedInputShape => "VariantsDataStruct can only be derived for enums"@,
    }
}

impl ConfigError {
    /// The text to show to the user.
    pub fn message(&self) -> (text: &'static str)
        ensures
            text@ == message_of(*self),
    {
        match self {
            ConfigError::UnknownConfigKey => "unexpected key in the configuration",
            ConfigError::DuplicateConfigKey => "a key is given twice in the configuration",
            ConfigError::MalformedConfig =>
                "the configuration is not a list of `key`, `key = value` or `key(...)` entries with values of the right shape",
            ConfigError::AmbiguousFieldType =>
                "field_ty_override is required for named fields if gen_variant_ty is false",
            ConfigError::UnsupportedInputShape => "VariantsDataStruct can only be derived for enums",
        }
    }
}

/// Whether a result is the given outcome: the same fault, or a value with
/// the given mathematical value.
pub open spec fn yields<T: DeepView, E>(res: Result<T, E>, outcome: Result<T::V, E>) -> bool {
    match outcome {
        Ok(value) => res is Ok && res->Ok_0.deep_view() == value,
        Err(fault) => res is Err && res->Err_0 == fault,
    }
}

} // verus!
