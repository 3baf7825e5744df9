//! The ways in which the engine's operations fail.

use vstd::prelude::*;
use vstd::string::StringExecFns;

verus! {

/// A failure of one of the engine's operations.
#[derive(Clone, Copy, Debug, PartialEq, Eq, Structural)]
pub enum SkipError {
    /// The byte signature occurs nowhere in the scanned module.
    SignatureNotFound,
    /// A module that had to be read or looked up is not available.
    ModuleUnavailable,
    /// Coordinates were to be written before any base address was discovered.
    PointerNotInitialized,
    /// The persisted configuration could not be read.
    ConfigLoadError,
    /// The persisted configuration could be read but not understood.
    ConfigParseError,
    /// A relative pointer lacks the `+` between module name and offset.
    InvalidRelativePointerSyntax,
    /// The offset of a relative pointer is not a hexadecimal number that fits an address.
    InvalidRelativePointerOffset,
    /// A relative pointer resolves to no usable address: to zero, or past the end of the address space.
    InvalidRelativePointer,
}

impl SkipError {
    /// The failure in words.
    pub open spec fn text(self) -> Seq<char> {
        match self {
            SkipError::SignatureNotFound => "Signature not found"@,
            SkipError::ModuleUnavailable => "Module unavailable"@,
            SkipError::PointerNotInitialized => "Pointer not initialised"@,
            SkipError::ConfigLoadError => "Config could not be loaded"@,
            SkipError::ConfigParseError => "Config could not be parsed"@,
            SkipError::InvalidRelativePointerSyntax => "Invalid relative pointer syntax"@,
            SkipError::InvalidRelativePointerOffset => "Invalid relative pointer offset"@,
            SkipError::InvalidRelativePointer => "Invalid relative pointer"@,
        }
    }

    /// The failure in words, for the host to show or log.
    pub fn message(&self) -> (message: String)
        ensures
            message@ == self.text(),
    {
        match self {
            SkipError::SignatureNotFound => String::from_str("Signature not found"),
            SkipError::ModuleUnavailable => String::from_str("Module unavailable"),
            SkipError::PointerNotInitialized => String::from_str("Pointer not initialised"),
            SkipError::ConfigLoadError => String::from_str("Config could not be loaded"),
            SkipError::ConfigParseError => String::from_str("Config could not be parsed"),
            SkipError::InvalidRelativePointerSyntax => String::from_str(
                "Invalid relative pointer syntax",
            ),
            SkipError::InvalidRelativePointerOffset => String::from_str(
                "Invalid relative pointer offset",
            ),
            SkipError::InvalidRelativePointer => String::from_str("Invalid relative pointer"),
        }
    }
}

} // verus!
