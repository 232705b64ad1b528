//! The display formats a session can select for keys and values.

use vstd::prelude::*;

verus! {

/// The format to display keys with.
#[derive(Debug, Clone, Copy, PartialEq, Eq, Structural)]
pub enum KeyFormat {
    /// A byte array.
    Bytes,
    /// A UTF-8 string.
    Utf8,
}

/// The format to display values with.
#[derive(Debug, Clone, Copy, PartialEq, Eq, Structural)]
pub enum ValueFormat {
    /// A byte array.
    Bytes,
    /// A one-byte type tag followed by UTF-16 or UTF-8 text.
    ChromeLocalStorage,
}

impl Default for KeyFormat {
    fn default() -> (format: Self)
        ensures
            format == KeyFormat::Bytes,
    {
        KeyFormat::Bytes
    }
}

impl Default for ValueFormat {
    fn default() -> (format: Self)
        ensures
            format == ValueFormat::Bytes,
    {
        ValueFormat::Bytes
    }
}

/// The name under which a key format is reported.
pub open spec fn key_format_name(format: KeyFormat) -> Seq<char> {
    match format {
        KeyFormat::Bytes => "Bytes"@,
        KeyFormat::Utf8 => "Utf8"@,
    }
}

/// The name under which a value format is reported.
pub open spec fn value_format_name(format: ValueFormat) -> Seq<char> {
    match format {
        ValueFormat::Bytes => "Bytes"@,
        ValueFormat::ChromeLocalStorage => "ChromeLocalStorage"@,
    }
}

impl KeyFormat {
    /// The name under which this format is reported.
    pub fn name(self) -> (name: &'static str)
        ensures
            name@ == key_format_name(self),
    {
        match self {
            KeyFormat::Bytes => "Bytes",
            KeyFormat::Utf8 => "Utf8",
        }
    }
}

impl ValueFormat {
    /// The name under which this format is reported.
    pub fn name(self) -> (name: &'static str)
        ensures
            name@ == value_format_name(self),
    {
        match self {
            ValueFormat::Bytes => "Bytes",
            ValueFormat::ChromeLocalStorage => "ChromeLocalStorage",
        }
    }
}

} // verus!
