//! Protocol versions a session can be configured with.

use vstd::prelude::*;

verus! {

/// MQTT protocol revision. Only [`Version::V311`] is operative; the other two
/// are recognised so that they can be rejected.
#[derive(Debug, Clone, Copy, PartialEq, Eq, Structural)]
pub enum Version {
    V31,
    V311,
    V5,
}

/// The version that a configuration string names, if it names one.
pub open spec fn version_named(text: Seq<char>) -> Option<Version> {
    if text == "3.1"@ {
        Some(Version::V31)
    } else if text == "3.1.1"@ {
        Some(Version::V311)
    } else if text == "5"@ {
        Some(Version::V5)
    } else {
        None
    }
}

impl Version {
    /// Reads a version from its configuration string: `3.1`, `3.1.1` or `5`.
    pub fn from_str(version: &str) -> (r: Result<Version, String>)
        ensures
            match version_named(version@) {
                Some(v) => r == Ok::<Version, String>(v),
                None => r is Err && r->Err_0@ == "Invalid protocol version"@,
            },
    {
        let given = version.to_owned();
        if given == "3.1".to_owned() {
            Ok(Version::V31)
        } else if given == "3.1.1".to_owned() {
            Ok(Version::V311)
        } else if given == "5".to_owned() {
            Ok(Version::V5)
        } else {
            Err("Invalid protocol version".to_owned())
        }
    }

    /// Whether sessions can be run with this version.
    pub fn is_supported(&self) -> (r: bool)
        ensures
            r == (*self == Version::V311),
    {
        match self {
            Version::V311 => true,
            _ => false,
        }
    }
}

} // verus!
