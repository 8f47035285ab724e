//! Errors raised while installing the subsystem.
use vstd::prelude::*;

verus! {

/// Failure to install the download subsystem into the host.
#[derive(Debug)]
pub enum AcceleratorError {
    /// A host entry point could not be located; holds the entry point's name.
    SigNotFound(String),
    /// A configuration entry is absent; holds its key.
    EntryMissing(String),
    /// A configuration entry has the wrong shape; holds its key.
    EntryInvalid(String),
    /// The configuration text is no valid TOML.
    MalformedConfig,
}

impl AcceleratorError {
    /// The text that describes this error.
    pub open spec fn spec_message(&self) -> Seq<char> {
        match self {
            AcceleratorError::SigNotFound(s) => "signature not found ("@ + s@ + ")"@,
            AcceleratorError::EntryMissing(s) => "config entry missing ("@ + s@ + ")"@,
            AcceleratorError::EntryInvalid(s) => "config entry invalid ("@ + s@ + ")"@,
            AcceleratorError::MalformedConfig => "config is no valid TOML"@,
        }
    }

    /// Describes this error in words.
    pub fn message(&self) -> (r: String)
        ensures
            r@ == self.spec_message(),
    {
        let (head, arg) = match self {
            AcceleratorError::SigNotFound(s) => ("signature not found (", s),
            AcceleratorError::EntryMissing(s) => ("config entry missing (", s),
            AcceleratorError::EntryInvalid(s) => ("config entry invalid (", s),
            AcceleratorError::MalformedConfig => return String::from_str("config is no valid TOML"),
        };
        let mut r = String::from_str(head);
        r.append(arg.as_str());
        r.append(")");
        r
    }
}

} // verus!
