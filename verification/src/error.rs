//! The error taxonomy shared by every helper: each variant carries enough
//! structured context to build an actionable message without re-deriving it,
//! and is returned to the immediate caller, never swallowed.

use vstd::prelude::*;
use crate::text::{spec_dec_nat, usize_to_string};

verus! {

/// The serialization format a raw document is decoded from. A closed set,
/// always supplied explicitly by the caller: no format sniffing.
#[derive(Debug, Clone, Copy, PartialEq, Eq, Structural)]
pub enum FormatTag {
    Json,
    Yaml,
    Toml,
}

impl FormatTag {
    /// The lower-case name of the format, as callers write it.
    pub open spec fn spec_name(self) -> Seq<char> {
        match self {
            FormatTag::Json => "json"@,
            FormatTag::Yaml => "yaml"@,
            FormatTag::Toml => "toml"@,
        }
    }

    /// Executable form of `spec_name`.
    pub fn name(&self) -> (r: &'static str)
        ensures
            r@ == self.spec_name(),
    {
        match self {
            FormatTag::Json => "json",
            FormatTag::Yaml => "yaml",
            FormatTag::Toml => "toml",
        }
    }
}

/// A failed helper invocation. Every error names the stage that failed and
/// the context needed to report it precisely.
#[derive(Debug, PartialEq, Eq)]
pub enum HelperError {
    /// A required positional parameter was absent: `position` is the first
    /// missing zero-based position, `name` the declared name of that
    /// parameter and `helper_signature` the rendered signature.
    MissingParameter { position: usize, name: String, helper_signature: String },
    /// The raw document could not be parsed in the requested format;
    /// `message` is the underlying parser's message.
    DecodeFailure { format: FormatTag, message: String },
    /// A path segment could not be resolved: `path` is the full path
    /// expression as written, `at_segment` the zero-based index of the
    /// failing segment and `segment` its text.
    PathNotFound { path: String, at_segment: usize, segment: String },
    /// A value had the wrong kind for its position: both sides are
    /// human-readable descriptions.
    TypeMismatch { expected: String, actual: String },
}

impl HelperError {
    /// The rendered message for `MissingParameter`.
    pub open spec fn spec_missing_message(position: nat, name: Seq<char>, sig: Seq<char>) -> Seq<char> {
        "missing param "@ + spec_dec_nat(position) + " '"@ + name + "' of '"@ + sig + "'"@
    }

    /// The rendered message for `DecodeFailure`.
    pub open spec fn spec_decode_message(format: FormatTag, message: Seq<char>) -> Seq<char> {
        "failed to decode "@ + format.spec_name() + ": "@ + message
    }

    /// The rendered message for `PathNotFound`.
    pub open spec fn spec_path_message(path: Seq<char>, at: nat, segment: Seq<char>) -> Seq<char> {
        "path '"@ + path + "' not found at segment "@ + spec_dec_nat(at) + " '"@ + segment + "'"@
    }

    /// The rendered message for `TypeMismatch`.
    pub open spec fn spec_mismatch_message(expected: Seq<char>, actual: Seq<char>) -> Seq<char> {
        "type mismatch: expected "@ + expected + ", got "@ + actual
    }

    /// A human-readable description of the error, built from the context the
    /// variant carries.
    pub fn message(&self) -> (r: String)
        ensures
            self matches HelperError::MissingParameter { position, name, helper_signature }
                ==> r@ == HelperError::spec_missing_message(position as nat, name@, helper_signature@),
            self matches HelperError::DecodeFailure { format, message }
                ==> r@ == HelperError::spec_decode_message(*format, message@),
            self matches HelperError::PathNotFound { path, at_segment, segment }
                ==> r@ == HelperError::spec_path_message(path@, at_segment as nat, segment@),
            self matches HelperError::TypeMismatch { expected, actual }
                ==> r@ == HelperError::spec_mismatch_message(expected@, actual@),
    {
        match self {
            HelperError::MissingParameter { position, name, helper_signature } => {
                let mut s = String::new();
                s.append("missing param ");
                let num = usize_to_string(*position);
                s.append(num.as_str());
                s.append(" '");
                s.append(name.as_str());
                s.append("' of '");
                s.append(helper_signature.as_str());
                s.append("'");
                proof {
                    assert(s@ =~= HelperError::spec_missing_message(
                        *position as nat, name@, helper_signature@));
                }
                s
            },
            HelperError::DecodeFailure { format, message } => {
                let mut s = String::new();
                s.append("failed to decode ");
                s.append(format.name());
                s.append(": ");
                s.append(message.as_str());
                proof {
                    assert(s@ =~= HelperError::spec_decode_message(*format, message@));
                }
                s
            },
            HelperError::PathNotFound { path, at_segment, segment } => {
                let mut s = String::new();
                s.append("path '");
                s.append(path.as_str());
                s.append("' not found at segment ");
                let num = usize_to_string(*at_segment);
                s.append(num.as_str());
                s.append(" '");
                s.append(segment.as_str());
                s.append("'");
                proof {
                    assert(s@ =~= HelperError::spec_path_message(
                        path@, *at_segment as nat, segment@));
                }
                s
            },
            HelperError::TypeMismatch { expected, actual } => {
                let mut s = String::new();
                s.append("type mismatch: expected ");
                s.append(expected.as_str());
                s.append(", got ");
                s.append(actual.as_str());
                proof {
                    assert(s@ =~= HelperError::spec_mismatch_message(expected@, actual@));
                }
                s
            },
        }
    }
}

} // verus!
