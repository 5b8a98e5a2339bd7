//! The application that wrote to the clipboard, and OS-specific rules for
//! comparing application identifiers.
use vstd::prelude::*;

use crate::text::{ascii_lower, chars_of, eq_ignore_ascii_case, lower_chars, owned, str_eq, string_from_chars};

verus! {

/// How an application identifier is spelled on its operating system.
#[derive(Debug, Clone, Copy, PartialEq, Eq, Structural)]
pub enum SourceAppKind {
    /// A macOS bundle identifier, compared exactly.
    MacosBundleId,
    /// A Windows executable name, compared without ASCII case.
    WindowsExe,
}

/// An application that owned the clipboard or had focus.
#[derive(Debug, Clone, PartialEq, Eq)]
pub struct SourceApp {
    pub identifier: String,
    pub display_name: String,
    pub kind: SourceAppKind,
}

/// Whether identifier `other` names the same app as `identifier` under the
/// case rule of `kind`.
pub open spec fn spec_identifier_matches(
    kind: SourceAppKind,
    identifier: Seq<char>,
    other: Seq<char>,
) -> bool {
    match kind {
        SourceAppKind::WindowsExe => ascii_lower(identifier) == ascii_lower(other),
        SourceAppKind::MacosBundleId => identifier == other,
    }
}

impl SourceApp {
    /// Whether `other` refers to this app; case rules follow `self.kind`.
    pub fn identifier_matches(&self, other: &str) -> (r: bool)
        ensures
            r == spec_identifier_matches(self.kind, self.identifier@, other@),
    {
        match self.kind {
            SourceAppKind::WindowsExe => eq_ignore_ascii_case(self.identifier.as_str(), other),
            SourceAppKind::MacosBundleId => str_eq(self.identifier.as_str(), other),
        }
    }

    /// A copy of this app description with the same identifier, name and kind.
    pub fn duplicate(&self) -> (r: SourceApp)
        ensures
            r.identifier@ == self.identifier@,
            r.display_name@ == self.display_name@,
            r.kind == self.kind,
    {
        SourceApp {
            identifier: self.identifier.clone(),
            display_name: self.display_name.clone(),
            kind: self.kind,
        }
    }
}

/// The source app of a Windows process from its executable's file name and
/// the file's version-info description: identified by the lower-cased file
/// name, displayed by the description when there is one, else the name.
pub fn windows_source_app(exe: &str, description: Option<String>) -> (r: SourceApp)
    ensures
        r.identifier@ == ascii_lower(exe@),
        r.display_name@ == match description {
            Some(d) => d@,
            None => exe@,
        },
        r.kind == SourceAppKind::WindowsExe,
{
    let chars = chars_of(exe);
    let identifier = string_from_chars(&lower_chars(&chars));
    let display_name = match description {
        Some(d) => d,
        None => owned(exe),
    };
    SourceApp { identifier, display_name, kind: SourceAppKind::WindowsExe }
}

/// Identifier matching is reflexive for both kinds.
pub proof fn lemma_identifier_matches_itself(kind: SourceAppKind, identifier: Seq<char>)
    ensures
        spec_identifier_matches(kind, identifier, identifier),
{
}

/// Identifier matching is symmetric for both kinds.
pub proof fn lemma_identifier_matches_symmetric(
    kind: SourceAppKind,
    a: Seq<char>,
    b: Seq<char>,
)
    requires
        spec_identifier_matches(kind, a, b),
    ensures
        spec_identifier_matches(kind, b, a),
{
}

} // verus!
