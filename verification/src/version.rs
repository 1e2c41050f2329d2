//! Component versions: a logical component type together with a version
//! string, and the semantic-version ordering the registry enforces.

use vstd::prelude::*;

use crate::strutil::{contains_char, find_char, has_char, index_of_char, str_eq, substring};

verus! {

/// Whether `s` is a well-formed three-part semantic version; names the
/// outcome of `semver::Version::parse`.
pub uninterp spec fn is_semver(s: Seq<char>) -> bool;

/// Whether version `a` has strictly higher semantic-version precedence than
/// `b`; names the comparison `semver::Version` makes through its `Ord`.
pub uninterp spec fn semver_gt(a: Seq<char>, b: Seq<char>) -> bool;

/// Relies on `semver::Version::parse`: it accepts exactly the well-formed
/// three-part semantic versions, and its outcome depends on the characters
/// alone.
#[verifier::external_body]
pub(crate) fn semver_is_valid(s: &str) -> (r: bool)
    ensures
        r == is_semver(s@),
{
    semver::Version::parse(s).is_ok()
}

/// Relies on `semver::Version::parse` and on the `Ord` of `semver::Version`:
/// the order of two parsed versions depends on their characters alone. Both
/// inputs must be well-formed versions, so neither parse can fail.
#[verifier::external_body]
pub(crate) fn semver_newer(a: &str, b: &str) -> (r: bool)
    requires
        is_semver(a@),
        is_semver(b@),
    ensures
        r == semver_gt(a@, b@),
{
    let va = semver::Version::parse(a).unwrap();
    let vb = semver::Version::parse(b).unwrap();
    va > vb
}

/// A logical component type, optionally qualified by a version string.
///
/// Serialized it reads `<type>` or `<type>@<version>`; an unqualified value
/// stands for the type's latest version.
#[derive(Debug, Clone, PartialEq, Eq)]
pub struct ADOVersion {
    pub ado_type: String,
    pub version: Option<String>,
}

/// The view of an [`ADOVersion`].
#[verifier::ext_equal]
pub struct ADOVersionView {
    pub ado_type: Seq<char>,
    pub version: Option<Seq<char>>,
}

impl View for ADOVersion {
    type V = ADOVersionView;

    open spec fn view(&self) -> ADOVersionView {
        ADOVersionView {
            ado_type: self.ado_type@,
            version: match self.version {
                Some(ref v) => Some(v@),
                None => None,
            },
        }
    }
}

impl ADOVersionView {
    /// The version this value stands for: the stored one, or `latest` when
    /// unqualified.
    pub open spec fn spec_version(self) -> Seq<char> {
        match self.version {
            Some(v) => v,
            None => "latest"@,
        }
    }

    /// Well-formed: a non-empty type without the delimiter, and a version
    /// that is either the word `latest` or a three-part semantic version.
    pub open spec fn valid(self) -> bool {
        &&& self.ado_type.len() > 0
        &&& !contains_char(self.ado_type, '@')
        &&& match self.version {
            Some(v) => v == "latest"@ || is_semver(v),
            None => true,
        }
    }
}

/// The value a serialized key parses to: split at the first delimiter, or an
/// unqualified type when there is none.
pub open spec fn parse_ado_version(s: Seq<char>) -> ADOVersionView {
    match find_char(s, '@') {
        Some(i) => ADOVersionView {
            ado_type: s.subrange(0, i),
            version: Some(s.subrange(i + 1, s.len() as int)),
        },
        None => ADOVersionView { ado_type: s, version: None },
    }
}

impl ADOVersion {
    /// Parses `<type>` or `<type>@<version>`, splitting at the first
    /// delimiter.
    pub fn from_string(s: &str) -> (r: ADOVersion)
        ensures
            r@ == parse_ado_version(s@),
    {
        match index_of_char(s, '@') {
            Some(i) => {
                proof {
                    crate::strutil::lemma_find_char_props(s@, '@');
                }
                let n = s.unicode_len();
                ADOVersion {
                    ado_type: substring(s, 0, i),
                    version: Some(substring(s, i + 1, n)),
                }
            },
            None => ADOVersion { ado_type: s.to_owned(), version: None },
        }
    }

    /// An unqualified value for `ado_type`, standing for its latest version.
    pub fn from_type(ado_type: &str) -> (r: ADOVersion)
        ensures
            r@ == (ADOVersionView { ado_type: ado_type@, version: None }),
    {
        ADOVersion { ado_type: ado_type.to_owned(), version: None }
    }

    /// The same type, qualified by `version`.
    pub fn with_version(self, version: String) -> (r: ADOVersion)
        ensures
            r@ == (ADOVersionView { ado_type: self@.ado_type, version: Some(version@) }),
    {
        ADOVersion { ado_type: self.ado_type, version: Some(version) }
    }

    /// An owned copy of the component type.
    pub fn get_type(&self) -> (r: String)
        ensures
            r@ == self@.ado_type,
    {
        self.ado_type.clone()
    }

    /// An owned copy of the version this value stands for (`latest` when
    /// unqualified).
    pub fn get_version(&self) -> (r: String)
        ensures
            r@ == self@.spec_version(),
    {
        match &self.version {
            Some(v) => v.clone(),
            None => "latest".to_owned(),
        }
    }

    /// Whether this value stands for a type's latest version.
    pub fn is_latest(&self) -> (r: bool)
        ensures
            r == (self@.spec_version() == "latest"@),
    {
        match &self.version {
            Some(v) => str_eq(v.as_str(), "latest"),
            None => true,
        }
    }

    /// The serialized form: `<type>` or `<type>@<version>`.
    pub fn into_string(self) -> (r: String)
        ensures
            r@ == match self@.version {
                Some(v) => self@.ado_type + "@"@ + v,
                None => self@.ado_type,
            },
    {
        match self.version {
            Some(v) => self.ado_type.concat("@").concat(v.as_str()),
            None => self.ado_type,
        }
    }

    /// Whether the value is well-formed.
    pub fn validate(&self) -> (r: bool)
        ensures
            r == self@.valid(),
    {
        if self.ado_type.as_str().is_empty() {
            return false;
        }
        if has_char(self.ado_type.as_str(), '@') {
            return false;
        }
        match &self.version {
            Some(v) => str_eq(v.as_str(), "latest") || semver_is_valid(v.as_str()),
            None => true,
        }
    }
}

} // verus!
