//! Semantic versions and version constraints.
//!
//! Parsing, precedence and matching are the work of the `semver` crate. This
//! module holds a version and a constraint as the text they were read from,
//! and names what `semver` computes from such texts, so that the contracts of
//! the resolver can speak of it.

use vstd::prelude::*;

verus! {

/// Whether `semver::Version::parse` accepts the text.
pub uninterp spec fn version_valid(text: Seq<char>) -> bool;

/// Whether the version that `a` parses to is less than the one that `b`
/// parses to, in the total order of `semver::Version`.
pub uninterp spec fn version_less(a: Seq<char>, b: Seq<char>) -> bool;

/// Whether `semver::VersionReq::parse` accepts the text.
pub uninterp spec fn constraint_valid(text: Seq<char>) -> bool;

/// What `semver::VersionReq` prints for the requirement that the text parses to.
pub uninterp spec fn constraint_display(text: Seq<char>) -> Seq<char>;

/// Whether the requirement that `constraint` parses to matches the version
/// that `version` parses to, as `semver::VersionReq::matches` decides it.
pub uninterp spec fn constraint_admits(constraint: Seq<char>, version: Seq<char>) -> bool;

/// The order of versions is a strict total order on the valid texts: no
/// version is less than itself, the order is transitive, where one
/// version is less than another, any third is greater than the first or
/// less than the second, and of two different texts one is less than the
/// other.
///
/// `semver` documents the order of `Version` as total: of any two
/// versions one is less than, greater than, or equal to the other. Two
/// texts that differ are two versions that differ: the parser takes a
/// version only in the one form in which it is printed, with numbers
/// without leading zeros and the pre-release and the build metadata as
/// they stand, and the order counts all of these.
pub open spec fn version_order_is_total() -> bool {
    &&& forall|a: Seq<char>, b: Seq<char>|
        #![trigger version_less(a, b)]
        version_valid(a) && version_valid(b) && a != b ==> version_less(a, b) || version_less(
            b,
            a,
        )
    &&& forall|a: Seq<char>| version_valid(a) ==> !#[trigger] version_less(a, a)
    &&& forall|a: Seq<char>, b: Seq<char>, c: Seq<char>|
        #![trigger version_less(a, b), version_less(b, c)]
        version_valid(a) && version_valid(b) && version_valid(c) && version_less(a, b)
            && version_less(b, c) ==> version_less(a, c)
    &&& forall|a: Seq<char>, b: Seq<char>, c: Seq<char>|
        #![trigger version_less(a, c), version_less(a, b)]
        #![trigger version_less(a, c), version_less(b, c)]
        version_valid(a) && version_valid(b) && version_valid(c) && version_less(a, c)
            ==> version_less(a, b) || version_less(b, c)
}

/// What one comparison of two valid versions tells: which of them comes
/// first, in an order that is total.
pub open spec fn precedence(less: bool, a: Seq<char>, b: Seq<char>) -> bool {
    less == version_less(a, b) && version_order_is_total()
}

/// A constraint that names no comparator and so is printed as `*`.
pub open spec fn constraint_any(constraint: Seq<char>) -> bool {
    constraint_display(constraint) == "*"@
}

/// `semver::Version::parse`: tells whether the text is a semantic version.
#[verifier::external_body]
fn parses_as_version(text: &str) -> (ok: bool)
    ensures
        ok == version_valid(text@),
{
    semver::Version::parse(text).is_ok()
}

/// `<` of `semver::Version`: compares the two parsed versions. The crate
/// documents the order as total, and its `Ord` is the lexicographic order
/// of major, minor, patch, pre-release and build metadata, in which two
/// versions are equal only where all five are.
#[verifier::external_body]
fn version_precedes(a: &str, b: &str) -> (less: bool)
    requires
        version_valid(a@),
        version_valid(b@),
    ensures
        less == version_less(a@, b@),
        precedence(less, a@, b@),
{
    semver::Version::parse(a).unwrap() < semver::Version::parse(b).unwrap()
}

/// `semver::VersionReq::parse`: tells whether the text is a version requirement.
#[verifier::external_body]
fn parses_as_constraint(text: &str) -> (ok: bool)
    ensures
        ok == constraint_valid(text@),
{
    semver::VersionReq::parse(text).is_ok()
}

/// `Display` of `semver::VersionReq`: the printed form of the parsed requirement.
#[verifier::external_body]
fn printed_constraint(text: &str) -> (printed: String)
    requires
        constraint_valid(text@),
    ensures
        printed@ == constraint_display(text@),
{
    semver::VersionReq::parse(text).unwrap().to_string()
}

/// `semver::VersionReq::default` printed: the requirement without comparators,
/// which the crate prints as `*` and parses from `*`.
#[verifier::external_body]
fn printed_default_constraint() -> (printed: String)
    ensures
        printed@ == "*"@,
        constraint_valid(printed@),
        constraint_display(printed@) == printed@,
{
    semver::VersionReq::default().to_string()
}

/// `semver::VersionReq::matches`: evaluates the parsed requirement on the parsed version.
#[verifier::external_body]
fn constraint_matches(constraint: &str, version: &str) -> (admits: bool)
    requires
        constraint_valid(constraint@),
        version_valid(version@),
    ensures
        admits == constraint_admits(constraint@, version@),
{
    semver::VersionReq::parse(constraint).unwrap().matches(&semver::Version::parse(version).unwrap())
}

/// A semantic version, held as its text.
#[derive(Debug)]
pub struct SdkVersion {
    text: String,
}

impl View for SdkVersion {
    type V = Seq<char>;

    closed spec fn view(&self) -> Seq<char> {
        self.text@
    }
}

impl Clone for SdkVersion {
    fn clone(&self) -> (copy: Self)
        ensures
            copy@ == self@,
    {
        proof {
            use_type_invariant(self);
        }
        SdkVersion { text: self.text.clone() }
    }
}

impl SdkVersion {
    #[verifier::type_invariant]
    spec fn well_formed(self) -> bool {
        version_valid(self.text@)
    }

    /// Reads a version from its text. Fails exactly on the texts that are
    /// no semantic version.
    pub fn parse(text: &str) -> (r: Option<SdkVersion>)
        ensures
            r is Some <==> version_valid(text@),
            r matches Some(v) ==> v@ == text@,
    {
        if parses_as_version(text) {
            Some(SdkVersion { text: String::from_str(text) })
        } else {
            None
        }
    }

    /// The text of the version, which is always a valid one.
    pub fn as_str(&self) -> (text: &str)
        ensures
            text@ == self@,
            version_valid(self@),
    {
        proof {
            use_type_invariant(self);
        }
        self.text.as_str()
    }

    /// Whether this version comes before `other`.
    pub fn is_older_than(&self, other: &SdkVersion) -> (older: bool)
        ensures
            older == version_less(self@, other@),
            version_order_is_total(),
            version_valid(self@),
            version_valid(other@),
    {
        proof {
            use_type_invariant(self);
            use_type_invariant(other);
        }
        version_precedes(self.text.as_str(), other.text.as_str())
    }
}

/// A version constraint such as `^17.0.0`, held as its text.
#[derive(Debug)]
pub struct VersionConstraint {
    text: String,
}

impl View for VersionConstraint {
    type V = Seq<char>;

    closed spec fn view(&self) -> Seq<char> {
        self.text@
    }
}

impl Clone for VersionConstraint {
    fn clone(&self) -> (copy: Self)
        ensures
            copy@ == self@,
    {
        proof {
            use_type_invariant(self);
        }
        VersionConstraint { text: self.text.clone() }
    }
}

impl VersionConstraint {
    #[verifier::type_invariant]
    spec fn well_formed(self) -> bool {
        constraint_valid(self.text@)
    }

    /// Reads a constraint from its text. Fails exactly on the texts that
    /// are no version requirement.
    pub fn parse(text: &str) -> (r: Option<VersionConstraint>)
        ensures
            r is Some <==> constraint_valid(text@),
            r matches Some(c) ==> c@ == text@,
    {
        if parses_as_constraint(text) {
            Some(VersionConstraint { text: String::from_str(text) })
        } else {
            None
        }
    }

    /// The constraint `*`, which a configuration has where it names none.
    pub fn any() -> (c: VersionConstraint)
        ensures
            c@ == "*"@,
            constraint_any(c@),
    {
        VersionConstraint { text: printed_default_constraint() }
    }

    /// The constraint that asks for exactly the version written in `version`.
    /// Fails exactly where `=` followed by that text is no version requirement.
    pub fn exactly(version: &str) -> (r: Option<VersionConstraint>)
        ensures
            r is Some <==> constraint_valid("="@ + version@),
            r matches Some(c) ==> c@ == "="@ + version@,
    {
        let mut text = String::from_str("=");
        text.append(version);
        VersionConstraint::parse(text.as_str())
    }

    /// The text of the constraint, which is always a valid one.
    pub fn as_str(&self) -> (text: &str)
        ensures
            text@ == self@,
            constraint_valid(self@),
    {
        proof {
            use_type_invariant(self);
        }
        self.text.as_str()
    }

    /// Whether the constraint names no comparator.
    pub fn is_any(&self) -> (any: bool)
        ensures
            any == constraint_any(self@),
    {
        proof {
            use_type_invariant(self);
        }
        let printed = printed_constraint(self.text.as_str());
        let star = String::from_str("*");
        printed == star
    }

    /// Whether the constraint matches `version`.
    pub fn admits(&self, version: &SdkVersion) -> (admits: bool)
        ensures
            admits == constraint_admits(self@, version@),
    {
        proof {
            use_type_invariant(self);
        }
        let v = version.as_str();
        constraint_matches(self.text.as_str(), v)
    }
}

} // verus!
