use vstd::prelude::*;

verus! {

/// Whether `semver::Version::parse` accepts the text `s` as a semantic
/// version.
pub uninterp spec fn semver_ok(s: Seq<char>) -> bool;

/// Whether the version written `a` comes strictly before the version written
/// `b` in the order of `semver::Version`: major, minor, patch, pre-release
/// and build metadata, compared as the crate documents. Both texts are
/// assumed well formed.
pub uninterp spec fn semver_precedes(a: Seq<char>, b: Seq<char>) -> bool;

/// Relies on `semver::Version::parse`: it accepts exactly the well-formed
/// semantic versions, among them the baseline text "0.0.0".
#[verifier::external_body]
fn semver_check(s: &str) -> (r: bool)
    ensures
        r == semver_ok(s@),
        s@ == "0.0.0"@ ==> r,
{
    semver::Version::parse(s).is_ok()
}

/// Relies on `semver::Version::parse` and on the order of `semver::Version`:
/// both arguments parse by the precondition, and the result says whether the
/// first version sorts strictly below the second.
#[verifier::external_body]
fn semver_less(a: &str, b: &str) -> (r: bool)
    requires
        semver_ok(a@),
        semver_ok(b@),
    ensures
        r == semver_precedes(a@, b@),
{
    let va = semver::Version::parse(a).unwrap();
    let vb = semver::Version::parse(b).unwrap();
    va < vb
}

/// A semantic version, kept as the exact text it was read from. Every value
/// of this type holds text that `semver::Version::parse` accepts.
pub struct SemVer {
    text: String,
}

impl View for SemVer {
    type V = Seq<char>;

    closed spec fn view(&self) -> Seq<char> {
        self.text@
    }
}

impl SemVer {
    #[verifier::type_invariant]
    spec fn inv(self) -> bool {
        semver_ok(self.text@)
    }

    /// Parse version text. Returns a version exactly when the text is a
    /// well-formed semantic version, and keeps the text verbatim.
    pub fn parse(s: &str) -> (r: Option<SemVer>)
        ensures
            r is Some <==> semver_ok(s@),
            r matches Some(v) ==> v@ == s@,
    {
        if semver_check(s) {
            Some(SemVer { text: s.to_owned() })
        } else {
            None
        }
    }

    /// The baseline version assumed before anything was ever installed.
    pub fn baseline() -> (r: SemVer)
        ensures
            r@ == "0.0.0"@,
    {
        let valid = semver_check("0.0.0");
        assert(valid);
        SemVer { text: "0.0.0".to_owned() }
    }

    /// The version text, verbatim.
    pub fn as_str(&self) -> (r: &str)
        ensures
            r@ == self@,
    {
        self.text.as_str()
    }

    /// Whether `self` comes strictly before `other` in semantic-version
    /// order.
    pub fn precedes(&self, other: &SemVer) -> (r: bool)
        ensures
            r == semver_precedes(self@, other@),
    {
        proof {
            use_type_invariant(self);
            use_type_invariant(other);
        }
        semver_less(self.text.as_str(), other.text.as_str())
    }
}

} // verus!
