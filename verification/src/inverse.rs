//! Names of the losses that inverse nonlinear shrinkage can target.
use vstd::prelude::*;

use crate::text::{ascii_lower, lowercase_equal};

verus! {

/// Which inverse-shrinkage loss the precision eigenvalues are optimal for.
#[derive(Debug, Clone, Copy, PartialEq, Eq, Structural)]
pub enum InverseShrinkageMethod {
    /// Quadratic-inverse shrinkage (Frobenius, inverse Stein's, minimum
    /// variance). The default and the best all-round choice.
    Qis,
    /// Linear-inverse shrinkage (Stein's loss).
    Lis,
    /// Geometric-inverse shrinkage (symmetrized Kullback–Leibler): the
    /// geometric mean of the QIS and LIS covariance estimates.
    Gis,
}

impl Default for InverseShrinkageMethod {
    fn default() -> (r: Self)
        ensures
            r == InverseShrinkageMethod::Qis,
    {
        InverseShrinkageMethod::Qis
    }
}

/// The lower-case caller-facing name of each loss.
pub open spec fn spec_inverse_name(m: InverseShrinkageMethod) -> Seq<char> {
    match m {
        InverseShrinkageMethod::Qis => "qis"@,
        InverseShrinkageMethod::Lis => "lis"@,
        InverseShrinkageMethod::Gis => "gis"@,
    }
}

/// The loss that an already lower-cased name denotes, if any.
pub open spec fn spec_parse_lowered(s: Seq<char>) -> Option<InverseShrinkageMethod> {
    if s == "qis"@ || s == "quadratic"@ || s == "quadratic_inverse"@ {
        Some(InverseShrinkageMethod::Qis)
    } else if s == "lis"@ || s == "linear"@ || s == "linear_inverse"@ {
        Some(InverseShrinkageMethod::Lis)
    } else if s == "gis"@ || s == "geometric"@ || s == "geometric_inverse"@ {
        Some(InverseShrinkageMethod::Gis)
    } else {
        None
    }
}

impl InverseShrinkageMethod {
    /// Lower-case caller-facing name.
    pub fn as_str(self) -> (r: &'static str)
        ensures
            r@ == spec_inverse_name(self),
    {
        match self {
            InverseShrinkageMethod::Qis => "qis",
            InverseShrinkageMethod::Lis => "lis",
            InverseShrinkageMethod::Gis => "gis",
        }
    }

    /// Parse a caller-facing name, ignoring ASCII case: the short names
    /// `qis`/`lis`/`gis` and the long forms `quadratic[_inverse]`,
    /// `linear[_inverse]`, `geometric[_inverse]`.
    pub fn parse(name: &str) -> (r: Option<Self>)
        ensures
            r == spec_parse_lowered(ascii_lower(name@)),
    {
        if lowercase_equal(name, "qis") || lowercase_equal(name, "quadratic") || lowercase_equal(
            name,
            "quadratic_inverse",
        ) {
            Some(InverseShrinkageMethod::Qis)
        } else if lowercase_equal(name, "lis") || lowercase_equal(name, "linear")
            || lowercase_equal(name, "linear_inverse") {
            Some(InverseShrinkageMethod::Lis)
        } else if lowercase_equal(name, "gis") || lowercase_equal(name, "geometric")
            || lowercase_equal(name, "geometric_inverse") {
            Some(InverseShrinkageMethod::Gis)
        } else {
            None
        }
    }
}

/// Lower-casing twice is lower-casing once.
pub proof fn lemma_ascii_lower_idempotent(s: Seq<char>)
    ensures
        ascii_lower(ascii_lower(s)) == ascii_lower(s),
{
    assert(ascii_lower(ascii_lower(s)) =~= ascii_lower(s));
}

/// Parsing ignores ASCII case: a name and its lower-cased form denote the
/// same loss.
pub proof fn lemma_parse_ignores_case(s: Seq<char>)
    ensures
        spec_parse_lowered(ascii_lower(ascii_lower(s))) == spec_parse_lowered(ascii_lower(s)),
{
    lemma_ascii_lower_idempotent(s);
}

/// Every documented spelling parses to its loss, in any ASCII case: the
/// short names `qis`, `lis`, `gis`, the long forms `quadratic`, `linear`,
/// `geometric`, and the `_inverse` forms.
pub proof fn lemma_spellings_parse_to_their_loss()
    ensures
        forall|s: Seq<char>|
            ascii_lower(s) == "qis"@ ==> #[trigger] spec_parse_lowered(ascii_lower(s)) == Some(
                InverseShrinkageMethod::Qis,
            ),
        forall|s: Seq<char>|
            ascii_lower(s) == "quadratic"@ ==> #[trigger] spec_parse_lowered(ascii_lower(s)) == Some(
                InverseShrinkageMethod::Qis,
            ),
        forall|s: Seq<char>|
            ascii_lower(s) == "quadratic_inverse"@ ==> #[trigger] spec_parse_lowered(ascii_lower(s)) == Some(
                InverseShrinkageMethod::Qis,
            ),
        forall|s: Seq<char>|
            ascii_lower(s) == "lis"@ ==> #[trigger] spec_parse_lowered(ascii_lower(s)) == Some(
                InverseShrinkageMethod::Lis,
            ),
        forall|s: Seq<char>|
            ascii_lower(s) == "linear"@ ==> #[trigger] spec_parse_lowered(ascii_lower(s)) == Some(
                InverseShrinkageMethod::Lis,
            ),
        forall|s: Seq<char>|
            ascii_lower(s) == "linear_inverse"@ ==> #[trigger] spec_parse_lowered(ascii_lower(s)) == Some(
                InverseShrinkageMethod::Lis,
            ),
        forall|s: Seq<char>|
            ascii_lower(s) == "gis"@ ==> #[trigger] spec_parse_lowered(ascii_lower(s)) == Some(
                InverseShrinkageMethod::Gis,
            ),
        forall|s: Seq<char>|
            ascii_lower(s) == "geometric"@ ==> #[trigger] spec_parse_lowered(ascii_lower(s)) == Some(
                InverseShrinkageMethod::Gis,
            ),
        forall|s: Seq<char>|
            ascii_lower(s) == "geometric_inverse"@ ==> #[trigger] spec_parse_lowered(ascii_lower(s)) == Some(
                InverseShrinkageMethod::Gis,
            ),
{
    reveal_strlit("qis");
    let _ = "qis"@.len();
    reveal_strlit("quadratic");
    let _ = "quadratic"@.len();
    reveal_strlit("quadratic_inverse");
    let _ = "quadratic_inverse"@.len();
    reveal_strlit("lis");
    let _ = "lis"@.len();
    reveal_strlit("linear");
    let _ = "linear"@.len();
    reveal_strlit("linear_inverse");
    let _ = "linear_inverse"@.len();
    reveal_strlit("gis");
    let _ = "gis"@.len();
    reveal_strlit("geometric");
    let _ = "geometric"@.len();
    reveal_strlit("geometric_inverse");
    let _ = "geometric_inverse"@.len();
    let _ = "qis"@[0];
    let _ = "lis"@[0];
    let _ = "gis"@[0];
    let _ = "quadratic"@[0];
    let _ = "geometric"@[0];
    let _ = "quadratic_inverse"@[0];
    let _ = "geometric_inverse"@[0];
    assert(spec_parse_lowered("qis"@) == Some(InverseShrinkageMethod::Qis));
    assert(spec_parse_lowered("quadratic"@) == Some(InverseShrinkageMethod::Qis));
    assert(spec_parse_lowered("quadratic_inverse"@) == Some(InverseShrinkageMethod::Qis));
    assert(spec_parse_lowered("lis"@) == Some(InverseShrinkageMethod::Lis));
    assert(spec_parse_lowered("linear"@) == Some(InverseShrinkageMethod::Lis));
    assert(spec_parse_lowered("linear_inverse"@) == Some(InverseShrinkageMethod::Lis));
    assert(spec_parse_lowered("gis"@) == Some(InverseShrinkageMethod::Gis));
    assert(spec_parse_lowered("geometric"@) == Some(InverseShrinkageMethod::Gis));
    assert(spec_parse_lowered("geometric_inverse"@) == Some(InverseShrinkageMethod::Gis));
}

/// Parsing a loss's own name gives the loss back.
pub proof fn lemma_parse_inverts_name(m: InverseShrinkageMethod)
    ensures
        spec_parse_lowered(ascii_lower(spec_inverse_name(m))) == Some(m),
{
    reveal_strlit("qis");
    let _ = "qis"@.len();
    reveal_strlit("quadratic");
    let _ = "quadratic"@.len();
    reveal_strlit("quadratic_inverse");
    let _ = "quadratic_inverse"@.len();
    reveal_strlit("lis");
    let _ = "lis"@.len();
    reveal_strlit("linear");
    let _ = "linear"@.len();
    reveal_strlit("linear_inverse");
    let _ = "linear_inverse"@.len();
    reveal_strlit("gis");
    let _ = "gis"@.len();
    reveal_strlit("geometric");
    let _ = "geometric"@.len();
    reveal_strlit("geometric_inverse");
    let _ = "geometric_inverse"@.len();
    let _ = "qis"@[0]; let _ = "qis"@[1]; let _ = "qis"@[2];
    let _ = "lis"@[0]; let _ = "lis"@[1]; let _ = "lis"@[2];
    let _ = "gis"@[0]; let _ = "gis"@[1]; let _ = "gis"@[2];
    let n = spec_inverse_name(m);
    assert(ascii_lower(n) =~= n);
    match m {
        InverseShrinkageMethod::Qis => {},
        InverseShrinkageMethod::Lis => {},
        InverseShrinkageMethod::Gis => {},
    }
}

} // verus!
