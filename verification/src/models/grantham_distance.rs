//! A pair of amino acids with the Grantham distance between them.

use crate::catalog::unknown_record;
use crate::models::amino_acid::{record_text, AminoAcid, AminoAcidRecord};
use crate::text::{decimal, push_decimal};
use vstd::prelude::*;
use vstd::std_specs::cmp::PartialEqSpecImpl;

verus! {

/// What a pair holds, as plain mathematical values.
#[verifier::ext_equal]
pub ghost struct GranthamDistanceView {
    /// The first amino acid.
    pub first: AminoAcidRecord,
    /// The second amino acid.
    pub second: AminoAcidRecord,
    /// The distance between the two.
    pub distance: nat,
}

/// The pair that holds `first` and `second` at `distance`.
pub open spec fn pair_of(
    first: AminoAcidRecord,
    second: AminoAcidRecord,
    distance: nat,
) -> GranthamDistanceView {
    GranthamDistanceView { first, second, distance }
}

/// A pair gives back what it was built from: the first record, the second
/// record and the distance, each unchanged, whatever the three are.
pub proof fn lemma_pair_reads_back(first: AminoAcidRecord, second: AminoAcidRecord, distance: nat)
    ensures
        pair_of(first, second, distance).first == first,
        pair_of(first, second, distance).second == second,
        pair_of(first, second, distance).distance == distance,
{
}

/// The one-line text of a pair: both records in their own one-line text,
/// then the distance as a decimal numeral.
pub open spec fn pair_text(p: GranthamDistanceView) -> Seq<char> {
    "GranthamDistance { first: "@ + record_text(p.first) + ", second: "@ + record_text(p.second)
        + ", distance: "@ + decimal(p.distance) + " }"@
}

/// Two amino acids and the Grantham distance between them. The distance is
/// supplied by the caller and stored as given; it is not computed here.
#[derive(Debug)]
pub struct GranthamDistance {
    first: AminoAcid,
    second: AminoAcid,
    distance: usize,
}

impl View for GranthamDistance {
    type V = GranthamDistanceView;

    closed spec fn view(&self) -> GranthamDistanceView {
        GranthamDistanceView {
            first: self.first@,
            second: self.second@,
            distance: self.distance as nat,
        }
    }
}

impl GranthamDistance {
    /// The pair of `first` and `second` at `distance`. Any distance is
    /// accepted.
    #[must_use]
    pub fn new(first: AminoAcid, second: AminoAcid, distance: usize) -> (p: Self)
        ensures
            p@ == pair_of(first@, second@, distance as nat),
    {
        Self { first, second, distance }
    }

    /// A copy of the first amino acid.
    #[must_use]
    pub fn get_first(&self) -> (a: AminoAcid)
        ensures
            a@ == self@.first,
    {
        self.first.clone()
    }

    /// A copy of the second amino acid.
    #[must_use]
    pub fn get_second(&self) -> (a: AminoAcid)
        ensures
            a@ == self@.second,
    {
        self.second.clone()
    }

    /// The stored distance.
    #[must_use]
    pub fn get_distance(&self) -> (d: usize)
        ensures
            d == self@.distance,
    {
        self.distance
    }

    /// The one-line text of the pair.
    pub fn to_string(&self) -> (s: String)
        ensures
            s@ == pair_text(self@),
    {
        let mut s = String::from_str("GranthamDistance { first: ");
        let first = self.first.to_string();
        s.append(first.as_str());
        s.append(", second: ");
        let second = self.second.to_string();
        s.append(second.as_str());
        s.append(", distance: ");
        push_decimal(&mut s, self.distance as u64);
        s.append(" }");
        s
    }
}

impl Default for GranthamDistance {
    /// The pair of two placeholder records at distance 0.
    fn default() -> (p: Self)
        ensures
            p@ == pair_of(unknown_record(), unknown_record(), 0),
    {
        Self { first: AminoAcid::default(), second: AminoAcid::default(), distance: 0 }
    }
}

impl PartialEq for GranthamDistance {
    fn eq(&self, other: &Self) -> (r: bool) {
        self.first == other.first && self.second == other.second && self.distance
            == other.distance
    }
}

impl PartialEqSpecImpl for GranthamDistance {
    open spec fn obeys_eq_spec() -> bool {
        true
    }

    /// Two pairs are equal when their records and their distances are.
    open spec fn eq_spec(&self, other: &Self) -> bool {
        self@ == other@
    }
}

} // verus!
