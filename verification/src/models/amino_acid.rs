//! One amino acid: its names, side-chain class, molecular weight and codons.

use crate::catalog::{record_or_unknown, unknown_record, Catalog};
use crate::text::{hundredths_text, join, joined, push_hundredths, same_strings};
use vstd::prelude::*;
use vstd::std_specs::cmp::PartialEqSpecImpl;
use vstd::std_specs::convert::FromSpecImpl;

verus! {

/// What an amino acid record holds, as plain mathematical values.
#[verifier::ext_equal]
pub ghost struct AminoAcidRecord {
    /// The full name, which identifies the record.
    pub name: Seq<char>,
    /// The three-letter code.
    pub short_name: Seq<char>,
    /// The one-letter code.
    pub abbreviation: Seq<char>,
    /// The class of the side chain.
    pub side_chain: Seq<char>,
    /// The molecular weight in hundredths of a gram per mole.
    pub molecular_weight: nat,
    /// The codons that encode the amino acid, in their listed order.
    pub codon: Seq<Seq<char>>,
}

/// The record with the given texts, weight (in hundredths of a gram per
/// mole) and codons.
pub open spec fn record(
    name: &str,
    short_name: &str,
    abbreviation: &str,
    side_chain: &str,
    molecular_weight: nat,
    codon: Seq<&str>,
) -> AminoAcidRecord {
    AminoAcidRecord {
        name: name@,
        short_name: short_name@,
        abbreviation: abbreviation@,
        side_chain: side_chain@,
        molecular_weight,
        codon: codon.map_values(|c: &str| c@),
    }
}

/// The one-line text of a record: each field after its label, the fields
/// separated by tabs, the weight in grams per mole and the codons joined by
/// `", "`.
pub open spec fn record_text(r: AminoAcidRecord) -> Seq<char> {
    "Name: "@ + r.name + "\tShort Name: "@ + r.short_name + "\tAbbreviation: "@ + r.abbreviation
        + "\tSide Chain: "@ + r.side_chain + "\tMolecular Weight: "@ + hundredths_text(
        r.molecular_weight,
    ) + "\tCodon: "@ + joined(r.codon, ", "@)
}

/// An amino acid record. Its fields are fixed once it is built, and it
/// always lists at least one codon.
///
/// The molecular weight is kept as a whole number of hundredths of a gram
/// per mole, so `8909` stands for 89.09 g/mol.
#[derive(Debug)]
pub struct AminoAcid {
    name: String,
    short_name: String,
    abbreviation: String,
    side_chain: String,
    molecular_weight: u32,
    codon: Vec<String>,
}

impl View for AminoAcid {
    type V = AminoAcidRecord;

    closed spec fn view(&self) -> AminoAcidRecord {
        AminoAcidRecord {
            name: self.name@,
            short_name: self.short_name@,
            abbreviation: self.abbreviation@,
            side_chain: self.side_chain@,
            molecular_weight: self.molecular_weight as nat,
            codon: self.codon.deep_view(),
        }
    }
}

impl DeepView for AminoAcid {
    type V = AminoAcidRecord;

    open spec fn deep_view(&self) -> AminoAcidRecord {
        self@
    }
}

impl AminoAcid {
    #[verifier::type_invariant]
    spec fn has_a_codon(&self) -> bool {
        self.codon.len() >= 1
    }

    /// The record of the catalog whose name is exactly `name`, or the
    /// placeholder record where the catalog has none. A caller that must
    /// tell the two apart uses [`Catalog::find_by_name`].
    pub fn new(name: &str) -> (r: Self)
        ensures
            r@ == record_or_unknown(name@),
    {
        match Catalog::new().find_by_name(name) {
            Ok(found) => found,
            Err(_) => Catalog::unknown(),
        }
    }

    /// Builds a record from its parts, of which the codons must not be
    /// empty.
    pub(crate) fn from_parts(
        name: &str,
        short_name: &str,
        abbreviation: &str,
        side_chain: &str,
        molecular_weight: u32,
        codon: Vec<&str>,
    ) -> (r: Self)
        requires
            codon.len() >= 1,
        ensures
            r@ == record(
                name,
                short_name,
                abbreviation,
                side_chain,
                molecular_weight as nat,
                codon@,
            ),
    {
        let mut owned: Vec<String> = Vec::new();
        let mut i: usize = 0;
        while i < codon.len()
            invariant
                i <= codon.len(),
                owned.len() == i,
                forall|j: int| 0 <= j < i ==> owned[j]@ == codon[j]@,
            decreases codon.len() - i,
        {
            owned.push(String::from_str(codon[i]));
            i = i + 1;
        }
        assert(owned.deep_view() =~= codon@.map_values(|c: &str| c@));
        AminoAcid {
            name: String::from_str(name),
            short_name: String::from_str(short_name),
            abbreviation: String::from_str(abbreviation),
            side_chain: String::from_str(side_chain),
            molecular_weight,
            codon: owned,
        }
    }

    /// Whether the full name is exactly `name`.
    pub(crate) fn has_name(&self, name: &String) -> (b: bool)
        ensures
            b == (self@.name == name@),
    {
        self.name == *name
    }

    /// The full name.
    pub fn get_name(&self) -> (s: String)
        ensures
            s@ == self@.name,
    {
        self.name.clone()
    }

    /// The three-letter code.
    pub fn get_short_name(&self) -> (s: String)
        ensures
            s@ == self@.short_name,
    {
        self.short_name.clone()
    }

    /// The one-letter code.
    pub fn get_abbreviation(&self) -> (s: String)
        ensures
            s@ == self@.abbreviation,
    {
        self.abbreviation.clone()
    }

    /// The class of the side chain.
    pub fn get_side_chain(&self) -> (s: String)
        ensures
            s@ == self@.side_chain,
    {
        self.side_chain.clone()
    }

    /// The molecular weight in hundredths of a gram per mole.
    pub fn get_molecular_weight(&self) -> (w: u32)
        ensures
            w == self@.molecular_weight,
    {
        self.molecular_weight
    }

    /// The codons, in their listed order: at least one.
    pub fn get_codon(&self) -> (v: Vec<String>)
        ensures
            v.deep_view() == self@.codon,
            v.len() >= 1,
    {
        proof {
            use_type_invariant(self);
        }
        let v = self.codon.clone();
        assert(v.deep_view() =~= self.codon.deep_view());
        v
    }

    /// The codons joined by `", "`.
    pub fn get_codon_string(&self) -> (s: String)
        ensures
            s@ == joined(self@.codon, ", "@),
    {
        join(&self.codon, ", ")
    }

    /// The number of codons, which is at least one.
    pub fn get_codon_count(&self) -> (n: usize)
        ensures
            n == self@.codon.len(),
            n >= 1,
    {
        proof {
            use_type_invariant(self);
        }
        self.codon.len()
    }

    /// The one-line text of the record.
    pub fn to_string(&self) -> (s: String)
        ensures
            s@ == record_text(self@),
    {
        let mut s = String::from_str("Name: ");
        s.append(self.name.as_str());
        s.append("\tShort Name: ");
        s.append(self.short_name.as_str());
        s.append("\tAbbreviation: ");
        s.append(self.abbreviation.as_str());
        s.append("\tSide Chain: ");
        s.append(self.side_chain.as_str());
        s.append("\tMolecular Weight: ");
        push_hundredths(&mut s, self.molecular_weight as u64);
        s.append("\tCodon: ");
        let codons = join(&self.codon, ", ");
        s.append(codons.as_str());
        s
    }
}

impl Clone for AminoAcid {
    fn clone(&self) -> (r: Self)
        ensures
            r@ == self@,
    {
        proof {
            use_type_invariant(self);
        }
        let codon = self.codon.clone();
        assert(codon.deep_view() =~= self.codon.deep_view());
        AminoAcid {
            name: self.name.clone(),
            short_name: self.short_name.clone(),
            abbreviation: self.abbreviation.clone(),
            side_chain: self.side_chain.clone(),
            molecular_weight: self.molecular_weight,
            codon,
        }
    }
}

impl Default for AminoAcid {
    /// The placeholder record.
    fn default() -> (r: Self)
        ensures
            r@ == unknown_record(),
    {
        Catalog::unknown()
    }
}

impl From<&str> for AminoAcid {
    /// The same as [`AminoAcid::new`].
    fn from(name: &str) -> (r: Self)
        ensures
            r@ == record_or_unknown(name@),
    {
        AminoAcid::new(name)
    }
}

/// The conversion promises nothing through `from_spec`: a record is known by
/// its view, and two records of one view need not be the same value. What
/// `from` returns is stated on `from` itself.
impl FromSpecImpl<&str> for AminoAcid {
    open spec fn obeys_from_spec() -> bool {
        false
    }

    open spec fn from_spec(name: &str) -> Self {
        arbitrary()
    }
}

impl PartialEq for AminoAcid {
    fn eq(&self, other: &Self) -> (r: bool) {
        self.name == other.name && self.short_name == other.short_name && self.abbreviation
            == other.abbreviation && self.side_chain == other.side_chain && self.molecular_weight
            == other.molecular_weight && same_strings(&self.codon, &other.codon)
    }
}

impl PartialEqSpecImpl for AminoAcid {
    open spec fn obeys_eq_spec() -> bool {
        true
    }

    /// Two records are equal when all their fields are.
    open spec fn eq_spec(&self, other: &Self) -> bool {
        self@ == other@
    }
}

} // verus!
