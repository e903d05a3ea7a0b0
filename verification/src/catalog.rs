//! The catalog: the fixed table of known amino acids, and lookup by name.

use crate::models::amino_acid::{record, AminoAcid, AminoAcidRecord};
use vstd::prelude::*;

verus! {

/// The number of records in the catalog.
pub const CATALOG_LEN: usize = 20;

/// The record at position `i` of the catalog, for `0 <= i < CATALOG_LEN`.
/// Weights are in hundredths of a gram per mole.
pub open spec fn catalog_entry(i: int) -> AminoAcidRecord {
    if i == 0 {
        record("Alanine", "Ala", "A", "Nonpolar", 8909, seq!["GCT", "GCC", "GCA", "GCG"])
    } else if i == 1 {
        record(
            "Arginine", "Arg", "R", "Basic", 17420,
            seq!["CGT", "CGC", "CGA", "CGG", "AGA", "AGG"],
        )
    } else if i == 2 {
        record("Asparagine", "Asn", "N", "Polar", 13212, seq!["AAT", "AAC"])
    } else if i == 3 {
        record("Aspartic Acid", "Asp", "D", "Acidic", 13310, seq!["GAU", "GAC"])
    } else if i == 4 {
        record("Cysteine", "Cys", "C", "Polar", 12115, seq!["TGT", "TGC"])
    } else if i == 5 {
        record("Glutamic Acid", "Glu", "E", "Acidic", 14713, seq!["GAA", "GAG"])
    } else if i == 6 {
        record("Glutamine", "Gln", "Q", "Polar", 14615, seq!["CAA", "CAG"])
    } else if i == 7 {
        record("Glycine", "Gly", "G", "Nonpolar", 7507, seq!["GGT", "GGC", "GGA", "GGG"])
    } else if i == 8 {
        record("Histidine", "His", "H", "Positive", 15516, seq!["CAT", "CAC"])
    } else if i == 9 {
        record("Isoleucine", "Ile", "I", "Nonpolar", 13118, seq!["ATT", "ATC", "ATA"])
    } else if i == 10 {
        record(
            "Leucine", "Leu", "L", "Nonpolar", 13118,
            seq!["TTA", "CTT", "CTC", "CTG", "CTA"],
        )
    } else if i == 11 {
        record("Lysine", "Lys", "K", "Basic", 14619, seq!["AAA", "AAG"])
    } else if i == 12 {
        record("Methionine", "Met", "M", "Nonpolar", 14921, seq!["ATG"])
    } else if i == 13 {
        record("Phenylalanine", "Phe", "F", "Nonpolar", 16519, seq!["TTT", "TTC"])
    } else if i == 14 {
        record("Proline", "Pro", "P", "Nonpolar", 11513, seq!["CCT", "CCC", "CCA", "CCG"])
    } else if i == 15 {
        record(
            "Serine", "Ser", "S", "Polar", 10509,
            seq!["TCT", "TCC", "TCA", "TCG", "AGT", "AGC"],
        )
    } else if i == 16 {
        record("Threonine", "Thr", "T", "Polar", 11912, seq!["ACT", "ACC", "ACA", "ACG"])
    } else if i == 17 {
        record("Tryptophan", "Trp", "W", "Nonpolar", 20423, seq!["TGG"])
    } else if i == 18 {
        record("Tyrosine", "Tyr", "Y", "Polar", 18119, seq!["TAT", "TAC"])
    } else {
        record("Valine", "Val", "V", "Nonpolar", 11715, seq!["GTT", "GTC", "GTA", "GTG"])
    }
}

/// The catalog: its records in their listed order.
pub open spec fn catalog() -> Seq<AminoAcidRecord> {
    Seq::new(CATALOG_LEN as nat, |i: int| catalog_entry(i))
}

/// The placeholder record that stands for an amino acid the catalog does not
/// know.
pub open spec fn unknown_record() -> AminoAcidRecord {
    record("Unknown", "Unknown", "X", "Unknown", 0, seq!["---"])
}

/// Whether `name` is the name of a record of the catalog.
pub open spec fn is_catalog_name(name: Seq<char>) -> bool {
    exists|i: int| 0 <= i < CATALOG_LEN && #[trigger] catalog_entry(i).name == name
}

/// The record of the catalog that is called `name`, where there is one.
pub open spec fn record_named(name: Seq<char>) -> AminoAcidRecord {
    catalog_entry(choose|i: int| 0 <= i < CATALOG_LEN && #[trigger] catalog_entry(i).name == name)
}

/// The record called `name` where the catalog has one, else the placeholder.
pub open spec fn record_or_unknown(name: Seq<char>) -> AminoAcidRecord {
    if is_catalog_name(name) {
        record_named(name)
    } else {
        unknown_record()
    }
}

/// The position in the catalog that the length and the first letter of a
/// name point to. For the name of a record this is the record's own
/// position, which is what tells the names apart.
spec fn position_by_shape(name: Seq<char>) -> int {
    let n = name.len();
    let c = name[0];
    if n == 6 {
        if c == 'L' {
            11
        } else if c == 'S' {
            15
        } else {
            19
        }
    } else if n == 7 {
        if c == 'A' {
            0
        } else if c == 'G' {
            7
        } else if c == 'L' {
            10
        } else {
            14
        }
    } else if n == 8 {
        if c == 'A' {
            1
        } else if c == 'C' {
            4
        } else {
            18
        }
    } else if n == 9 {
        if c == 'G' {
            6
        } else if c == 'H' {
            8
        } else {
            16
        }
    } else if n == 10 {
        if c == 'A' {
            2
        } else if c == 'I' {
            9
        } else if c == 'M' {
            12
        } else {
            17
        }
    } else {
        if c == 'A' {
            3
        } else if c == 'G' {
            5
        } else {
            13
        }
    }
}

/// The name of the record at position `i` has the shape that leads back to
/// `i`.
proof fn lemma_position_by_shape(i: int)
    requires
        0 <= i < CATALOG_LEN,
    ensures
        position_by_shape(catalog_entry(i).name) == i,
{
    reveal_strlit("Alanine");
    reveal_strlit("Arginine");
    reveal_strlit("Asparagine");
    reveal_strlit("Aspartic Acid");
    reveal_strlit("Cysteine");
    reveal_strlit("Glutamic Acid");
    reveal_strlit("Glutamine");
    reveal_strlit("Glycine");
    reveal_strlit("Histidine");
    reveal_strlit("Isoleucine");
    reveal_strlit("Leucine");
    reveal_strlit("Lysine");
    reveal_strlit("Methionine");
    reveal_strlit("Phenylalanine");
    reveal_strlit("Proline");
    reveal_strlit("Serine");
    reveal_strlit("Threonine");
    reveal_strlit("Tryptophan");
    reveal_strlit("Tyrosine");
    reveal_strlit("Valine");
}

/// No two records of the catalog share a name.
pub proof fn lemma_names_unique()
    ensures
        forall|i: int, j: int|
            #![trigger catalog_entry(i), catalog_entry(j)]
            0 <= i < j < CATALOG_LEN ==> catalog_entry(i).name != catalog_entry(j).name,
{
    assert forall|i: int, j: int|
        #![trigger catalog_entry(i), catalog_entry(j)]
        0 <= i < j < CATALOG_LEN implies catalog_entry(i).name != catalog_entry(j).name by {
        lemma_position_by_shape(i);
        lemma_position_by_shape(j);
    }
}

/// Every record of the catalog lists at least one codon.
pub proof fn lemma_codons_nonempty(i: int)
    requires
        0 <= i < CATALOG_LEN,
    ensures
        catalog_entry(i).codon.len() >= 1,
{
}

/// Every record of the catalog has a one-letter abbreviation and a
/// three-letter short name.
pub proof fn lemma_codes_have_their_lengths(i: int)
    requires
        0 <= i < CATALOG_LEN,
    ensures
        catalog_entry(i).abbreviation.len() == 1,
        catalog_entry(i).short_name.len() == 3,
{
    reveal_strlit("A");
    reveal_strlit("R");
    reveal_strlit("N");
    reveal_strlit("D");
    reveal_strlit("C");
    reveal_strlit("E");
    reveal_strlit("Q");
    reveal_strlit("G");
    reveal_strlit("H");
    reveal_strlit("I");
    reveal_strlit("L");
    reveal_strlit("K");
    reveal_strlit("M");
    reveal_strlit("F");
    reveal_strlit("P");
    reveal_strlit("S");
    reveal_strlit("T");
    reveal_strlit("W");
    reveal_strlit("Y");
    reveal_strlit("V");
    reveal_strlit("Ala");
    reveal_strlit("Arg");
    reveal_strlit("Asn");
    reveal_strlit("Asp");
    reveal_strlit("Cys");
    reveal_strlit("Glu");
    reveal_strlit("Gln");
    reveal_strlit("Gly");
    reveal_strlit("His");
    reveal_strlit("Ile");
    reveal_strlit("Leu");
    reveal_strlit("Lys");
    reveal_strlit("Met");
    reveal_strlit("Phe");
    reveal_strlit("Pro");
    reveal_strlit("Ser");
    reveal_strlit("Thr");
    reveal_strlit("Trp");
    reveal_strlit("Tyr");
    reveal_strlit("Val");
}

/// Looking up a name of the catalog gives a record of that very name.
pub proof fn lemma_lookup_keeps_name(name: Seq<char>)
    requires
        is_catalog_name(name),
    ensures
        record_named(name).name == name,
{
}

/// Looking up the name of the record at position `i` gives that record back.
pub proof fn lemma_record_named(i: int)
    requires
        0 <= i < CATALOG_LEN,
    ensures
        is_catalog_name(catalog_entry(i).name),
        record_named(catalog_entry(i).name) == catalog_entry(i),
{
    lemma_names_unique();
}

/// The placeholder's name is not the name of any record of the catalog, so
/// a lookup never takes the placeholder for a record.
pub proof fn lemma_unknown_not_catalogued()
    ensures
        !is_catalog_name(unknown_record().name),
        record_or_unknown(unknown_record().name) == unknown_record(),
{
    reveal_strlit("Unknown");
    reveal_strlit("Proline");
    assert forall|i: int| 0 <= i < CATALOG_LEN implies #[trigger] catalog_entry(i).name
        != unknown_record().name by {
        lemma_position_by_shape(i);
    }
}

/// Why a lookup in the catalog failed.
#[derive(Debug, Clone, Copy, PartialEq, Eq, Structural)]
pub enum CatalogError {
    /// No record of the catalog has the requested name.
    NotFound,
}

/// Builds the record at position `i` of the catalog.
fn entry(i: usize) -> (r: AminoAcid)
    requires
        i < CATALOG_LEN,
    ensures
        r@ == catalog_entry(i as int),
{
    if i == 0 {
        AminoAcid::from_parts(
            "Alanine", "Ala", "A", "Nonpolar", 8909,
            vec!["GCT", "GCC", "GCA", "GCG"],
        )
    } else if i == 1 {
        AminoAcid::from_parts(
            "Arginine", "Arg", "R", "Basic", 17420,
            vec!["CGT", "CGC", "CGA", "CGG", "AGA", "AGG"],
        )
    } else if i == 2 {
        AminoAcid::from_parts("Asparagine", "Asn", "N", "Polar", 13212, vec!["AAT", "AAC"])
    } else if i == 3 {
        AminoAcid::from_parts(
            "Aspartic Acid", "Asp", "D", "Acidic", 13310,
            vec!["GAU", "GAC"],
        )
    } else if i == 4 {
        AminoAcid::from_parts("Cysteine", "Cys", "C", "Polar", 12115, vec!["TGT", "TGC"])
    } else if i == 5 {
        AminoAcid::from_parts("Glutamic Acid", "Glu", "E", "Acidic", 14713, vec!["GAA", "GAG"])
    } else if i == 6 {
        AminoAcid::from_parts("Glutamine", "Gln", "Q", "Polar", 14615, vec!["CAA", "CAG"])
    } else if i == 7 {
        AminoAcid::from_parts(
            "Glycine", "Gly", "G", "Nonpolar", 7507,
            vec!["GGT", "GGC", "GGA", "GGG"],
        )
    } else if i == 8 {
        AminoAcid::from_parts("Histidine", "His", "H", "Positive", 15516, vec!["CAT", "CAC"])
    } else if i == 9 {
        AminoAcid::from_parts(
            "Isoleucine", "Ile", "I", "Nonpolar", 13118,
            vec!["ATT", "ATC", "ATA"],
        )
    } else if i == 10 {
        AminoAcid::from_parts(
            "Leucine", "Leu", "L", "Nonpolar", 13118,
            vec!["TTA", "CTT", "CTC", "CTG", "CTA"],
        )
    } else if i == 11 {
        AminoAcid::from_parts("Lysine", "Lys", "K", "Basic", 14619, vec!["AAA", "AAG"])
    } else if i == 12 {
        AminoAcid::from_parts("Methionine", "Met", "M", "Nonpolar", 14921, vec!["ATG"])
    } else if i == 13 {
        AminoAcid::from_parts(
            "Phenylalanine", "Phe", "F", "Nonpolar", 16519,
            vec!["TTT", "TTC"],
        )
    } else if i == 14 {
        AminoAcid::from_parts(
            "Proline", "Pro", "P", "Nonpolar", 11513,
            vec!["CCT", "CCC", "CCA", "CCG"],
        )
    } else if i == 15 {
        AminoAcid::from_parts(
            "Serine", "Ser", "S", "Polar", 10509,
            vec!["TCT", "TCC", "TCA", "TCG", "AGT", "AGC"],
        )
    } else if i == 16 {
        AminoAcid::from_parts(
            "Threonine", "Thr", "T", "Polar", 11912,
            vec!["ACT", "ACC", "ACA", "ACG"],
        )
    } else if i == 17 {
        AminoAcid::from_parts("Tryptophan", "Trp", "W", "Nonpolar", 20423, vec!["TGG"])
    } else if i == 18 {
        AminoAcid::from_parts("Tyrosine", "Tyr", "Y", "Polar", 18119, vec!["TAT", "TAC"])
    } else {
        AminoAcid::from_parts(
            "Valine", "Val", "V", "Nonpolar", 11715,
            vec!["GTT", "GTC", "GTA", "GTG"],
        )
    }
}

/// The catalog of known amino acids: built once, read-only from then on.
pub struct Catalog {
    entries: Vec<AminoAcid>,
}

impl View for Catalog {
    type V = Seq<AminoAcidRecord>;

    closed spec fn view(&self) -> Seq<AminoAcidRecord> {
        self.entries.deep_view()
    }
}

impl Catalog {
    #[verifier::type_invariant]
    spec fn holds_the_catalog(&self) -> bool {
        self.entries.deep_view() == catalog()
    }

    /// Builds the catalog.
    pub fn new() -> (c: Catalog)
        ensures
            c@ == catalog(),
    {
        let mut entries: Vec<AminoAcid> = Vec::new();
        let mut i: usize = 0;
        while i < CATALOG_LEN
            invariant
                i <= CATALOG_LEN,
                entries.len() == i,
                forall|j: int| 0 <= j < i ==> entries[j]@ == catalog_entry(j),
            decreases CATALOG_LEN - i,
        {
            entries.push(entry(i));
            i = i + 1;
        }
        assert(entries.deep_view() =~= catalog());
        Catalog { entries }
    }

    /// Every record of the catalog, in its listed order, as a fresh copy.
    pub fn all(&self) -> (v: Vec<AminoAcid>)
        ensures
            v.deep_view() == catalog(),
            v.len() == CATALOG_LEN,
            forall|i: int| 0 <= i < v.len() ==> (#[trigger] v[i]@).codon.len() >= 1,
            forall|i: int|
                0 <= i < v.len() ==> (#[trigger] v[i]@).abbreviation.len() == 1
                    && v[i]@.short_name.len() == 3,
            forall|i: int, j: int|
                #![trigger v[i], v[j]]
                0 <= i < j < v.len() ==> v[i]@.name != v[j]@.name,
    {
        proof {
            use_type_invariant(self);
        }
        let v = self.entries.clone();
        proof {
            assert(v.deep_view() =~= self.entries.deep_view());
            lemma_names_unique();
            assert forall|i: int| 0 <= i < v.len() implies (#[trigger] v[i]@).codon.len() >= 1 by {
                assert(v[i]@ == v.deep_view()[i]);
                lemma_codons_nonempty(i);
            }
            assert forall|i: int| 0 <= i < v.len() implies (#[trigger] v[i]@).abbreviation.len()
                == 1 && v[i]@.short_name.len() == 3 by {
                assert(v[i]@ == v.deep_view()[i]);
                lemma_codes_have_their_lengths(i);
            }
            assert forall|i: int, j: int|
                #![trigger v[i], v[j]]
                0 <= i < j < v.len() implies v[i]@.name != v[j]@.name by {
                assert(v[i]@ == v.deep_view()[i]);
                assert(v[j]@ == v.deep_view()[j]);
            }
        }
        v
    }

    /// The record whose name is exactly `name`; upper and lower case count.
    /// Where the catalog has no such record the lookup fails with
    /// [`CatalogError::NotFound`]: the placeholder is never handed out in
    /// place of a record.
    pub fn find_by_name(&self, name: &str) -> (r: Result<AminoAcid, CatalogError>)
        ensures
            r is Ok <==> is_catalog_name(name@),
            r matches Ok(found) ==> found@ == record_named(name@) && found@.name == name@,
            r matches Ok(found) ==> found@.abbreviation.len() == 1 && found@.short_name.len() == 3,
            r matches Err(e) ==> e == CatalogError::NotFound,
    {
        proof {
            use_type_invariant(self);
        }
        assert(self.entries.len() == self.entries.deep_view().len());
        let wanted = String::from_str(name);
        let mut i: usize = 0;
        while i < self.entries.len()
            invariant
                i <= self.entries.len(),
                self.entries.len() == CATALOG_LEN,
                self.entries.deep_view() == catalog(),
                wanted@ == name@,
                forall|j: int| 0 <= j < i ==> (#[trigger] catalog_entry(j)).name != name@,
            decreases self.entries.len() - i,
        {
            assert(self.entries[i as int]@ == self.entries.deep_view()[i as int]);
            if self.entries[i].has_name(&wanted) {
                proof {
                    lemma_record_named(i as int);
                    lemma_codes_have_their_lengths(i as int);
                }
                return Ok(self.entries[i].clone());
            }
            i = i + 1;
        }
        Err(CatalogError::NotFound)
    }

    /// The placeholder record for an amino acid that the catalog does not
    /// know: a defensive default, not a record of the catalog.
    pub fn unknown() -> (r: AminoAcid)
        ensures
            r@ == unknown_record(),
    {
        AminoAcid::from_parts("Unknown", "Unknown", "X", "Unknown", 0, vec!["---"])
    }
}

} // verus!
