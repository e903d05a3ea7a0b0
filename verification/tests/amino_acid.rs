use distance_aa_lib::AminoAcid;

#[test]
fn test_get_name() {
    let amino_acid = AminoAcid::new("Alanine");
    assert_eq!(amino_acid.get_name(), "Alanine");
}

#[test]
fn test_get_short_name() {
    let amino_acid = AminoAcid::new("Alanine");
    assert_eq!(amino_acid.get_short_name(), "Ala");
}

#[test]
fn test_get_abbreviation() {
    let amino_acid = AminoAcid::new("Alanine");
    assert_eq!(amino_acid.get_abbreviation(), "A");
}

#[test]
fn test_get_side_chain() {
    let amino_acid = AminoAcid::new("Alanine");
    assert_eq!(amino_acid.get_side_chain(), "Nonpolar");
}

#[test]
fn test_get_molecular_weight() {
    let amino_acid = AminoAcid::new("Alanine");
    assert_eq!(amino_acid.get_molecular_weight(), 8909);
    assert_eq!(f64::from(amino_acid.get_molecular_weight()) / 100.0, 89.09);
}

#[test]
fn test_get_codon() {
    let amino_acid = AminoAcid::new("Alanine");
    assert_eq!(amino_acid.get_codon(), vec!["GCT", "GCC", "GCA", "GCG"]);
}

#[test]
fn test_get_codon_string() {
    let amino_acid = AminoAcid::new("Alanine");
    assert_eq!(amino_acid.get_codon_string(), "GCT, GCC, GCA, GCG");
}

#[test]
fn test_get_codon_count() {
    let amino_acid = AminoAcid::new("Alanine");
    assert_eq!(amino_acid.get_codon_count(), 4);
}

#[test]
fn test_fmt() {
    let amino_acid = AminoAcid::new("Alanine");
    assert_eq!(
        amino_acid.to_string(),
        "Name: Alanine\tShort Name: Ala\tAbbreviation: A\tSide Chain: Nonpolar\tMolecular Weight: 89.09\tCodon: GCT, GCC, GCA, GCG"
    );
}

#[test]
fn new_falls_back_to_the_placeholder() {
    let amino_acid = AminoAcid::new("NoSuchAcid");
    assert_eq!(amino_acid.get_name(), "Unknown");
    assert_eq!(amino_acid.get_short_name(), "Unknown");
    assert_eq!(amino_acid.get_abbreviation(), "X");
    assert_eq!(amino_acid.get_side_chain(), "Unknown");
    assert_eq!(amino_acid.get_molecular_weight(), 0);
    assert_eq!(amino_acid.get_codon(), vec!["---"]);
    assert_eq!(amino_acid.get_codon_count(), 1);
    assert_eq!(amino_acid, AminoAcid::default());
}

#[test]
fn new_is_case_sensitive() {
    assert_eq!(AminoAcid::new("alanine"), AminoAcid::default());
    assert_eq!(AminoAcid::new("ALANINE"), AminoAcid::default());
    assert_eq!(AminoAcid::new("Alanine "), AminoAcid::default());
    assert_eq!(AminoAcid::new(""), AminoAcid::default());
}

#[test]
fn from_str_is_new() {
    assert_eq!(AminoAcid::from("Glycine"), AminoAcid::new("Glycine"));
    assert_eq!(AminoAcid::from("Glycine").get_short_name(), "Gly");
    assert_eq!(AminoAcid::from("A"), AminoAcid::default());
}

#[test]
fn equality_is_field_wise() {
    assert_eq!(AminoAcid::new("Serine"), AminoAcid::new("Serine"));
    assert_ne!(AminoAcid::new("Serine"), AminoAcid::new("Threonine"));
    // Isoleucine and Leucine weigh the same and differ in every text field.
    assert_ne!(AminoAcid::new("Isoleucine"), AminoAcid::new("Leucine"));
    assert_ne!(AminoAcid::new("Serine"), AminoAcid::default());
}

#[test]
fn clone_is_an_equal_copy() {
    let source = AminoAcid::new("Proline");
    let copy = source.clone();
    assert_eq!(copy, source);
    drop(source);
    assert_eq!(copy.get_name(), "Proline");
    assert_eq!(copy.get_codon(), vec!["CCT", "CCC", "CCA", "CCG"]);
}

#[test]
fn text_drops_a_trailing_zero_of_the_weight() {
    assert_eq!(
        AminoAcid::new("Arginine").to_string(),
        "Name: Arginine\tShort Name: Arg\tAbbreviation: R\tSide Chain: Basic\tMolecular Weight: 174.2\tCodon: CGT, CGC, CGA, CGG, AGA, AGG"
    );
    assert_eq!(
        AminoAcid::new("Aspartic Acid").to_string(),
        "Name: Aspartic Acid\tShort Name: Asp\tAbbreviation: D\tSide Chain: Acidic\tMolecular Weight: 133.1\tCodon: GAU, GAC"
    );
}

#[test]
fn text_of_a_single_codon_has_no_separator() {
    assert_eq!(AminoAcid::new("Methionine").get_codon_string(), "ATG");
    assert_eq!(
        AminoAcid::new("Tryptophan").to_string(),
        "Name: Tryptophan\tShort Name: Trp\tAbbreviation: W\tSide Chain: Nonpolar\tMolecular Weight: 204.23\tCodon: TGG"
    );
}

#[test]
fn text_of_the_placeholder() {
    assert_eq!(
        AminoAcid::default().to_string(),
        "Name: Unknown\tShort Name: Unknown\tAbbreviation: X\tSide Chain: Unknown\tMolecular Weight: 0\tCodon: ---"
    );
}
