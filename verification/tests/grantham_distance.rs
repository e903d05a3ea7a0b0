use distance_aa_lib::{AminoAcid, GranthamDistance};

#[test]
fn test_new() {
    let grantham_distance =
        GranthamDistance::new(AminoAcid::from("A"), AminoAcid::from("C"), 2);
    assert_eq!(grantham_distance.get_first(), AminoAcid::from("A"));
    assert_eq!(grantham_distance.get_second(), AminoAcid::from("C"));
    assert_eq!(grantham_distance.get_distance(), 2);
}

#[test]
fn test_default() {
    let grantham_distance = GranthamDistance::default();
    assert_eq!(grantham_distance.get_first(), AminoAcid::default());
    assert_eq!(grantham_distance.get_second(), AminoAcid::default());
    assert_eq!(grantham_distance.get_distance(), 0);
}

#[test]
fn new_stores_its_three_inputs() {
    let a = AminoAcid::new("Alanine");
    let b = AminoAcid::new("Valine");
    let pair = GranthamDistance::new(a.clone(), b.clone(), 5);
    assert_eq!(pair.get_distance(), 5);
    assert_eq!(pair.get_first(), a);
    assert_eq!(pair.get_second(), b);
    assert_ne!(pair.get_first(), b);
    assert_ne!(pair.get_second(), a);
}

#[test]
fn getters_hand_out_independent_copies() {
    let pair = GranthamDistance::new(AminoAcid::new("Lysine"), AminoAcid::new("Serine"), 121);
    let mut first = pair.get_first();
    assert_eq!(first.get_name(), "Lysine");
    first = AminoAcid::new("Glycine");
    assert_eq!(first.get_name(), "Glycine");
    drop(first);
    assert_eq!(pair.get_first(), AminoAcid::new("Lysine"));
    assert_eq!(pair.get_second(), AminoAcid::new("Serine"));
    assert_eq!(pair.get_distance(), 121);
}

#[test]
fn default_is_two_placeholders_at_zero() {
    let pair = GranthamDistance::default();
    assert_eq!(pair.get_distance(), 0);
    assert_eq!(pair.get_first().get_name(), "Unknown");
    assert_eq!(pair.get_second().get_name(), "Unknown");
    assert_eq!(pair.get_first().get_codon(), vec!["---"]);
    assert_eq!(pair, GranthamDistance::new(AminoAcid::default(), AminoAcid::default(), 0));
}

#[test]
fn any_distance_is_accepted() {
    let pair = GranthamDistance::new(AminoAcid::new("Alanine"), AminoAcid::new("Alanine"), 0);
    assert_eq!(pair.get_distance(), 0);
    let pair = GranthamDistance::new(AminoAcid::default(), AminoAcid::default(), usize::MAX);
    assert_eq!(pair.get_distance(), usize::MAX);
}

#[test]
fn pairs_compare_by_all_three_fields() {
    let pair = GranthamDistance::new(AminoAcid::new("Alanine"), AminoAcid::new("Valine"), 64);
    assert_eq!(pair, GranthamDistance::new(AminoAcid::new("Alanine"), AminoAcid::new("Valine"), 64));
    assert_ne!(pair, GranthamDistance::new(AminoAcid::new("Alanine"), AminoAcid::new("Valine"), 65));
    assert_ne!(pair, GranthamDistance::new(AminoAcid::new("Valine"), AminoAcid::new("Alanine"), 64));
    assert_ne!(pair, GranthamDistance::new(AminoAcid::new("Alanine"), AminoAcid::new("Glycine"), 64));
}

#[test]
fn text_of_a_pair() {
    let pair = GranthamDistance::new(AminoAcid::new("Methionine"), AminoAcid::new("Tryptophan"), 67);
    assert_eq!(
        pair.to_string(),
        "GranthamDistance { first: Name: Methionine\tShort Name: Met\tAbbreviation: M\tSide Chain: Nonpolar\tMolecular Weight: 149.21\tCodon: ATG, second: Name: Tryptophan\tShort Name: Trp\tAbbreviation: W\tSide Chain: Nonpolar\tMolecular Weight: 204.23\tCodon: TGG, distance: 67 }"
    );
}

#[test]
fn text_of_the_default_pair() {
    assert_eq!(
        GranthamDistance::default().to_string(),
        "GranthamDistance { first: Name: Unknown\tShort Name: Unknown\tAbbreviation: X\tSide Chain: Unknown\tMolecular Weight: 0\tCodon: ---, second: Name: Unknown\tShort Name: Unknown\tAbbreviation: X\tSide Chain: Unknown\tMolecular Weight: 0\tCodon: ---, distance: 0 }"
    );
}
