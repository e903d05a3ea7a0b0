//! The data model: amino acid records and pairs of them.

pub mod amino_acid;
pub mod grantham_distance;

pub use amino_acid::AminoAcid;
pub use amino_acid::AminoAcidRecord;
pub use grantham_distance::GranthamDistance;
pub use grantham_distance::GranthamDistanceView;
