//! A fixed reference catalog of amino acids and a value type that pairs two
//! of them with a Grantham distance.

pub mod catalog;
pub mod models;
pub mod text;

pub use catalog::Catalog;
pub use catalog::CatalogError;
pub use models::AminoAcid;
pub use models::AminoAcidRecord;
pub use models::GranthamDistance;
pub use models::GranthamDistanceView;
