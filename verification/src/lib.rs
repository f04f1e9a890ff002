//! Column-selective anonymisation of delimited tables: rewrite directives,
//! their validation, and the engine that splices generated values into records.
pub mod anon;
pub mod catalog;
pub mod columns;
pub mod directive;
pub mod error;
pub mod faker;
pub mod kind;
pub mod laws;
pub mod memo;
pub mod minor;
pub mod record;
pub mod splice;
pub mod text;

pub use anon::{anonymise, rewrite_all, validated, Anonymiser, RewriteInfo};
pub use directive::Spec;
pub use error::{AnonError, SpecError};
pub use faker::{FakerKind, Major};
pub use kind::{AddressKind, CompanyKind, InternetKind, LoremKind, NameKind, NumberKind};
pub use minor::Minor;
