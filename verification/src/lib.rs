//! A naming-registration service: commit-reveal registration of domain names,
//! the authoritative domain directory with its ownership and expiry rules,
//! subdomain delegation, a price oracle and an ownership token.

pub mod content;
pub mod digest;
pub mod identity;
pub mod nft;
pub mod priceoracle;
pub mod registrar;
pub mod registry;
pub mod resolver;
pub mod table;
