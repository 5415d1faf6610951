//! Typed request building and response modelling for the raider.io character
//! profile endpoint.

pub mod gear;
pub mod mythic_plus;
pub mod number;
pub mod player;
pub mod raid;
pub mod region;
pub mod request;
pub mod response;
pub mod text;

pub use crate::region::Expansion;
pub use crate::region::Region;
pub use crate::request::CharacterDetailsFields;
pub use crate::request::CharacterDetailsRequest;
pub use crate::response::CharacterDetails;
pub use crate::response::Error;
