//! A bounded movie catalog: records are validated, stored in order and
//! changed by four atomic operations.

pub mod bounded;
pub mod error;
pub mod event;
pub mod filme;
pub mod genero;
pub mod lemmas;
pub mod model;
pub mod pallet;
pub mod store;
pub mod validate;

pub use crate::error::Error;
pub use crate::event::Event;
pub use crate::filme::Filme;
pub use crate::genero::Genero;
pub use crate::pallet::Pallet;
