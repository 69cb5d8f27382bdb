//! The closed set of genres a movie can belong to.

use vstd::prelude::*;

verus! {

/// The genre attached to a movie.
#[derive(Clone, Copy, Debug, PartialEq, Eq, Structural)]
pub enum Genero {
    Acao,
    Animacao,
    Comedia,
    Drama,
    Gospel,
    Suspense,
    Outros,
}

} // verus!
