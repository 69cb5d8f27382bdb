//! The reasons an operation on the catalog is rejected.

use vstd::prelude::*;

verus! {

/// Why an operation was rejected. A rejected operation changes nothing.
#[derive(Clone, Copy, Debug, PartialEq, Eq, Structural)]
pub enum Error {
    /// The name is longer than 100 bytes.
    NomeMuitoLongo,
    /// Another movie in the catalog already has this name.
    NomeJaExistente,
    /// The name is empty.
    FilmeSemNome,
    /// The release year is outside 2000..=2025.
    AnoInvalido,
    /// The release month is outside 1..=12.
    MesInvalido,
    /// The release day is outside 1..=31.
    DiaInvalido,
    /// The day does not exist in that month of that year.
    DataInvalida,
    /// The catalog already holds 100 movies.
    FilmesArmazenamentoCheio,
    /// No movie in the catalog has the requested id.
    SemFilmeComEsseId,
    /// The catalog is empty.
    SemFilmesDisponiveis,
    /// Kept for forward compatibility; no operation returns it.
    ErroInexperado,
}

} // verus!
