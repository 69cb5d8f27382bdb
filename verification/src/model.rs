//! The catalog as a sequence of plain records: what a well-formed catalog
//! is, and what each operation decides on it.

use crate::error::Error;
use crate::filme::FilmeView;
use crate::genero::Genero;
use crate::validate::{date_check, last_index_of, name_check, name_taken, next_id_of};
use vstd::prelude::*;

verus! {

/// A record whose name and release date pass their checks.
pub open spec fn valid_record(f: FilmeView) -> bool {
    name_check(f.nome) is None && date_check(
        f.ano_lancamento_entre_2000_e_2025,
        f.mes_lancamento,
        f.dia_lancamento,
    ) is None
}

/// No two records have the same name.
pub open spec fn names_unique(s: Seq<FilmeView>) -> bool {
    forall|i: int, j: int| 0 <= i < j < s.len() ==> (#[trigger] s[i]).nome != (#[trigger] s[j]).nome
}

/// Identifiers grow strictly along store order; in particular no two records
/// have the same identifier.
pub open spec fn ids_increasing(s: Seq<FilmeView>) -> bool {
    forall|i: int, j: int| 0 <= i < j < s.len() ==> (#[trigger] s[i]).id < (#[trigger] s[j]).id
}

/// A well-formed catalog: at most 100 records, each of them valid, no name
/// twice.
pub open spec fn catalog_ok(s: Seq<FilmeView>) -> bool {
    &&& s.len() <= 100
    &&& forall|i: int| 0 <= i < s.len() ==> valid_record(#[trigger] s[i])
    &&& names_unique(s)
}

/// The error, if any, with which adding a movie is rejected. The checks run
/// in this order: name, room in the catalog, uniqueness of the name, date.
pub open spec fn create_check(s: Seq<FilmeView>, nome: Seq<u8>, ano: u32, mes: u8, dia: u8) -> Option<
    Error,
> {
    if name_check(nome) is Some {
        name_check(nome)
    } else if s.len() >= 100 {
        Some(Error::FilmesArmazenamentoCheio)
    } else if name_taken(s, nome, None) {
        Some(Error::NomeJaExistente)
    } else {
        date_check(ano, mes, dia)
    }
}

/// The position of the movie that a removal takes out, or the error with
/// which the removal is rejected.
pub open spec fn delete_check(s: Seq<FilmeView>, id: u32) -> Result<int, Error> {
    if s.len() == 0 {
        Err(Error::SemFilmesDisponiveis)
    } else {
        match last_index_of(s, id) {
            Some(i) => Ok(i),
            None => Err(Error::SemFilmeComEsseId),
        }
    }
}

/// The position of the movie that an update replaces, or the error with
/// which the update is rejected. The checks run in this order: empty
/// catalog, name, lookup by identifier, uniqueness of the name among the
/// other movies, date.
pub open spec fn update_check(
    s: Seq<FilmeView>,
    id: u32,
    nome: Seq<u8>,
    ano: u32,
    mes: u8,
    dia: u8,
) -> Result<int, Error> {
    if s.len() == 0 {
        Err(Error::SemFilmesDisponiveis)
    } else if name_check(nome) is Some {
        Err(name_check(nome)->Some_0)
    } else {
        match last_index_of(s, id) {
            None => Err(Error::SemFilmeComEsseId),
            Some(i) => if name_taken(s, nome, Some(i)) {
                Err(Error::NomeJaExistente)
            } else if date_check(ano, mes, dia) is Some {
                Err(date_check(ano, mes, dia)->Some_0)
            } else {
                Ok(i)
            },
        }
    }
}

/// One call of an operation, with its arguments as plain values.
pub enum Operation {
    Adicionar {
        nome: Seq<u8>,
        bilhetes_vendidos: u32,
        ano_lancamento_entre_2000_e_2025: u32,
        mes_lancamento: u8,
        dia_lancamento: u8,
        genero: Genero,
    },
    Listar,
    Deletar { id: u32 },
    Atualizar {
        id: u32,
        nome: Seq<u8>,
        bilhetes_vendidos: u32,
        ano_lancamento_entre_2000_e_2025: u32,
        mes_lancamento: u8,
        dia_lancamento: u8,
        genero: Genero,
    },
}

/// The catalog after one operation: changed as the operation says where its
/// checks pass, and the very same catalog where they do not.
pub open spec fn step(s: Seq<FilmeView>, op: Operation) -> Seq<FilmeView> {
    match op {
        Operation::Adicionar {
            nome,
            bilhetes_vendidos,
            ano_lancamento_entre_2000_e_2025,
            mes_lancamento,
            dia_lancamento,
            genero,
        } => if create_check(
            s,
            nome,
            ano_lancamento_entre_2000_e_2025,
            mes_lancamento,
            dia_lancamento,
        ) is None {
            s.push(
                FilmeView {
                    id: next_id_of(s),
                    nome,
                    bilhetes_vendidos,
                    ano_lancamento_entre_2000_e_2025,
                    mes_lancamento,
                    dia_lancamento,
                    genero,
                },
            )
        } else {
            s
        },
        Operation::Listar => s,
        Operation::Deletar { id } => match delete_check(s, id) {
            Ok(i) => s.remove(i),
            Err(_) => s,
        },
        Operation::Atualizar {
            id,
            nome,
            bilhetes_vendidos,
            ano_lancamento_entre_2000_e_2025,
            mes_lancamento,
            dia_lancamento,
            genero,
        } => match update_check(
            s,
            id,
            nome,
            ano_lancamento_entre_2000_e_2025,
            mes_lancamento,
            dia_lancamento,
        ) {
            Ok(i) => s.update(
                i,
                FilmeView {
                    id,
                    nome,
                    bilhetes_vendidos,
                    ano_lancamento_entre_2000_e_2025,
                    mes_lancamento,
                    dia_lancamento,
                    genero,
                },
            ),
            Err(_) => s,
        },
    }
}

/// The catalog after a sequence of operations on the empty catalog.
pub open spec fn run(ops: Seq<Operation>) -> Seq<FilmeView>
    decreases ops.len(),
{
    if ops.len() == 0 {
        Seq::empty()
    } else {
        step(run(ops.drop_last()), ops.last())
    }
}

} // verus!
