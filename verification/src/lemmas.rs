//! Facts about the catalog's rules that hold of every catalog.

use crate::error::Error;
use crate::filme::FilmeView;
use crate::model::{
    catalog_ok, create_check, delete_check, ids_increasing, names_unique, run, step, update_check,
    Operation,
};
use crate::validate::{date_check, last_index_of, lemma_last_index_of, name_check, next_id_of};
use vstd::prelude::*;

verus! {

/// Where identifiers grow along store order, no two movies at different
/// positions have the same identifier.
pub proof fn lemma_increasing_ids_are_distinct(s: Seq<FilmeView>)
    requires
        ids_increasing(s),
    ensures
        forall|i: int, j: int|
            0 <= i < s.len() && 0 <= j < s.len() && i != j ==> (#[trigger] s[i]).id != (
            #[trigger] s[j]).id,
{
    assert forall|i: int, j: int| 0 <= i < s.len() && 0 <= j < s.len() && i != j implies (
    #[trigger] s[i]).id != (#[trigger] s[j]).id by {
        if i < j {
            assert(s[i].id < s[j].id);
        } else {
            assert(s[j].id < s[i].id);
        }
    }
}

/// The first movie of an empty catalog gets identifier 0; in any other
/// catalog the next movie gets the identifier of the last movie plus one,
/// unless that identifier is already the largest there is.
pub proof fn lemma_next_id(s: Seq<FilmeView>)
    ensures
        s.len() == 0 ==> next_id_of(s) == 0,
        s.len() > 0 && s.last().id < u32::MAX ==> next_id_of(s) == s.last().id + 1,
        s.len() > 0 && s.last().id == u32::MAX ==> next_id_of(s) == u32::MAX,
{
}

/// A catalog of 100 movies takes no further movie, whatever its name and
/// date, as long as the name itself is in order.
pub proof fn lemma_full_catalog_rejects(s: Seq<FilmeView>, nome: Seq<u8>, ano: u32, mes: u8, dia: u8)
    requires
        s.len() >= 100,
        name_check(nome) is None,
    ensures
        create_check(s, nome, ano, mes, dia) == Some(Error::FilmesArmazenamentoCheio),
{
}

/// Once a movie has been added, adding another under the same name is
/// rejected: because the name is taken or, where the first movie filled the
/// catalog, because the catalog is full.
pub proof fn lemma_same_name_twice_rejected(
    s: Seq<FilmeView>,
    first: FilmeView,
    ano: u32,
    mes: u8,
    dia: u8,
)
    requires
        create_check(
            s,
            first.nome,
            first.ano_lancamento_entre_2000_e_2025,
            first.mes_lancamento,
            first.dia_lancamento,
        ) is None,
    ensures
        create_check(s.push(first), first.nome, ano, mes, dia) == Some(
            if s.len() + 1 >= 100 {
                Error::FilmesArmazenamentoCheio
            } else {
                Error::NomeJaExistente
            },
        ),
{
    let t = s.push(first);
    assert(t[s.len() as int].nome == first.nome);
}

/// On an empty catalog a removal and an update are both rejected because
/// there are no movies.
pub proof fn lemma_empty_catalog_rejects(id: u32, nome: Seq<u8>, ano: u32, mes: u8, dia: u8)
    ensures
        delete_check(Seq::<FilmeView>::empty(), id) == Err::<int, Error>(
            Error::SemFilmesDisponiveis,
        ),
        update_check(Seq::<FilmeView>::empty(), id, nome, ano, mes, dia) == Err::<int, Error>(
            Error::SemFilmesDisponiveis,
        ),
{
}

/// A movie can be updated without changing its name: the movie being
/// updated does not count as another movie that holds the name.
pub proof fn lemma_update_may_keep_name(s: Seq<FilmeView>, id: u32, ano: u32, mes: u8, dia: u8)
    requires
        names_unique(s),
        last_index_of(s, id) is Some,
        name_check(s[last_index_of(s, id)->Some_0].nome) is None,
        date_check(ano, mes, dia) is None,
    ensures
        update_check(s, id, s[last_index_of(s, id)->Some_0].nome, ano, mes, dia) == Ok::<
            int,
            Error,
        >(last_index_of(s, id)->Some_0),
{
    lemma_last_index_of(s, id);
    let i = last_index_of(s, id)->Some_0;
    assert forall|k: int| 0 <= k < s.len() && Some(k) != Some(i) implies (#[trigger] s[k]).nome
        != s[i].nome by {
        if k < i {
            assert(s[k].nome != s[i].nome);
        } else {
            assert(s[i].nome != s[k].nome);
        }
    }
}

/// The reserved error is never the reason an operation is rejected.
pub proof fn lemma_reserved_error_unused(
    s: Seq<FilmeView>,
    id: u32,
    nome: Seq<u8>,
    ano: u32,
    mes: u8,
    dia: u8,
)
    ensures
        create_check(s, nome, ano, mes, dia) != Some(Error::ErroInexperado),
        delete_check(s, id) != Err::<int, Error>(Error::ErroInexperado),
        update_check(s, id, nome, ano, mes, dia) != Err::<int, Error>(Error::ErroInexperado),
{
}

/// Every operation takes a well-formed catalog to a well-formed catalog.
pub proof fn lemma_step_keeps_catalog(s: Seq<FilmeView>, op: Operation)
    requires
        catalog_ok(s),
    ensures
        catalog_ok(step(s, op)),
{
    match op {
        Operation::Deletar { id } => {
            lemma_last_index_of(s, id);
        },
        Operation::Atualizar { id, .. } => {
            lemma_last_index_of(s, id);
        },
        _ => {},
    }
}

/// Where identifiers grow along store order and all lie below a bound that
/// is not yet the largest `u32`, they still grow along store order after one
/// more operation, and lie below the bound plus one.
pub proof fn lemma_step_keeps_ids(s: Seq<FilmeView>, op: Operation, bound: u32)
    requires
        ids_increasing(s),
        forall|i: int| 0 <= i < s.len() ==> (#[trigger] s[i]).id < bound,
        bound < u32::MAX,
    ensures
        ids_increasing(step(s, op)),
        forall|i: int| 0 <= i < step(s, op).len() ==> (#[trigger] step(s, op)[i]).id < bound + 1,
{
    match op {
        Operation::Deletar { id } => {
            lemma_last_index_of(s, id);
        },
        Operation::Atualizar { id, .. } => {
            lemma_last_index_of(s, id);
        },
        _ => {},
    }
}

/// Whatever operations are run on the empty catalog, in whatever order, the
/// catalog stays well-formed: at most 100 movies, all of them valid, no name
/// twice. As long as fewer than 2^32 operations have run, identifiers grow
/// along store order, so none occurs twice either.
pub proof fn lemma_every_run_keeps_catalog(ops: Seq<Operation>)
    ensures
        catalog_ok(run(ops)),
        ops.len() <= u32::MAX ==> ids_increasing(run(ops)),
        ops.len() <= u32::MAX ==> forall|i: int|
            0 <= i < run(ops).len() ==> (#[trigger] run(ops)[i]).id < ops.len(),
    decreases ops.len(),
{
    if ops.len() > 0 {
        let before = ops.drop_last();
        lemma_every_run_keeps_catalog(before);
        lemma_step_keeps_catalog(run(before), ops.last());
        if ops.len() <= u32::MAX {
            lemma_step_keeps_ids(run(before), ops.last(), before.len() as u32);
        }
    }
}

} // verus!
