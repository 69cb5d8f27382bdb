//! The rules a movie must meet before it enters the catalog, and the
//! derivation of the next identifier.

use crate::bounded::{name_bytes, name_eq, name_from_vec};
use crate::error::Error;
use crate::filme::{Filme, FilmeView};
use crate::store::{records, store_get, store_items, store_len};
use frame_support::pallet_prelude::ConstU32;
use frame_support::BoundedVec;
use vstd::prelude::*;

verus! {

/// The error, if any, of a name: it must hold between 1 and 100 bytes.
pub open spec fn name_check(nome: Seq<u8>) -> Option<Error> {
    if nome.len() == 0 {
        Some(Error::FilmeSemNome)
    } else if nome.len() > 100 {
        Some(Error::NomeMuitoLongo)
    } else {
        None
    }
}

/// A year is a leap year when 4 divides it and either 100 does not or 400 does.
pub open spec fn is_leap_year(ano: int) -> bool {
    ano % 4 == 0 && (ano % 100 != 0 || ano % 400 == 0)
}

/// The number of days of a month of a year.
pub open spec fn days_in_month(ano: int, mes: int) -> int {
    if mes == 4 || mes == 6 || mes == 9 || mes == 11 {
        30
    } else if mes == 2 {
        if is_leap_year(ano) {
            29
        } else {
            28
        }
    } else {
        31
    }
}

/// The error, if any, of a release date. The year is looked at first, then
/// the month, then the day alone, then the day within its month.
pub open spec fn date_check(ano: u32, mes: u8, dia: u8) -> Option<Error> {
    if !(2000 <= ano <= 2025) {
        Some(Error::AnoInvalido)
    } else if !(1 <= mes <= 12) {
        Some(Error::MesInvalido)
    } else if !(1 <= dia <= 31) {
        Some(Error::DiaInvalido)
    } else if dia > days_in_month(ano as int, mes as int) {
        Some(Error::DataInvalida)
    } else {
        None
    }
}

/// A position in the store as a mathematical integer.
pub open spec fn position(index: Option<usize>) -> Option<int> {
    match index {
        Some(i) => Some(i as int),
        None => None,
    }
}

/// Some movie other than the one at `exclude` has exactly this name.
pub open spec fn name_taken(s: Seq<FilmeView>, nome: Seq<u8>, exclude: Option<int>) -> bool {
    exists|i: int| 0 <= i < s.len() && Some(i) != exclude && #[trigger] s[i].nome == nome
}

/// The identifier that the next movie gets: 0 in an empty store, else one
/// more than the identifier of the last movie in store order, stopping at
/// the largest `u32`.
pub open spec fn next_id_of(s: Seq<FilmeView>) -> u32 {
    if s.len() == 0 {
        0
    } else if s.last().id == u32::MAX {
        u32::MAX
    } else {
        (s.last().id + 1) as u32
    }
}

/// The last position in store order whose movie has this identifier.
pub open spec fn last_index_of(s: Seq<FilmeView>, id: u32) -> Option<int>
    decreases s.len(),
{
    if s.len() == 0 {
        None
    } else if s.last().id == id {
        Some(s.len() - 1)
    } else {
        last_index_of(s.drop_last(), id)
    }
}

/// What `last_index_of` finds: a position that holds the identifier with no
/// later one that does, or nothing when no movie has it.
pub proof fn lemma_last_index_of(s: Seq<FilmeView>, id: u32)
    ensures
        match last_index_of(s, id) {
            Some(i) => 0 <= i < s.len() && s[i].id == id && forall|j: int|
                i < j < s.len() ==> (#[trigger] s[j]).id != id,
            None => forall|j: int| 0 <= j < s.len() ==> (#[trigger] s[j]).id != id,
        },
    decreases s.len(),
{
    if s.len() > 0 && s.last().id != id {
        let t = s.drop_last();
        lemma_last_index_of(t, id);
        assert forall|j: int| 0 <= j < t.len() implies t[j] == s[j] by {}
    }
}

/// Checks a name and bounds it: an empty name and one of more than 100 bytes
/// are rejected; any other comes back as a bounded name with the same bytes.
pub fn validate_name(nome: Vec<u8>) -> (r: Result<BoundedVec<u8, ConstU32<100>>, Error>)
    ensures
        match name_check(nome@) {
            Some(e) => r is Err && r->Err_0 == e,
            None => r is Ok && name_bytes(r->Ok_0) == nome@,
        },
{
    if nome.len() == 0 {
        return Err(Error::FilmeSemNome);
    }
    match name_from_vec(nome) {
        Ok(bounded) => Ok(bounded),
        Err(_) => Err(Error::NomeMuitoLongo),
    }
}

/// Checks a release date.
pub fn validate_date(ano: u32, mes: u8, dia: u8) -> (r: Result<(), Error>)
    ensures
        match date_check(ano, mes, dia) {
            Some(e) => r == Err::<(), Error>(e),
            None => r is Ok,
        },
{
    if !(ano > 1999 && ano < 2026) {
        return Err(Error::AnoInvalido);
    }
    if !(mes > 0 && mes < 13) {
        return Err(Error::MesInvalido);
    }
    if !(dia > 0 && dia < 32) {
        return Err(Error::DiaInvalido);
    }
    if mes == 4 || mes == 6 || mes == 9 || mes == 11 {
        if dia > 30 {
            return Err(Error::DataInvalida);
        }
    } else if mes == 2 {
        if ano % 4 == 0 && (ano % 100 != 0 || ano % 400 == 0) {
            if dia > 29 {
                return Err(Error::DataInvalida);
            }
        } else if dia > 28 {
            return Err(Error::DataInvalida);
        }
    }
    Ok(())
}

/// Checks that no movie of the store, other than the one at `exclude_index`,
/// already has this name.
pub fn validate_uniqueness(
    store: &BoundedVec<Filme, ConstU32<100>>,
    nome: &BoundedVec<u8, ConstU32<100>>,
    exclude_index: Option<usize>,
) -> (r: Result<(), Error>)
    ensures
        r == if name_taken(records(*store), name_bytes(*nome), position(exclude_index)) {
            Err::<(), Error>(Error::NomeJaExistente)
        } else {
            Ok::<(), Error>(())
        },
{
    let n: usize = store_len(store);
    let mut i: usize = 0;
    while i < n
        invariant
            n == store_items(*store).len(),
            i <= n,
            forall|j: int|
                0 <= j < i ==> Some(j) == position(exclude_index) || (#[trigger] records(
                    *store,
                )[j]).nome != name_bytes(*nome),
        decreases n - i,
    {
        let excluded = match exclude_index {
            Some(e) => e == i,
            None => false,
        };
        if !excluded && name_eq(&store_get(store, i).nome, nome) {
            assert(records(*store)[i as int].nome == name_bytes(*nome));
            return Err(Error::NomeJaExistente);
        }
        i += 1;
    }
    Ok(())
}

/// Checks that the store has room for one more movie.
pub fn validate_capacity(store: &BoundedVec<Filme, ConstU32<100>>) -> (r: Result<(), Error>)
    ensures
        r == if records(*store).len() >= 100 {
            Err::<(), Error>(Error::FilmesArmazenamentoCheio)
        } else {
            Ok::<(), Error>(())
        },
{
    if store_len(store) >= 100 {
        Err(Error::FilmesArmazenamentoCheio)
    } else {
        Ok(())
    }
}

/// The identifier for the next movie of this store.
pub fn next_id(store: &BoundedVec<Filme, ConstU32<100>>) -> (id: u32)
    ensures
        id == next_id_of(records(*store)),
{
    let n: usize = store_len(store);
    if n == 0 {
        return 0;
    }
    let last: u32 = store_get(store, n - 1).id;
    if last == u32::MAX {
        u32::MAX
    } else {
        last + 1
    }
}

/// Looks a movie up by identifier: the last position in store order that
/// holds it.
pub fn find_index(store: &BoundedVec<Filme, ConstU32<100>>, id: u32) -> (r: Option<usize>)
    ensures
        position(r) == last_index_of(records(*store), id),
{
    let n: usize = store_len(store);
    let mut found: Option<usize> = None;
    let mut i: usize = 0;
    while i < n
        invariant
            n == store_items(*store).len(),
            i <= n,
            position(found) == last_index_of(records(*store).take(i as int), id),
        decreases n - i,
    {
        proof {
            let s = records(*store);
            assert(s.take(i + 1).drop_last() =~= s.take(i as int));
            assert(s.take(i + 1).last() == s[i as int]);
        }
        if store_get(store, i).id == id {
            found = Some(i);
        }
        i += 1;
    }
    proof {
        assert(records(*store).take(n as int) =~= records(*store));
    }
    found
}

} // verus!
