//! The catalog and its four operations.
//!
//! Every operation first runs all its checks on the catalog as it stands and
//! only then changes it, in one step. A rejected operation leaves the catalog
//! exactly as it was.

use crate::bounded::{name_bytes, name_to_vec};
use crate::error::Error;
use crate::event::{Event, EventView};
use crate::filme::{Filme, FilmeView};
use crate::genero::Genero;
use crate::model::{
    catalog_ok, create_check, delete_check, ids_increasing, step, update_check, Operation,
};
use crate::store::{
    records, store_get, store_items, store_len, store_new, store_remove, store_set, store_try_push,
};
use crate::validate::{
    find_index, lemma_last_index_of, next_id, next_id_of, validate_capacity, validate_date,
    validate_name, validate_uniqueness,
};
use frame_support::pallet_prelude::ConstU32;
use frame_support::BoundedVec;
use vstd::prelude::*;

verus! {

/// The catalog: an ordered store of at most 100 movies.
pub struct Pallet {
    pub filmes: BoundedVec<Filme, ConstU32<100>>,
}

impl View for Pallet {
    type V = Seq<FilmeView>;

    open spec fn view(&self) -> Seq<FilmeView> {
        records(self.filmes)
    }
}

impl Pallet {
    /// The catalog is well-formed.
    pub open spec fn wf(&self) -> bool {
        catalog_ok(self@)
    }

    /// An empty catalog.
    pub fn new() -> (r: Pallet)
        ensures
            r@ == Seq::<FilmeView>::empty(),
            r.wf(),
            ids_increasing(r@),
    {
        let r = Pallet { filmes: store_new() };
        assert(r@ =~= Seq::<FilmeView>::empty());
        r
    }

    /// The store itself, for reading.
    pub fn filmes(&self) -> (r: &BoundedVec<Filme, ConstU32<100>>)
        ensures
            *r == self.filmes,
    {
        &self.filmes
    }

    /// Adds a movie at the end of the catalog, under the next identifier.
    ///
    /// The movie is rejected, and the catalog left as it was, when its name
    /// is empty or too long, when the catalog is full, when another movie has
    /// the name, or when the date is not a calendar date between 2000 and
    /// 2025.
    pub fn adicionar_filme(
        &mut self,
        nome: Vec<u8>,
        bilhetes_vendidos: u32,
        ano_lancamento_entre_2000_e_2025: u32,
        mes_lancamento: u8,
        dia_lancamento: u8,
        genero: Genero,
    ) -> (r: Result<Event, Error>)
        ensures
            match create_check(
                old(self)@,
                nome@,
                ano_lancamento_entre_2000_e_2025,
                mes_lancamento,
                dia_lancamento,
            ) {
                Some(e) => r is Err && r->Err_0 == e && *final(self) == *old(self),
                None => r is Ok && r->Ok_0@ == (EventView::FilmeAdicionado {
                    id: next_id_of(old(self)@),
                    nome: nome@,
                }) && final(self)@ == old(self)@.push(
                    FilmeView {
                        id: next_id_of(old(self)@),
                        nome: nome@,
                        bilhetes_vendidos,
                        ano_lancamento_entre_2000_e_2025,
                        mes_lancamento,
                        dia_lancamento,
                        genero,
                    },
                ),
            },
            final(self)@ == step(
                old(self)@,
                Operation::Adicionar {
                    nome: nome@,
                    bilhetes_vendidos,
                    ano_lancamento_entre_2000_e_2025,
                    mes_lancamento,
                    dia_lancamento,
                    genero,
                },
            ),
            old(self).wf() ==> final(self).wf(),
            ids_increasing(old(self)@) && (old(self)@.len() == 0 || old(self)@.last().id < u32::MAX)
                ==> ids_increasing(final(self)@),
    {
        let nome_bounded = validate_name(nome)?;
        validate_capacity(&self.filmes)?;
        validate_uniqueness(&self.filmes, &nome_bounded, None)?;
        validate_date(ano_lancamento_entre_2000_e_2025, mes_lancamento, dia_lancamento)?;
        let id: u32 = next_id(&self.filmes);
        let nome_evento = name_to_vec(&nome_bounded);
        let novo_filme = Filme {
            id,
            nome: nome_bounded,
            bilhetes_vendidos,
            ano_lancamento_entre_2000_e_2025,
            mes_lancamento,
            dia_lancamento,
            genero,
        };
        match store_try_push(&mut self.filmes, novo_filme) {
            Ok(()) => {
                proof {
                    assert(self@ =~= old(self)@.push(novo_filme@));
                }
                Ok(Event::FilmeAdicionado { id, nome: nome_evento })
            },
            Err(_) => Err(Error::FilmesArmazenamentoCheio),
        }
    }

    /// Reports every movie of the catalog, in store order. An empty catalog
    /// is an error. The catalog is never changed.
    pub fn listar_filmes(&self) -> (r: Result<Vec<Event>, Error>)
        ensures
            self@.len() == 0 ==> r is Err && r->Err_0 == Error::SemFilmesDisponiveis,
            self@.len() > 0 ==> r is Ok && r->Ok_0@.len() == self@.len() && forall|i: int|
                0 <= i < self@.len() ==> (#[trigger] r->Ok_0@[i])@ == (EventView::FilmeDisponivel {
                    filme: self@[i],
                }),
    {
        let n: usize = store_len(&self.filmes);
        if n == 0 {
            return Err(Error::SemFilmesDisponiveis);
        }
        let mut eventos: Vec<Event> = Vec::new();
        let mut i: usize = 0;
        while i < n
            invariant
                n == store_items(self.filmes).len(),
                i <= n,
                eventos@.len() == i,
                forall|k: int|
                    0 <= k < i ==> (#[trigger] eventos@[k])@ == (EventView::FilmeDisponivel {
                        filme: self@[k],
                    }),
            decreases n - i,
        {
            let filme = store_get(&self.filmes, i);
            eventos.push(
                Event::FilmeDisponivel {
                    id: filme.id,
                    nome: name_to_vec(&filme.nome),
                    bilhetes_vendidos: filme.bilhetes_vendidos,
                    ano_lancamento_entre_2000_e_2025: filme.ano_lancamento_entre_2000_e_2025,
                    mes_lancamento: filme.mes_lancamento,
                    dia_lancamento: filme.dia_lancamento,
                    genero: filme.genero,
                },
            );
            i += 1;
        }
        Ok(eventos)
    }

    /// Removes the movie with this identifier; the movies behind it move up.
    ///
    /// Rejected, with the catalog left as it was, when the catalog is empty
    /// or holds no movie with the identifier.
    pub fn deletar_filme(&mut self, id_filme_a_deletar: u32) -> (r: Result<Event, Error>)
        ensures
            match delete_check(old(self)@, id_filme_a_deletar) {
                Err(e) => r is Err && r->Err_0 == e && *final(self) == *old(self),
                Ok(i) => r is Ok && r->Ok_0@ == (EventView::FilmeDeletadoComSucesso {
                    id: id_filme_a_deletar,
                    nome: old(self)@[i].nome,
                }) && final(self)@ == old(self)@.remove(i),
            },
            final(self)@ == step(old(self)@, Operation::Deletar { id: id_filme_a_deletar }),
            old(self).wf() ==> final(self).wf(),
            ids_increasing(old(self)@) ==> ids_increasing(final(self)@),
    {
        if store_len(&self.filmes) == 0 {
            return Err(Error::SemFilmesDisponiveis);
        }
        proof {
            lemma_last_index_of(self@, id_filme_a_deletar);
        }
        let id_vec: usize = match find_index(&self.filmes, id_filme_a_deletar) {
            Some(i) => i,
            None => {
                return Err(Error::SemFilmeComEsseId);
            },
        };
        let filme_a_deletar = store_remove(&mut self.filmes, id_vec);
        proof {
            assert(self@ =~= old(self)@.remove(id_vec as int));
        }
        Ok(
            Event::FilmeDeletadoComSucesso {
                id: id_filme_a_deletar,
                nome: name_to_vec(&filme_a_deletar.nome),
            },
        )
    }

    /// Replaces, in place, every field but the identifier of the movie with
    /// this identifier.
    ///
    /// Rejected, with the catalog left as it was, when the catalog is empty,
    /// when the name is empty or too long, when no movie has the identifier,
    /// when a movie other than the one being changed has the name, or when
    /// the date is not a calendar date between 2000 and 2025.
    pub fn atualizar_filme(
        &mut self,
        id_filme_a_atualizar: u32,
        nome: Vec<u8>,
        bilhetes_vendidos: u32,
        ano_lancamento_entre_2000_e_2025: u32,
        mes_lancamento: u8,
        dia_lancamento: u8,
        genero: Genero,
    ) -> (r: Result<Event, Error>)
        ensures
            match update_check(
                old(self)@,
                id_filme_a_atualizar,
                nome@,
                ano_lancamento_entre_2000_e_2025,
                mes_lancamento,
                dia_lancamento,
            ) {
                Err(e) => r is Err && r->Err_0 == e && *final(self) == *old(self),
                Ok(i) => r is Ok && r->Ok_0@ == (EventView::FilmeAtualizadoComSucesso {
                    id: id_filme_a_atualizar,
                    nome: nome@,
                }) && final(self)@ == old(self)@.update(
                    i,
                    FilmeView {
                        id: id_filme_a_atualizar,
                        nome: nome@,
                        bilhetes_vendidos,
                        ano_lancamento_entre_2000_e_2025,
                        mes_lancamento,
                        dia_lancamento,
                        genero,
                    },
                ),
            },
            final(self)@ == step(
                old(self)@,
                Operation::Atualizar {
                    id: id_filme_a_atualizar,
                    nome: nome@,
                    bilhetes_vendidos,
                    ano_lancamento_entre_2000_e_2025,
                    mes_lancamento,
                    dia_lancamento,
                    genero,
                },
            ),
            old(self).wf() ==> final(self).wf(),
            ids_increasing(old(self)@) ==> ids_increasing(final(self)@),
    {
        if store_len(&self.filmes) == 0 {
            return Err(Error::SemFilmesDisponiveis);
        }
        let nome_bounded = validate_name(nome)?;
        proof {
            lemma_last_index_of(self@, id_filme_a_atualizar);
        }
        let id_vec: usize = match find_index(&self.filmes, id_filme_a_atualizar) {
            Some(i) => i,
            None => {
                return Err(Error::SemFilmeComEsseId);
            },
        };
        validate_uniqueness(&self.filmes, &nome_bounded, Some(id_vec))?;
        validate_date(ano_lancamento_entre_2000_e_2025, mes_lancamento, dia_lancamento)?;
        let nome_evento = name_to_vec(&nome_bounded);
        let filme_atualizado = Filme {
            id: id_filme_a_atualizar,
            nome: nome_bounded,
            bilhetes_vendidos,
            ano_lancamento_entre_2000_e_2025,
            mes_lancamento,
            dia_lancamento,
            genero,
        };
        store_set(&mut self.filmes, id_vec, filme_atualizado);
        proof {
            assert(self@ =~= old(self)@.update(id_vec as int, filme_atualizado@));
        }
        Ok(Event::FilmeAtualizadoComSucesso { id: id_filme_a_atualizar, nome: nome_evento })
    }
}

} // verus!
