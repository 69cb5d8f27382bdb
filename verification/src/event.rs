//! What a successful operation reports.

use crate::filme::FilmeView;
use crate::genero::Genero;
use vstd::prelude::*;

verus! {

/// A notification of a successful operation.
#[derive(Clone, Debug, PartialEq, Eq)]
pub enum Event {
    /// A movie was added.
    FilmeAdicionado { id: u32, nome: Vec<u8> },
    /// One movie of the catalog, as reported by a listing.
    FilmeDisponivel {
        id: u32,
        nome: Vec<u8>,
        bilhetes_vendidos: u32,
        ano_lancamento_entre_2000_e_2025: u32,
        mes_lancamento: u8,
        dia_lancamento: u8,
        genero: Genero,
    },
    /// The catalog is empty. Listing an empty catalog is an error, so no
    /// operation reports this.
    NenhumFilmeArmazenado,
    /// A movie was removed.
    FilmeDeletadoComSucesso { id: u32, nome: Vec<u8> },
    /// A movie was changed in place.
    FilmeAtualizadoComSucesso { id: u32, nome: Vec<u8> },
}

/// An event as plain values.
pub enum EventView {
    FilmeAdicionado { id: u32, nome: Seq<u8> },
    FilmeDisponivel { filme: FilmeView },
    NenhumFilmeArmazenado,
    FilmeDeletadoComSucesso { id: u32, nome: Seq<u8> },
    FilmeAtualizadoComSucesso { id: u32, nome: Seq<u8> },
}

impl View for Event {
    type V = EventView;

    open spec fn view(&self) -> EventView {
        match *self {
            Event::FilmeAdicionado { id, nome } => EventView::FilmeAdicionado { id, nome: nome@ },
            Event::FilmeDisponivel {
                id,
                nome,
                bilhetes_vendidos,
                ano_lancamento_entre_2000_e_2025,
                mes_lancamento,
                dia_lancamento,
                genero,
            } => EventView::FilmeDisponivel {
                filme: FilmeView {
                    id,
                    nome: nome@,
                    bilhetes_vendidos,
                    ano_lancamento_entre_2000_e_2025,
                    mes_lancamento,
                    dia_lancamento,
                    genero,
                },
            },
            Event::NenhumFilmeArmazenado => EventView::NenhumFilmeArmazenado,
            Event::FilmeDeletadoComSucesso { id, nome } => EventView::FilmeDeletadoComSucesso {
                id,
                nome: nome@,
            },
            Event::FilmeAtualizadoComSucesso { id, nome } => EventView::FilmeAtualizadoComSucesso {
                id,
                nome: nome@,
            },
        }
    }
}

} // verus!
