//! A movie record and its mathematical model.

use crate::bounded::{name_bytes, name_clone};
use crate::genero::Genero;
use frame_support::pallet_prelude::ConstU32;
use frame_support::BoundedVec;
use vstd::prelude::*;

verus! {

/// One movie of the catalog.
#[derive(Debug, PartialEq, Eq)]
pub struct Filme {
    pub id: u32,
    pub nome: BoundedVec<u8, ConstU32<100>>,
    pub bilhetes_vendidos: u32,
    pub ano_lancamento_entre_2000_e_2025: u32,
    pub mes_lancamento: u8,
    pub dia_lancamento: u8,
    pub genero: Genero,
}

/// A movie as plain values: the name is the sequence of its bytes.
pub struct FilmeView {
    pub id: u32,
    pub nome: Seq<u8>,
    pub bilhetes_vendidos: u32,
    pub ano_lancamento_entre_2000_e_2025: u32,
    pub mes_lancamento: u8,
    pub dia_lancamento: u8,
    pub genero: Genero,
}

impl View for Filme {
    type V = FilmeView;

    open spec fn view(&self) -> FilmeView {
        FilmeView {
            id: self.id,
            nome: name_bytes(self.nome),
            bilhetes_vendidos: self.bilhetes_vendidos,
            ano_lancamento_entre_2000_e_2025: self.ano_lancamento_entre_2000_e_2025,
            mes_lancamento: self.mes_lancamento,
            dia_lancamento: self.dia_lancamento,
            genero: self.genero,
        }
    }
}

impl Clone for Filme {
    /// A copy that stands for the same movie.
    fn clone(&self) -> (r: Filme)
        ensures
            r@ == self@,
    {
        Filme {
            id: self.id,
            nome: name_clone(&self.nome),
            bilhetes_vendidos: self.bilhetes_vendidos,
            ano_lancamento_entre_2000_e_2025: self.ano_lancamento_entre_2000_e_2025,
            mes_lancamento: self.mes_lancamento,
            dia_lancamento: self.dia_lancamento,
            genero: self.genero,
        }
    }
}

} // verus!
