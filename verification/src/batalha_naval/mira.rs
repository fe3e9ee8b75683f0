//! The bot's aim: a cell drawn at random that no shot has reached yet.

use vstd::prelude::*;
use crate::batalha_naval::arrumacao::LIMITE_SORTEIOS;
use crate::batalha_naval::mapa::{ordem, Celula, Mapa};
use crate::batalha_naval::navio::{no_tabuleiro, LADO_TABULEIRO};
use crate::batalha_naval::sorteio::sorteia_usize;

verus! {

/// Whether the bot may fire at the cell `c`: it is on the board and no shot
/// has reached it.
pub open spec fn alvo_valido(m: Map<(int, int), Celula>, c: (int, int)) -> bool {
    no_tabuleiro(c) && m[c] != Celula::Destruido
}

/// Whether the board has a cell left that the bot may fire at.
pub open spec fn tem_alvo(m: Map<(int, int), Celula>) -> bool {
    exists|c: (int, int)| alvo_valido(m, c)
}

/// The cell that two drawn numbers stand for: each is taken modulo the side
/// of the board, the first for the column, the second for the row.
pub open spec fn celula_sorteada(sorteio_x: usize, sorteio_y: usize) -> (int, int) {
    ((sorteio_x % LADO_TABULEIRO) as int, (sorteio_y % LADO_TABULEIRO) as int)
}

/// The cell that two drawn numbers stand for, if the bot may fire at it.
pub fn aceita_mira(mapa: &Mapa, sorteio_x: usize, sorteio_y: usize) -> (r: Option<(usize, usize)>)
    ensures
        r is Some == alvo_valido(mapa@, celula_sorteada(sorteio_x, sorteio_y)),
        r matches Some(c) ==> (c.0 as int, c.1 as int) == celula_sorteada(sorteio_x, sorteio_y),
{
    let x = sorteio_x % LADO_TABULEIRO;
    let y = sorteio_y % LADO_TABULEIRO;
    match mapa.celula(x, y) {
        Celula::Destruido => None,
        _ => Some((x, y)),
    }
}

/// The first cell, reading the board row by row, that the bot may fire at.
pub fn primeiro_alvo(mapa: &Mapa) -> (r: Option<(usize, usize)>)
    ensures
        r is Some == tem_alvo(mapa@),
        r matches Some(c) ==> alvo_valido(mapa@, (c.0 as int, c.1 as int)) && forall|d: (int, int)|
            alvo_valido(mapa@, d) ==> ordem((c.0 as int, c.1 as int)) <= ordem(d),
{
    let mut y: usize = 0;
    while y < LADO_TABULEIRO
        invariant
            y <= LADO_TABULEIRO,
            forall|d: (int, int)| alvo_valido(mapa@, d) ==> d.1 >= y,
        decreases LADO_TABULEIRO - y,
    {
        let mut x: usize = 0;
        while x < LADO_TABULEIRO
            invariant
                y < LADO_TABULEIRO,
                x <= LADO_TABULEIRO,
                forall|d: (int, int)| alvo_valido(mapa@, d) ==> d.1 > y || (d.1 == y && d.0 >= x),
            decreases LADO_TABULEIRO - x,
        {
            match mapa.celula(x, y) {
                Celula::Destruido => {},
                _ => {
                    assert(alvo_valido(mapa@, (x as int, y as int)));
                    return Some((x, y));
                },
            }
            x = x + 1;
        }
        y = y + 1;
    }
    None
}

/// The cell that the bot fires at. Cells are drawn at random until one comes
/// up that no shot has reached; if `LIMITE_SORTEIOS` draws in a row come up
/// destroyed, the first cell left, reading the board row by row, is taken.
///
/// Whatever is drawn, the bot gets a cell while one is left, and never one
/// that a shot has reached.
pub fn mira_bot(mapa: &Mapa) -> (r: Option<(usize, usize)>)
    ensures
        r is Some == tem_alvo(mapa@),
        r matches Some(c) ==> alvo_valido(mapa@, (c.0 as int, c.1 as int)),
{
    let mut sorteios: usize = 0;
    while sorteios < LIMITE_SORTEIOS
        invariant
            sorteios <= LIMITE_SORTEIOS,
        decreases LIMITE_SORTEIOS - sorteios,
    {
        let sorteio_x = sorteia_usize();
        let sorteio_y = sorteia_usize();
        match aceita_mira(mapa, sorteio_x, sorteio_y) {
            Some(c) => {
                return Some(c);
            },
            None => {},
        }
        sorteios = sorteios + 1;
    }
    primeiro_alvo(mapa)
}

} // verus!
