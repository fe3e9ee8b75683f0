//! Where the two boards stand on the terminal, and how large the terminal
//! has to be for them.

use vstd::prelude::*;
use crate::batalha_naval::mapa::Celula;
use crate::batalha_naval::navio::{desenho_do_tamanho, Cor, LADO_TABULEIRO};

verus! {

/// The columns that the frame takes: a bar, the human's board at two
/// columns a cell, a bar, the bot's board, a bar.
pub const LARGURA_MINIMA: u16 = 1 + 2 * 10 + 1 + 2 * 10 + 1;

/// The lines that the frame takes: a bar, the rows of the boards, a bar,
/// and five lines of text below.
pub const ALTURA_MINIMA: u16 = 1 + 10 + 1 + 5;

/// Whether a terminal of `largura` columns and `altura` lines has room for
/// the game.
pub fn tem_tamanho_minimo(largura: u16, altura: u16) -> (r: bool)
    ensures
        r == (largura >= LARGURA_MINIMA && altura >= ALTURA_MINIMA),
{
    largura >= LARGURA_MINIMA && altura >= ALTURA_MINIMA
}

/// The terminal column of the column `x` of the human's board.
pub fn x_para_tela_humano(x: usize) -> (coluna: u16)
    requires
        x < LADO_TABULEIRO,
    ensures
        coluna == 2 * x + 1,
{
    x as u16 * 2 + 1
}

/// The terminal line of the row `y` of the human's board.
pub fn y_para_tela_humano(y: usize) -> (linha: u16)
    requires
        y < LADO_TABULEIRO,
    ensures
        linha == y + 1,
{
    y as u16 + 1
}

/// The terminal column of the column `x` of the bot's board, which stands to
/// the right of the human's.
pub fn x_para_tela_bot(x: usize) -> (coluna: u16)
    requires
        x < LADO_TABULEIRO,
    ensures
        coluna == 2 * x + 22,
{
    x as u16 * 2 + 1 + 1 + 20
}

/// The terminal line of the row `y` of the bot's board.
pub fn y_para_tela_bot(y: usize) -> (linha: u16)
    requires
        y < LADO_TABULEIRO,
    ensures
        linha == y + 1,
{
    y as u16 + 1
}

/// The columns and lines of the frame round the two boards.
#[derive(Clone, Copy, Debug, PartialEq, Eq, Structural)]
pub struct Moldura {
    /// The column of the left bar.
    pub x_esq: u16,
    /// The column of the double bar between the boards.
    pub x_meio: u16,
    /// The column of the right bar.
    pub x_dir: u16,
    /// The line of the upper bar.
    pub y_sup: u16,
    /// The line of the lower bar.
    pub y_inf: u16,
}

/// The frame whose upper left corner is in column `x_esq` of line `y_sup`.
pub fn moldura(x_esq: u16, y_sup: u16) -> (m: Moldura)
    requires
        x_esq + LARGURA_MINIMA <= u16::MAX,
        y_sup + ALTURA_MINIMA <= u16::MAX,
    ensures
        m.x_esq == x_esq,
        m.x_meio == x_esq + 1 + 2 * LADO_TABULEIRO,
        m.x_dir == x_esq + 2 + 4 * LADO_TABULEIRO,
        m.y_sup == y_sup,
        m.y_inf == y_sup + LADO_TABULEIRO + 1,
{
    Moldura {
        x_esq,
        x_meio: x_esq + 1 + 2 * 10,
        x_dir: x_esq + 1 + 2 * 10 + 1 + 2 * 10,
        y_sup,
        y_inf: y_sup + 10 + 1,
    }
}

/// The background on which a shot shows, by what the cell held: the colour
/// of the water, or that of the ship. A shot at a destroyed cell shows nothing.
pub open spec fn fundo_da_explosao(antes: Celula) -> Option<Cor> {
    match antes {
        Celula::Agua => Some(Cor::Ciano),
        Celula::Navio(tamanho) => Some(desenho_do_tamanho(tamanho).fundo),
        Celula::Destruido => None,
    }
}

/// The background on which a shot shows, by what the cell held.
pub fn cor_da_explosao(antes: Celula) -> (cor: Option<Cor>)
    ensures
        cor == fundo_da_explosao(antes),
{
    match antes {
        Celula::Agua => Some(Cor::Ciano),
        Celula::Navio(tamanho) => {
            if tamanho == 5 {
                Some(Cor::AzulEscuro)
            } else if tamanho == 4 {
                Some(Cor::MagentaEscuro)
            } else if tamanho == 3 {
                Some(Cor::AmareloEscuro)
            } else {
                Some(Cor::VermelhoEscuro)
            }
        },
        Celula::Destruido => None,
    }
}

} // verus!
