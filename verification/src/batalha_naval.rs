//! Battleship on a board of ten by ten cells: four ships a side, a human
//! against a bot that fires at random.
//!
//! Nothing here reads a key or draws a glyph. The caller turns what the
//! terminal reports into an event, hands it to the game, and draws the
//! actions that come back.

pub mod arrumacao;
pub mod estado;
pub mod frota;
pub mod jogo;
pub mod mapa;
pub mod mira;
pub mod navio;
pub mod partida;
pub mod sorteio;
pub mod tela;
