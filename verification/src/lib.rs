//! Verified exercises: factorials, primality tests, a word counter, and the
//! rules of a Battleship game between a human and a bot that fires at random.

pub mod batalha_naval;
pub mod fatorial;
pub mod numero_primo;
pub mod palavras;
