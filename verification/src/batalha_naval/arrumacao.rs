//! The bot's own arrangement: each ship in turn is offered places drawn at
//! random until the rules accept one.

use vstd::prelude::*;
use crate::batalha_naval::frota::{frota_valida, lema_troca_legal, pose_legal};
use crate::batalha_naval::jogo::{Jogador, Jogo};
use crate::batalha_naval::navio::{Direcao, Navio, LADO_TABULEIRO, NUM_NAVIOS};
use crate::batalha_naval::sorteio::sorteia_abaixo;

verus! {

/// How many places are drawn for one ship, or cells for one shot, before the
/// draw is given up.
pub const LIMITE_SORTEIOS: usize = 10000;

/// The direction that each of the numbers 0 to 3 stands for.
pub open spec fn direcao_do_sorteio(nd: usize) -> Direcao {
    if nd == 1 {
        Direcao::Sul
    } else if nd == 2 {
        Direcao::Leste
    } else if nd == 3 {
        Direcao::Oeste
    } else {
        Direcao::Norte
    }
}

/// Whether the ship `depois` is the ship `antes` where it was, or put where
/// a draw can put it: with its stern on a cell of the board, pointing any way.
pub open spec fn fica_ou_sorteado(antes: Navio, depois: Navio) -> bool {
    depois == antes || exists|x: usize, y: usize, d: Direcao|
        x < LADO_TABULEIRO && y < LADO_TABULEIRO && depois == #[trigger] antes.posto(x, y, d)
}

/// A place drawn for a ship: the way it is to point and the cell of its stern.
#[derive(Clone, Copy, Debug, PartialEq, Eq, Structural)]
pub struct Sorteio {
    pub direcao: Direcao,
    pub popa_x: usize,
    pub popa_y: usize,
}

impl Sorteio {
    /// Whether the stern is drawn on a cell of the board, as every draw of
    /// the bot is.
    pub open spec fn no_tabuleiro(self) -> bool {
        self.popa_x < LADO_TABULEIRO && self.popa_y < LADO_TABULEIRO
    }
}

/// The fleet after the place `s` is offered to its ship `n`: the ship lies
/// there if the rules let it lie there among the others, and the fleet is as
/// it was if they do not.
pub open spec fn apos_sorteio(navios: Seq<Navio>, n: int, s: Sorteio) -> Seq<Navio> {
    if pose_legal(navios, n, s.popa_x as int, s.popa_y as int, s.direcao) {
        navios.update(n, navios[n].posto(s.popa_x, s.popa_y, s.direcao))
    } else {
        navios
    }
}

/// The fleet after each of its first ships, as many as there are places in
/// `sorteios`, is offered its place in turn: the first ship the first place,
/// and each later ship its place among the others as they lie by then.
pub open spec fn apos_sorteios(navios: Seq<Navio>, sorteios: Seq<Sorteio>) -> Seq<Navio>
    decreases sorteios.len(),
{
    if sorteios.len() == 0 {
        navios
    } else {
        apos_sorteio(
            apos_sorteios(navios, sorteios.drop_last()),
            sorteios.len() - 1,
            sorteios.last(),
        )
    }
}

/// Whether the fleet `depois` is what some four places on the board, one
/// for each ship, make of the fleet `antes` when they are offered to the
/// ships in turn.
pub open spec fn arrumada_por_sorteio(antes: Seq<Navio>, depois: Seq<Navio>) -> bool {
    exists|sorteios: Seq<Sorteio>|
        sorteios.len() == NUM_NAVIOS && (forall|n: int|
            0 <= n < NUM_NAVIOS ==> (#[trigger] sorteios[n]).no_tabuleiro()) && depois
            == #[trigger] apos_sorteios(antes, sorteios)
}

/// One place more, offered to the next ship, makes of the fleet what that
/// place makes of the fleet that the places before it have made.
pub proof fn lema_mais_um_sorteio(navios: Seq<Navio>, sorteios: Seq<Sorteio>, s: Sorteio)
    ensures
        apos_sorteios(navios, sorteios.push(s)) == apos_sorteio(
            apos_sorteios(navios, sorteios),
            sorteios.len() as int,
            s,
        ),
{
    assert(sorteios.push(s).drop_last() =~= sorteios);
}

/// The direction that a drawn number stands for.
pub fn direcao_sorteada(nd: usize) -> (d: Direcao)
    ensures
        d == direcao_do_sorteio(nd),
{
    if nd == 1 {
        Direcao::Sul
    } else if nd == 2 {
        Direcao::Leste
    } else if nd == 3 {
        Direcao::Oeste
    } else {
        Direcao::Norte
    }
}

/// Arranges the bot's fleet at random. For each ship in turn a direction and
/// a stern are drawn, and the ship is put there if the rules let it lie
/// there among the other ships of the bot, wherever those lie by then. A
/// place that the rules refuse leaves the fleet as it was, and another is
/// drawn; after `LIMITE_SORTEIOS` places the ship is left where the last of
/// them has left it.
///
/// So the fleet is afterwards what four places on the board, the last one
/// drawn for each ship, make of it when they are offered to the ships in
/// turn. Whatever is drawn, it is a fleet that the rules accept, each of its
/// ships is where it was or where a draw has put it, and the human's fleet
/// is untouched.
pub fn arruma_navios_bot(jogo: &mut Jogo)
    requires
        frota_valida(old(jogo).navios_bot@),
    ensures
        arrumada_por_sorteio(old(jogo).navios_bot@, final(jogo).navios_bot@),
        frota_valida(final(jogo).navios_bot@),
        final(jogo).navios_humano@ == old(jogo).navios_humano@,
        forall|n: int|
            0 <= n < NUM_NAVIOS ==> fica_ou_sorteado(
                old(jogo).navios_bot@[n],
                #[trigger] final(jogo).navios_bot@[n],
            ),
{
    let ghost inicio = *jogo;
    let ghost mut oferecidos: Seq<Sorteio> = Seq::empty();
    let mut n: usize = 0;
    while n < NUM_NAVIOS
        invariant
            n <= NUM_NAVIOS,
            oferecidos.len() == n,
            forall|k: int| 0 <= k < n ==> (#[trigger] oferecidos[k]).no_tabuleiro(),
            jogo.navios_bot@ == apos_sorteios(inicio.navios_bot@, oferecidos),
            frota_valida(jogo.navios_bot@),
            jogo.navios_humano@ == inicio.navios_humano@,
            forall|k: int|
                0 <= k < NUM_NAVIOS ==> fica_ou_sorteado(
                    inicio.navios_bot@[k],
                    #[trigger] jogo.navios_bot@[k],
                ),
        decreases NUM_NAVIOS - n,
    {
        let ghost antes_do_navio = jogo.navios_bot@;
        let ghost mut ultimo = Sorteio { direcao: Direcao::Norte, popa_x: 0, popa_y: 0 };
        let mut colocado = false;
        let mut sorteios: usize = 0;
        while !colocado && sorteios < LIMITE_SORTEIOS
            invariant
                n < NUM_NAVIOS,
                sorteios <= LIMITE_SORTEIOS,
                colocado ==> sorteios > 0,
                !colocado ==> jogo.navios_bot@ == antes_do_navio,
                sorteios > 0 ==> ultimo.no_tabuleiro() && jogo.navios_bot@ == apos_sorteio(
                    antes_do_navio,
                    n as int,
                    ultimo,
                ),
                frota_valida(jogo.navios_bot@),
                jogo.navios_humano@ == inicio.navios_humano@,
                forall|k: int|
                    0 <= k < NUM_NAVIOS ==> fica_ou_sorteado(
                        inicio.navios_bot@[k],
                        #[trigger] jogo.navios_bot@[k],
                    ),
            decreases LIMITE_SORTEIOS - sorteios,
        {
            let sorteio = Sorteio {
                direcao: direcao_sorteada(sorteia_abaixo(4)),
                popa_x: sorteia_abaixo(LADO_TABULEIRO),
                popa_y: sorteia_abaixo(LADO_TABULEIRO),
            };
            let ghost antes = jogo.navios_bot@;
            colocado =
            jogo.tenta_colocar(&Jogador::Bot, n, sorteio.direcao, sorteio.popa_x, sorteio.popa_y);
            proof {
                ultimo = sorteio;
                if colocado {
                    let posto = antes[n as int].posto(
                        sorteio.popa_x,
                        sorteio.popa_y,
                        sorteio.direcao,
                    );
                    lema_troca_legal(antes, n as int, posto);
                    assert(posto == inicio.navios_bot@[n as int].posto(
                        sorteio.popa_x,
                        sorteio.popa_y,
                        sorteio.direcao,
                    ));
                }
            }
            sorteios = sorteios + 1;
        }
        proof {
            lema_mais_um_sorteio(inicio.navios_bot@, oferecidos, ultimo);
            oferecidos = oferecidos.push(ultimo);
        }
        n = n + 1;
    }
}

} // verus!
