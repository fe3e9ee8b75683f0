//! Fleets as the rules see them: the map that a fleet draws, where a ship
//! may lie among the others, and what a fleet must be for a game to begin.

use vstd::prelude::*;
use vstd::set_lib::lemma_set_disjoint_lens;
use crate::batalha_naval::mapa::{celulas_vivas, segmentos_vivos, Celula};
use crate::batalha_naval::navio::{
    lema_celulas_do_navio,
    no_tabuleiro,
    Direcao,
    Navio,
    MAX_TAM_NAVIO,
    NUM_NAVIOS,
};

verus! {

/// What the cell `c` holds once the first `ate` ships of `navios` are drawn
/// on open water in their order, the ship `excecao` left out. Where two
/// ships overlap the later one shows.
pub open spec fn celula_rasterizada(
    navios: Seq<Navio>,
    excecao: Option<usize>,
    ate: int,
    c: (int, int),
) -> Celula
    decreases ate,
{
    if ate <= 0 {
        Celula::Agua
    } else if excecao != Some((ate - 1) as usize) && navios[ate - 1].ocupa(c) {
        Celula::Navio(navios[ate - 1].tamanho)
    } else {
        celula_rasterizada(navios, excecao, ate - 1, c)
    }
}

/// The map of a fleet: each cell of the board holds water or the length of
/// the ship that lies on it. The ship `excecao`, if any, is left out.
pub open spec fn rasterizacao(navios: Seq<Navio>, excecao: Option<usize>) -> Map<
    (int, int),
    Celula,
> {
    Map::new(
        |c: (int, int)| no_tabuleiro(c),
        |c: (int, int)| celula_rasterizada(navios, excecao, navios.len() as int, c),
    )
}

/// Whether a ship of the fleet other than the one numbered `qual` lies on `c`.
pub open spec fn ocupada_por_outro(navios: Seq<Navio>, qual: int, c: (int, int)) -> bool {
    exists|n: int| 0 <= n < navios.len() && n != qual && (#[trigger] navios[n]).ocupa(c)
}

/// Whether every ship of the fleet other than `qual` lies on the board.
pub open spec fn outros_no_tabuleiro(navios: Seq<Navio>, qual: int) -> bool {
    forall|n: int|
        0 <= n < navios.len() && n != qual ==> (#[trigger] navios[n]).dentro_do_tabuleiro()
}

/// Whether the ship `qual` may lie with its stern at (`x`, `y`) pointing `d`:
/// each of its cells is then on the board and free of the other ships.
pub open spec fn pose_legal(navios: Seq<Navio>, qual: int, x: int, y: int, d: Direcao) -> bool {
    forall|i: int|
        0 <= i < navios[qual].tamanho ==> no_tabuleiro(#[trigger] d.passo(x, y, i))
            && !ocupada_por_outro(navios, qual, d.passo(x, y, i))
}

/// Whether a ship of length `t` may lie on the map `m` with its stern at
/// (`x`, `y`) pointing `d`: each of its cells is then on the board and water.
pub open spec fn pose_livre(
    m: Map<(int, int), Celula>,
    x: int,
    y: int,
    d: Direcao,
    t: int,
) -> bool {
    forall|i: int|
        0 <= i < t ==> no_tabuleiro(#[trigger] d.passo(x, y, i)) && m[d.passo(x, y, i)]
            == Celula::Agua
}

/// A fleet as the rules want it: four ships of lengths 5, 4, 3 and 2 in this
/// order, each on the board, no two on one cell.
pub open spec fn frota_valida(navios: Seq<Navio>) -> bool {
    &&& navios.len() == NUM_NAVIOS
    &&& forall|n: int| 0 <= n < NUM_NAVIOS ==> (#[trigger] navios[n]).tamanho == MAX_TAM_NAVIO - n
    &&& forall|n: int| 0 <= n < NUM_NAVIOS ==> (#[trigger] navios[n]).dentro_do_tabuleiro()
    &&& forall|n: int, m: int, c: (int, int)|
        0 <= n < NUM_NAVIOS && 0 <= m < NUM_NAVIOS && n != m ==> !(#[trigger] navios[n].ocupa(c)
            && #[trigger] navios[m].ocupa(c))
}

/// The fleet of either side as a game begins: the ships of lengths 5, 4, 3
/// and 2 in rows 2, 4, 6 and 8, each from column 1 to the east.
pub open spec fn frota_inicial() -> Seq<Navio> {
    seq![
        Navio::inicial(2, 5),
        Navio::inicial(4, 4),
        Navio::inicial(6, 3),
        Navio::inicial(8, 2),
    ]
}

/// A drawn cell is water exactly where none of the ships drawn lies, and
/// otherwise holds the length of one of them that does.
pub proof fn lema_celula_rasterizada(
    navios: Seq<Navio>,
    excecao: Option<usize>,
    ate: int,
    c: (int, int),
)
    requires
        0 <= ate <= navios.len(),
    ensures
        celula_rasterizada(navios, excecao, ate, c) != Celula::Destruido,
        celula_rasterizada(navios, excecao, ate, c) == Celula::Agua <==> forall|n: int|
            0 <= n < ate && excecao != Some(n as usize) ==> !(#[trigger] navios[n]).ocupa(c),
        celula_rasterizada(navios, excecao, ate, c) matches Celula::Navio(t) ==> exists|n: int|
            0 <= n < ate && excecao != Some(n as usize) && (#[trigger] navios[n]).ocupa(c)
                && navios[n].tamanho == t,
    decreases ate,
{
    if ate > 0 {
        lema_celula_rasterizada(navios, excecao, ate - 1, c);
    }
}

/// On the map of a fleet without the ship `qual`, a ship may lie exactly
/// where the rules let the ship `qual` lie.
pub proof fn lema_pose_livre_legal(navios: Seq<Navio>, qual: int, x: int, y: int, d: Direcao)
    requires
        0 <= qual < navios.len() <= usize::MAX,
    ensures
        pose_livre(
            rasterizacao(navios, Some(qual as usize)),
            x,
            y,
            d,
            navios[qual].tamanho as int,
        ) == pose_legal(navios, qual, x, y, d),
{
    let m = rasterizacao(navios, Some(qual as usize));
    let t = navios[qual].tamanho as int;
    assert forall|i: int|
        0 <= i < t && no_tabuleiro(#[trigger] d.passo(x, y, i)) implies (m[d.passo(x, y, i)]
        == Celula::Agua) == !ocupada_por_outro(navios, qual, d.passo(x, y, i)) by {
        lema_celula_rasterizada(
            navios,
            Some(qual as usize),
            navios.len() as int,
            d.passo(x, y, i),
        );
    }
}

/// A ship that the rules let lie where it is lies on the board and shares no
/// cell with another ship of its fleet.
pub proof fn lema_colocacao_aceita(navios: Seq<Navio>, qual: int)
    requires
        0 <= qual < navios.len(),
        pose_legal(
            navios,
            qual,
            navios[qual].popa_x as int,
            navios[qual].popa_y as int,
            navios[qual].direcao,
        ),
    ensures
        navios[qual].dentro_do_tabuleiro(),
        forall|n: int, c: (int, int)|
            0 <= n < navios.len() && n != qual ==> !(navios[qual].ocupa(c)
                && #[trigger] navios[n].ocupa(c)),
{
}

/// In a fleet that the rules accept, a ship put where the rules let it lie
/// leaves a fleet that the rules accept.
pub proof fn lema_troca_legal(navios: Seq<Navio>, qual: int, novo: Navio)
    requires
        frota_valida(navios),
        0 <= qual < NUM_NAVIOS,
        novo.tamanho == navios[qual].tamanho,
        pose_legal(navios, qual, novo.popa_x as int, novo.popa_y as int, novo.direcao),
    ensures
        frota_valida(navios.update(qual, novo)),
{
    lema_colocacao_aceita(navios.update(qual, novo), qual);
}

/// Where the ship `qual` may lie depends on its length and on the other
/// ships, not on where it lies now.
pub proof fn lema_pose_legal_dos_outros(
    navios: Seq<Navio>,
    qual: int,
    novo: Navio,
    x: int,
    y: int,
    d: Direcao,
)
    requires
        0 <= qual < navios.len(),
        novo.tamanho == navios[qual].tamanho,
    ensures
        pose_legal(navios.update(qual, novo), qual, x, y, d) == pose_legal(navios, qual, x, y, d),
{
    let depois = navios.update(qual, novo);
    assert forall|c: (int, int)|
        ocupada_por_outro(depois, qual, c) == ocupada_por_outro(navios, qual, c) by {
        if ocupada_por_outro(navios, qual, c) {
            let n = choose|n: int|
                0 <= n < navios.len() && n != qual && (#[trigger] navios[n]).ocupa(c);
            assert(depois[n].ocupa(c));
        }
    }
}

/// The fleet of the start of a game is one that the rules accept.
pub proof fn lema_frota_inicial_valida()
    ensures
        frota_valida(frota_inicial()),
{
}

/// With a stern beyond the edge of the board, or next to it on the outside,
/// only a ship without cells may lie.
pub proof fn lema_popa_fora(
    m: Map<(int, int), Celula>,
    navios: Seq<Navio>,
    qual: int,
    x: int,
    y: int,
    d: Direcao,
)
    requires
        !no_tabuleiro((x, y)),
    ensures
        pose_livre(m, x, y, d, navios[qual].tamanho as int) == (navios[qual].tamanho == 0),
        pose_legal(navios, qual, x, y, d) == (navios[qual].tamanho == 0),
{
    if navios[qual].tamanho > 0 {
        assert(d.passo(x, y, 0) == (x, y));
    }
}

/// In a fleet that the rules accept, each ship may lie where it lies.
pub proof fn lema_frota_valida_legal(navios: Seq<Navio>, qual: int)
    requires
        frota_valida(navios),
        0 <= qual < NUM_NAVIOS,
    ensures
        pose_legal(
            navios,
            qual,
            navios[qual].popa_x as int,
            navios[qual].popa_y as int,
            navios[qual].direcao,
        ),
{
    let navio = navios[qual];
    assert forall|i: int| 0 <= i < navio.tamanho implies !ocupada_por_outro(
        navios,
        qual,
        #[trigger] navio.direcao.passo(navio.popa_x as int, navio.popa_y as int, i),
    ) by {
        assert(navio.ocupa(navio.direcao.passo(navio.popa_x as int, navio.popa_y as int, i)));
    }
}

/// A fleet of four ships of the lengths 5, 4, 3 and 2, each of which may lie
/// where it lies, is one that the rules accept.
pub proof fn lema_frota_legal_valida(navios: Seq<Navio>)
    requires
        navios.len() == NUM_NAVIOS,
        forall|n: int| 0 <= n < NUM_NAVIOS ==> (#[trigger] navios[n]).tamanho == MAX_TAM_NAVIO - n,
        forall|n: int|
            0 <= n < NUM_NAVIOS ==> pose_legal(
                navios,
                n,
                (#[trigger] navios[n]).popa_x as int,
                navios[n].popa_y as int,
                navios[n].direcao,
            ),
    ensures
        frota_valida(navios),
{
    assert forall|n: int| 0 <= n < NUM_NAVIOS implies (
    #[trigger] navios[n]).dentro_do_tabuleiro() by {
        lema_colocacao_aceita(navios, n);
    }
    assert forall|n: int, m: int, c: (int, int)|
        0 <= n < NUM_NAVIOS && 0 <= m < NUM_NAVIOS && n != m implies !(#[trigger] navios[n].ocupa(c)
        && #[trigger] navios[m].ocupa(c)) by {
        lema_colocacao_aceita(navios, n);
    }
}

/// How many segments a fleet has when none is hit: 5 + 4 + 3 + 2.
pub const SEGMENTOS_DA_FROTA: usize = 14;

/// On the map of a fleet that the rules accept, the live cells are the cells
/// of its four ships, fourteen in all.
pub proof fn lema_frota_viva(navios: Seq<Navio>)
    requires
        frota_valida(navios),
    ensures
        celulas_vivas(rasterizacao(navios, None)) == navios[0].celulas() + navios[1].celulas()
            + navios[2].celulas() + navios[3].celulas(),
        segmentos_vivos(rasterizacao(navios, None)) == SEGMENTOS_DA_FROTA,
{
    let m = rasterizacao(navios, None);
    let a = navios[0].celulas();
    let b = navios[1].celulas();
    let c = navios[2].celulas();
    let d = navios[3].celulas();
    lema_celulas_do_navio(navios[0]);
    lema_celulas_do_navio(navios[1]);
    lema_celulas_do_navio(navios[2]);
    lema_celulas_do_navio(navios[3]);
    assert forall|p: (int, int)| celulas_vivas(m).contains(p) == (a + b + c + d).contains(p) by {
        lema_celula_rasterizada(navios, None, 4, p);
    }
    assert(celulas_vivas(m) =~= a + b + c + d);
    assert(a.disjoint(b));
    assert((a + b).disjoint(c));
    assert((a + b + c).disjoint(d));
    lemma_set_disjoint_lens(a, b);
    lemma_set_disjoint_lens(a + b, c);
    lemma_set_disjoint_lens(a + b + c, d);
}

} // verus!
