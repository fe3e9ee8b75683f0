//! The two fleets of a game, the map of a fleet, and the test that every
//! change of a ship's place has to pass.

use vstd::prelude::*;
use crate::batalha_naval::frota::{
    celula_rasterizada,
    frota_inicial,
    frota_valida,
    lema_frota_inicial_valida,
    lema_frota_legal_valida,
    lema_frota_valida_legal,
    lema_popa_fora,
    lema_pose_legal_dos_outros,
    lema_pose_livre_legal,
    outros_no_tabuleiro,
    pose_legal,
    pose_livre,
    rasterizacao,
};
use crate::batalha_naval::mapa::{Celula, Mapa};
use crate::batalha_naval::navio::{
    cobre,
    no_tabuleiro,
    Direcao,
    Navio,
    LADO_TABULEIRO,
    MAX_TAM_NAVIO,
    NUM_NAVIOS,
};

verus! {

/// The two sides of a game.
#[derive(Clone, Copy, Debug, PartialEq, Eq, Structural)]
pub enum Jogador {
    Humano,
    Bot,
}

impl Jogador {
    /// The other side.
    pub open spec fn adversario(self) -> Jogador {
        match self {
            Jogador::Humano => Jogador::Bot,
            Jogador::Bot => Jogador::Humano,
        }
    }
}

/// Draws the ships of a fleet on open water, in their order, but for the
/// ship `excecao`.
pub fn mapeia(navios: &[Navio; NUM_NAVIOS], excecao: Option<usize>) -> (mapa: Mapa)
    requires
        forall|n: int|
            0 <= n < NUM_NAVIOS && excecao != Some(n as usize) ==> (
            #[trigger] navios@[n]).dentro_do_tabuleiro(),
    ensures
        mapa@ == rasterizacao(navios@, excecao),
{
    let mut mapa = Mapa::novo();
    let mut n: usize = 0;
    while n < NUM_NAVIOS
        invariant
            n <= NUM_NAVIOS,
            forall|k: int|
                0 <= k < NUM_NAVIOS && excecao != Some(k as usize) ==> (
                #[trigger] navios@[k]).dentro_do_tabuleiro(),
            forall|c: (int, int)|
                no_tabuleiro(c) ==> #[trigger] mapa@[c] == celula_rasterizada(
                    navios@,
                    excecao,
                    n as int,
                    c,
                ),
        decreases NUM_NAVIOS - n,
    {
        let fica_fora = match excecao {
            Some(e) => e == n,
            None => false,
        };
        if !fica_fora {
            let navio = navios[n];
            let ghost antes = mapa@;
            let mut i: usize = 0;
            while i < navio.tamanho
                invariant
                    i <= navio.tamanho,
                    navio.dentro_do_tabuleiro(),
                    forall|c: (int, int)|
                        no_tabuleiro(c) ==> #[trigger] mapa@[c] == if cobre(
                            navio.popa_x as int,
                            navio.popa_y as int,
                            navio.direcao,
                            i as int,
                            c,
                        ) {
                            Celula::Navio(navio.tamanho)
                        } else {
                            antes[c]
                        },
                decreases navio.tamanho - i,
            {
                assert(no_tabuleiro(navio.celula(i as int)));
                let (x, y) = match navio.direcao {
                    Direcao::Norte => (navio.popa_x, navio.popa_y - i),
                    Direcao::Sul => (navio.popa_x, navio.popa_y + i),
                    Direcao::Leste => (navio.popa_x + i, navio.popa_y),
                    Direcao::Oeste => (navio.popa_x - i, navio.popa_y),
                };
                mapa.poe(x, y, Celula::Navio(navio.tamanho));
                i = i + 1;
            }
        }
        n = n + 1;
    }
    mapa
}

/// Whether a ship of length `tamanho` may lie on `mapa` with its stern in
/// column `x` of row `y`, pointing `direcao`: whether each of its cells is on
/// the board and holds water. The stern may be given off the board.
pub fn cabe_na_agua(mapa: &Mapa, x: i64, y: i64, direcao: Direcao, tamanho: usize) -> (r: bool)
    ensures
        r == pose_livre(mapa@, x as int, y as int, direcao, tamanho as int),
{
    if tamanho == 0 {
        return true;
    }
    let lado = LADO_TABULEIRO as i64;
    if x < 0 || x >= lado || y < 0 || y >= lado {
        assert(!no_tabuleiro(direcao.passo(x as int, y as int, 0)));
        return false;
    }
    let mut i: usize = 0;
    while i < tamanho
        invariant
            i <= tamanho,
            i <= LADO_TABULEIRO,
            lado == LADO_TABULEIRO,
            0 <= x < lado,
            0 <= y < lado,
            forall|j: int|
                0 <= j < i ==> no_tabuleiro(#[trigger] direcao.passo(x as int, y as int, j))
                    && mapa@[direcao.passo(x as int, y as int, j)] == Celula::Agua,
        decreases tamanho - i,
    {
        let passos = i as i64;
        let (cx, cy) = match direcao {
            Direcao::Norte => (x, y - passos),
            Direcao::Sul => (x, y + passos),
            Direcao::Leste => (x + passos, y),
            Direcao::Oeste => (x - passos, y),
        };
        assert((cx as int, cy as int) == direcao.passo(x as int, y as int, i as int));
        if cy < 0 || cy >= lado || cx < 0 || cx >= lado {
            return false;
        }
        match mapa.celula(cx as usize, cy as usize) {
            Celula::Agua => {},
            _ => {
                return false;
            },
        }
        i = i + 1;
    }
    true
}

/// Whether a fleet is as the rules want it: four ships of lengths 5, 4, 3
/// and 2 in this order, each on the board, no two on one cell.
pub fn frota_aceita(navios: &[Navio; NUM_NAVIOS]) -> (r: bool)
    ensures
        r == frota_valida(navios@),
{
    let mut n: usize = 0;
    while n < NUM_NAVIOS
        invariant
            n <= NUM_NAVIOS,
            forall|k: int|
                0 <= k < n ==> (#[trigger] navios@[k]).tamanho == MAX_TAM_NAVIO - k
                    && navios@[k].dentro_do_tabuleiro(),
        decreases NUM_NAVIOS - n,
    {
        if navios[n].tamanho != MAX_TAM_NAVIO - n || !navios[n].esta_no_tabuleiro() {
            assert(!(navios@[n as int].tamanho == MAX_TAM_NAVIO - n
                && navios@[n as int].dentro_do_tabuleiro()));
            return false;
        }
        n = n + 1;
    }
    let mut qual: usize = 0;
    while qual < NUM_NAVIOS
        invariant
            qual <= NUM_NAVIOS,
            forall|k: int|
                0 <= k < NUM_NAVIOS ==> (#[trigger] navios@[k]).tamanho == MAX_TAM_NAVIO - k
                    && navios@[k].dentro_do_tabuleiro(),
            forall|k: int|
                0 <= k < qual ==> pose_legal(
                    navios@,
                    k,
                    (#[trigger] navios@[k]).popa_x as int,
                    navios@[k].popa_y as int,
                    navios@[k].direcao,
                ),
        decreases NUM_NAVIOS - qual,
    {
        let navio = navios[qual];
        let mapa = mapeia(navios, Some(qual));
        proof {
            assert(no_tabuleiro(navio.celula(0)));
            lema_pose_livre_legal(
                navios@,
                qual as int,
                navio.popa_x as int,
                navio.popa_y as int,
                navio.direcao,
            );
        }
        if !cabe_na_agua(
            &mapa,
            navio.popa_x as i64,
            navio.popa_y as i64,
            navio.direcao,
            navio.tamanho,
        ) {
            proof {
                if frota_valida(navios@) {
                    lema_frota_valida_legal(navios@, qual as int);
                }
            }
            return false;
        }
        qual = qual + 1;
    }
    proof {
        lema_frota_legal_valida(navios@);
    }
    true
}

/// A coordinate of a stern as a signed number. One beyond the edge of the
/// board is given as the first beyond it: the ship is off the board either way.
fn coordenada(v: usize) -> (r: i64)
    ensures
        v <= LADO_TABULEIRO ==> r == v,
        v > LADO_TABULEIRO ==> r == LADO_TABULEIRO + 1,
{
    if v <= LADO_TABULEIRO {
        v as i64
    } else {
        LADO_TABULEIRO as i64 + 1
    }
}

/// The two fleets of a game.
#[derive(Clone, Copy, Debug, PartialEq, Eq)]
pub struct Jogo {
    pub navios_humano: [Navio; NUM_NAVIOS],
    pub navios_bot: [Navio; NUM_NAVIOS],
}

impl Jogo {
    /// The fleet of a side.
    pub open spec fn navios(self, jogador: Jogador) -> Seq<Navio> {
        match jogador {
            Jogador::Humano => self.navios_humano@,
            Jogador::Bot => self.navios_bot@,
        }
    }

    /// Whether both fleets are as the rules want them.
    pub open spec fn valido(self) -> bool {
        frota_valida(self.navios_humano@) && frota_valida(self.navios_bot@)
    }

    /// Whether both fleets are as the rules want them.
    pub fn esta_valido(&self) -> (r: bool)
        ensures
            r == self.valido(),
    {
        frota_aceita(&self.navios_humano) && frota_aceita(&self.navios_bot)
    }

    /// A game with both fleets in their places of the start.
    pub fn new() -> (jogo: Jogo)
        ensures
            jogo.navios_humano@ == frota_inicial(),
            jogo.navios_bot@ == frota_inicial(),
            jogo.valido(),
    {
        let jogo = Jogo {
            navios_humano: [
                Navio::new(2, MAX_TAM_NAVIO),
                Navio::new(4, MAX_TAM_NAVIO - 1),
                Navio::new(6, MAX_TAM_NAVIO - 2),
                Navio::new(8, MAX_TAM_NAVIO - 3),
            ],
            navios_bot: [
                Navio::new(2, MAX_TAM_NAVIO),
                Navio::new(4, MAX_TAM_NAVIO - 1),
                Navio::new(6, MAX_TAM_NAVIO - 2),
                Navio::new(8, MAX_TAM_NAVIO - 3),
            ],
        };
        proof {
            lema_frota_inicial_valida();
        }
        jogo
    }

    /// The map of the human's fleet, the ship `excecao` left out.
    pub fn mapeia_humano(&self, excecao: Option<usize>) -> (mapa: Mapa)
        requires
            forall|n: int|
                0 <= n < NUM_NAVIOS && excecao != Some(n as usize) ==> (
                #[trigger] self.navios_humano@[n]).dentro_do_tabuleiro(),
        ensures
            mapa@ == rasterizacao(self.navios_humano@, excecao),
    {
        mapeia(&self.navios_humano, excecao)
    }

    /// The map of the bot's fleet, the ship `excecao` left out.
    pub fn mapeia_bot(&self, excecao: Option<usize>) -> (mapa: Mapa)
        requires
            forall|n: int|
                0 <= n < NUM_NAVIOS && excecao != Some(n as usize) ==> (
                #[trigger] self.navios_bot@[n]).dentro_do_tabuleiro(),
        ensures
            mapa@ == rasterizacao(self.navios_bot@, excecao),
    {
        mapeia(&self.navios_bot, excecao)
    }

    /// The ship `qual` of a side and the map of the other ships of that side.
    fn navio_e_mapa(&self, jogador: &Jogador, qual: usize) -> (r: (Navio, Mapa))
        requires
            qual < NUM_NAVIOS,
            outros_no_tabuleiro(self.navios(*jogador), qual as int),
        ensures
            r.0 == self.navios(*jogador)[qual as int],
            r.1@ == rasterizacao(self.navios(*jogador), Some(qual)),
    {
        match jogador {
            Jogador::Humano => (self.navios_humano[qual], self.mapeia_humano(Some(qual))),
            Jogador::Bot => (self.navios_bot[qual], self.mapeia_bot(Some(qual))),
        }
    }

    /// Whether the ship `qual` of a side may lie where it is: on the board
    /// and on no cell of another ship of that side.
    pub fn pode_colocar_navio(&self, jogador: &Jogador, qual: usize) -> (r: bool)
        requires
            qual < NUM_NAVIOS,
            outros_no_tabuleiro(self.navios(*jogador), qual as int),
        ensures
            r == pose_legal(
                self.navios(*jogador),
                qual as int,
                self.navios(*jogador)[qual as int].popa_x as int,
                self.navios(*jogador)[qual as int].popa_y as int,
                self.navios(*jogador)[qual as int].direcao,
            ),
    {
        let (navio, mapa) = self.navio_e_mapa(jogador, qual);
        let x = coordenada(navio.popa_x);
        let y = coordenada(navio.popa_y);
        proof {
            let navios = self.navios(*jogador);
            lema_pose_livre_legal(
                navios,
                qual as int,
                navio.popa_x as int,
                navio.popa_y as int,
                navio.direcao,
            );
            if navio.popa_x > LADO_TABULEIRO || navio.popa_y > LADO_TABULEIRO {
                lema_popa_fora(mapa@, navios, qual as int, x as int, y as int, navio.direcao);
                lema_popa_fora(
                    mapa@,
                    navios,
                    qual as int,
                    navio.popa_x as int,
                    navio.popa_y as int,
                    navio.direcao,
                );
            }
        }
        cabe_na_agua(&mapa, x, y, navio.direcao, navio.tamanho)
    }

    /// Whether the ship `qual` of a side may turn a quarter clockwise about
    /// its stern.
    pub fn pode_girar_navio(&self, jogador: &Jogador, qual: usize) -> (r: bool)
        requires
            qual < NUM_NAVIOS,
            outros_no_tabuleiro(self.navios(*jogador), qual as int),
        ensures
            r == pose_legal(
                self.navios(*jogador),
                qual as int,
                self.navios(*jogador)[qual as int].popa_x as int,
                self.navios(*jogador)[qual as int].popa_y as int,
                self.navios(*jogador)[qual as int].direcao.girada(),
            ),
    {
        let (navio, mapa) = self.navio_e_mapa(jogador, qual);
        let nova_direcao = navio.direcao.gira();
        let x = coordenada(navio.popa_x);
        let y = coordenada(navio.popa_y);
        proof {
            let navios = self.navios(*jogador);
            lema_pose_livre_legal(
                navios,
                qual as int,
                navio.popa_x as int,
                navio.popa_y as int,
                nova_direcao,
            );
            if navio.popa_x > LADO_TABULEIRO || navio.popa_y > LADO_TABULEIRO {
                lema_popa_fora(mapa@, navios, qual as int, x as int, y as int, nova_direcao);
                lema_popa_fora(
                    mapa@,
                    navios,
                    qual as int,
                    navio.popa_x as int,
                    navio.popa_y as int,
                    nova_direcao,
                );
            }
        }
        cabe_na_agua(&mapa, x, y, nova_direcao, navio.tamanho)
    }

    /// Whether the ship `qual` of a side may move one cell in the direction
    /// `move_direcao`, pointing as before.
    pub fn pode_mover_navio(&self, jogador: &Jogador, qual: usize, move_direcao: Direcao) -> (r:
        bool)
        requires
            qual < NUM_NAVIOS,
            outros_no_tabuleiro(self.navios(*jogador), qual as int),
        ensures
            r == pose_legal(
                self.navios(*jogador),
                qual as int,
                move_direcao.passo(
                    self.navios(*jogador)[qual as int].popa_x as int,
                    self.navios(*jogador)[qual as int].popa_y as int,
                    1,
                ).0,
                move_direcao.passo(
                    self.navios(*jogador)[qual as int].popa_x as int,
                    self.navios(*jogador)[qual as int].popa_y as int,
                    1,
                ).1,
                self.navios(*jogador)[qual as int].direcao,
            ),
    {
        let (navio, mapa) = self.navio_e_mapa(jogador, qual);
        let x = coordenada(navio.popa_x);
        let y = coordenada(navio.popa_y);
        let (novo_popa_x, novo_popa_y) = match move_direcao {
            Direcao::Norte => (x, y - 1),
            Direcao::Sul => (x, y + 1),
            Direcao::Leste => (x + 1, y),
            Direcao::Oeste => (x - 1, y),
        };
        proof {
            let navios = self.navios(*jogador);
            let alvo = move_direcao.passo(navio.popa_x as int, navio.popa_y as int, 1);
            lema_pose_livre_legal(navios, qual as int, alvo.0, alvo.1, navio.direcao);
            if navio.popa_x > LADO_TABULEIRO || navio.popa_y > LADO_TABULEIRO {
                lema_popa_fora(
                    mapa@,
                    navios,
                    qual as int,
                    novo_popa_x as int,
                    novo_popa_y as int,
                    navio.direcao,
                );
                lema_popa_fora(mapa@, navios, qual as int, alvo.0, alvo.1, navio.direcao);
            }
        }
        cabe_na_agua(&mapa, novo_popa_x, novo_popa_y, navio.direcao, navio.tamanho)
    }

    /// Puts `navio` in the place `qual` of the fleet of a side.
    fn troca_navio(&mut self, jogador: &Jogador, qual: usize, navio: Navio)
        requires
            qual < NUM_NAVIOS,
        ensures
            final(self).navios(*jogador) == old(self).navios(*jogador).update(qual as int, navio),
            final(self).navios(jogador.adversario()) == old(self).navios(jogador.adversario()),
    {
        match jogador {
            Jogador::Humano => {
                self.navios_humano[qual] = navio;
            },
            Jogador::Bot => {
                self.navios_bot[qual] = navio;
            },
        }
    }

    /// The ship `qual` of a side.
    pub fn navio(&self, jogador: &Jogador, qual: usize) -> (navio: Navio)
        requires
            qual < NUM_NAVIOS,
        ensures
            navio == self.navios(*jogador)[qual as int],
    {
        match jogador {
            Jogador::Humano => self.navios_humano[qual],
            Jogador::Bot => self.navios_bot[qual],
        }
    }

    /// Turns the ship `qual` of a side a quarter clockwise if the rules let
    /// it, and says whether it turned. A ship that may not turn stays as it is.
    pub fn gira_navio(&mut self, jogador: &Jogador, qual: usize) -> (girou: bool)
        requires
            qual < NUM_NAVIOS,
            outros_no_tabuleiro(old(self).navios(*jogador), qual as int),
        ensures
            girou == pose_legal(
                old(self).navios(*jogador),
                qual as int,
                old(self).navios(*jogador)[qual as int].popa_x as int,
                old(self).navios(*jogador)[qual as int].popa_y as int,
                old(self).navios(*jogador)[qual as int].direcao.girada(),
            ),
            girou ==> final(self).navios(*jogador) == old(self).navios(*jogador).update(
                qual as int,
                old(self).navios(*jogador)[qual as int].girado(),
            ),
            !girou ==> final(self).navios(*jogador) == old(self).navios(*jogador),
            final(self).navios(jogador.adversario()) == old(self).navios(jogador.adversario()),
    {
        if self.pode_girar_navio(jogador, qual) {
            let mut navio = self.navio(jogador, qual);
            navio.gira();
            self.troca_navio(jogador, qual, navio);
            true
        } else {
            false
        }
    }

    /// Moves the ship `qual` of a side, a ship of one cell at least, one cell
    /// in the direction `move_direcao` if the rules let it, and says whether
    /// it moved. A ship that may not move stays where it is.
    pub fn move_navio(&mut self, jogador: &Jogador, qual: usize, move_direcao: Direcao) -> (moveu:
        bool)
        requires
            qual < NUM_NAVIOS,
            old(self).navios(*jogador)[qual as int].tamanho > 0,
            outros_no_tabuleiro(old(self).navios(*jogador), qual as int),
        ensures
            moveu == pose_legal(
                old(self).navios(*jogador),
                qual as int,
                move_direcao.passo(
                    old(self).navios(*jogador)[qual as int].popa_x as int,
                    old(self).navios(*jogador)[qual as int].popa_y as int,
                    1,
                ).0,
                move_direcao.passo(
                    old(self).navios(*jogador)[qual as int].popa_x as int,
                    old(self).navios(*jogador)[qual as int].popa_y as int,
                    1,
                ).1,
                old(self).navios(*jogador)[qual as int].direcao,
            ),
            moveu ==> final(self).navios(*jogador) == old(self).navios(*jogador).update(
                qual as int,
                old(self).navios(*jogador)[qual as int].movido(move_direcao),
            ),
            !moveu ==> final(self).navios(*jogador) == old(self).navios(*jogador),
            final(self).navios(jogador.adversario()) == old(self).navios(jogador.adversario()),
    {
        if self.pode_mover_navio(jogador, qual, move_direcao) {
            let mut navio = self.navio(jogador, qual);
            proof {
                let alvo = move_direcao.passo(navio.popa_x as int, navio.popa_y as int, 1);
                assert(no_tabuleiro(navio.direcao.passo(alvo.0, alvo.1, 0)));
            }
            match move_direcao {
                Direcao::Norte => {
                    navio.popa_y = navio.popa_y - 1;
                },
                Direcao::Sul => {
                    navio.popa_y = navio.popa_y + 1;
                },
                Direcao::Leste => {
                    navio.popa_x = navio.popa_x + 1;
                },
                Direcao::Oeste => {
                    navio.popa_x = navio.popa_x - 1;
                },
            }
            self.troca_navio(jogador, qual, navio);
            true
        } else {
            false
        }
    }

    /// Puts the ship `qual` of a side with its stern in column `popa_x` of
    /// row `popa_y`, pointing `direcao`, if the rules let it lie there, and
    /// says whether they did. A ship that may not lie there stays where it was.
    pub fn tenta_colocar(
        &mut self,
        jogador: &Jogador,
        qual: usize,
        direcao: Direcao,
        popa_x: usize,
        popa_y: usize,
    ) -> (colocado: bool)
        requires
            qual < NUM_NAVIOS,
            outros_no_tabuleiro(old(self).navios(*jogador), qual as int),
        ensures
            colocado == pose_legal(
                old(self).navios(*jogador),
                qual as int,
                popa_x as int,
                popa_y as int,
                direcao,
            ),
            colocado ==> final(self).navios(*jogador) == old(self).navios(*jogador).update(
                qual as int,
                old(self).navios(*jogador)[qual as int].posto(popa_x, popa_y, direcao),
            ),
            !colocado ==> final(self).navios(*jogador) == old(self).navios(*jogador),
            final(self).navios(jogador.adversario()) == old(self).navios(jogador.adversario()),
    {
        let velho = self.navio(jogador, qual);
        let mut novo = velho;
        novo.direcao = direcao;
        novo.popa_x = popa_x;
        novo.popa_y = popa_y;
        self.troca_navio(jogador, qual, novo);
        proof {
            lema_pose_legal_dos_outros(
                old(self).navios(*jogador),
                qual as int,
                novo,
                popa_x as int,
                popa_y as int,
                direcao,
            );
        }
        if self.pode_colocar_navio(jogador, qual) {
            true
        } else {
            self.troca_navio(jogador, qual, velho);
            false
        }
    }
}

} // verus!
