//! The board of one side: what each cell holds, and what a shot does to it.

use vstd::prelude::*;
use crate::batalha_naval::navio::{no_tabuleiro, LADO_TABULEIRO};

verus! {

/// What one cell of a board holds.
#[derive(Clone, Copy, Debug, PartialEq, Eq, Structural)]
pub enum Celula {
    /// Open water that no shot has reached.
    Agua,
    /// A segment, not yet hit, of the ship of this length.
    Navio(usize),
    /// A cell that a shot has reached, whatever it held before.
    Destruido,
}

/// The board of one side, ten rows of ten cells.
#[derive(Clone, Copy, Debug, PartialEq, Eq)]
pub struct Mapa {
    /// The cells by row, then by column.
    pub celulas: [[Celula; LADO_TABULEIRO]; LADO_TABULEIRO],
}

impl View for Mapa {
    type V = Map<(int, int), Celula>;

    /// The board as a map from (column, row) to what the cell holds.
    open spec fn view(&self) -> Map<(int, int), Celula> {
        Map::new(|c: (int, int)| no_tabuleiro(c), |c: (int, int)| self.celulas[c.1][c.0])
    }
}

/// The cells of the board that hold a segment not yet hit.
pub open spec fn celulas_vivas(m: Map<(int, int), Celula>) -> Set<(int, int)> {
    Set::new(|c: (int, int)| no_tabuleiro(c) && m[c] is Navio)
}

/// How many segments of the board are not yet hit.
pub open spec fn segmentos_vivos(m: Map<(int, int), Celula>) -> nat {
    celulas_vivas(m).len()
}

/// The board after a shot at the cell `c`: that cell is destroyed, the rest
/// is as before.
pub open spec fn apos_tiro(m: Map<(int, int), Celula>, c: (int, int)) -> Map<(int, int), Celula> {
    m.insert(c, Celula::Destruido)
}

/// The place of the cell `c` when the board is read row by row.
pub open spec fn ordem(c: (int, int)) -> int {
    c.1 * LADO_TABULEIRO + c.0
}

/// The live cells among the first `k` of the board, read row by row.
pub open spec fn vivas_ate(m: Map<(int, int), Celula>, k: int) -> Set<(int, int)> {
    Set::new(|c: (int, int)| no_tabuleiro(c) && ordem(c) < k && m[c] is Navio)
}

/// Reading one cell more adds that cell to the live ones if it holds a segment.
pub proof fn lema_vivas_ate_passo(m: Map<(int, int), Celula>, c: (int, int))
    requires
        no_tabuleiro(c),
    ensures
        vivas_ate(m, ordem(c) + 1) == if m[c] is Navio {
            vivas_ate(m, ordem(c)).insert(c)
        } else {
            vivas_ate(m, ordem(c))
        },
        !vivas_ate(m, ordem(c)).contains(c),
{
    let k = ordem(c);
    if m[c] is Navio {
        assert(vivas_ate(m, k + 1) =~= vivas_ate(m, k).insert(c));
    } else {
        assert(vivas_ate(m, k + 1) =~= vivas_ate(m, k));
    }
}

/// The live cells among the first `k` are finitely many, `k` at most.
pub proof fn lema_vivas_ate_finito(m: Map<(int, int), Celula>, k: int)
    requires
        0 <= k <= LADO_TABULEIRO * LADO_TABULEIRO,
    ensures
        vivas_ate(m, k).finite(),
        vivas_ate(m, k).len() <= k,
    decreases k,
{
    if k == 0 {
        assert(vivas_ate(m, 0) =~= Set::empty());
    } else {
        let c = ((k - 1) % 10, (k - 1) / 10);
        lema_vivas_ate_finito(m, k - 1);
        lema_vivas_ate_passo(m, c);
    }
}

/// A board has finitely many live cells, a hundred at most.
pub proof fn lema_vivas_finito(m: Map<(int, int), Celula>)
    ensures
        celulas_vivas(m).finite(),
        segmentos_vivos(m) <= LADO_TABULEIRO * LADO_TABULEIRO,
{
    lema_vivas_ate_finito(m, 100);
    assert(celulas_vivas(m) =~= vivas_ate(m, 100));
}

/// A shot at a live segment takes one from the live segments of the board; a
/// shot at water or at a destroyed cell leaves their number as it was.
pub proof fn lema_tiro(m: Map<(int, int), Celula>, c: (int, int))
    requires
        no_tabuleiro(c),
    ensures
        celulas_vivas(apos_tiro(m, c)) == celulas_vivas(m).remove(c),
        segmentos_vivos(apos_tiro(m, c)) == segmentos_vivos(m) - if m[c] is Navio {
            1int
        } else {
            0int
        },
{
    lema_vivas_finito(m);
    assert(celulas_vivas(apos_tiro(m, c)) =~= celulas_vivas(m).remove(c));
}

/// A second shot at a cell changes nothing.
pub proof fn lema_tiro_idempotente(m: Map<(int, int), Celula>, c: (int, int))
    ensures
        apos_tiro(apos_tiro(m, c), c) == apos_tiro(m, c),
{
}

/// A shot at a destroyed cell of a board changes nothing.
pub proof fn lema_tiro_repetido(mapa: Mapa, c: (int, int))
    requires
        no_tabuleiro(c),
        mapa@[c] == Celula::Destruido,
    ensures
        apos_tiro(mapa@, c) == mapa@,
{
}

impl Mapa {
    /// A board of open water.
    pub fn novo() -> (mapa: Mapa)
        ensures
            forall|c: (int, int)| no_tabuleiro(c) ==> mapa@[c] == Celula::Agua,
    {
        Mapa { celulas: [[Celula::Agua; LADO_TABULEIRO]; LADO_TABULEIRO] }
    }

    /// What the cell in column `x` of row `y` holds.
    pub fn celula(&self, x: usize, y: usize) -> (c: Celula)
        requires
            x < LADO_TABULEIRO,
            y < LADO_TABULEIRO,
        ensures
            c == self@[(x as int, y as int)],
    {
        self.celulas[y][x]
    }

    /// Puts `c` in column `x` of row `y`.
    pub fn poe(&mut self, x: usize, y: usize, c: Celula)
        requires
            x < LADO_TABULEIRO,
            y < LADO_TABULEIRO,
        ensures
            final(self)@ == old(self)@.insert((x as int, y as int), c),
    {
        self.celulas[y][x] = c;
    }

    /// Fires at column `x` of row `y` and returns what the cell held. The
    /// cell is destroyed from then on; a cell destroyed before stays so.
    pub fn atira(&mut self, x: usize, y: usize) -> (antes: Celula)
        requires
            x < LADO_TABULEIRO,
            y < LADO_TABULEIRO,
        ensures
            antes == old(self)@[(x as int, y as int)],
            final(self)@ == apos_tiro(old(self)@, (x as int, y as int)),
            antes == Celula::Destruido ==> *final(self) == *old(self),
            segmentos_vivos(final(self)@) == segmentos_vivos(old(self)@) - if antes is Navio {
                1int
            } else {
                0int
            },
    {
        let antes = self.celulas[y][x];
        proof {
            lema_tiro(self@, (x as int, y as int));
        }
        match antes {
            Celula::Destruido => {},
            _ => {
                self.poe(x, y, Celula::Destruido);
            },
        }
        antes
    }

    /// How many segments of the board are not yet hit.
    pub fn vivos(&self) -> (n: usize)
        ensures
            n == segmentos_vivos(self@),
    {
        let mut n: usize = 0;
        let mut y: usize = 0;
        proof {
            assert(vivas_ate(self@, 0) =~= Set::empty());
        }
        while y < LADO_TABULEIRO
            invariant
                y <= LADO_TABULEIRO,
                n == vivas_ate(self@, y * LADO_TABULEIRO).len(),
                n <= y * LADO_TABULEIRO,
            decreases LADO_TABULEIRO - y,
        {
            let mut x: usize = 0;
            while x < LADO_TABULEIRO
                invariant
                    y < LADO_TABULEIRO,
                    x <= LADO_TABULEIRO,
                    n == vivas_ate(self@, y * LADO_TABULEIRO + x).len(),
                    n <= y * LADO_TABULEIRO + x,
                decreases LADO_TABULEIRO - x,
            {
                proof {
                    lema_vivas_ate_finito(self@, ordem((x as int, y as int)));
                    lema_vivas_ate_passo(self@, (x as int, y as int));
                }
                match self.celulas[y][x] {
                    Celula::Navio(_) => {
                        n = n + 1;
                    },
                    _ => {},
                }
                x = x + 1;
            }
            y = y + 1;
        }
        proof {
            assert(celulas_vivas(self@) =~= vivas_ate(self@, 100));
        }
        n
    }
}

} // verus!
