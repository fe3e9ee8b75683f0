//! Ships: the cells they lie on and how they turn.

use vstd::prelude::*;

verus! {

/// The board has this many rows and this many columns.
pub const LADO_TABULEIRO: usize = 10;

/// The length of the longest ship.
pub const MAX_TAM_NAVIO: usize = 5;

/// The length of the shortest ship.
pub const MIN_TAM_NAVIO: usize = 2;

/// Each side has this many ships.
pub const NUM_NAVIOS: usize = 4;

/// Whether the cell `c`, given as (column, row), lies on the board.
pub open spec fn no_tabuleiro(c: (int, int)) -> bool {
    0 <= c.0 < LADO_TABULEIRO && 0 <= c.1 < LADO_TABULEIRO
}

/// The way a ship points, from its stern to its bow. Rows grow to the south
/// and columns to the east.
#[derive(Clone, Copy, Debug, PartialEq, Eq, Structural)]
pub enum Direcao {
    Norte,
    Sul,
    Leste,
    Oeste,
}

impl Direcao {
    /// The cell reached from (`x`, `y`) by `i` steps this way.
    pub open spec fn passo(self, x: int, y: int, i: int) -> (int, int) {
        match self {
            Direcao::Norte => (x, y - i),
            Direcao::Sul => (x, y + i),
            Direcao::Leste => (x + i, y),
            Direcao::Oeste => (x - i, y),
        }
    }

    /// The next direction clockwise: north, east, south, west, north.
    pub open spec fn girada(self) -> Direcao {
        match self {
            Direcao::Norte => Direcao::Leste,
            Direcao::Leste => Direcao::Sul,
            Direcao::Sul => Direcao::Oeste,
            Direcao::Oeste => Direcao::Norte,
        }
    }

    /// Turns a quarter clockwise.
    pub fn gira(self) -> (d: Direcao)
        ensures
            d == self.girada(),
    {
        match self {
            Direcao::Norte => Direcao::Leste,
            Direcao::Sul => Direcao::Oeste,
            Direcao::Leste => Direcao::Sul,
            Direcao::Oeste => Direcao::Norte,
        }
    }
}

/// Whether a ship of length `t`, with its stern at (`x`, `y`) and pointing
/// `d`, lies on the cell `c`.
pub open spec fn cobre(x: int, y: int, d: Direcao, t: int, c: (int, int)) -> bool {
    exists|i: int| 0 <= i < t && #[trigger] d.passo(x, y, i) == c
}

/// Whether every cell of such a ship lies on the board.
pub open spec fn cabe(x: int, y: int, d: Direcao, t: int) -> bool {
    forall|i: int| 0 <= i < t ==> no_tabuleiro(#[trigger] d.passo(x, y, i))
}

/// A background colour of the terminal.
#[derive(Clone, Copy, Debug, PartialEq, Eq, Structural)]
pub enum Cor {
    AzulEscuro,
    MagentaEscuro,
    AmareloEscuro,
    VermelhoEscuro,
    Ciano,
}

/// How one cell of a ship is drawn: its letter, printed twice, on a background.
#[derive(Clone, Copy, Debug, PartialEq, Eq, Structural)]
pub struct Desenho {
    pub letra: char,
    pub fundo: Cor,
}

/// The drawing of the ship of each length.
pub open spec fn desenho_do_tamanho(tamanho: usize) -> Desenho {
    if tamanho == 5 {
        Desenho { letra: 'P', fundo: Cor::AzulEscuro }
    } else if tamanho == 4 {
        Desenho { letra: 'C', fundo: Cor::MagentaEscuro }
    } else if tamanho == 3 {
        Desenho { letra: 'D', fundo: Cor::AmareloEscuro }
    } else {
        Desenho { letra: 'S', fundo: Cor::VermelhoEscuro }
    }
}

/// A ship: the cell of its stern, the way it points, its length, and how it
/// is drawn. It lies on `tamanho` cells in a row, the first of them the stern.
#[derive(Clone, Copy, Debug, PartialEq, Eq, Structural)]
pub struct Navio {
    pub popa_x: usize,
    pub popa_y: usize,
    pub direcao: Direcao,
    pub tamanho: usize,
    pub desenho: Desenho,
}

impl Navio {
    /// The `i`-th cell of the ship, counted from the stern, as (column, row).
    pub open spec fn celula(self, i: int) -> (int, int) {
        self.direcao.passo(self.popa_x as int, self.popa_y as int, i)
    }

    /// Whether the ship lies on the cell `c`.
    pub open spec fn ocupa(self, c: (int, int)) -> bool {
        cobre(self.popa_x as int, self.popa_y as int, self.direcao, self.tamanho as int, c)
    }

    /// The cells the ship lies on.
    pub open spec fn celulas(self) -> Set<(int, int)> {
        Set::new(|c: (int, int)| self.ocupa(c))
    }

    /// Whether every cell of the ship lies on the board.
    pub open spec fn dentro_do_tabuleiro(self) -> bool {
        cabe(self.popa_x as int, self.popa_y as int, self.direcao, self.tamanho as int)
    }

    /// The ship turned a quarter clockwise about its stern.
    pub open spec fn girado(self) -> Navio {
        Navio { direcao: self.direcao.girada(), ..self }
    }

    /// The ship one cell further in the direction `d`, pointing as before.
    pub open spec fn movido(self, d: Direcao) -> Navio {
        Navio {
            popa_x: d.passo(self.popa_x as int, self.popa_y as int, 1).0 as usize,
            popa_y: d.passo(self.popa_x as int, self.popa_y as int, 1).1 as usize,
            ..self
        }
    }

    /// The ship with its stern at (`x`, `y`), pointing `d`.
    pub open spec fn posto(self, x: usize, y: usize, d: Direcao) -> Navio {
        Navio { popa_x: x, popa_y: y, direcao: d, ..self }
    }

    /// The ship as a game begins: stern in column 1 of row `popa_y`, pointing east.
    pub open spec fn inicial(popa_y: usize, tamanho: usize) -> Navio {
        Navio {
            popa_x: 1,
            popa_y,
            direcao: Direcao::Leste,
            tamanho,
            desenho: desenho_do_tamanho(tamanho),
        }
    }

    /// A ship of the given length in its place at the start of a game.
    pub fn new(popa_y: usize, tamanho: usize) -> (navio: Navio)
        requires
            MIN_TAM_NAVIO <= tamanho <= MAX_TAM_NAVIO,
        ensures
            navio == Navio::inicial(popa_y, tamanho),
    {
        let desenho = if tamanho == MAX_TAM_NAVIO {
            Desenho { letra: 'P', fundo: Cor::AzulEscuro }
        } else if tamanho == 4 {
            Desenho { letra: 'C', fundo: Cor::MagentaEscuro }
        } else if tamanho == 3 {
            Desenho { letra: 'D', fundo: Cor::AmareloEscuro }
        } else {
            Desenho { letra: 'S', fundo: Cor::VermelhoEscuro }
        };
        Navio { popa_x: 1, popa_y, direcao: Direcao::Leste, tamanho, desenho }
    }

    /// Turns the ship a quarter clockwise about its stern.
    pub fn gira(&mut self)
        ensures
            *final(self) == old(self).girado(),
    {
        self.direcao = self.direcao.gira();
    }

    /// The rows and columns between which the ship lies: its northernmost
    /// row, its southernmost row, its easternmost column, its westernmost column.
    pub fn extremos(&self) -> (e: (usize, usize, usize, usize))
        requires
            self.tamanho >= 1,
            self.dentro_do_tabuleiro(),
        ensures
            self.ocupa((e.3 as int, e.0 as int)),
            self.ocupa((e.2 as int, e.1 as int)),
            forall|c: (int, int)| self.ocupa(c) ==> e.3 <= c.0 <= e.2 && e.0 <= c.1 <= e.1,
    {
        let tam = self.tamanho;
        proof {
            let ultimo = self.celula(tam - 1);
            assert(self.celula(0) == (self.popa_x as int, self.popa_y as int));
        }
        match self.direcao {
            Direcao::Norte => (self.popa_y + 1 - tam, self.popa_y, self.popa_x, self.popa_x),
            Direcao::Sul => (self.popa_y, self.popa_y + tam - 1, self.popa_x, self.popa_x),
            Direcao::Leste => (self.popa_y, self.popa_y, self.popa_x + tam - 1, self.popa_x),
            Direcao::Oeste => (self.popa_y, self.popa_y, self.popa_x, self.popa_x + 1 - tam),
        }
    }

    /// Whether every cell of the ship lies on the board.
    pub fn esta_no_tabuleiro(&self) -> (r: bool)
        ensures
            r == self.dentro_do_tabuleiro(),
    {
        if self.tamanho == 0 {
            return true;
        }
        if self.popa_x >= LADO_TABULEIRO || self.popa_y >= LADO_TABULEIRO {
            assert(!no_tabuleiro(self.celula(0)));
            return false;
        }
        let resto = self.tamanho - 1;
        let r = match self.direcao {
            Direcao::Norte => resto <= self.popa_y,
            Direcao::Sul => resto < LADO_TABULEIRO - self.popa_y,
            Direcao::Leste => resto < LADO_TABULEIRO - self.popa_x,
            Direcao::Oeste => resto <= self.popa_x,
        };
        proof {
            if !r {
                assert(!no_tabuleiro(self.celula(resto as int)));
            }
        }
        r
    }

    /// The cells of the ship in order from the stern, as (column, row).
    pub fn posicoes(&self) -> (v: Vec<(usize, usize)>)
        requires
            self.dentro_do_tabuleiro(),
        ensures
            v@.len() == self.tamanho,
            forall|i: int|
                0 <= i < self.tamanho ==> (#[trigger] v@[i].0 as int, v@[i].1 as int)
                    == self.celula(i),
    {
        let mut v: Vec<(usize, usize)> = Vec::new();
        let mut i: usize = 0;
        while i < self.tamanho
            invariant
                i <= self.tamanho,
                self.dentro_do_tabuleiro(),
                v@.len() == i,
                forall|j: int|
                    0 <= j < i ==> (#[trigger] v@[j].0 as int, v@[j].1 as int) == self.celula(j),
            decreases self.tamanho - i,
        {
            assert(no_tabuleiro(self.celula(i as int)));
            let c = match self.direcao {
                Direcao::Norte => (self.popa_x, self.popa_y - i),
                Direcao::Sul => (self.popa_x, self.popa_y + i),
                Direcao::Leste => (self.popa_x + i, self.popa_y),
                Direcao::Oeste => (self.popa_x - i, self.popa_y),
            };
            v.push(c);
            i = i + 1;
        }
        v
    }
}

/// The cells of a ship among its first `k`, counted from the stern.
pub open spec fn celulas_ate(navio: Navio, k: int) -> Set<(int, int)> {
    Set::new(
        |c: (int, int)| cobre(navio.popa_x as int, navio.popa_y as int, navio.direcao, k, c),
    )
}

/// The first `k` cells of a ship are `k` different cells.
pub proof fn lema_celulas_ate(navio: Navio, k: int)
    requires
        0 <= k,
    ensures
        celulas_ate(navio, k).finite(),
        celulas_ate(navio, k).len() == k,
    decreases k,
{
    let px = navio.popa_x as int;
    let py = navio.popa_y as int;
    let d = navio.direcao;
    if k == 0 {
        assert(celulas_ate(navio, 0) =~= Set::empty());
    } else {
        lema_celulas_ate(navio, k - 1);
        let antes = celulas_ate(navio, k - 1);
        let nova = d.passo(px, py, k - 1);
        assert(celulas_ate(navio, k) =~= antes.insert(nova));
    }
}

/// A ship lies on as many cells as it is long.
pub proof fn lema_celulas_do_navio(navio: Navio)
    ensures
        navio.celulas().finite(),
        navio.celulas().len() == navio.tamanho,
{
    lema_celulas_ate(navio, navio.tamanho as int);
    assert(navio.celulas() =~= celulas_ate(navio, navio.tamanho as int));
}

/// Four quarter turns bring a ship back to where it was: it points as
/// before and lies on the cells it lay on.
pub proof fn lema_quatro_giros(navio: Navio)
    ensures
        navio.girado().girado().girado().girado() == navio,
        navio.girado().girado().girado().girado().direcao == navio.direcao,
        navio.girado().girado().girado().girado().celulas() == navio.celulas(),
{
}

} // verus!
