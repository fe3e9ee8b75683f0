//! What a game holds and what each event does to it, as mathematics: the
//! model that the game's own code is proved against, and the laws that follow.

use vstd::prelude::*;
use vstd::set_lib::lemma_len_subset;
use crate::batalha_naval::frota::{
    frota_inicial,
    frota_valida,
    lema_frota_viva,
    lema_troca_legal,
    pose_legal,
    rasterizacao,
    SEGMENTOS_DA_FROTA,
};
use crate::batalha_naval::arrumacao::fica_ou_sorteado;
use crate::batalha_naval::jogo::Jogador;
use crate::batalha_naval::mapa::{
    apos_tiro,
    celulas_vivas,
    lema_tiro,
    lema_vivas_finito,
    segmentos_vivos,
    Celula,
};
use crate::batalha_naval::mira::alvo_valido;
use crate::batalha_naval::navio::{no_tabuleiro, Direcao, Navio, LADO_TABULEIRO, NUM_NAVIOS};
use crate::batalha_naval::tela::{ALTURA_MINIMA, LARGURA_MINIMA};

verus! {

/// Where a game stands.
#[derive(Clone, Copy, Debug, PartialEq, Eq, Structural)]
pub enum Fase {
    /// The human is arranging the ships.
    Arrumando,
    /// The two sides fire in turn, the human first.
    Batalhando,
    /// The game is over, won by this side.
    Encerrado(Jogador),
    /// The human gave the game up.
    Abortado,
    /// The terminal became too small to draw the game on.
    TerminalPequeno,
}

/// A key as the terminal reports it.
#[derive(Clone, Copy, Debug, PartialEq, Eq, Structural)]
pub enum Tecla {
    /// A character typed with no more than the shift key.
    Caractere(char),
    /// A character typed with the control key.
    Controle(char),
    Cima,
    Baixo,
    Direita,
    Esquerda,
    /// Any other key.
    Outra,
}

/// What can happen to a game.
#[derive(Clone, Copy, Debug, PartialEq, Eq, Structural)]
pub enum Evento {
    /// One step of the chosen ship, or of the aim, in this direction.
    Move(Direcao),
    /// A quarter turn of the chosen ship.
    Gira,
    /// The choice passes to the next ship.
    Muda,
    /// The arrangement is done and the battle begins.
    Inicia,
    /// The human fires where the aim is.
    Fogo,
    /// The human gives the game up.
    Aborta,
    /// The terminal now has this many columns and lines.
    Redimensiona(u16, u16),
    /// Anything else; it changes nothing.
    Outro,
}

/// What the caller is to show after an event.
#[derive(Clone, Copy, Debug, PartialEq, Eq, Structural)]
pub enum Acao {
    /// Draw water where this ship of the human lay.
    ApagaNavio(Navio),
    /// Draw this ship of the human and leave the cursor on its stern.
    DesenhaNavio(Navio),
    /// Put the cursor on the board of this side, at this column and row.
    Cursor(Jogador, usize, usize),
    /// Show a shot on the board of this side, at this column and row, where
    /// the cell held this before.
    Explosao(Jogador, usize, usize, Celula),
    /// Show how many segments are left to the human and to the bot.
    Placar(usize, usize),
    /// Wait a moment.
    Pausa,
    /// Announce that this side has won.
    Vitoria(Jogador),
}

/// The event that a key stands for.
pub open spec fn evento_de(tecla: Tecla) -> Evento {
    match tecla {
        Tecla::Controle(_) => Evento::Aborta,
        Tecla::Caractere(c) => if c == 'g' || c == 'G' {
            Evento::Gira
        } else if c == 'm' || c == 'M' {
            Evento::Muda
        } else if c == 'i' || c == 'I' {
            Evento::Inicia
        } else if c == 'f' || c == 'F' {
            Evento::Fogo
        } else {
            Evento::Outro
        },
        Tecla::Cima => Evento::Move(Direcao::Norte),
        Tecla::Baixo => Evento::Move(Direcao::Sul),
        Tecla::Direita => Evento::Move(Direcao::Leste),
        Tecla::Esquerda => Evento::Move(Direcao::Oeste),
        Tecla::Outra => Evento::Outro,
    }
}

/// The cells of the board.
pub open spec fn tabuleiro() -> Set<(int, int)> {
    Set::new(|c: (int, int)| no_tabuleiro(c))
}

/// Whether `m` is the map of the fleet `navios` but for the cells that
/// shots have reached.
pub open spec fn mapa_da_frota(m: Map<(int, int), Celula>, navios: Seq<Navio>) -> bool {
    &&& m.dom() == tabuleiro()
    &&& forall|c: (int, int)|
        no_tabuleiro(c) ==> #[trigger] m[c] == Celula::Destruido || m[c] == rasterizacao(
            navios,
            None,
        )[c]
}

/// All that a game holds.
#[verifier::ext_equal]
pub struct Estado {
    pub fase: Fase,
    /// The human's fleet.
    pub navios_humano: Seq<Navio>,
    /// The bot's fleet.
    pub navios_bot: Seq<Navio>,
    /// Which of the human's ships the arrangement acts on.
    pub corrente: usize,
    /// The column of the human's aim on the bot's board.
    pub mira_x: usize,
    /// The row of the human's aim on the bot's board.
    pub mira_y: usize,
    /// The human's board, which the bot fires at.
    pub mapa_humano: Map<(int, int), Celula>,
    /// The bot's board, which the human fires at.
    pub mapa_bot: Map<(int, int), Celula>,
    /// How many segments of the human's fleet are not yet hit.
    pub vivos_humano: usize,
    /// How many segments of the bot's fleet are not yet hit.
    pub vivos_bot: usize,
}

impl Estado {
    /// What holds of every game: both fleets are as the rules want them;
    /// each board is the map of its fleet but for the cells that shots have
    /// reached, and until the battle begins no shot has reached any; each
    /// count is that of the live segments of its board; and a side has won
    /// exactly when the other has no live segment left.
    pub open spec fn bem_formado(self) -> bool {
        &&& frota_valida(self.navios_humano)
        &&& frota_valida(self.navios_bot)
        &&& self.corrente < NUM_NAVIOS
        &&& self.mira_x < LADO_TABULEIRO
        &&& self.mira_y < LADO_TABULEIRO
        &&& mapa_da_frota(self.mapa_humano, self.navios_humano)
        &&& mapa_da_frota(self.mapa_bot, self.navios_bot)
        &&& self.vivos_humano == segmentos_vivos(self.mapa_humano)
        &&& self.vivos_bot == segmentos_vivos(self.mapa_bot)
        &&& self.fase == Fase::Arrumando ==> self.mapa_humano == rasterizacao(
            self.navios_humano,
            None,
        ) && self.mapa_bot == rasterizacao(self.navios_bot, None)
        &&& (self.vivos_humano == 0) == (self.fase == Fase::Encerrado(Jogador::Bot))
        &&& (self.vivos_bot == 0) == (self.fase == Fase::Encerrado(Jogador::Humano))
    }

    /// A game as it begins: the human is to arrange the ships, both fleets
    /// are in their first places, and no shot has been fired.
    pub open spec fn inicial() -> Estado {
        Estado {
            fase: Fase::Arrumando,
            navios_humano: frota_inicial(),
            navios_bot: frota_inicial(),
            corrente: 0,
            mira_x: 0,
            mira_y: 0,
            mapa_humano: rasterizacao(frota_inicial(), None),
            mapa_bot: rasterizacao(frota_inicial(), None),
            vivos_humano: SEGMENTOS_DA_FROTA,
            vivos_bot: SEGMENTOS_DA_FROTA,
        }
    }

    /// The ship of the human that the arrangement acts on.
    pub open spec fn navio_corrente(self) -> Navio {
        self.navios_humano[self.corrente as int]
    }

    /// Whether the chosen ship may turn a quarter clockwise.
    pub open spec fn pode_girar(self) -> bool {
        pose_legal(
            self.navios_humano,
            self.corrente as int,
            self.navio_corrente().popa_x as int,
            self.navio_corrente().popa_y as int,
            self.navio_corrente().direcao.girada(),
        )
    }

    /// Whether the chosen ship may move one cell in the direction `d`.
    pub open spec fn pode_mover(self, d: Direcao) -> bool {
        pose_legal(
            self.navios_humano,
            self.corrente as int,
            d.passo(
                self.navio_corrente().popa_x as int,
                self.navio_corrente().popa_y as int,
                1,
            ).0,
            d.passo(
                self.navio_corrente().popa_x as int,
                self.navio_corrente().popa_y as int,
                1,
            ).1,
            self.navio_corrente().direcao,
        )
    }

    /// The game with `navio` in the place of the chosen ship, and the
    /// human's board drawn anew.
    pub open spec fn com_navio_corrente(self, navio: Navio) -> Estado {
        Estado {
            navios_humano: self.navios_humano.update(self.corrente as int, navio),
            mapa_humano: rasterizacao(
                self.navios_humano.update(self.corrente as int, navio),
                None,
            ),
            ..self
        }
    }

    /// The arrangement after a turn was asked for: the chosen ship has
    /// turned if it may, and nothing has changed if it may not.
    pub open spec fn apos_giro(self) -> Estado {
        if self.pode_girar() {
            self.com_navio_corrente(self.navio_corrente().girado())
        } else {
            self
        }
    }

    /// The arrangement after a step in the direction `d` was asked for: the
    /// chosen ship has moved if it may, and nothing has changed if it may not.
    pub open spec fn apos_movimento(self, d: Direcao) -> Estado {
        if self.pode_mover(d) {
            self.com_navio_corrente(self.navio_corrente().movido(d))
        } else {
            self
        }
    }

    /// The arrangement with the choice passed to the next ship, the first
    /// after the last.
    pub open spec fn apos_muda(self) -> Estado {
        Estado { corrente: ((self.corrente + 1) % (NUM_NAVIOS as int)) as usize, ..self }
    }

    /// The game as the battle begins, with the bot's fleet arranged as
    /// `navios_bot`.
    pub open spec fn apos_inicio(self, navios_bot: Seq<Navio>) -> Estado {
        Estado {
            fase: Fase::Batalhando,
            navios_bot,
            mapa_bot: rasterizacao(navios_bot, None),
            ..self
        }
    }

    /// The game given up.
    pub open spec fn apos_aborto(self) -> Estado {
        Estado { fase: Fase::Abortado, ..self }
    }

    /// The game after the terminal changed its size: it goes on if there is
    /// room for it and ends if there is not.
    pub open spec fn apos_redimensiona(self, largura: u16, altura: u16) -> Estado {
        if largura >= LARGURA_MINIMA && altura >= ALTURA_MINIMA {
            self
        } else {
            Estado { fase: Fase::TerminalPequeno, ..self }
        }
    }

    /// The battle with the aim one cell further in the direction `d`, or
    /// where it was if it stood at that edge of the board.
    pub open spec fn apos_mira(self, d: Direcao) -> Estado {
        match d {
            Direcao::Norte => if self.mira_y > 0 {
                Estado { mira_y: (self.mira_y - 1) as usize, ..self }
            } else {
                self
            },
            Direcao::Sul => if self.mira_y < LADO_TABULEIRO - 1 {
                Estado { mira_y: (self.mira_y + 1) as usize, ..self }
            } else {
                self
            },
            Direcao::Leste => if self.mira_x < LADO_TABULEIRO - 1 {
                Estado { mira_x: (self.mira_x + 1) as usize, ..self }
            } else {
                self
            },
            Direcao::Oeste => if self.mira_x > 0 {
                Estado { mira_x: (self.mira_x - 1) as usize, ..self }
            } else {
                self
            },
        }
    }

    /// The human's aim as a cell.
    pub open spec fn mira(self) -> (int, int) {
        (self.mira_x as int, self.mira_y as int)
    }

    /// How many segments are left to the bot once the human has fired where
    /// the aim is.
    pub open spec fn vivos_bot_apos_tiro(self) -> usize {
        if self.mapa_bot[self.mira()] is Navio {
            (self.vivos_bot - 1) as usize
        } else {
            self.vivos_bot
        }
    }

    /// The battle after the human's shot where the aim is. The cell is
    /// destroyed; if it held a segment the bot has one less; and if the bot
    /// has none left the human has won.
    pub open spec fn apos_tiro_humano(self) -> Estado {
        Estado {
            mapa_bot: apos_tiro(self.mapa_bot, self.mira()),
            vivos_bot: self.vivos_bot_apos_tiro(),
            fase: if self.vivos_bot_apos_tiro() == 0 {
                Fase::Encerrado(Jogador::Humano)
            } else {
                self.fase
            },
            ..self
        }
    }

    /// How many segments are left to the human once the bot has fired at `c`.
    pub open spec fn vivos_humano_apos_tiro(self, c: (int, int)) -> usize {
        if self.mapa_humano[c] is Navio {
            (self.vivos_humano - 1) as usize
        } else {
            self.vivos_humano
        }
    }

    /// The battle after the bot's shot at the cell `c`. The cell is
    /// destroyed; if it held a segment the human has one less; and if the
    /// human has none left the bot has won.
    pub open spec fn apos_tiro_bot(self, c: (int, int)) -> Estado {
        Estado {
            mapa_humano: apos_tiro(self.mapa_humano, c),
            vivos_humano: self.vivos_humano_apos_tiro(c),
            fase: if self.vivos_humano_apos_tiro(c) == 0 {
                Fase::Encerrado(Jogador::Bot)
            } else {
                self.fase
            },
            ..self
        }
    }

    /// The battle after a round in which the bot aims at `alvo`: the human
    /// fires, and the bot fires back unless the human's shot has ended the game.
    pub open spec fn apos_fogo(self, alvo: (int, int)) -> Estado {
        if self.vivos_bot_apos_tiro() == 0 {
            self.apos_tiro_humano()
        } else {
            self.apos_tiro_humano().apos_tiro_bot(alvo)
        }
    }

    /// Whether a round in which the bot aims at `alvo` can be played: the
    /// battle is on, and the bot may fire at `alvo` unless the human's shot
    /// ends the game before.
    pub open spec fn aceita_rodada(self, alvo: (int, int)) -> bool {
        self.fase == Fase::Batalhando && (self.vivos_bot_apos_tiro() == 0 || alvo_valido(
            self.mapa_humano,
            alvo,
        ))
    }

    /// What is to be shown after a turn or a step of the chosen ship that
    /// made `antes` into `depois`.
    pub open spec fn acoes_da_troca(antes: Navio, depois: Navio) -> Seq<Acao> {
        seq![Acao::ApagaNavio(antes), Acao::DesenhaNavio(depois)]
    }

    /// What is to be shown of the human's shot where the aim is: the shot,
    /// the score, a pause, and the human's victory if the bot has no segment left.
    pub open spec fn acoes_do_tiro_humano(self) -> Seq<Acao> {
        let tiro = seq![
            Acao::Explosao(Jogador::Bot, self.mira_x, self.mira_y, self.mapa_bot[self.mira()]),
            Acao::Placar(self.vivos_humano, self.vivos_bot_apos_tiro()),
            Acao::Pausa,
        ];
        if self.vivos_bot_apos_tiro() == 0 {
            tiro.push(Acao::Vitoria(Jogador::Humano))
        } else {
            tiro
        }
    }

    /// What is to be shown of the bot's shot at the cell `c`: the shot, a
    /// pause, the score, and then the bot's victory if the human has no
    /// segment left, or else the cursor back at the human's aim.
    pub open spec fn acoes_do_tiro_bot(self, c: (int, int)) -> Seq<Acao> {
        seq![
            Acao::Explosao(Jogador::Humano, c.0 as usize, c.1 as usize, self.mapa_humano[c]),
            Acao::Pausa,
            Acao::Placar(self.vivos_humano_apos_tiro(c), self.vivos_bot),
            if self.vivos_humano_apos_tiro(c) == 0 {
                Acao::Vitoria(Jogador::Bot)
            } else {
                Acao::Cursor(Jogador::Bot, self.mira_x, self.mira_y)
            },
        ]
    }

    /// What is to be shown after a round in which the bot aims at `alvo`.
    pub open spec fn acoes_do_fogo(self, alvo: (int, int)) -> Seq<Acao> {
        if self.vivos_bot_apos_tiro() == 0 {
            self.acoes_do_tiro_humano()
        } else {
            self.acoes_do_tiro_humano() + self.apos_tiro_humano().acoes_do_tiro_bot(alvo)
        }
    }
}

/// What an event does to an arrangement: the game `antes` becomes `depois`,
/// and `acoes` is to be shown.
pub open spec fn passo_da_arrumacao(
    antes: Estado,
    evento: Evento,
    depois: Estado,
    acoes: Seq<Acao>,
) -> bool {
    match evento {
        Evento::Move(d) => depois == antes.apos_movimento(d) && acoes == if antes.pode_mover(d) {
            Estado::acoes_da_troca(antes.navio_corrente(), antes.navio_corrente().movido(d))
        } else {
            Seq::<Acao>::empty()
        },
        Evento::Gira => depois == antes.apos_giro() && acoes == if antes.pode_girar() {
            Estado::acoes_da_troca(antes.navio_corrente(), antes.navio_corrente().girado())
        } else {
            Seq::<Acao>::empty()
        },
        Evento::Muda => depois == antes.apos_muda() && acoes == seq![
            Acao::Cursor(
                Jogador::Humano,
                depois.navio_corrente().popa_x,
                depois.navio_corrente().popa_y,
            ),
        ],
        Evento::Inicia => depois == antes.apos_inicio(depois.navios_bot) && frota_valida(
            depois.navios_bot,
        ) && (forall|n: int|
            0 <= n < NUM_NAVIOS ==> fica_ou_sorteado(
                antes.navios_bot[n],
                #[trigger] depois.navios_bot[n],
            )) && acoes == seq![Acao::Cursor(Jogador::Bot, antes.mira_x, antes.mira_y)],
        Evento::Aborta => depois == antes.apos_aborto() && acoes == Seq::<Acao>::empty(),
        Evento::Redimensiona(largura, altura) => depois == antes.apos_redimensiona(largura, altura)
            && acoes == Seq::<Acao>::empty(),
        Evento::Fogo | Evento::Outro => depois == antes && acoes == Seq::<Acao>::empty(),
    }
}

/// What an event does to a battle: the game `antes` becomes `depois`, and
/// `acoes` is to be shown. The bot fires at a cell that no shot has reached.
pub open spec fn passo_da_batalha(
    antes: Estado,
    evento: Evento,
    depois: Estado,
    acoes: Seq<Acao>,
) -> bool {
    match evento {
        Evento::Move(d) => depois == antes.apos_mira(d) && acoes == seq![
            Acao::Cursor(Jogador::Bot, depois.mira_x, depois.mira_y),
        ],
        Evento::Fogo => if antes.vivos_bot_apos_tiro() == 0 {
            depois == antes.apos_tiro_humano() && acoes == antes.acoes_do_tiro_humano()
        } else {
            exists|alvo: (int, int)|
                alvo_valido(antes.mapa_humano, alvo) && depois == #[trigger] antes.apos_fogo(alvo)
                    && acoes == antes.acoes_do_fogo(alvo)
        },
        Evento::Aborta => depois == antes.apos_aborto() && acoes == Seq::<Acao>::empty(),
        Evento::Redimensiona(largura, altura) => depois == antes.apos_redimensiona(largura, altura)
            && acoes == Seq::<Acao>::empty(),
        Evento::Gira | Evento::Muda | Evento::Inicia | Evento::Outro => depois == antes && acoes
            == Seq::<Acao>::empty(),
    }
}

/// What an event does to a game, by where the game stands. A game that is
/// over, given up or without room takes no event.
pub open spec fn passo(antes: Estado, evento: Evento, depois: Estado, acoes: Seq<Acao>) -> bool {
    match antes.fase {
        Fase::Arrumando => passo_da_arrumacao(antes, evento, depois, acoes),
        Fase::Batalhando => passo_da_batalha(antes, evento, depois, acoes),
        _ => depois == antes && acoes == Seq::<Acao>::empty(),
    }
}

/// No side of a game has more live segments than a fleet has segments.
pub proof fn lema_vivos_limitados(e: Estado)
    requires
        e.bem_formado(),
    ensures
        e.vivos_humano <= SEGMENTOS_DA_FROTA,
        e.vivos_bot <= SEGMENTOS_DA_FROTA,
{
    lema_vivos_da_frota(e.mapa_humano, e.navios_humano);
    lema_vivos_da_frota(e.mapa_bot, e.navios_bot);
}

/// On a board that shots have reached, the live segments are among those of
/// the fleet.
pub proof fn lema_vivos_da_frota(m: Map<(int, int), Celula>, navios: Seq<Navio>)
    requires
        frota_valida(navios),
        mapa_da_frota(m, navios),
    ensures
        celulas_vivas(m).subset_of(celulas_vivas(rasterizacao(navios, None))),
        segmentos_vivos(m) <= SEGMENTOS_DA_FROTA,
{
    lema_frota_viva(navios);
    lema_vivas_finito(m);
    lema_vivas_finito(rasterizacao(navios, None));
    lemma_len_subset(celulas_vivas(m), celulas_vivas(rasterizacao(navios, None)));
}

/// A shot at a cell of the board leaves the board the map of its fleet but
/// for the cells that shots have reached.
pub proof fn lema_tiro_mantem_mapa(m: Map<(int, int), Celula>, navios: Seq<Navio>, c: (int, int))
    requires
        mapa_da_frota(m, navios),
        no_tabuleiro(c),
    ensures
        mapa_da_frota(apos_tiro(m, c), navios),
{
    assert(apos_tiro(m, c).dom() =~= tabuleiro());
}

/// The map of a fleet is the map of that fleet before any shot.
pub proof fn lema_mapa_sem_tiros(navios: Seq<Navio>)
    ensures
        mapa_da_frota(rasterizacao(navios, None), navios),
{
}

/// A ship put in the place of the chosen one, where the rules let it lie,
/// leaves the arrangement as every game must be.
pub proof fn lema_troca_mantem(e: Estado, novo: Navio)
    requires
        e.bem_formado(),
        e.fase == Fase::Arrumando,
        novo.tamanho == e.navio_corrente().tamanho,
        pose_legal(
            e.navios_humano,
            e.corrente as int,
            novo.popa_x as int,
            novo.popa_y as int,
            novo.direcao,
        ),
    ensures
        e.com_navio_corrente(novo).bem_formado(),
{
    let navios = e.navios_humano.update(e.corrente as int, novo);
    lema_troca_legal(e.navios_humano, e.corrente as int, novo);
    lema_frota_viva(e.navios_humano);
    lema_frota_viva(navios);
    lema_mapa_sem_tiros(navios);
}

/// A step that the rules allow takes the stern of a ship to a cell of the
/// board.
pub proof fn lema_passo_legal(e: Estado, d: Direcao)
    requires
        e.bem_formado(),
        e.pode_mover(d),
    ensures
        no_tabuleiro(
            d.passo(e.navio_corrente().popa_x as int, e.navio_corrente().popa_y as int, 1),
        ),
        e.navio_corrente().movido(d).popa_x == d.passo(
            e.navio_corrente().popa_x as int,
            e.navio_corrente().popa_y as int,
            1,
        ).0,
        e.navio_corrente().movido(d).popa_y == d.passo(
            e.navio_corrente().popa_x as int,
            e.navio_corrente().popa_y as int,
            1,
        ).1,
{
    let navio = e.navio_corrente();
    let alvo = d.passo(navio.popa_x as int, navio.popa_y as int, 1);
    assert(no_tabuleiro(navio.direcao.passo(alvo.0, alvo.1, 0)));
}

/// The human's shot leaves the battle as every game must be.
pub proof fn lema_tiro_humano_mantem(e: Estado)
    requires
        e.bem_formado(),
        e.fase == Fase::Batalhando,
    ensures
        e.apos_tiro_humano().bem_formado(),
{
    lema_tiro(e.mapa_bot, e.mira());
    lema_tiro_mantem_mapa(e.mapa_bot, e.navios_bot, e.mira());
}

/// The bot's shot at a cell of the board leaves the battle as every game
/// must be.
pub proof fn lema_tiro_bot_mantem(e: Estado, c: (int, int))
    requires
        e.bem_formado(),
        e.fase == Fase::Batalhando,
        no_tabuleiro(c),
    ensures
        e.apos_tiro_bot(c).bem_formado(),
{
    lema_tiro(e.mapa_humano, c);
    lema_tiro_mantem_mapa(e.mapa_humano, e.navios_humano, c);
}

/// Every event leaves a game as every game must be.
pub proof fn lema_passo_mantem(antes: Estado, evento: Evento, depois: Estado, acoes: Seq<Acao>)
    requires
        antes.bem_formado(),
        passo(antes, evento, depois, acoes),
    ensures
        depois.bem_formado(),
{
    match antes.fase {
        Fase::Arrumando => {
            match evento {
                Evento::Move(d) => {
                    if antes.pode_mover(d) {
                        lema_passo_legal(antes, d);
                        lema_troca_mantem(antes, antes.navio_corrente().movido(d));
                    }
                },
                Evento::Gira => {
                    if antes.pode_girar() {
                        lema_troca_mantem(antes, antes.navio_corrente().girado());
                    }
                },
                Evento::Inicia => {
                    lema_frota_viva(antes.navios_bot);
                    lema_frota_viva(depois.navios_bot);
                    lema_mapa_sem_tiros(depois.navios_bot);
                },
                _ => {},
            }
        },
        Fase::Batalhando => {
            match evento {
                Evento::Fogo => {
                    lema_tiro_humano_mantem(antes);
                    if antes.vivos_bot_apos_tiro() != 0 {
                        let alvo = choose|alvo: (int, int)|
                            alvo_valido(antes.mapa_humano, alvo) && depois
                                == #[trigger] antes.apos_fogo(alvo) && acoes == antes.acoes_do_fogo(
                                alvo,
                            );
                        lema_tiro_bot_mantem(antes.apos_tiro_humano(), alvo);
                    }
                },
                _ => {},
            }
        },
        _ => {},
    }
}

/// No event gives a side a live segment back.
pub proof fn lema_vivos_nao_aumentam(
    antes: Estado,
    evento: Evento,
    depois: Estado,
    acoes: Seq<Acao>,
)
    requires
        antes.bem_formado(),
        passo(antes, evento, depois, acoes),
    ensures
        depois.vivos_humano <= antes.vivos_humano,
        depois.vivos_bot <= antes.vivos_bot,
{
    if antes.fase == Fase::Batalhando && evento == Evento::Fogo {
        lema_tiro(antes.mapa_bot, antes.mira());
        if antes.vivos_bot_apos_tiro() != 0 {
            let alvo = choose|alvo: (int, int)|
                alvo_valido(antes.mapa_humano, alvo) && depois == #[trigger] antes.apos_fogo(alvo)
                    && acoes == antes.acoes_do_fogo(alvo);
            lema_tiro(antes.mapa_humano, alvo);
        }
    }
}

/// Until the battle begins each side has all the segments of its fleet, and
/// so it has as the battle begins.
pub proof fn lema_vivos_na_arrumacao(e: Estado)
    requires
        e.bem_formado(),
        e.fase == Fase::Arrumando,
    ensures
        e.vivos_humano == SEGMENTOS_DA_FROTA,
        e.vivos_bot == SEGMENTOS_DA_FROTA,
        forall|navios_bot: Seq<Navio>| #[trigger]
            e.apos_inicio(navios_bot).vivos_humano == SEGMENTOS_DA_FROTA && e.apos_inicio(
                navios_bot,
            ).vivos_bot == SEGMENTOS_DA_FROTA,
{
    lema_frota_viva(e.navios_humano);
    lema_frota_viva(e.navios_bot);
}

/// A side has no live segment left exactly when the other side has won, and
/// while the battle is on each side has one at least.
pub proof fn lema_fim_de_jogo(e: Estado)
    requires
        e.bem_formado(),
    ensures
        (e.vivos_humano == 0) == (e.fase == Fase::Encerrado(Jogador::Bot)),
        (e.vivos_bot == 0) == (e.fase == Fase::Encerrado(Jogador::Humano)),
        e.fase == Fase::Batalhando ==> e.vivos_humano > 0 && e.vivos_bot > 0,
{
}

/// A shot of the human that takes the bot's last segment ends the game at
/// once: the bot does not fire back, and the human's board and count are as
/// they were.
pub proof fn lema_vitoria_imediata(antes: Estado, depois: Estado, acoes: Seq<Acao>)
    requires
        antes.bem_formado(),
        antes.fase == Fase::Batalhando,
        antes.vivos_bot_apos_tiro() == 0,
        passo(antes, Evento::Fogo, depois, acoes),
    ensures
        depois.fase == Fase::Encerrado(Jogador::Humano),
        depois.mapa_humano == antes.mapa_humano,
        depois.vivos_humano == antes.vivos_humano,
        acoes.len() == 4,
        acoes[3] == Acao::Vitoria(Jogador::Humano),
{
}

/// In a round that the human's shot does not end, the bot fires at one cell
/// of the human's board, and never at one that a shot has reached.
pub proof fn lema_bot_nao_repete(antes: Estado, depois: Estado, acoes: Seq<Acao>)
    requires
        antes.bem_formado(),
        antes.fase == Fase::Batalhando,
        antes.vivos_bot_apos_tiro() != 0,
        passo(antes, Evento::Fogo, depois, acoes),
    ensures
        exists|alvo: (int, int)|
            no_tabuleiro(alvo) && antes.mapa_humano[alvo] != Celula::Destruido
                && depois.mapa_humano == #[trigger] apos_tiro(antes.mapa_humano, alvo) && acoes[3]
                == Acao::Explosao(
                Jogador::Humano,
                alvo.0 as usize,
                alvo.1 as usize,
                antes.mapa_humano[alvo],
            ),
{
    let alvo = choose|alvo: (int, int)|
        alvo_valido(antes.mapa_humano, alvo) && depois == #[trigger] antes.apos_fogo(alvo) && acoes
            == antes.acoes_do_fogo(alvo);
    assert(depois.mapa_humano == apos_tiro(antes.mapa_humano, alvo));
}

/// The human's shot at a cell that the human has fired at before changes
/// nothing: not the boards, not the counts, not where the game stands.
pub proof fn lema_tiro_humano_repetido(e: Estado)
    requires
        e.bem_formado(),
    ensures
        e.apos_tiro_humano().apos_tiro_humano() == e.apos_tiro_humano(),
        e.mapa_bot[e.mira()] == Celula::Destruido && e.fase == Fase::Batalhando
            ==> e.apos_tiro_humano() == e,
{
}

} // verus!
