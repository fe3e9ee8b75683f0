//! A game from the arrangement of the ships to its end, as a machine that
//! takes one event at a time and answers with what is to be drawn.

use vstd::prelude::*;
use crate::batalha_naval::arrumacao::arruma_navios_bot;
use crate::batalha_naval::estado::{
    evento_de,
    lema_vivos_limitados,
    passo,
    passo_da_arrumacao,
    passo_da_batalha,
    Acao,
    Estado,
    Evento,
    Fase,
    Tecla,
};
use crate::batalha_naval::frota::{
    frota_inicial,
    lema_frota_inicial_valida,
    lema_frota_viva,
    lema_troca_legal,
    SEGMENTOS_DA_FROTA,
};
use crate::batalha_naval::jogo::{Jogador, Jogo};
use crate::batalha_naval::mapa::{celulas_vivas, lema_vivas_finito, Celula, Mapa};
use crate::batalha_naval::mira::{alvo_valido, mira_bot};
use crate::batalha_naval::navio::{no_tabuleiro, Direcao, LADO_TABULEIRO, NUM_NAVIOS};
use crate::batalha_naval::tela::tem_tamanho_minimo;

verus! {

/// The event that a key stands for: the arrows move, `g` turns, `m` passes
/// to the next ship, `i` begins the battle, `f` fires, and any character
/// with the control key gives the game up.
pub fn evento_da_tecla(tecla: Tecla) -> (evento: Evento)
    ensures
        evento == evento_de(tecla),
{
    match tecla {
        Tecla::Controle(_) => Evento::Aborta,
        Tecla::Caractere(c) => {
            if c == 'g' || c == 'G' {
                Evento::Gira
            } else if c == 'm' || c == 'M' {
                Evento::Muda
            } else if c == 'i' || c == 'I' {
                Evento::Inicia
            } else if c == 'f' || c == 'F' {
                Evento::Fogo
            } else {
                Evento::Outro
            }
        },
        Tecla::Cima => Evento::Move(Direcao::Norte),
        Tecla::Baixo => Evento::Move(Direcao::Sul),
        Tecla::Direita => Evento::Move(Direcao::Leste),
        Tecla::Esquerda => Evento::Move(Direcao::Oeste),
        Tecla::Outra => Evento::Outro,
    }
}

/// A game of Battleship. It changes by its own methods alone, so what
/// `Estado::bem_formado` says holds of it at all times.
pub struct Partida {
    jogo: Jogo,
    fase: Fase,
    corrente: usize,
    mira_x: usize,
    mira_y: usize,
    mapa_humano: Mapa,
    mapa_bot: Mapa,
    vivos_humano: usize,
    vivos_bot: usize,
}

impl View for Partida {
    type V = Estado;

    closed spec fn view(&self) -> Estado {
        Estado {
            fase: self.fase,
            navios_humano: self.jogo.navios_humano@,
            navios_bot: self.jogo.navios_bot@,
            corrente: self.corrente,
            mira_x: self.mira_x,
            mira_y: self.mira_y,
            mapa_humano: self.mapa_humano@,
            mapa_bot: self.mapa_bot@,
            vivos_humano: self.vivos_humano,
            vivos_bot: self.vivos_bot,
        }
    }
}

impl Partida {
    /// What holds of a game at all times: what `Estado::bem_formado` says.
    #[verifier::type_invariant]
    pub closed spec fn invariante(self) -> bool {
        self@.bem_formado()
    }

    /// A game as it begins.
    pub fn nova() -> (partida: Partida)
        ensures
            partida@ == Estado::inicial(),
            partida@.bem_formado(),
    {
        let jogo = Jogo::new();
        let mapa_humano = jogo.mapeia_humano(None);
        let mapa_bot = jogo.mapeia_bot(None);
        proof {
            lema_frota_inicial_valida();
            lema_frota_viva(frota_inicial());
        }
        Partida {
            jogo,
            fase: Fase::Arrumando,
            corrente: 0,
            mira_x: 0,
            mira_y: 0,
            mapa_humano,
            mapa_bot,
            vivos_humano: SEGMENTOS_DA_FROTA,
            vivos_bot: SEGMENTOS_DA_FROTA,
        }
    }

    /// Where the game stands.
    pub fn fase(&self) -> (fase: Fase)
        ensures
            fase == self@.fase,
            self@.bem_formado(),
    {
        proof {
            use_type_invariant(self);
        }
        self.fase
    }

    /// The two fleets.
    pub fn jogo(&self) -> (jogo: &Jogo)
        ensures
            jogo.navios_humano@ == self@.navios_humano,
            jogo.navios_bot@ == self@.navios_bot,
            jogo.valido(),
    {
        proof {
            use_type_invariant(self);
        }
        &self.jogo
    }

    /// Which of the human's ships the arrangement acts on.
    pub fn corrente(&self) -> (corrente: usize)
        ensures
            corrente == self@.corrente,
            corrente < NUM_NAVIOS,
    {
        proof {
            use_type_invariant(self);
        }
        self.corrente
    }

    /// The column and the row of the human's aim on the bot's board.
    pub fn mira(&self) -> (mira: (usize, usize))
        ensures
            mira.0 == self@.mira_x,
            mira.1 == self@.mira_y,
            mira.0 < LADO_TABULEIRO,
            mira.1 < LADO_TABULEIRO,
    {
        proof {
            use_type_invariant(self);
        }
        (self.mira_x, self.mira_y)
    }

    /// The board of a side.
    pub fn mapa(&self, jogador: Jogador) -> (mapa: &Mapa)
        ensures
            mapa@ == match jogador {
                Jogador::Humano => self@.mapa_humano,
                Jogador::Bot => self@.mapa_bot,
            },
    {
        match jogador {
            Jogador::Humano => &self.mapa_humano,
            Jogador::Bot => &self.mapa_bot,
        }
    }

    /// How many segments of a side's fleet are not yet hit.
    pub fn vivos(&self, jogador: Jogador) -> (vivos: usize)
        ensures
            vivos == match jogador {
                Jogador::Humano => self@.vivos_humano,
                Jogador::Bot => self@.vivos_bot,
            },
            vivos <= SEGMENTOS_DA_FROTA,
    {
        proof {
            use_type_invariant(self);
            lema_vivos_limitados(self@);
        }
        match jogador {
            Jogador::Humano => self.vivos_humano,
            Jogador::Bot => self.vivos_bot,
        }
    }

    /// Takes an event of the arrangement: a step or a turn of the chosen
    /// ship, which the rules may refuse; the choice of the next ship; the
    /// start of the battle, for which the bot arranges its own fleet; the
    /// end of the game by the human or for want of room. Outside the
    /// arrangement nothing happens.
    pub fn arruma_navios_humano(&mut self, evento: Evento) -> (acoes: Vec<Acao>)
        ensures
            final(self)@.bem_formado(),
            old(self)@.fase == Fase::Arrumando ==> passo_da_arrumacao(
                old(self)@,
                evento,
                final(self)@,
                acoes@,
            ),
            old(self)@.fase != Fase::Arrumando ==> final(self)@ == old(self)@ && acoes@
                == Seq::<Acao>::empty(),
    {
        proof {
            use_type_invariant(&*self);
        }
        let mut acoes: Vec<Acao> = Vec::new();
        match self.fase {
            Fase::Arrumando => {},
            _ => {
                return acoes;
            },
        }
        let ghost antes = self@;
        proof {
            lema_frota_viva(antes.navios_humano);
            lema_frota_viva(antes.navios_bot);
        }
        match evento {
            Evento::Move(d) => {
                let mut jogo = self.jogo;
                let velho = jogo.navio(&Jogador::Humano, self.corrente);
                if jogo.move_navio(&Jogador::Humano, self.corrente, d) {
                    let novo = jogo.navio(&Jogador::Humano, self.corrente);
                    proof {
                        let alvo = d.passo(velho.popa_x as int, velho.popa_y as int, 1);
                        assert(no_tabuleiro(velho.direcao.passo(alvo.0, alvo.1, 0)));
                        lema_troca_legal(antes.navios_humano, self.corrente as int, novo);
                        lema_frota_viva(jogo.navios_humano@);
                    }
                    let mapa_humano = jogo.mapeia_humano(None);
                    acoes.push(Acao::ApagaNavio(velho));
                    acoes.push(Acao::DesenhaNavio(novo));
                    *self = Partida {
                        jogo,
                        fase: self.fase,
                        corrente: self.corrente,
                        mira_x: self.mira_x,
                        mira_y: self.mira_y,
                        mapa_humano,
                        mapa_bot: self.mapa_bot,
                        vivos_humano: self.vivos_humano,
                        vivos_bot: self.vivos_bot,
                    };
                    assert(acoes@ =~= Estado::acoes_da_troca(velho, velho.movido(d)));
                }
            },
            Evento::Gira => {
                let mut jogo = self.jogo;
                let velho = jogo.navio(&Jogador::Humano, self.corrente);
                if jogo.gira_navio(&Jogador::Humano, self.corrente) {
                    let novo = jogo.navio(&Jogador::Humano, self.corrente);
                    proof {
                        lema_troca_legal(antes.navios_humano, self.corrente as int, novo);
                        lema_frota_viva(jogo.navios_humano@);
                    }
                    let mapa_humano = jogo.mapeia_humano(None);
                    acoes.push(Acao::ApagaNavio(velho));
                    acoes.push(Acao::DesenhaNavio(novo));
                    *self = Partida {
                        jogo,
                        fase: self.fase,
                        corrente: self.corrente,
                        mira_x: self.mira_x,
                        mira_y: self.mira_y,
                        mapa_humano,
                        mapa_bot: self.mapa_bot,
                        vivos_humano: self.vivos_humano,
                        vivos_bot: self.vivos_bot,
                    };
                    assert(acoes@ =~= Estado::acoes_da_troca(velho, velho.girado()));
                }
            },
            Evento::Muda => {
                let corrente = (self.corrente + 1) % NUM_NAVIOS;
                let navio = self.jogo.navio(&Jogador::Humano, corrente);
                acoes.push(Acao::Cursor(Jogador::Humano, navio.popa_x, navio.popa_y));
                *self = Partida {
                    jogo: self.jogo,
                    fase: self.fase,
                    corrente,
                    mira_x: self.mira_x,
                    mira_y: self.mira_y,
                    mapa_humano: self.mapa_humano,
                    mapa_bot: self.mapa_bot,
                    vivos_humano: self.vivos_humano,
                    vivos_bot: self.vivos_bot,
                };
                assert(acoes@ =~= seq![
                    Acao::Cursor(Jogador::Humano, navio.popa_x, navio.popa_y),
                ]);
            },
            Evento::Inicia => {
                let mut jogo = self.jogo;
                arruma_navios_bot(&mut jogo);
                let mapa_bot = jogo.mapeia_bot(None);
                acoes.push(Acao::Cursor(Jogador::Bot, self.mira_x, self.mira_y));
                proof {
                    lema_frota_viva(jogo.navios_bot@);
                }
                *self = Partida {
                    jogo,
                    fase: Fase::Batalhando,
                    corrente: self.corrente,
                    mira_x: self.mira_x,
                    mira_y: self.mira_y,
                    mapa_humano: self.mapa_humano,
                    mapa_bot,
                    vivos_humano: self.vivos_humano,
                    vivos_bot: self.vivos_bot,
                };
            },
            Evento::Aborta => {
                self.encerra(Fase::Abortado);
            },
            Evento::Redimensiona(largura, altura) => {
                if !tem_tamanho_minimo(largura, altura) {
                    self.encerra(Fase::TerminalPequeno);
                }
            },
            Evento::Fogo => {},
            Evento::Outro => {},
        }
        acoes
    }

    /// Takes an event of the battle: a step of the aim, which stops at the
    /// edges of the board; a shot of the human where the aim is, which the
    /// bot answers with a shot of its own unless the human's has ended the
    /// game; the end of the game by the human or for want of room. Outside
    /// the battle nothing happens.
    ///
    /// The bot never fires at a cell that a shot has reached, and each shot
    /// that ends the game ends it at once.
    pub fn executa_batalha(&mut self, evento: Evento) -> (acoes: Vec<Acao>)
        ensures
            final(self)@.bem_formado(),
            old(self)@.fase == Fase::Batalhando ==> passo_da_batalha(
                old(self)@,
                evento,
                final(self)@,
                acoes@,
            ),
            old(self)@.fase != Fase::Batalhando ==> final(self)@ == old(self)@ && acoes@
                == Seq::<Acao>::empty(),
    {
        proof {
            use_type_invariant(&*self);
        }
        let mut acoes: Vec<Acao> = Vec::new();
        match self.fase {
            Fase::Batalhando => {},
            _ => {
                return acoes;
            },
        }
        match evento {
            Evento::Move(d) => {
                let mut mira_x = self.mira_x;
                let mut mira_y = self.mira_y;
                match d {
                    Direcao::Norte => {
                        if mira_y > 0 {
                            mira_y = mira_y - 1;
                        }
                    },
                    Direcao::Sul => {
                        if mira_y < LADO_TABULEIRO - 1 {
                            mira_y = mira_y + 1;
                        }
                    },
                    Direcao::Leste => {
                        if mira_x < LADO_TABULEIRO - 1 {
                            mira_x = mira_x + 1;
                        }
                    },
                    Direcao::Oeste => {
                        if mira_x > 0 {
                            mira_x = mira_x - 1;
                        }
                    },
                }
                acoes.push(Acao::Cursor(Jogador::Bot, mira_x, mira_y));
                *self = Partida {
                    jogo: self.jogo,
                    fase: self.fase,
                    corrente: self.corrente,
                    mira_x,
                    mira_y,
                    mapa_humano: self.mapa_humano,
                    mapa_bot: self.mapa_bot,
                    vivos_humano: self.vivos_humano,
                    vivos_bot: self.vivos_bot,
                };
            },
            Evento::Fogo => {
                acoes = self.dispara();
            },
            Evento::Aborta => {
                self.encerra(Fase::Abortado);
            },
            Evento::Redimensiona(largura, altura) => {
                if !tem_tamanho_minimo(largura, altura) {
                    self.encerra(Fase::TerminalPequeno);
                }
            },
            Evento::Gira => {},
            Evento::Muda => {},
            Evento::Inicia => {},
            Evento::Outro => {},
        }
        acoes
    }

    /// One round of the battle in which the bot aims at a cell of its own
    /// choice, drawn at random among those that no shot has reached.
    fn dispara(&mut self) -> (acoes: Vec<Acao>)
        requires
            old(self)@.fase == Fase::Batalhando,
        ensures
            final(self)@.bem_formado(),
            passo_da_batalha(old(self)@, Evento::Fogo, final(self)@, acoes@),
    {
        proof {
            use_type_invariant(&*self);
        }
        let ultimo = match self.mapa_bot.celula(self.mira_x, self.mira_y) {
            Celula::Navio(_) => self.vivos_bot == 1,
            _ => false,
        };
        if ultimo {
            return self.rodada(0, 0);
        }
        proof {
            lema_vivas_finito(self@.mapa_humano);
            let vivo = celulas_vivas(self@.mapa_humano).choose();
            assert(celulas_vivas(self@.mapa_humano).contains(vivo));
            assert(alvo_valido(self@.mapa_humano, vivo));
        }
        match mira_bot(&self.mapa_humano) {
            Some((x, y)) => {
                self.rodada(x, y)
            },
            None => {
                assert(false);
                Vec::new()
            },
        }
    }

    /// One round of the battle with the bot's aim given: the human fires
    /// where the aim is and, unless that shot has ended the game, the bot
    /// fires at column `x` of row `y`. Nothing happens outside the battle,
    /// nor where the bot would have to fire at a cell off the board or at
    /// one that a shot has reached.
    pub fn rodada(&mut self, x: usize, y: usize) -> (acoes: Vec<Acao>)
        ensures
            final(self)@.bem_formado(),
            old(self)@.aceita_rodada((x as int, y as int)) ==> final(self)@ == old(self)@.apos_fogo(
                (x as int, y as int),
            ) && acoes@ == old(self)@.acoes_do_fogo((x as int, y as int)),
            !old(self)@.aceita_rodada((x as int, y as int)) ==> final(self)@ == old(self)@ && acoes@
                == Seq::<Acao>::empty(),
    {
        proof {
            use_type_invariant(&*self);
        }
        let mut acoes: Vec<Acao> = Vec::new();
        match self.fase {
            Fase::Batalhando => {},
            _ => {
                return acoes;
            },
        }
        let mut mapa_bot = self.mapa_bot;
        let atingido = mapa_bot.atira(self.mira_x, self.mira_y);
        let vivos_bot = match atingido {
            Celula::Navio(_) => self.vivos_bot - 1,
            _ => self.vivos_bot,
        };
        if vivos_bot == 0 {
            acoes.push(Acao::Explosao(Jogador::Bot, self.mira_x, self.mira_y, atingido));
            acoes.push(Acao::Placar(self.vivos_humano, vivos_bot));
            acoes.push(Acao::Pausa);
            acoes.push(Acao::Vitoria(Jogador::Humano));
            *self = Partida {
                jogo: self.jogo,
                fase: Fase::Encerrado(Jogador::Humano),
                corrente: self.corrente,
                mira_x: self.mira_x,
                mira_y: self.mira_y,
                mapa_humano: self.mapa_humano,
                mapa_bot,
                vivos_humano: self.vivos_humano,
                vivos_bot,
            };
            return acoes;
        }
        if x >= LADO_TABULEIRO || y >= LADO_TABULEIRO {
            return acoes;
        }
        let mut mapa_humano = self.mapa_humano;
        let ferido = mapa_humano.atira(x, y);
        let vivos_humano = match ferido {
            Celula::Navio(_) => self.vivos_humano - 1,
            Celula::Agua => self.vivos_humano,
            Celula::Destruido => {
                return acoes;
            },
        };
        acoes.push(Acao::Explosao(Jogador::Bot, self.mira_x, self.mira_y, atingido));
        acoes.push(Acao::Placar(self.vivos_humano, vivos_bot));
        acoes.push(Acao::Pausa);
        acoes.push(Acao::Explosao(Jogador::Humano, x, y, ferido));
        acoes.push(Acao::Pausa);
        acoes.push(Acao::Placar(vivos_humano, vivos_bot));
        let fase = if vivos_humano == 0 {
            acoes.push(Acao::Vitoria(Jogador::Bot));
            Fase::Encerrado(Jogador::Bot)
        } else {
            acoes.push(Acao::Cursor(Jogador::Bot, self.mira_x, self.mira_y));
            Fase::Batalhando
        };
        *self = Partida {
            jogo: self.jogo,
            fase,
            corrente: self.corrente,
            mira_x: self.mira_x,
            mira_y: self.mira_y,
            mapa_humano,
            mapa_bot,
            vivos_humano,
            vivos_bot,
        };
        proof {
            let alvo = (x as int, y as int);
        }
        acoes
    }

    /// Takes an event, whatever the game is at: the arrangement and the
    /// battle each take their own, and a game that is over, given up or
    /// without room takes none.
    pub fn processa(&mut self, evento: Evento) -> (acoes: Vec<Acao>)
        ensures
            final(self)@.bem_formado(),
            passo(old(self)@, evento, final(self)@, acoes@),
    {
        match self.fase {
            Fase::Arrumando => self.arruma_navios_humano(evento),
            Fase::Batalhando => self.executa_batalha(evento),
            _ => {
                proof {
                    use_type_invariant(&*self);
                }
                Vec::new()
            },
        }
    }

    /// Ends a game that is not over, by the human or for want of room.
    fn encerra(&mut self, fase: Fase)
        requires
            fase == Fase::Abortado || fase == Fase::TerminalPequeno,
            old(self)@.fase == Fase::Arrumando || old(self)@.fase == Fase::Batalhando,
        ensures
            final(self)@ == (Estado { fase, ..old(self)@ }),
            final(self)@.bem_formado(),
    {
        proof {
            use_type_invariant(&*self);
        }
        *self = Partida {
            jogo: self.jogo,
            fase,
            corrente: self.corrente,
            mira_x: self.mira_x,
            mira_y: self.mira_y,
            mapa_humano: self.mapa_humano,
            mapa_bot: self.mapa_bot,
            vivos_humano: self.vivos_humano,
            vivos_bot: self.vivos_bot,
        };
    }
}

} // verus!
