use exercicios::batalha_naval::estado::{Acao, Evento, Fase};
use exercicios::batalha_naval::jogo::{Jogador, Jogo};
use exercicios::batalha_naval::mapa::Celula;
use exercicios::batalha_naval::navio::{Direcao, Navio};
use exercicios::batalha_naval::partida::Partida;

fn em_batalha() -> Partida {
    let mut partida = Partida::nova();
    partida.processa(Evento::Inicia);
    assert_eq!(partida.fase(), Fase::Batalhando);
    partida
}

fn aponta(partida: &mut Partida, x: usize, y: usize) {
    while partida.mira().0 < x {
        partida.processa(Evento::Move(Direcao::Leste));
    }
    while partida.mira().0 > x {
        partida.processa(Evento::Move(Direcao::Oeste));
    }
    while partida.mira().1 < y {
        partida.processa(Evento::Move(Direcao::Sul));
    }
    while partida.mira().1 > y {
        partida.processa(Evento::Move(Direcao::Norte));
    }
    assert_eq!(partida.mira(), (x, y));
}

fn celulas_da_frota(navios: &[Navio; 4]) -> Vec<(usize, usize)> {
    let mut celulas = vec![];
    for n in navios.iter() {
        celulas.extend(n.posicoes());
    }
    celulas
}

fn aguas(partida: &Partida, jogador: Jogador) -> Vec<(usize, usize)> {
    let mut celulas = vec![];
    for y in 0..10 {
        for x in 0..10 {
            if partida.mapa(jogador).celula(x, y) == Celula::Agua {
                celulas.push((x, y));
            }
        }
    }
    celulas
}

#[test]
fn partida_nova_esta_em_arrumacao() {
    let partida = Partida::nova();
    assert_eq!(partida.fase(), Fase::Arrumando);
    assert_eq!(*partida.jogo(), Jogo::new());
    assert_eq!(partida.corrente(), 0);
    assert_eq!(partida.mira(), (0, 0));
    assert_eq!(partida.vivos(Jogador::Humano), 14);
    assert_eq!(partida.vivos(Jogador::Bot), 14);
    assert_eq!(*partida.mapa(Jogador::Humano), Jogo::new().mapeia_humano(None));
    assert_eq!(*partida.mapa(Jogador::Bot), Jogo::new().mapeia_bot(None));
}

#[test]
fn muda_passa_pelos_quatro_navios() {
    let mut partida = Partida::nova();
    for (corrente, linha) in [(1usize, 4usize), (2, 6), (3, 8), (0, 2), (1, 4)] {
        let acoes = partida.processa(Evento::Muda);
        assert_eq!(partida.corrente(), corrente);
        assert_eq!(acoes, vec![Acao::Cursor(Jogador::Humano, 1, linha)]);
    }
    assert_eq!(*partida.jogo(), Jogo::new());
}

#[test]
fn mover_navio_na_arrumacao() {
    let mut partida = Partida::nova();
    let acoes = partida.processa(Evento::Move(Direcao::Norte));
    let velho = Navio::new(2, 5);
    let novo = Navio::new(1, 5);
    assert_eq!(acoes, vec![Acao::ApagaNavio(velho), Acao::DesenhaNavio(novo)]);
    assert_eq!(partida.jogo().navios_humano[0], novo);
    assert_eq!(partida.jogo().navios_humano[1..], Jogo::new().navios_humano[1..]);
    assert_eq!(partida.jogo().navios_bot, Jogo::new().navios_bot);
    assert_eq!(partida.mapa(Jogador::Humano).celula(1, 1), Celula::Navio(5));
    assert_eq!(partida.mapa(Jogador::Humano).celula(1, 2), Celula::Agua);
    assert_eq!(partida.vivos(Jogador::Humano), 14);
    assert_eq!(partida.fase(), Fase::Arrumando);
}

#[test]
fn movimento_recusado_deixa_tudo_como_estava() {
    let mut partida = Partida::nova();
    partida.processa(Evento::Muda);
    assert!(!partida.processa(Evento::Move(Direcao::Norte)).is_empty());
    let jogo = *partida.jogo();
    let mapa = *partida.mapa(Jogador::Humano);
    assert_eq!(jogo.navios_humano[1].popa_y, 3);
    assert!(partida.processa(Evento::Move(Direcao::Norte)).is_empty());
    assert_eq!(*partida.jogo(), jogo);
    assert_eq!(*partida.mapa(Jogador::Humano), mapa);
    assert!(partida.processa(Evento::Move(Direcao::Oeste)).len() == 2);
    assert!(partida.processa(Evento::Move(Direcao::Oeste)).is_empty());
    assert_eq!(partida.jogo().navios_humano[1].popa_x, 0);
}

#[test]
fn girar_navio_na_arrumacao() {
    let mut partida = Partida::nova();
    assert!(partida.processa(Evento::Gira).is_empty());
    assert_eq!(*partida.jogo(), Jogo::new());
    for _ in 0..3 {
        partida.processa(Evento::Muda);
    }
    let acoes = partida.processa(Evento::Gira);
    let velho = Navio::new(8, 2);
    let novo = Navio { direcao: Direcao::Sul, ..velho };
    assert_eq!(acoes, vec![Acao::ApagaNavio(velho), Acao::DesenhaNavio(novo)]);
    assert_eq!(partida.jogo().navios_humano[3], novo);
    assert_eq!(partida.mapa(Jogador::Humano).celula(2, 8), Celula::Agua);
    assert_eq!(partida.mapa(Jogador::Humano).celula(1, 9), Celula::Navio(2));
    let acoes = partida.processa(Evento::Gira);
    let outro = Navio { direcao: Direcao::Oeste, ..velho };
    assert_eq!(acoes, vec![Acao::ApagaNavio(novo), Acao::DesenhaNavio(outro)]);
    assert_eq!(partida.jogo().navios_humano[3].posicoes(), vec![(1, 8), (0, 8)]);
    assert_eq!(partida.vivos(Jogador::Humano), 14);
}

#[test]
fn eventos_da_batalha_nada_fazem_na_arrumacao() {
    let mut partida = Partida::nova();
    for evento in [Evento::Fogo, Evento::Outro, Evento::Redimensiona(43, 17)] {
        assert!(partida.processa(evento).is_empty());
        assert_eq!(partida.fase(), Fase::Arrumando);
        assert_eq!(*partida.jogo(), Jogo::new());
        assert_eq!(partida.vivos(Jogador::Bot), 14);
    }
    assert!(partida.executa_batalha(Evento::Fogo).is_empty());
    assert!(partida.executa_batalha(Evento::Aborta).is_empty());
    assert!(partida.rodada(0, 0).is_empty());
    assert_eq!(partida.fase(), Fase::Arrumando);
    assert_eq!(*partida.mapa(Jogador::Bot), Jogo::new().mapeia_bot(None));
}

#[test]
fn inicia_arruma_o_bot_e_comeca_a_batalha() {
    let mut partida = Partida::nova();
    partida.processa(Evento::Move(Direcao::Sul));
    let humano = partida.jogo().navios_humano;
    let acoes = partida.processa(Evento::Inicia);
    assert_eq!(acoes, vec![Acao::Cursor(Jogador::Bot, 0, 0)]);
    assert_eq!(partida.fase(), Fase::Batalhando);
    assert_eq!(partida.jogo().navios_humano, humano);
    assert_eq!(partida.vivos(Jogador::Humano), 14);
    assert_eq!(partida.vivos(Jogador::Bot), 14);
    assert_eq!(*partida.mapa(Jogador::Bot), partida.jogo().mapeia_bot(None));
    assert_eq!(*partida.mapa(Jogador::Humano), partida.jogo().mapeia_humano(None));
    let mut celulas = celulas_da_frota(&partida.jogo().navios_bot);
    celulas.sort();
    celulas.dedup();
    assert_eq!(celulas.len(), 14);
    assert_eq!(partida.mapa(Jogador::Bot).vivos(), 14);
}

#[test]
fn abortar_na_arrumacao_e_na_batalha() {
    let mut partida = Partida::nova();
    assert!(partida.processa(Evento::Aborta).is_empty());
    assert_eq!(partida.fase(), Fase::Abortado);
    let mut partida = em_batalha();
    assert!(partida.processa(Evento::Aborta).is_empty());
    assert_eq!(partida.fase(), Fase::Abortado);
    for evento in [Evento::Fogo, Evento::Inicia, Evento::Gira, Evento::Move(Direcao::Sul)] {
        assert!(partida.processa(evento).is_empty());
        assert_eq!(partida.fase(), Fase::Abortado);
    }
    assert_eq!(partida.vivos(Jogador::Humano), 14);
    assert_eq!(partida.vivos(Jogador::Bot), 14);
}

#[test]
fn terminal_pequeno_encerra() {
    let mut partida = Partida::nova();
    assert!(partida.processa(Evento::Redimensiona(100, 40)).is_empty());
    assert_eq!(partida.fase(), Fase::Arrumando);
    assert!(partida.processa(Evento::Redimensiona(42, 40)).is_empty());
    assert_eq!(partida.fase(), Fase::TerminalPequeno);
    assert!(partida.processa(Evento::Inicia).is_empty());
    assert_eq!(partida.fase(), Fase::TerminalPequeno);
    let mut partida = em_batalha();
    assert!(partida.processa(Evento::Redimensiona(43, 17)).is_empty());
    assert_eq!(partida.fase(), Fase::Batalhando);
    assert!(partida.processa(Evento::Redimensiona(43, 16)).is_empty());
    assert_eq!(partida.fase(), Fase::TerminalPequeno);
}

#[test]
fn mira_para_nas_bordas() {
    let mut partida = em_batalha();
    assert_eq!(
        partida.processa(Evento::Move(Direcao::Norte)),
        vec![Acao::Cursor(Jogador::Bot, 0, 0)]
    );
    assert_eq!(
        partida.processa(Evento::Move(Direcao::Oeste)),
        vec![Acao::Cursor(Jogador::Bot, 0, 0)]
    );
    for passo in 1..=9 {
        assert_eq!(
            partida.processa(Evento::Move(Direcao::Leste)),
            vec![Acao::Cursor(Jogador::Bot, passo, 0)]
        );
    }
    assert_eq!(
        partida.processa(Evento::Move(Direcao::Leste)),
        vec![Acao::Cursor(Jogador::Bot, 9, 0)]
    );
    for passo in 1..=9 {
        assert_eq!(
            partida.processa(Evento::Move(Direcao::Sul)),
            vec![Acao::Cursor(Jogador::Bot, 9, passo)]
        );
    }
    assert_eq!(
        partida.processa(Evento::Move(Direcao::Sul)),
        vec![Acao::Cursor(Jogador::Bot, 9, 9)]
    );
    assert_eq!(partida.mira(), (9, 9));
    assert_eq!(partida.vivos(Jogador::Bot), 14);
    assert_eq!(partida.vivos(Jogador::Humano), 14);
}

#[test]
fn eventos_da_arrumacao_nada_fazem_na_batalha() {
    let mut partida = em_batalha();
    let jogo = *partida.jogo();
    for evento in [Evento::Gira, Evento::Muda, Evento::Inicia, Evento::Outro] {
        assert!(partida.processa(evento).is_empty());
        assert_eq!(partida.fase(), Fase::Batalhando);
        assert_eq!(*partida.jogo(), jogo);
        assert_eq!(partida.corrente(), 0);
    }
    assert!(partida.arruma_navios_humano(Evento::Gira).is_empty());
    assert!(partida.arruma_navios_humano(Evento::Aborta).is_empty());
    assert_eq!(partida.fase(), Fase::Batalhando);
    assert_eq!(*partida.jogo(), jogo);
}

#[test]
fn fogo_acerta_o_bot_e_o_bot_responde() {
    let mut partida = em_batalha();
    let (x, y) = partida.jogo().navios_bot[2].posicoes()[1];
    aponta(&mut partida, x, y);
    let antes = *partida.mapa(Jogador::Humano);
    let acoes = partida.processa(Evento::Fogo);
    assert_eq!(acoes.len(), 7);
    assert_eq!(acoes[0], Acao::Explosao(Jogador::Bot, x, y, Celula::Navio(3)));
    assert_eq!(acoes[1], Acao::Placar(14, 13));
    assert_eq!(acoes[2], Acao::Pausa);
    let (bx, by, atingido) = match acoes[3] {
        Acao::Explosao(Jogador::Humano, bx, by, atingido) => (bx, by, atingido),
        outra => panic!("{:?}", outra),
    };
    assert_eq!(atingido, antes.celula(bx, by));
    assert_ne!(atingido, Celula::Destruido);
    assert_eq!(acoes[4], Acao::Pausa);
    let vivos = if atingido == Celula::Agua { 14 } else { 13 };
    assert_eq!(acoes[5], Acao::Placar(vivos, 13));
    assert_eq!(acoes[6], Acao::Cursor(Jogador::Bot, x, y));
    assert_eq!(partida.vivos(Jogador::Bot), 13);
    assert_eq!(partida.vivos(Jogador::Humano), vivos);
    assert_eq!(partida.mapa(Jogador::Bot).celula(x, y), Celula::Destruido);
    let mut esperado = antes;
    esperado.atira(bx, by);
    assert_eq!(*partida.mapa(Jogador::Humano), esperado);
    assert_eq!(partida.fase(), Fase::Batalhando);
}

#[test]
fn tiro_repetido_do_humano_nao_muda_o_tabuleiro_do_bot() {
    let mut partida = em_batalha();
    for (x, y) in [partida.jogo().navios_bot[0].posicoes()[0], aguas(&partida, Jogador::Bot)[0]] {
        aponta(&mut partida, x, y);
        partida.processa(Evento::Fogo);
        let mapa = *partida.mapa(Jogador::Bot);
        let vivos = partida.vivos(Jogador::Bot);
        let acoes = partida.processa(Evento::Fogo);
        assert_eq!(acoes[0], Acao::Explosao(Jogador::Bot, x, y, Celula::Destruido));
        assert_eq!(*partida.mapa(Jogador::Bot), mapa);
        assert_eq!(partida.vivos(Jogador::Bot), vivos);
    }
}

#[test]
fn rodada_com_mira_dada() {
    let mut partida = em_batalha();
    let agua = aguas(&partida, Jogador::Bot)[0];
    aponta(&mut partida, agua.0, agua.1);
    let acoes = partida.rodada(2, 6);
    assert_eq!(
        acoes,
        vec![
            Acao::Explosao(Jogador::Bot, agua.0, agua.1, Celula::Agua),
            Acao::Placar(14, 14),
            Acao::Pausa,
            Acao::Explosao(Jogador::Humano, 2, 6, Celula::Navio(3)),
            Acao::Pausa,
            Acao::Placar(13, 14),
            Acao::Cursor(Jogador::Bot, agua.0, agua.1),
        ]
    );
    assert_eq!(partida.vivos(Jogador::Humano), 13);
    assert_eq!(partida.vivos(Jogador::Bot), 14);
    assert_eq!(partida.mapa(Jogador::Bot).celula(agua.0, agua.1), Celula::Destruido);
    assert_eq!(partida.mapa(Jogador::Humano).celula(2, 6), Celula::Destruido);
}

#[test]
fn rodada_recusa_mira_repetida_ou_fora_do_tabuleiro() {
    let mut partida = em_batalha();
    assert_eq!(partida.rodada(0, 0).len(), 7);
    let humano = *partida.mapa(Jogador::Humano);
    let bot = *partida.mapa(Jogador::Bot);
    let vivos = (partida.vivos(Jogador::Humano), partida.vivos(Jogador::Bot));
    for (x, y) in [(0usize, 0usize), (10, 0), (0, 10), (usize::MAX, usize::MAX)] {
        assert!(partida.rodada(x, y).is_empty());
        assert_eq!(*partida.mapa(Jogador::Humano), humano);
        assert_eq!(*partida.mapa(Jogador::Bot), bot);
        assert_eq!((partida.vivos(Jogador::Humano), partida.vivos(Jogador::Bot)), vivos);
        assert_eq!(partida.fase(), Fase::Batalhando);
    }
}

#[test]
fn afundar_o_navio_de_cinco_do_bot() {
    let mut partida = em_batalha();
    let celulas = partida.jogo().navios_bot[0].posicoes();
    assert_eq!(celulas.len(), 5);
    let livres = aguas(&partida, Jogador::Humano);
    let mut vivos = 14;
    for (i, (x, y)) in celulas.iter().enumerate() {
        aponta(&mut partida, *x, *y);
        let acoes = partida.rodada(livres[i].0, livres[i].1);
        vivos -= 1;
        assert_eq!(acoes[0], Acao::Explosao(Jogador::Bot, *x, *y, Celula::Navio(5)));
        assert_eq!(acoes[1], Acao::Placar(14, vivos));
        assert_eq!(partida.vivos(Jogador::Bot), vivos);
        assert_eq!(partida.mapa(Jogador::Bot).vivos(), vivos);
    }
    assert_eq!(vivos, 9);
    let acoes = partida.rodada(livres[5].0, livres[5].1);
    assert_eq!(
        acoes[0],
        Acao::Explosao(Jogador::Bot, celulas[4].0, celulas[4].1, Celula::Destruido)
    );
    assert_eq!(acoes[1], Acao::Placar(14, 9));
    assert_eq!(partida.vivos(Jogador::Bot), 9);
    assert_eq!(partida.vivos(Jogador::Humano), 14);
}

#[test]
fn humano_vence_antes_de_o_bot_atirar() {
    let mut partida = em_batalha();
    let do_bot = celulas_da_frota(&partida.jogo().navios_bot);
    let do_humano = celulas_da_frota(&partida.jogo().navios_humano);
    assert_eq!((do_bot.len(), do_humano.len()), (14, 14));
    for i in 0..13 {
        aponta(&mut partida, do_bot[i].0, do_bot[i].1);
        let acoes = partida.rodada(do_humano[i].0, do_humano[i].1);
        assert_eq!(acoes.len(), 7);
        assert_eq!(partida.fase(), Fase::Batalhando);
        assert_eq!(partida.vivos(Jogador::Bot), 13 - i);
        assert_eq!(partida.vivos(Jogador::Humano), 13 - i);
    }
    let humano = *partida.mapa(Jogador::Humano);
    aponta(&mut partida, do_bot[13].0, do_bot[13].1);
    let acoes = partida.rodada(do_humano[13].0, do_humano[13].1);
    assert_eq!(
        acoes,
        vec![
            Acao::Explosao(Jogador::Bot, do_bot[13].0, do_bot[13].1, Celula::Navio(2)),
            Acao::Placar(1, 0),
            Acao::Pausa,
            Acao::Vitoria(Jogador::Humano),
        ]
    );
    assert_eq!(partida.fase(), Fase::Encerrado(Jogador::Humano));
    assert_eq!(partida.vivos(Jogador::Bot), 0);
    assert_eq!(partida.vivos(Jogador::Humano), 1);
    assert_eq!(*partida.mapa(Jogador::Humano), humano);
    assert_eq!(
        partida.mapa(Jogador::Humano).celula(do_humano[13].0, do_humano[13].1),
        Celula::Navio(2)
    );
    assert!(partida.processa(Evento::Fogo).is_empty());
    assert!(partida.rodada(do_humano[13].0, do_humano[13].1).is_empty());
    assert_eq!(partida.vivos(Jogador::Humano), 1);
    assert_eq!(partida.fase(), Fase::Encerrado(Jogador::Humano));
}

#[test]
fn humano_vence_com_fogo_e_o_bot_nao_responde() {
    let mut partida = em_batalha();
    let do_bot = celulas_da_frota(&partida.jogo().navios_bot);
    let livres = aguas(&partida, Jogador::Humano);
    for i in 0..13 {
        aponta(&mut partida, do_bot[i].0, do_bot[i].1);
        partida.rodada(livres[i].0, livres[i].1);
    }
    assert_eq!(partida.vivos(Jogador::Bot), 1);
    let humano = *partida.mapa(Jogador::Humano);
    aponta(&mut partida, do_bot[13].0, do_bot[13].1);
    let acoes = partida.processa(Evento::Fogo);
    assert_eq!(acoes.len(), 4);
    assert_eq!(acoes[3], Acao::Vitoria(Jogador::Humano));
    assert_eq!(partida.fase(), Fase::Encerrado(Jogador::Humano));
    assert_eq!(*partida.mapa(Jogador::Humano), humano);
    assert_eq!(partida.vivos(Jogador::Humano), 14);
}

#[test]
fn bot_vence_quando_o_humano_fica_sem_segmentos() {
    let mut partida = em_batalha();
    let do_humano = celulas_da_frota(&partida.jogo().navios_humano);
    let livres = aguas(&partida, Jogador::Bot);
    for i in 0..14 {
        assert_eq!(partida.fase(), Fase::Batalhando);
        aponta(&mut partida, livres[i].0, livres[i].1);
        let acoes = partida.rodada(do_humano[i].0, do_humano[i].1);
        assert_eq!(partida.vivos(Jogador::Humano), 13 - i);
        assert_eq!(acoes.len(), 7);
        if i < 13 {
            assert_eq!(acoes[6], Acao::Cursor(Jogador::Bot, livres[i].0, livres[i].1));
        } else {
            assert_eq!(acoes[5], Acao::Placar(0, 14));
            assert_eq!(acoes[6], Acao::Vitoria(Jogador::Bot));
        }
    }
    assert_eq!(partida.fase(), Fase::Encerrado(Jogador::Bot));
    assert_eq!(partida.vivos(Jogador::Bot), 14);
    assert!(partida.processa(Evento::Fogo).is_empty());
}

#[test]
fn partida_inteira_com_o_bot_ao_acaso() {
    for _ in 0..20 {
        let mut partida = em_batalha();
        let mut vivos = (14, 14);
        let mut rodadas = 0;
        'jogo: for y in 0..10 {
            for x in 0..10 {
                aponta(&mut partida, x, y);
                let humano = *partida.mapa(Jogador::Humano);
                let acoes = partida.processa(Evento::Fogo);
                rodadas += 1;
                let agora = (partida.vivos(Jogador::Humano), partida.vivos(Jogador::Bot));
                assert!(agora.0 <= vivos.0 && agora.1 <= vivos.1);
                assert!(vivos.0 - agora.0 <= 1 && vivos.1 - agora.1 <= 1);
                vivos = agora;
                assert_eq!(partida.mapa(Jogador::Humano).vivos(), vivos.0);
                assert_eq!(partida.mapa(Jogador::Bot).vivos(), vivos.1);
                if vivos.1 == 0 {
                    assert_eq!(acoes.len(), 4);
                    assert_eq!(*partida.mapa(Jogador::Humano), humano);
                } else {
                    match acoes[3] {
                        Acao::Explosao(Jogador::Humano, bx, by, atingido) => {
                            assert_ne!(humano.celula(bx, by), Celula::Destruido);
                            assert_eq!(humano.celula(bx, by), atingido);
                            assert_eq!(
                                partida.mapa(Jogador::Humano).celula(bx, by),
                                Celula::Destruido
                            );
                        }
                        outra => panic!("{:?}", outra),
                    }
                }
                match partida.fase() {
                    Fase::Batalhando => assert!(vivos.0 > 0 && vivos.1 > 0),
                    Fase::Encerrado(Jogador::Humano) => {
                        assert!(vivos.0 > 0 && vivos.1 == 0);
                        break 'jogo;
                    }
                    Fase::Encerrado(Jogador::Bot) => {
                        assert!(vivos.0 == 0 && vivos.1 > 0);
                        break 'jogo;
                    }
                    outra => panic!("{:?}", outra),
                }
            }
        }
        assert!(matches!(partida.fase(), Fase::Encerrado(_)));
        assert!(rodadas >= 14 && rodadas <= 100);
    }
}
