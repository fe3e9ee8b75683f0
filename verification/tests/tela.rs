use exercicios::batalha_naval::estado::{Evento, Tecla};
use exercicios::batalha_naval::mapa::Celula;
use exercicios::batalha_naval::navio::{Cor, Direcao};
use exercicios::batalha_naval::partida::evento_da_tecla;
use exercicios::batalha_naval::tela::{
    cor_da_explosao, moldura, tem_tamanho_minimo, x_para_tela_bot, x_para_tela_humano,
    y_para_tela_bot, y_para_tela_humano, Moldura, ALTURA_MINIMA, LARGURA_MINIMA,
};

#[test]
fn tamanho_minimo_do_terminal() {
    assert_eq!(LARGURA_MINIMA, 43);
    assert_eq!(ALTURA_MINIMA, 17);
    assert!(tem_tamanho_minimo(43, 17));
    assert!(tem_tamanho_minimo(u16::MAX, u16::MAX));
    assert!(!tem_tamanho_minimo(42, 17));
    assert!(!tem_tamanho_minimo(43, 16));
    assert!(!tem_tamanho_minimo(0, 0));
}

#[test]
fn colunas_e_linhas_do_tabuleiro_humano() {
    assert_eq!(x_para_tela_humano(0), 1);
    assert_eq!(x_para_tela_humano(9), 19);
    assert_eq!(y_para_tela_humano(0), 1);
    assert_eq!(y_para_tela_humano(9), 10);
}

#[test]
fn colunas_e_linhas_do_tabuleiro_bot() {
    assert_eq!(x_para_tela_bot(0), 22);
    assert_eq!(x_para_tela_bot(9), 40);
    assert_eq!(y_para_tela_bot(0), 1);
    assert_eq!(y_para_tela_bot(9), 10);
}

#[test]
fn moldura_a_partir_do_canto() {
    assert_eq!(moldura(0, 0), Moldura { x_esq: 0, x_meio: 21, x_dir: 42, y_sup: 0, y_inf: 11 });
    assert_eq!(moldura(3, 5), Moldura { x_esq: 3, x_meio: 24, x_dir: 45, y_sup: 5, y_inf: 16 });
}

#[test]
fn cor_da_explosao_por_celula() {
    assert_eq!(cor_da_explosao(Celula::Agua), Some(Cor::Ciano));
    assert_eq!(cor_da_explosao(Celula::Destruido), None);
    assert_eq!(cor_da_explosao(Celula::Navio(5)), Some(Cor::AzulEscuro));
    assert_eq!(cor_da_explosao(Celula::Navio(4)), Some(Cor::MagentaEscuro));
    assert_eq!(cor_da_explosao(Celula::Navio(3)), Some(Cor::AmareloEscuro));
    assert_eq!(cor_da_explosao(Celula::Navio(2)), Some(Cor::VermelhoEscuro));
}

#[test]
fn evento_de_cada_tecla() {
    assert_eq!(evento_da_tecla(Tecla::Cima), Evento::Move(Direcao::Norte));
    assert_eq!(evento_da_tecla(Tecla::Baixo), Evento::Move(Direcao::Sul));
    assert_eq!(evento_da_tecla(Tecla::Direita), Evento::Move(Direcao::Leste));
    assert_eq!(evento_da_tecla(Tecla::Esquerda), Evento::Move(Direcao::Oeste));
    for (min, mai, evento) in [
        ('g', 'G', Evento::Gira),
        ('m', 'M', Evento::Muda),
        ('i', 'I', Evento::Inicia),
        ('f', 'F', Evento::Fogo),
    ] {
        assert_eq!(evento_da_tecla(Tecla::Caractere(min)), evento);
        assert_eq!(evento_da_tecla(Tecla::Caractere(mai)), evento);
        assert_eq!(evento_da_tecla(Tecla::Controle(min)), Evento::Aborta);
    }
    assert_eq!(evento_da_tecla(Tecla::Controle('c')), Evento::Aborta);
    assert_eq!(evento_da_tecla(Tecla::Caractere('c')), Evento::Outro);
    assert_eq!(evento_da_tecla(Tecla::Caractere(' ')), Evento::Outro);
    assert_eq!(evento_da_tecla(Tecla::Outra), Evento::Outro);
}
