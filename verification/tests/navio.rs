use exercicios::batalha_naval::navio::{Cor, Desenho, Direcao, Navio};

fn navio(popa_x: usize, popa_y: usize, direcao: Direcao, tamanho: usize) -> Navio {
    let mut n = Navio::new(popa_y, tamanho);
    n.popa_x = popa_x;
    n.direcao = direcao;
    n
}

#[test]
fn navio_novo_aponta_para_leste_da_coluna_um() {
    let n = Navio::new(2, 5);
    assert_eq!(n.popa_x, 1);
    assert_eq!(n.popa_y, 2);
    assert_eq!(n.direcao, Direcao::Leste);
    assert_eq!(n.tamanho, 5);
}

#[test]
fn desenho_de_cada_tamanho() {
    assert_eq!(Navio::new(2, 5).desenho, Desenho { letra: 'P', fundo: Cor::AzulEscuro });
    assert_eq!(Navio::new(2, 4).desenho, Desenho { letra: 'C', fundo: Cor::MagentaEscuro });
    assert_eq!(Navio::new(2, 3).desenho, Desenho { letra: 'D', fundo: Cor::AmareloEscuro });
    assert_eq!(Navio::new(2, 2).desenho, Desenho { letra: 'S', fundo: Cor::VermelhoEscuro });
}

#[test]
fn giro_segue_o_relogio() {
    assert_eq!(Direcao::Norte.gira(), Direcao::Leste);
    assert_eq!(Direcao::Leste.gira(), Direcao::Sul);
    assert_eq!(Direcao::Sul.gira(), Direcao::Oeste);
    assert_eq!(Direcao::Oeste.gira(), Direcao::Norte);
}

#[test]
fn quatro_giros_voltam_ao_inicio() {
    for direcao in [Direcao::Norte, Direcao::Sul, Direcao::Leste, Direcao::Oeste] {
        let inicio = navio(4, 5, direcao, 3);
        let celulas = inicio.posicoes();
        let mut n = inicio;
        let mut vistas = vec![];
        for _ in 0..4 {
            n.gira();
            vistas.push(n.direcao);
        }
        assert_eq!(n, inicio);
        assert_eq!(n.posicoes(), celulas);
        vistas.sort_by_key(|d| format!("{:?}", d));
        vistas.dedup();
        assert_eq!(vistas.len(), 4);
    }
}

#[test]
fn giro_mantem_popa_e_tamanho() {
    let mut n = navio(4, 5, Direcao::Norte, 3);
    n.gira();
    assert_eq!(n, navio(4, 5, Direcao::Leste, 3));
}

#[test]
fn posicoes_em_cada_direcao() {
    assert_eq!(navio(4, 5, Direcao::Norte, 3).posicoes(), vec![(4, 5), (4, 4), (4, 3)]);
    assert_eq!(navio(4, 5, Direcao::Sul, 3).posicoes(), vec![(4, 5), (4, 6), (4, 7)]);
    assert_eq!(navio(4, 5, Direcao::Leste, 3).posicoes(), vec![(4, 5), (5, 5), (6, 5)]);
    assert_eq!(navio(4, 5, Direcao::Oeste, 3).posicoes(), vec![(4, 5), (3, 5), (2, 5)]);
}

#[test]
fn extremos_em_cada_direcao() {
    assert_eq!(navio(4, 5, Direcao::Norte, 3).extremos(), (3, 5, 4, 4));
    assert_eq!(navio(4, 5, Direcao::Sul, 3).extremos(), (5, 7, 4, 4));
    assert_eq!(navio(4, 5, Direcao::Leste, 3).extremos(), (5, 5, 6, 4));
    assert_eq!(navio(4, 5, Direcao::Oeste, 3).extremos(), (5, 5, 4, 2));
    assert_eq!(navio(0, 4, Direcao::Norte, 5).extremos(), (0, 4, 0, 0));
}

#[test]
fn navio_nas_bordas_do_tabuleiro() {
    assert!(navio(0, 4, Direcao::Norte, 5).esta_no_tabuleiro());
    assert!(!navio(0, 3, Direcao::Norte, 5).esta_no_tabuleiro());
    assert!(navio(9, 5, Direcao::Sul, 5).esta_no_tabuleiro());
    assert!(!navio(9, 6, Direcao::Sul, 5).esta_no_tabuleiro());
    assert!(navio(5, 0, Direcao::Leste, 5).esta_no_tabuleiro());
    assert!(!navio(6, 0, Direcao::Leste, 5).esta_no_tabuleiro());
    assert!(navio(4, 9, Direcao::Oeste, 5).esta_no_tabuleiro());
    assert!(!navio(3, 9, Direcao::Oeste, 5).esta_no_tabuleiro());
    assert!(!navio(10, 0, Direcao::Oeste, 2).esta_no_tabuleiro());
    assert!(!navio(0, 10, Direcao::Norte, 2).esta_no_tabuleiro());
    assert!(!navio(usize::MAX, usize::MAX, Direcao::Sul, 2).esta_no_tabuleiro());
}
