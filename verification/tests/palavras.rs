use exercicios::palavras::{
    caracteres, limpa_palavra, pontuacao, separa_palavras, Contagem, Entrada, Teste,
};

fn conta_todas(texto: &str) -> Contagem {
    let mut contagem = Contagem::new();
    for p in separa_palavras(texto) {
        contagem.conta_palavra(&p);
    }
    contagem
}

fn lista(pares: &[(&str, u32)]) -> Vec<(String, u32)> {
    pares.iter().map(|(p, n)| (p.to_string(), *n)).collect()
}

#[test]
fn teste_guarda_a_palavra_em_caixa_alta() {
    let teste = Teste::new(&String::from("casa"), 1);
    assert_eq!(teste.caixa_alta, "CASA");
    assert_eq!(teste.conta, 1);
}

#[test]
fn teste_com_acentos_e_letras_que_crescem() {
    let teste = Teste::new(&String::from("coração"), 7);
    assert_eq!(teste.caixa_alta, "CORAÇÃO");
    assert_eq!(teste.conta, 7);
    let teste = Teste::new(&String::from("straße"), u32::MAX);
    assert_eq!(teste.caixa_alta, "STRASSE");
    assert_eq!(teste.conta, u32::MAX);
}

#[test]
fn teste_de_palavra_vazia() {
    let teste = Teste::new(&String::new(), 0);
    assert_eq!(teste, Teste { caixa_alta: String::new(), conta: 0 });
}

#[test]
fn sinais_de_pontuacao() {
    for c in ['.', ',', ';', ':', '?', '!'] {
        assert!(pontuacao(c));
    }
    for c in ['a', ' ', '-', '\'', '"', '(', ')', '…', '¿', '\n'] {
        assert!(!pontuacao(c));
    }
}

#[test]
fn limpa_palavra_tira_um_sinal_do_fim() {
    assert_eq!(limpa_palavra("casa."), "casa");
    assert_eq!(limpa_palavra("casa"), "casa");
    assert_eq!(limpa_palavra("quê?"), "quê");
    assert_eq!(limpa_palavra("fim?!"), "fim?");
    assert_eq!(limpa_palavra(".casa"), ".casa");
    assert_eq!(limpa_palavra("a.b"), "a.b");
    assert_eq!(limpa_palavra("."), "");
    assert_eq!(limpa_palavra(""), "");
    assert_eq!(limpa_palavra("..."), "..");
    assert_eq!(limpa_palavra("ação;"), "ação");
    assert_eq!(limpa_palavra("não"), "não");
}

#[test]
fn caracteres_de_um_texto() {
    assert_eq!(caracteres(""), Vec::<char>::new());
    assert_eq!(caracteres("ação!"), vec!['a', 'ç', 'ã', 'o', '!']);
}

#[test]
fn separa_palavras_por_espacos_em_branco() {
    assert_eq!(separa_palavras("um dois  tres"), vec!["um", "dois", "tres"]);
    assert_eq!(separa_palavras("  um\tdois\n"), vec!["um", "dois"]);
    assert_eq!(separa_palavras(""), Vec::<String>::new());
    assert_eq!(separa_palavras(" \t\r\n"), Vec::<String>::new());
    assert_eq!(separa_palavras("só"), vec!["só"]);
    assert_eq!(
        separa_palavras("a\u{a0}b\u{2003}ção . fim."),
        vec!["a", "b", "ção", ".", "fim."]
    );
}

#[test]
fn separa_palavras_como_a_biblioteca_padrao() {
    for texto in [
        "O rato roeu a roupa do rei de Roma.",
        "  linhas\ncom\r\nvários   \t espaços \u{3000} e fim  ",
        "Olá, mundo! Olá; mundo? Sim: olá.",
        "\u{1680}x\u{2028}y\u{85}z",
    ] {
        let esperado: Vec<String> = texto.split_whitespace().map(String::from).collect();
        assert_eq!(separa_palavras(texto), esperado);
    }
}

#[test]
fn contagem_nova_esta_vazia() {
    let contagem = Contagem::new();
    assert!(contagem.entradas().is_empty());
    assert_eq!(contagem.conta_da_palavra(&String::from("casa")), 0);
    assert!(contagem.mais_frequentes().is_empty());
}

#[test]
fn conta_palavra_nova_e_repetida() {
    let mut contagem = Contagem::new();
    contagem.conta(&String::from("casa"));
    assert_eq!(
        *contagem.entradas(),
        vec![Entrada {
            palavra: String::from("casa"),
            teste: Teste { caixa_alta: String::from("CASA"), conta: 1 }
        }]
    );
    contagem.conta(&String::from("rua"));
    contagem.conta(&String::from("casa"));
    assert_eq!(contagem.conta_da_palavra(&String::from("casa")), 2);
    assert_eq!(contagem.conta_da_palavra(&String::from("rua")), 1);
    assert_eq!(contagem.conta_da_palavra(&String::from("Casa")), 0);
    assert_eq!(contagem.entradas().len(), 2);
    assert_eq!(contagem.entradas()[0].palavra, "casa");
    assert_eq!(contagem.entradas()[0].teste, Teste { caixa_alta: String::from("CASA"), conta: 2 });
    assert_eq!(contagem.entradas()[1].palavra, "rua");
    assert_eq!(contagem.entradas()[1].teste, Teste { caixa_alta: String::from("RUA"), conta: 1 });
}

#[test]
fn conta_palavra_limpa_e_pula_a_vazia() {
    let mut contagem = Contagem::new();
    assert_eq!(contagem.conta_palavra("casa,"), "casa");
    assert_eq!(contagem.conta_palavra("casa"), "casa");
    assert_eq!(contagem.conta_palavra("."), "");
    assert_eq!(contagem.conta_palavra("casa!?"), "casa!");
    assert_eq!(contagem.mais_frequentes(), lista(&[("casa", 2), ("casa!", 1)]));
}

#[test]
fn mais_frequentes_primeiro() {
    let contagem = conta_todas("a b c b c c d d d d");
    assert_eq!(contagem.mais_frequentes(), lista(&[("d", 4), ("c", 3), ("b", 2), ("a", 1)]));
}

#[test]
fn empates_ficam_na_ordem_em_que_apareceram() {
    let contagem = conta_todas("uva pera, uva. maçã pera; kiwi maçã figo figo!");
    assert_eq!(
        contagem.mais_frequentes(),
        lista(&[("uva", 2), ("pera", 2), ("maçã", 2), ("figo", 2), ("kiwi", 1)])
    );
    let contagem = conta_todas("z y x");
    assert_eq!(contagem.mais_frequentes(), lista(&[("z", 1), ("y", 1), ("x", 1)]));
}

#[test]
fn contagem_de_um_texto() {
    let contagem = conta_todas("O rato roeu a roupa. O rato? O RATO!\n . ");
    assert_eq!(
        contagem.mais_frequentes(),
        lista(&[("O", 3), ("rato", 2), ("roeu", 1), ("a", 1), ("roupa", 1), ("RATO", 1)])
    );
    let total: u32 = contagem.entradas().iter().map(|e| e.teste.conta).sum();
    assert_eq!(total, 9);
    for e in contagem.entradas().iter() {
        assert_eq!(e.teste.caixa_alta, e.palavra.to_uppercase());
    }
}
