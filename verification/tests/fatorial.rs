use exercicios::fatorial::{fatorial_classico, fatorial_iterador, fatorial_recursivo};

#[test]
fn fatorial_de_quatro() {
    assert_eq!(fatorial_classico(4), 24);
    assert_eq!(fatorial_recursivo(4), 24);
    assert_eq!(fatorial_iterador(4), 24);
}

#[test]
fn fatorial_de_zero_e_de_um() {
    for n in [0i64, 1] {
        assert_eq!(fatorial_classico(n), 1);
        assert_eq!(fatorial_recursivo(n), 1);
        assert_eq!(fatorial_iterador(n), 1);
    }
}

#[test]
fn fatorial_de_negativo() {
    for n in [-1i64, -7, i64::MIN] {
        assert_eq!(fatorial_classico(n), 1);
        assert_eq!(fatorial_recursivo(n), 1);
        assert_eq!(fatorial_iterador(n), 1);
    }
}

#[test]
fn fatorial_de_vinte() {
    assert_eq!(fatorial_classico(20), 2432902008176640000);
    assert_eq!(fatorial_recursivo(20), 2432902008176640000);
    assert_eq!(fatorial_iterador(20), 2432902008176640000);
}

#[test]
fn fatoriais_concordam() {
    let esperado: [i64; 11] = [1, 1, 2, 6, 24, 120, 720, 5040, 40320, 362880, 3628800];
    for n in 0..=10usize {
        assert_eq!(fatorial_classico(n as i64), esperado[n]);
        assert_eq!(fatorial_recursivo(n as i64), esperado[n]);
        assert_eq!(fatorial_iterador(n as i64), esperado[n]);
    }
}
