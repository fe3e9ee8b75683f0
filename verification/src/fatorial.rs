//! Three ways of computing a factorial, each proved equal to the
//! mathematical definition.

use vstd::prelude::*;

verus! {

/// The factorial of `n`; 1 for every `n` below 2, negative ones included.
pub open spec fn fatorial(n: int) -> int
    decreases n,
{
    if n <= 1 {
        1
    } else {
        n * fatorial(n - 1)
    }
}

/// The largest argument whose factorial fits in an `i64`.
pub const MAIOR_ARGUMENTO: i64 = 20;

/// The factorial never shrinks as its argument grows.
pub proof fn lema_fatorial_crescente(a: int, b: int)
    requires
        a <= b,
    ensures
        1 <= fatorial(a) <= fatorial(b),
    decreases b,
{
    if b > 1 && a == b {
        lema_fatorial_crescente(a - 1, b - 1);
        assert(1 <= b * fatorial(b - 1)) by (nonlinear_arith)
            requires
                1 <= fatorial(b - 1),
                b > 1,
        ;
    } else if b > 1 {
        lema_fatorial_crescente(a, b - 1);
        assert(fatorial(b - 1) <= b * fatorial(b - 1)) by (nonlinear_arith)
            requires
                1 <= fatorial(b - 1),
                b > 1,
        ;
    }
}

/// The factorial of 20, the largest that an `i64` holds.
pub proof fn lema_fatorial_de_vinte()
    ensures
        fatorial(20) == 2432902008176640000,
{
    assert(fatorial(1) == 1);
    assert(fatorial(2) == 2);
    assert(fatorial(3) == 6);
    assert(fatorial(4) == 24);
    assert(fatorial(5) == 120);
    assert(fatorial(6) == 720);
    assert(fatorial(7) == 5040);
    assert(fatorial(8) == 40320);
    assert(fatorial(9) == 362880);
    assert(fatorial(10) == 3628800);
    assert(fatorial(11) == 39916800);
    assert(fatorial(12) == 479001600);
    assert(fatorial(13) == 6227020800);
    assert(fatorial(14) == 87178291200);
    assert(fatorial(15) == 1307674368000);
    assert(fatorial(16) == 20922789888000);
    assert(fatorial(17) == 355687428096000);
    assert(fatorial(18) == 6402373705728000);
    assert(fatorial(19) == 121645100408832000);
}

/// Every factorial up to that of 20 fits in an `i64`.
pub proof fn lema_fatorial_cabe(n: int)
    requires
        n <= MAIOR_ARGUMENTO,
    ensures
        1 <= fatorial(n) <= i64::MAX,
{
    lema_fatorial_crescente(n, 20);
    lema_fatorial_de_vinte();
}

/// The factorial by a loop that multiplies 2, 3, ... up to `n`.
pub fn fatorial_classico(n: i64) -> (r: i64)
    requires
        n <= MAIOR_ARGUMENTO,
    ensures
        r == fatorial(n as int),
{
    let mut fat: i64 = 1;
    let mut i: i64 = 2;
    while i <= n
        invariant
            2 <= i,
            n >= 2 ==> i <= n + 1,
            n < 2 ==> i == 2,
            n <= MAIOR_ARGUMENTO,
            fat == fatorial(i - 1),
        decreases n + 1 - i,
    {
        proof {
            lema_fatorial_cabe(i as int);
            assert(i * fatorial(i - 1) == fat * i) by (nonlinear_arith)
                requires
                    fat == fatorial(i - 1),
            ;
        }
        fat = fat * i;
        i = i + 1;
    }
    fat
}

/// The factorial by recursion on `n`.
pub fn fatorial_recursivo(n: i64) -> (r: i64)
    requires
        n <= MAIOR_ARGUMENTO,
    ensures
        r == fatorial(n as int),
    decreases n,
{
    if n <= 1 {
        return 1;
    }
    let anterior = fatorial_recursivo(n - 1);
    proof {
        lema_fatorial_cabe(n as int);
    }
    n * anterior
}

/// The factorial as the product of the numbers 1 to `n`, taken in order.
pub fn fatorial_iterador(n: i64) -> (r: i64)
    requires
        n <= MAIOR_ARGUMENTO,
    ensures
        r == fatorial(n as int),
{
    let mut produto: i64 = 1;
    for i in 1..(if n < 1 { 1 } else { n + 1 })
        invariant
            n <= MAIOR_ARGUMENTO,
            produto == fatorial(i - 1),
    {
        proof {
            lema_fatorial_cabe(i as int);
            assert(i * fatorial(i - 1) == produto * i) by (nonlinear_arith)
                requires
                    produto == fatorial(i - 1),
            ;
        }
        produto = produto * i;
    }
    produto
}

} // verus!
