//! Four tests of whether a number is prime, each by trial division up to
//! the square root and each proved against the definition.

use vstd::arithmetic::div_mod::{lemma_fundamental_div_mod, lemma_mod_multiples_basic};
use vstd::prelude::*;

verus! {

/// Whether `n` is prime: greater than 1 and divisible by no number between
/// 1 and itself.
pub open spec fn eh_primo(n: int) -> bool {
    n > 1 && forall|d: int| 1 < d < n ==> #[trigger] (n % d) != 0
}

/// Whether `r` is the square root of `n` rounded down.
pub open spec fn eh_raiz_inteira(r: int, n: int) -> bool {
    0 <= r && r * r <= n < (r + 1) * (r + 1)
}

/// A number that an even number divides is even.
pub proof fn lema_divisor_par(n: int, k: int)
    requires
        k > 0,
        k % 2 == 0,
        n % k == 0,
    ensures
        n % 2 == 0,
{
    lemma_fundamental_div_mod(n, k);
    lemma_fundamental_div_mod(k, 2);
    let q = n / k;
    let j = k / 2;
    assert(n == (j * q) * 2) by (nonlinear_arith)
        requires
            n == k * q,
            k == 2 * j,
    ;
    lemma_mod_multiples_basic(j * q, 2);
}

/// A number greater than 1 that nothing from 2 to its square root divides
/// is prime.
pub proof fn lema_sem_divisor_ate_a_raiz(n: int, limite: int)
    requires
        n > 1,
        eh_raiz_inteira(limite, n),
        forall|d: int| 2 <= d <= limite ==> #[trigger] (n % d) != 0,
    ensures
        eh_primo(n),
{
    assert forall|k: int| 1 < k < n implies #[trigger] (n % k) != 0 by {
        if n % k == 0 {
            let q = n / k;
            lemma_fundamental_div_mod(n, k);
            assert(q > 1) by (nonlinear_arith)
                requires
                    n == k * q,
                    1 < k < n,
            ;
            if k > limite && q <= limite {
                assert(n == q * k) by (nonlinear_arith)
                    requires
                        n == k * q,
                ;
                lemma_mod_multiples_basic(k, q);
            } else if k > limite {
                assert(k * q >= (limite + 1) * (limite + 1)) by (nonlinear_arith)
                    requires
                        k >= limite + 1,
                        q >= limite + 1,
                        limite >= 0,
                ;
            }
        }
    }
}

/// A divisor of a number greater than 1, from 2 to its square root, shows
/// that the number is not prime.
pub proof fn lema_divisor_ate_a_raiz(n: int, limite: int, d: int)
    requires
        eh_raiz_inteira(limite, n),
        2 <= d <= limite,
        n % d == 0,
    ensures
        !eh_primo(n),
{
    assert(d < n) by (nonlinear_arith)
        requires
            2 <= d <= limite,
            limite * limite <= n,
    ;
}

/// The square root of `num` rounded down.
pub fn raiz_inteira(num: u32) -> (r: u32)
    ensures
        eh_raiz_inteira(r as int, num as int),
        r <= 65535,
{
    let n: u64 = num as u64;
    let mut baixo: u64 = 0;
    let mut alto: u64 = 65536;
    while alto - baixo > 1
        invariant
            n == num,
            baixo < alto <= 65536,
            baixo * baixo <= n < alto * alto,
        decreases alto - baixo,
    {
        let meio = baixo + (alto - baixo) / 2;
        assert(meio * meio <= 65536 * 65536) by (nonlinear_arith)
            requires
                0 <= meio <= 65536,
        ;
        if meio * meio <= n {
            baixo = meio;
        } else {
            alto = meio;
        }
    }
    baixo as u32
}

/// Whether `num` is prime, by a `while` loop over the candidates.
pub fn numero_primo_while(num: u32) -> (r: bool)
    ensures
        r == eh_primo(num as int),
{
    if num <= 1 {
        return false;
    }
    let limite = raiz_inteira(num);
    let mut d: u32 = 2;
    while d <= limite
        invariant
            num > 1,
            limite <= 65535,
            2 <= d,
            eh_raiz_inteira(limite as int, num as int),
            forall|k: int| 2 <= k < d && k <= limite ==> #[trigger] (num as int % k) != 0,
        decreases 65536 - d,
    {
        if num % d == 0 {
            proof {
                lema_divisor_ate_a_raiz(num as int, limite as int, d as int);
            }
            return false;
        }
        d += 1;
    }
    proof {
        lema_sem_divisor_ate_a_raiz(num as int, limite as int);
    }
    true
}

/// Whether `num` is prime, by a `for` loop over the candidates.
pub fn numero_primo_for(num: u32) -> (r: bool)
    ensures
        r == eh_primo(num as int),
{
    if num <= 1 {
        return false;
    }
    let limite = raiz_inteira(num);
    for d in 2..limite + 1
        invariant
            num > 1,
            limite <= 65535,
            eh_raiz_inteira(limite as int, num as int),
            forall|k: int| 2 <= k < d ==> #[trigger] (num as int % k) != 0,
    {
        if num % d == 0 {
            proof {
                lema_divisor_ate_a_raiz(num as int, limite as int, d as int);
            }
            return false;
        }
    }
    proof {
        lema_sem_divisor_ate_a_raiz(num as int, limite as int);
    }
    true
}

/// Whether `num` is prime, by a loop that leaves the even candidates out:
/// 2 and 3 are tried first, and then the odd numbers from 5 on.
pub fn numero_primo_for_v2(num: u32) -> (r: bool)
    ensures
        r == eh_primo(num as int),
{
    if num <= 1 {
        return false;
    } else if num == 2 {
        return true;
    } else if num == 3 {
        return true;
    } else if num % 2 == 0 {
        return false;
    } else if num % 3 == 0 {
        return false;
    }
    let limite = raiz_inteira(num);
    let mut d: u32 = 5;
    proof {
        if num as int % 4 == 0 {
            lema_divisor_par(num as int, 4);
        }
    }
    while d <= limite
        invariant
            num > 1,
            num % 2 != 0,
            limite <= 65535,
            5 <= d,
            d % 2 == 1,
            eh_raiz_inteira(limite as int, num as int),
            forall|k: int| 2 <= k < d ==> #[trigger] (num as int % k) != 0,
        decreases 65537 - d,
    {
        if num % d == 0 {
            proof {
                lema_divisor_ate_a_raiz(num as int, limite as int, d as int);
            }
            return false;
        }
        proof {
            if num as int % (d + 1) == 0 {
                lema_divisor_par(num as int, d + 1);
            }
        }
        d += 2;
    }
    proof {
        lema_sem_divisor_ate_a_raiz(num as int, limite as int);
    }
    true
}

/// Whether `f` answers `true` to every number from `inicio` to `fim`. The
/// numbers are asked in order, and none after the first `false`.
pub fn todos_no_intervalo<F: Fn(u32) -> bool>(inicio: u32, fim: u32, f: F) -> (r: bool)
    requires
        forall|d: u32| inicio <= d <= fim ==> call_requires(f, (d,)),
    ensures
        r ==> forall|d: u32| inicio <= d <= fim ==> call_ensures(f, (d,), true),
        !r ==> exists|d: u32| inicio <= d <= fim && call_ensures(f, (d,), false),
{
    if inicio > fim {
        return true;
    }
    let mut d: u32 = inicio;
    loop
        invariant
            inicio <= d <= fim,
            forall|k: u32| inicio <= k <= fim ==> call_requires(f, (k,)),
            forall|k: u32| inicio <= k < d ==> call_ensures(f, (k,), true),
        decreases fim - d,
    {
        if !f(d) {
            return false;
        }
        if d == fim {
            return true;
        }
        d += 1;
    }
}

/// Whether `num` is prime, by a closure asked of every candidate.
pub fn numero_primo_closure(num: u32) -> (r: bool)
    ensures
        r == eh_primo(num as int),
{
    if num <= 1 {
        return false;
    }
    let limite = raiz_inteira(num);
    let nao_divide = |d: u32| -> (b: bool)
        requires
            d != 0,
        ensures
            b == (num % d != 0),
        { num % d != 0 };
    let r = todos_no_intervalo(2, limite, nao_divide);
    proof {
        if r {
            assert forall|k: int| 2 <= k <= limite implies #[trigger] (num as int % k) != 0 by {
                assert(call_ensures(nao_divide, (k as u32,), true));
            }
            lema_sem_divisor_ate_a_raiz(num as int, limite as int);
        } else {
            let d = choose|d: u32| 2 <= d <= limite && call_ensures(nao_divide, (d,), false);
            lema_divisor_ate_a_raiz(num as int, limite as int, d as int);
        }
    }
    r
}

} // verus!
