//! A word counter: each word loses one final punctuation mark, is counted
//! under what is left of it, and the counts are listed from the most
//! frequent word down.

use vstd::prelude::*;
use vstd::seq_lib::{to_multiset_build, to_multiset_insert};
use vstd::string::*;

verus! {

/// The text `s` in upper case, as `str::to_uppercase` gives it: each
/// character replaced by its upper case form in Unicode, which may be longer
/// than one character.
pub uninterp spec fn maiusculas(s: Seq<char>) -> Seq<char>;

/// `str::to_uppercase` of the standard library. The contract gives its
/// result the name `maiusculas` and claims no more: one text always gives
/// one result.
#[verifier::external_body]
fn em_maiusculas(texto: &String) -> (r: String)
    ensures
        r@ == maiusculas(texto@),
{
    texto.to_uppercase()
}

/// What is kept of one word: the word in upper case, and how often it was seen.
#[derive(Clone, Debug, PartialEq, Eq)]
pub struct Teste {
    pub caixa_alta: String,
    pub conta: u32,
}

impl Teste {
    /// The record of the word `chave`, seen `conta` times.
    pub fn new(chave: &String, conta: u32) -> (teste: Teste)
        ensures
            teste.caixa_alta@ == maiusculas(chave@),
            teste.conta == conta,
    {
        Teste { caixa_alta: em_maiusculas(chave), conta }
    }
}

/// Whether `c` is one of the marks that end a word: `.` `,` `;` `:` `?` `!`
pub open spec fn eh_pontuacao(c: char) -> bool {
    c == '.' || c == ',' || c == ';' || c == ':' || c == '?' || c == '!'
}

/// The word `p` without its last character if that is a punctuation mark.
/// No more than one mark is taken.
pub open spec fn sem_pontuacao_final(p: Seq<char>) -> Seq<char> {
    if p.len() > 0 && eh_pontuacao(p.last()) {
        p.drop_last()
    } else {
        p
    }
}

/// Whether `c` is one of the marks that end a word.
pub fn pontuacao(c: char) -> (r: bool)
    ensures
        r == eh_pontuacao(c),
{
    c == '.' || c == ',' || c == ';' || c == ':' || c == '?' || c == '!'
}

/// The word without its last character if that is a punctuation mark.
pub fn limpa_palavra(palavra: &str) -> (limpa: String)
    ensures
        limpa@ == sem_pontuacao_final(palavra@),
{
    let n = palavra.unicode_len();
    if n > 0 && pontuacao(palavra.get_char(n - 1)) {
        let resto = palavra.substring_char(0, n - 1);
        resto.to_owned()
    } else {
        palavra.to_owned()
    }
}

/// The characters of a text, in order.
pub fn caracteres(texto: &str) -> (cs: Vec<char>)
    ensures
        cs@ == texto@,
{
    let mut cs: Vec<char> = Vec::new();
    for c in it: texto.chars()
        invariant
            it.seq() == texto@,
            cs@ == it.seq().take(it.index() as int),
    {
        cs.push(c);
    }
    cs
}

/// Whether `c` is white space, as `char::is_whitespace` says: whether it
/// has the property White_Space of Unicode.
pub uninterp spec fn eh_espaco(c: char) -> bool;

/// `char::is_whitespace` of the standard library. The contract gives its
/// result the name `eh_espaco` and claims no more: one character always
/// gives one result.
#[verifier::external_body]
fn espaco(c: char) -> (r: bool)
    ensures
        r == eh_espaco(c),
{
    c.is_whitespace()
}

/// Where the word that begins at the place `i` of the text ends: the first
/// place from `i` on that holds white space, or the end of the text.
pub open spec fn fim_da_palavra(s: Seq<char>, i: int) -> int
    decreases s.len() - i,
{
    if i < 0 || i >= s.len() || eh_espaco(s[i]) {
        i
    } else {
        fim_da_palavra(s, i + 1)
    }
}

/// The words of the text from the place `i` on: the longest runs of
/// characters without white space, in order.
pub open spec fn palavras_desde(s: Seq<char>, i: int) -> Seq<Seq<char>>
    decreases s.len() - i,
{
    if i < 0 || i >= s.len() {
        Seq::empty()
    } else if eh_espaco(s[i]) {
        palavras_desde(s, i + 1)
    } else {
        proof {
            lema_fim_da_palavra(s, i);
        }
        seq![s.subrange(i, fim_da_palavra(s, i))] + palavras_desde(s, fim_da_palavra(s, i))
    }
}

/// The words of a text: the longest runs of characters without white space,
/// in order.
pub open spec fn palavras_do_texto(s: Seq<char>) -> Seq<Seq<char>> {
    palavras_desde(s, 0)
}

/// A word ends after it begins, within the text, and before white space or
/// at the end of the text; and it holds no white space.
pub proof fn lema_fim_da_palavra(s: Seq<char>, i: int)
    requires
        0 <= i <= s.len(),
    ensures
        i <= fim_da_palavra(s, i) <= s.len(),
        i < s.len() && !eh_espaco(s[i]) ==> i < fim_da_palavra(s, i),
        fim_da_palavra(s, i) < s.len() ==> eh_espaco(s[fim_da_palavra(s, i)]),
        forall|j: int| i <= j < fim_da_palavra(s, i) ==> !eh_espaco(#[trigger] s[j]),
    decreases s.len() - i,
{
    if i < s.len() && !eh_espaco(s[i]) {
        lema_fim_da_palavra(s, i + 1);
    }
}

/// Whether `p` can be a word: it is not empty and holds no white space.
pub open spec fn eh_palavra(p: Seq<char>) -> bool {
    p.len() > 0 && forall|j: int| 0 <= j < p.len() ==> !eh_espaco(#[trigger] p[j])
}

/// No word of a text is empty, and none holds white space.
pub proof fn lema_palavras_desde(s: Seq<char>, i: int)
    requires
        0 <= i <= s.len(),
    ensures
        forall|k: int|
            0 <= k < palavras_desde(s, i).len() ==> eh_palavra(#[trigger] palavras_desde(s, i)[k]),
    decreases s.len() - i,
{
    if i < s.len() {
        if eh_espaco(s[i]) {
            lema_palavras_desde(s, i + 1);
            assert(palavras_desde(s, i) == palavras_desde(s, i + 1));
        } else {
            let f = fim_da_palavra(s, i);
            lema_fim_da_palavra(s, i);
            lema_palavras_desde(s, f);
            let primeira = s.subrange(i, f);
            let resto = palavras_desde(s, f);
            assert(palavras_desde(s, i) == seq![primeira] + resto);
            assert(eh_palavra(primeira)) by {
                assert forall|j: int| 0 <= j < primeira.len() implies !eh_espaco(
                    #[trigger] primeira[j],
                ) by {
                    assert(primeira[j] == s[i + j]);
                }
            }
            assert forall|k: int| 0 <= k < palavras_desde(s, i).len() implies eh_palavra(
                #[trigger] palavras_desde(s, i)[k],
            ) by {
                if k == 0 {
                    assert(palavras_desde(s, i)[0] == primeira);
                } else {
                    assert(palavras_desde(s, i)[k] == resto[k - 1]);
                }
            }
        }
    } else {
        assert(palavras_desde(s, i).len() == 0);
    }
}

/// The texts that a list of strings holds.
pub open spec fn textos(v: Seq<String>) -> Seq<Seq<char>> {
    Seq::new(v.len(), |i: int| v[i]@)
}

/// The words of a line: the longest runs of characters without white space,
/// in order.
pub fn separa_palavras(linha: &str) -> (palavras: Vec<String>)
    ensures
        textos(palavras@) == palavras_do_texto(linha@),
{
    let cs = caracteres(linha);
    let mut palavras: Vec<String> = Vec::new();
    let mut i: usize = 0;
    while i < cs.len()
        invariant
            cs@ == linha@,
            i <= cs@.len(),
            textos(palavras@) + palavras_desde(linha@, i as int) == palavras_do_texto(linha@),
        decreases cs@.len() - i,
    {
        if espaco(cs[i]) {
            i = i + 1;
        } else {
            let mut f: usize = i + 1;
            while f < cs.len() && !espaco(cs[f])
                invariant
                    cs@ == linha@,
                    i < f <= cs@.len(),
                    fim_da_palavra(linha@, f as int) == fim_da_palavra(linha@, i as int),
                decreases cs@.len() - f,
            {
                f = f + 1;
            }
            let palavra = linha.substring_char(i, f).to_owned();
            let ghost antes = textos(palavras@);
            palavras.push(palavra);
            proof {
                assert(textos(palavras@) + palavras_desde(linha@, f as int) =~= antes
                    + palavras_desde(linha@, i as int));
            }
            i = f;
        }
    }
    palavras
}

/// Whether the word `p` is among the counted ones.
pub open spec fn tem_palavra(s: Seq<(Seq<char>, u32)>, p: Seq<char>) -> bool {
    exists|i: int| 0 <= i < s.len() && (#[trigger] s[i]).0 == p
}

/// The place of the word `p` among the counted ones.
pub open spec fn indice(s: Seq<(Seq<char>, u32)>, p: Seq<char>) -> int {
    choose|i: int| 0 <= i < s.len() && (#[trigger] s[i]).0 == p
}

/// How often the word `p` was counted.
pub open spec fn conta_de(s: Seq<(Seq<char>, u32)>, p: Seq<char>) -> nat {
    if tem_palavra(s, p) {
        s[indice(s, p)].1 as nat
    } else {
        0
    }
}

/// Whether no word stands twice among the counted ones.
pub open spec fn sem_repeticao(s: Seq<(Seq<char>, u32)>) -> bool {
    forall|i: int, j: int| 0 <= i < j < s.len() ==> (#[trigger] s[i]).0 != (#[trigger] s[j]).0
}

/// The counts after the word `p` is seen once more: a word counted before
/// has one more in its place, and a new word comes last with a count of 1.
pub open spec fn com_mais_uma(s: Seq<(Seq<char>, u32)>, p: Seq<char>) -> Seq<(Seq<char>, u32)> {
    if tem_palavra(s, p) {
        s.update(indice(s, p), (p, (s[indice(s, p)].1 + 1) as u32))
    } else {
        s.push((p, 1u32))
    }
}

/// The counts after each word of `ps` is seen in turn.
pub open spec fn contagem_de(ps: Seq<Seq<char>>) -> Seq<(Seq<char>, u32)>
    decreases ps.len(),
{
    if ps.len() == 0 {
        Seq::empty()
    } else {
        com_mais_uma(contagem_de(ps.drop_last()), ps.last())
    }
}

/// How often the word `p` stands in `ps`.
pub open spec fn ocorrencias(ps: Seq<Seq<char>>, p: Seq<char>) -> nat
    decreases ps.len(),
{
    if ps.len() == 0 {
        0
    } else {
        ocorrencias(ps.drop_last(), p) + if ps.last() == p {
            1nat
        } else {
            0nat
        }
    }
}

/// Seeing a word once more adds one to its count and leaves the count of
/// every other word as it was; and no word comes to stand twice.
pub proof fn lema_com_mais_uma(s: Seq<(Seq<char>, u32)>, p: Seq<char>, q: Seq<char>)
    requires
        sem_repeticao(s),
        conta_de(s, p) < u32::MAX,
    ensures
        sem_repeticao(com_mais_uma(s, p)),
        conta_de(com_mais_uma(s, p), q) == conta_de(s, q) + if q == p {
            1nat
        } else {
            0nat
        },
{
    let t = com_mais_uma(s, p);
    if tem_palavra(s, p) {
        if tem_palavra(s, q) {
            let j = indice(s, q);
            assert(t[j].0 == q);
            assert(indice(t, q) == j);
        }
    } else {
        assert(t[s.len() as int].0 == p);
        if q != p && tem_palavra(s, q) {
            let j = indice(s, q);
            assert(t[j] == s[j]);
        }
    }
}

/// No word is counted more often than there are words.
pub proof fn lema_ocorrencias_limitadas(ps: Seq<Seq<char>>, q: Seq<char>)
    ensures
        ocorrencias(ps, q) <= ps.len(),
    decreases ps.len(),
{
    if ps.len() > 0 {
        lema_ocorrencias_limitadas(ps.drop_last(), q);
    }
}

/// The count of each word is the number of times that it was seen, as long
/// as the words are few enough for a count to hold their number.
pub proof fn lema_contagem(ps: Seq<Seq<char>>, q: Seq<char>)
    requires
        ps.len() <= u32::MAX,
    ensures
        sem_repeticao(contagem_de(ps)),
        conta_de(contagem_de(ps), q) == ocorrencias(ps, q),
    decreases ps.len(),
{
    if ps.len() > 0 {
        let antes = ps.drop_last();
        lema_contagem(antes, q);
        lema_contagem(antes, ps.last());
        lema_ocorrencias_limitadas(antes, ps.last());
        lema_com_mais_uma(contagem_de(antes), ps.last(), q);
    }
}

/// One counted word with its record.
#[derive(Clone, Debug, PartialEq, Eq)]
pub struct Entrada {
    pub palavra: String,
    pub teste: Teste,
}

/// The words and counts that a list of entries holds.
pub open spec fn contas(entradas: Seq<Entrada>) -> Seq<(Seq<char>, u32)> {
    Seq::new(entradas.len(), |i: int| (entradas[i].palavra@, entradas[i].teste.conta))
}

/// Whether each record of a list of entries holds its word in upper case.
pub open spec fn em_caixa_alta(entradas: Seq<Entrada>) -> bool {
    forall|i: int|
        0 <= i < entradas.len() ==> (#[trigger] entradas[i]).teste.caixa_alta@ == maiusculas(
            entradas[i].palavra@,
        )
}

/// The words counted so far, each with its record, in the order in which
/// they were first seen. No word stands twice, and each record holds its
/// word in upper case.
pub struct Contagem {
    entradas: Vec<Entrada>,
}

impl View for Contagem {
    type V = Seq<(Seq<char>, u32)>;

    /// The counted words with their counts.
    closed spec fn view(&self) -> Seq<(Seq<char>, u32)> {
        contas(self.entradas@)
    }
}

/// The words and counts of a list, each word as the text that it holds.
pub open spec fn lista(v: Seq<(String, u32)>) -> Seq<(Seq<char>, u32)> {
    Seq::new(v.len(), |i: int| (v[i].0@, v[i].1))
}

/// Whether `r` lists the counts `s` from the most frequent word down, words
/// of one count in the order in which they stand in `s`.
pub open spec fn lista_ordenada(s: Seq<(Seq<char>, u32)>, r: Seq<(Seq<char>, u32)>) -> bool {
    &&& r.to_multiset() == s.to_multiset()
    &&& forall|i: int, j: int|
        0 <= i < j < r.len() ==> (#[trigger] r[i]).1 > (#[trigger] r[j]).1 || (r[i].1 == r[j].1
            && indice(s, r[i].0) < indice(s, r[j].0))
}

impl Contagem {
    #[verifier::type_invariant]
    pub closed spec fn bem_formada(self) -> bool {
        sem_repeticao(self@) && em_caixa_alta(self.entradas@)
    }

    /// A counter that has seen no word.
    pub fn new() -> (contagem: Contagem)
        ensures
            contagem@ == Seq::<(Seq<char>, u32)>::empty(),
    {
        let contagem = Contagem { entradas: Vec::new() };
        contagem
    }

    /// The counted words with their records, in the order in which they
    /// were first seen.
    pub fn entradas(&self) -> (entradas: &Vec<Entrada>)
        ensures
            contas(entradas@) == self@,
            sem_repeticao(self@),
            em_caixa_alta(entradas@),
    {
        proof {
            use_type_invariant(self);
        }
        &self.entradas
    }

    /// How often the word was counted.
    pub fn conta_da_palavra(&self, palavra: &String) -> (conta: u32)
        ensures
            conta == conta_de(self@, palavra@),
    {
        proof {
            use_type_invariant(self);
        }
        let mut i: usize = 0;
        while i < self.entradas.len()
            invariant
                sem_repeticao(self@),
                i <= self.entradas@.len(),
                forall|j: int| 0 <= j < i ==> (#[trigger] self@[j]).0 != palavra@,
            decreases self.entradas@.len() - i,
        {
            if self.entradas[i].palavra == *palavra {
                assert(self@[i as int].0 == palavra@);
                return self.entradas[i].teste.conta;
            }
            i = i + 1;
        }
        0
    }

    /// Counts the word once more, as it stands.
    pub fn conta(&mut self, palavra: &String)
        requires
            conta_de(old(self)@, palavra@) < u32::MAX,
        ensures
            final(self)@ == com_mais_uma(old(self)@, palavra@),
            sem_repeticao(final(self)@),
    {
        proof {
            use_type_invariant(&*self);
            lema_com_mais_uma(self@, palavra@, palavra@);
        }
        let mut entradas: Vec<Entrada> = Vec::new();
        core::mem::swap(&mut self.entradas, &mut entradas);
        let ghost antes = entradas@;
        let mut i: usize = 0;
        let mut achou = false;
        while i < entradas.len() && !achou
            invariant
                i <= entradas@.len(),
                entradas@.len() == antes.len(),
                em_caixa_alta(entradas@),
                sem_repeticao(contas(antes)),
                conta_de(contas(antes), palavra@) < u32::MAX,
                !achou ==> entradas@ == antes && forall|j: int|
                    0 <= j < i ==> (#[trigger] contas(antes)[j]).0 != palavra@,
                achou ==> contas(entradas@) == com_mais_uma(contas(antes), palavra@),
            decreases entradas@.len() - i, if achou { 0int } else { 1int },
        {
            if entradas[i].palavra == *palavra {
                assert(contas(antes)[i as int].0 == palavra@);
                assert(indice(contas(antes), palavra@) == i);
                let conta = entradas[i].teste.conta;
                entradas[i].teste.conta = conta + 1;
                achou = true;
            } else {
                i = i + 1;
            }
        }
        if !achou {
            let entrada = Entrada { palavra: palavra.clone(), teste: Teste::new(palavra, 1) };
            entradas.push(entrada);
            assert(contas(entradas@) =~= com_mais_uma(contas(antes), palavra@));
        }
        core::mem::swap(&mut self.entradas, &mut entradas);
    }

    /// Takes one final punctuation mark from the word, counts what is left
    /// unless nothing is, and returns it.
    pub fn conta_palavra(&mut self, palavra: &str) -> (limpa: String)
        requires
            conta_de(old(self)@, sem_pontuacao_final(palavra@)) < u32::MAX,
        ensures
            limpa@ == sem_pontuacao_final(palavra@),
            sem_repeticao(final(self)@),
            final(self)@ == if limpa@.len() == 0 {
                old(self)@
            } else {
                com_mais_uma(old(self)@, limpa@)
            },
    {
        proof {
            use_type_invariant(&*self);
        }
        let limpa = limpa_palavra(palavra);
        if limpa.as_str().unicode_len() > 0 {
            self.conta(&limpa);
        }
        limpa
    }

    /// The counted words with their counts, from the most frequent down.
    /// Words of one count come in the order in which they were first seen.
    pub fn mais_frequentes(&self) -> (r: Vec<(String, u32)>)
        ensures
            lista_ordenada(self@, lista(r@)),
    {
        proof {
            use_type_invariant(self);
        }
        let mut r: Vec<(String, u32)> = Vec::new();
        let mut k: usize = 0;
        assert(lista(r@) =~= self@.take(0));
        while k < self.entradas.len()
            invariant
                k <= self.entradas@.len(),
                sem_repeticao(self@),
                lista(r@).to_multiset() == self@.take(k as int).to_multiset(),
                forall|i: int|
                    0 <= i < r@.len() ==> tem_palavra(self@, (#[trigger] lista(r@)[i]).0) && indice(
                        self@,
                        lista(r@)[i].0,
                    ) < k,
                forall|i: int, j: int|
                    0 <= i < j < r@.len() ==> (#[trigger] lista(r@)[i]).1 > (#[trigger] lista(
                        r@,
                    )[j]).1 || (lista(r@)[i].1 == lista(r@)[j].1 && indice(self@, lista(r@)[i].0)
                        < indice(self@, lista(r@)[j].0)),
            decreases self.entradas@.len() - k,
        {
            let conta = self.entradas[k].teste.conta;
            let mut pos: usize = 0;
            while pos < r.len() && r[pos].1 >= conta
                invariant
                    pos <= r@.len(),
                    forall|i: int| 0 <= i < pos ==> (#[trigger] r@[i]).1 >= conta,
                decreases r@.len() - pos,
            {
                pos = pos + 1;
            }
            let ghost antes = lista(r@);
            let palavra = self.entradas[k].palavra.clone();
            r.insert(pos, (palavra, conta));
            proof {
                let novo = (self.entradas@[k as int].palavra@, conta);
                assert(novo == self@[k as int]);
                assert(lista(r@) =~= antes.insert(pos as int, novo));
                to_multiset_insert(antes, pos as int, novo);
                assert(self@.take(k + 1) =~= self@.take(k as int).push(novo));
                to_multiset_build(self@.take(k as int), novo);
                let depois = lista(r@);
                assert forall|i: int| 0 <= i < depois.len() implies tem_palavra(
                    self@,
                    (#[trigger] depois[i]).0,
                ) && indice(self@, depois[i].0) < k + 1 by {
                    if i < pos {
                        assert(depois[i] == antes[i]);
                    } else if i > pos {
                        assert(depois[i] == antes[i - 1]);
                    }
                }
                assert forall|i: int, j: int| 0 <= i < j < depois.len() implies (
                #[trigger] depois[i]).1 > (#[trigger] depois[j]).1 || (depois[i].1 == depois[j].1
                    && indice(self@, depois[i].0) < indice(self@, depois[j].0)) by {
                    if j < pos {
                        assert(depois[i] == antes[i] && depois[j] == antes[j]);
                    } else if j == pos {
                        assert(depois[i] == antes[i]);
                        assert(r@[i].1 == antes[i].1) by {
                            assert(antes[i].1 >= conta);
                        }
                    } else if i > pos {
                        assert(depois[i] == antes[i - 1] && depois[j] == antes[j - 1]);
                    } else if i == pos {
                        assert(depois[j] == antes[j - 1]);
                        assert(antes[pos as int].1 < conta);
                        if j - 1 > pos {
                            assert(antes[pos as int].1 >= antes[j - 1].1);
                        }
                    } else {
                        assert(depois[i] == antes[i] && depois[j] == antes[j - 1]);
                    }
                }
            }
            k = k + 1;
        }
        assert(self@.take(k as int) =~= self@);
        r
    }
}

} // verus!
