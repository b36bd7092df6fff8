//! Normalização de nome e de frota.
//!
//! `nome_norm` é a chave que carrega o `UNIQUE` do cadastro de condutores: é a
//! primeira barreira contra o mesmo nome digitado de vários jeitos.

use unicode_normalization::UnicodeNormalization;
use vstd::prelude::*;

use crate::texto::{
    aparar, aparar_spec, chars_de, colapsar, colapsar_spec, juntar, lema_palavras, palavras,
    sem_espacos, sem_espacos_spec, string_de, eh_espaco_spec,
};

verus! {

/// O que `str::to_uppercase` devolve para o texto `s`.
pub uninterp spec fn maiusculas_de(s: Seq<char>) -> Seq<char>;

/// O que a decomposição canônica NFD de `unicode_normalization` devolve para `s`.
pub uninterp spec fn decomposicao_nfd(s: Seq<char>) -> Seq<char>;

/// Chama `str::to_uppercase`. O contrato dá nome ao resultado, porque o
/// mapeamento de caixa do Unicode não cabe em poucas linhas, e diz só que o
/// texto vazio continua vazio: o mapeamento vai `char` a `char`.
#[verifier::external_body]
pub(crate) fn maiusculas(s: &str) -> (r: String)
    ensures
        r@ == maiusculas_de(s@),
        s@.len() == 0 ==> r@.len() == 0,
{
    s.to_uppercase()
}

/// Chama `UnicodeNormalization::nfd` de `unicode_normalization` e junta os
/// `char` que ele produz. O contrato dá nome ao resultado, porque as tabelas de
/// decomposição canônica não cabem em poucas linhas, e diz só que o texto vazio
/// continua vazio: o iterador decompõe os `char` da entrada, e sem `char` não
/// há o que produzir.
#[verifier::external_body]
fn decompor_nfd(s: &str) -> (r: String)
    ensures
        r@ == decomposicao_nfd(s@),
        s@.len() == 0 ==> r@.len() == 0,
{
    s.nfd().collect::<String>()
}

/// A faixa das marcas combinantes (U+0300 a U+036F) que a decomposição NFD deixa
/// para trás: é onde moram o acento agudo, o til e a cedilha.
pub open spec fn marca_combinante_spec(c: char) -> bool {
    0x0300 <= (c as u32) && (c as u32) <= 0x036F
}

#[verifier::when_used_as_spec(marca_combinante_spec)]
pub fn marca_combinante(c: char) -> (r: bool)
    ensures
        r == marca_combinante_spec(c),
{
    let u = c as u32;
    0x0300 <= u && u <= 0x036F
}

pub open spec fn sem_marcas_spec(s: Seq<char>) -> Seq<char> {
    s.filter(|c: char| !marca_combinante_spec(c))
}

/// O passo depois da decomposição NFD: tira as marcas combinantes e mantém os
/// outros `char` na ordem.
pub fn sem_marcas(s: &Vec<char>) -> (r: Vec<char>)
    ensures
        r@ == sem_marcas_spec(s@),
{
    let mut r: Vec<char> = Vec::new();
    let mut i: usize = 0;
    while i < s.len()
        invariant
            i <= s.len(),
            r@ == sem_marcas_spec(s@.take(i as int)),
        decreases s.len() - i,
    {
        proof {
            assert(s@.take(i + 1).drop_last() =~= s@.take(i as int));
            reveal_with_fuel(Seq::filter, 1);
        }
        if !marca_combinante(s[i]) {
            r.push(s[i]);
        }
        i = i + 1;
    }
    assert(s@.take(s.len() as int) =~= s@);
    r
}

/// A chave normalizada de um nome: aparado, em maiúsculas, decomposto em NFD e
/// sem as marcas combinantes, com cada sequência de espaços reduzida a um só.
pub open spec fn nome_norm_spec(bruto: Seq<char>) -> Seq<char> {
    colapsar_spec(sem_marcas_spec(decomposicao_nfd(maiusculas_de(aparar_spec(bruto)))))
}

/// A frota normalizada: o mesmo tratamento do nome, sem nenhum espaço.
pub open spec fn frota_norm_spec(bruto: Seq<char>) -> Seq<char> {
    sem_espacos_spec(nome_norm_spec(bruto))
}

/// `trim` → maiúsculas → NFD sem marcas combinantes → colapso de espaços.
/// `"José  Carlos "` e `"JOSE CARLOS"` produzem a mesma chave.
pub fn nome_norm(bruto: &str) -> (r: String)
    ensures
        r@ == nome_norm_spec(bruto@),
        aparar_spec(bruto@).len() == 0 ==> r@.len() == 0,
        sem_marca_nenhuma(r@),
{
    proof {
        lema_nome_norm_sem_marcas(bruto@);
    }
    let v = chars_de(bruto);
    let aparado = string_de(&aparar(&v));
    let grande = maiusculas(aparado.as_str());
    let decomposto = decompor_nfd(grande.as_str());
    let limpo = sem_marcas(&chars_de(decomposto.as_str()));
    string_de(&colapsar(&limpo))
}

/// Frota é código, não nome: `"907 015"` e `"907015"` são a mesma frota.
pub fn frota_norm(bruto: &str) -> (r: String)
    ensures
        r@ == frota_norm_spec(bruto@),
{
    let n = nome_norm(bruto);
    string_de(&sem_espacos(&chars_de(n.as_str())))
}

/// Nenhum `char` de `s` é marca combinante.
pub open spec fn sem_marca_nenhuma(s: Seq<char>) -> bool {
    forall|i: int| 0 <= i < s.len() ==> !marca_combinante_spec(#[trigger] s[i])
}

proof fn lema_palavras_sem_marcas(s: Seq<char>)
    requires
        sem_marca_nenhuma(s),
    ensures
        forall|k: int| 0 <= k < palavras(s).len() ==> sem_marca_nenhuma(#[trigger] palavras(s)[k]),
    decreases s.len(),
{
    if s.len() > 0 {
        let t = s.drop_last();
        assert forall|i: int| 0 <= i < t.len() implies !marca_combinante_spec(#[trigger] t[i]) by {
            assert(t[i] == s[i]);
        }
        lema_palavras_sem_marcas(t);
        let p = palavras(t);
        let c = s.last();
        assert(!marca_combinante_spec(c));
        let q = palavras(s);
        assert forall|k: int| 0 <= k < q.len() implies sem_marca_nenhuma(#[trigger] q[k]) by {
            if k < p.len() {
                assert(sem_marca_nenhuma(p[k]));
                if !eh_espaco_spec(c) && s.len() >= 2 && !eh_espaco_spec(s[s.len() - 2]) && k
                    == p.len() - 1 {
                    let w = p.last().push(c);
                    assert(q[k] == w);
                    assert forall|m: int| 0 <= m < w.len() implies !marca_combinante_spec(
                        #[trigger] w[m],
                    ) by {
                        if m < p.last().len() {
                            assert(w[m] == p[p.len() - 1][m]);
                        }
                    }
                } else {
                    assert(q[k] == p[k]);
                }
            } else {
                if eh_espaco_spec(c) {
                    assert(q == p);
                } else if s.len() >= 2 && !eh_espaco_spec(s[s.len() - 2]) {
                    lema_palavras(t);
                    assert(t.last() == s[s.len() - 2]);
                    assert(q.len() == p.len());
                } else {
                    assert(q == p.push(seq![c]));
                    assert(q[k] == seq![c]);
                }
            }
        }
    }
}

proof fn lema_juntar_sem_marcas(p: Seq<Seq<char>>)
    requires
        forall|k: int| 0 <= k < p.len() ==> sem_marca_nenhuma(#[trigger] p[k]),
    ensures
        sem_marca_nenhuma(juntar(p, ' ')),
    decreases p.len(),
{
    if p.len() == 1 {
        assert(sem_marca_nenhuma(p[0]));
    } else if p.len() > 1 {
        let q = p.drop_last();
        assert forall|k: int| 0 <= k < q.len() implies sem_marca_nenhuma(#[trigger] q[k]) by {
            assert(q[k] == p[k]);
        }
        lema_juntar_sem_marcas(q);
        let a = juntar(q, ' ');
        let w = p.last();
        assert(sem_marca_nenhuma(p[p.len() - 1]));
        let j = a.push(' ') + w;
        assert(juntar(p, ' ') == j);
        assert forall|i: int| 0 <= i < j.len() implies !marca_combinante_spec(#[trigger] j[i]) by {
            if i < a.len() {
                assert(j[i] == a[i]);
            } else if i > a.len() {
                assert(j[i] == w[i - a.len() - 1]);
            }
        }
    }
}

proof fn lema_nome_norm_sem_marcas(bruto: Seq<char>)
    ensures
        sem_marca_nenhuma(nome_norm_spec(bruto)),
{
    let s = sem_marcas_spec(decomposicao_nfd(maiusculas_de(aparar_spec(bruto))));
    broadcast use vstd::seq_lib::group_filter_ensures;
    assert(sem_marca_nenhuma(s));
    lema_palavras_sem_marcas(s);
    lema_juntar_sem_marcas(palavras(s));
}

/// Uma chave de nome nunca começa nem termina em espaço, nunca tem dois espaços
/// seguidos, e o único espaço que pode ter é `' '`.
pub proof fn lei_nome_norm_sem_espaco_sobrando(bruto: Seq<char>)
    ensures
        nome_norm_spec(bruto).len() > 0 ==> !eh_espaco_spec(nome_norm_spec(bruto)[0])
            && !eh_espaco_spec(nome_norm_spec(bruto).last()),
        forall|i: int|
            0 <= i < nome_norm_spec(bruto).len() && eh_espaco_spec(
                #[trigger] nome_norm_spec(bruto)[i],
            ) ==> nome_norm_spec(bruto)[i] == ' ' && 0 < i < nome_norm_spec(bruto).len() - 1
                && !eh_espaco_spec(nome_norm_spec(bruto)[i + 1]),
{
    let s = sem_marcas_spec(decomposicao_nfd(maiusculas_de(aparar_spec(bruto))));
    lema_palavras(s);
    lema_juntar_palavras(palavras(s));
}

/// `juntar(p, ' ')` de palavras não vazias e sem espaço: começa e termina fora de
/// espaço e todo espaço é um `' '` isolado entre duas palavras.
proof fn lema_juntar_palavras(p: Seq<Seq<char>>)
    requires
        forall|k: int|
            0 <= k < p.len() ==> (#[trigger] p[k]).len() > 0 && forall|m: int|
                0 <= m < p[k].len() ==> !eh_espaco_spec(#[trigger] p[k][m]),
    ensures
        juntar(p, ' ').len() > 0 ==> !eh_espaco_spec(juntar(p, ' ')[0]) && !eh_espaco_spec(
            juntar(p, ' ').last(),
        ),
        forall|i: int|
            0 <= i < juntar(p, ' ').len() && eh_espaco_spec(#[trigger] juntar(p, ' ')[i])
                ==> juntar(p, ' ')[i] == ' ' && 0 < i < juntar(p, ' ').len() - 1
                && !eh_espaco_spec(juntar(p, ' ')[i + 1]),
    decreases p.len(),
{
    if p.len() == 1 {
        assert(p[0].len() > 0);
        assert(!eh_espaco_spec(p[0][p[0].len() - 1]));
    } else if p.len() > 1 {
        let q = p.drop_last();
        assert forall|k: int|
            0 <= k < q.len() implies (#[trigger] q[k]).len() > 0 && forall|m: int|
            0 <= m < q[k].len() ==> !eh_espaco_spec(#[trigger] q[k][m]) by {
            assert(q[k] == p[k]);
        }
        lema_juntar_palavras(q);
        let a = juntar(q, ' ');
        let w = p.last();
        assert(w == p[p.len() - 1]);
        assert(w.len() > 0);
        assert(q.len() > 0);
        assert(q[0].len() > 0);
        lema_juntar_nao_vazio(q);
        let j = a.push(' ') + w;
        assert(juntar(p, ' ') == j);
        assert(j[0] == a[0]);
        assert(j.last() == w[w.len() - 1]);
        assert forall|i: int| 0 <= i < j.len() && eh_espaco_spec(#[trigger] j[i]) implies j[i]
            == ' ' && 0 < i < j.len() - 1 && !eh_espaco_spec(j[i + 1]) by {
            if i < a.len() {
                assert(j[i] == a[i]);
                if i + 1 < a.len() {
                    assert(j[i + 1] == a[i + 1]);
                } else {
                    assert(j[i + 1] == ' ');
                    assert(a[i] == a.last());
                }
            } else if i == a.len() {
                assert(j[i + 1] == w[0]);
            } else {
                assert(j[i] == w[i - a.len() - 1]);
            }
        }
    }
}

proof fn lema_juntar_nao_vazio(p: Seq<Seq<char>>)
    requires
        p.len() > 0,
        p[0].len() > 0,
    ensures
        juntar(p, ' ').len() > 0,
    decreases p.len(),
{
    if p.len() > 1 {
        lema_juntar_nao_vazio(p.drop_last());
    }
}

/// Uma frota normalizada não tem espaço nenhum.
pub proof fn lei_frota_norm_sem_espaco(bruto: Seq<char>)
    ensures
        forall|i: int|
            0 <= i < frota_norm_spec(bruto).len() ==> !eh_espaco_spec(
                #[trigger] frota_norm_spec(bruto)[i],
            ),
{
    let s = nome_norm_spec(bruto);
    broadcast use vstd::seq_lib::group_filter_ensures;
    assert forall|i: int| 0 <= i < frota_norm_spec(bruto).len() implies !eh_espaco_spec(
        #[trigger] frota_norm_spec(bruto)[i],
    ) by {
        let f = |c: char| !eh_espaco_spec(c);
        s.lemma_filter_pred(f, i);
    }
}

} // verus!
