//! Detecção de cadastro parecido, a rede de segurança do cadastro rápido.
//!
//! Distância zero não é semelhança, é duplicata: sai por `DUPLICADO`, pela chave
//! única do cadastro, antes de chegar aqui.

use vstd::prelude::*;

verus! {

pub const DISTANCIA_NOME: usize = 2;
pub const DISTANCIA_FROTA: usize = 1;

pub open spec fn menor3(x: nat, y: nat, z: nat) -> nat {
    if x <= y && x <= z {
        x
    } else if y <= z {
        y
    } else {
        z
    }
}

/// O menor número de inserções, remoções e substituições de um `char` que leva
/// `a` a `b` (distância de Levenshtein).
pub open spec fn levenshtein(a: Seq<char>, b: Seq<char>) -> nat
    decreases a.len() + b.len(),
{
    if a.len() == 0 {
        b.len()
    } else if b.len() == 0 {
        a.len()
    } else {
        menor3(
            levenshtein(a.drop_first(), b) + 1,
            levenshtein(a, b.drop_first()) + 1,
            levenshtein(a.drop_first(), b.drop_first()) + if a[0] == b[0] {
                0nat
            } else {
                1nat
            },
        )
    }
}

/// Chama `strsim::levenshtein`, que conta as edições de `char` entre os dois
/// textos. O contrato afirma que o resultado é exatamente a distância de
/// Levenshtein sobre os `char`, que é o que a documentação da função diz.
#[verifier::external_body]
pub fn distancia(a: &str, b: &str) -> (r: usize)
    ensures
        r as nat == levenshtein(a@, b@),
{
    strsim::levenshtein(a, b)
}

pub open spec fn semelhantes_ate(a: Seq<char>, b: Seq<char>, limite: nat) -> bool {
    0 < levenshtein(a, b) <= limite
}

/// Nomes a uma distância de 1 ou 2. Ambos já normalizados por `nome_norm`.
pub fn nomes_semelhantes(a: &str, b: &str) -> (r: bool)
    ensures
        r == semelhantes_ate(a@, b@, DISTANCIA_NOME as nat),
{
    let d = distancia(a, b);
    d > 0 && d <= DISTANCIA_NOME
}

/// Frotas a exatamente um `char` de distância. Ambas já normalizadas por
/// `frota_norm`.
pub fn frotas_semelhantes(a: &str, b: &str) -> (r: bool)
    ensures
        r == semelhantes_ate(a@, b@, DISTANCIA_FROTA as nat),
{
    let d = distancia(a, b);
    d > 0 && d <= DISTANCIA_FROTA
}

/// A distância de um texto a ele mesmo é zero.
pub proof fn lema_levenshtein_reflexivo(a: Seq<char>)
    ensures
        levenshtein(a, a) == 0,
    decreases a.len(),
{
    if a.len() > 0 {
        lema_levenshtein_reflexivo(a.drop_first());
    }
}

/// Distância zero só entre textos iguais.
pub proof fn lema_levenshtein_zero(a: Seq<char>, b: Seq<char>)
    requires
        levenshtein(a, b) == 0,
    ensures
        a == b,
    decreases a.len() + b.len(),
{
    if a.len() > 0 && b.len() > 0 {
        lema_levenshtein_zero(a.drop_first(), b.drop_first());
        assert(a =~= seq![a[0]] + a.drop_first());
        assert(b =~= seq![b[0]] + b.drop_first());
    } else if a.len() == 0 {
        assert(b =~= a);
    } else {
        assert(a =~= b);
    }
}

/// A distância não depende da ordem dos textos.
pub proof fn lema_levenshtein_simetrico(a: Seq<char>, b: Seq<char>)
    ensures
        levenshtein(a, b) == levenshtein(b, a),
    decreases a.len() + b.len(),
{
    if a.len() > 0 && b.len() > 0 {
        lema_levenshtein_simetrico(a.drop_first(), b);
        lema_levenshtein_simetrico(a, b.drop_first());
        lema_levenshtein_simetrico(a.drop_first(), b.drop_first());
    }
}

/// Semelhança é simétrica: se A lembra B, B lembra A.
pub proof fn lei_semelhanca_simetrica(a: Seq<char>, b: Seq<char>, limite: nat)
    ensures
        semelhantes_ate(a, b, limite) == semelhantes_ate(b, a, limite),
{
    lema_levenshtein_simetrico(a, b);
}

/// Um texto nunca é semelhante a si mesmo, e dois textos semelhantes são
/// sempre diferentes: o que é idêntico é duplicata, não semelhança.
pub proof fn lei_identico_nao_e_semelhante(a: Seq<char>, b: Seq<char>, limite: nat)
    ensures
        !semelhantes_ate(a, a, limite),
        semelhantes_ate(a, b, limite) ==> a != b,
{
    lema_levenshtein_reflexivo(a);
}

} // verus!
