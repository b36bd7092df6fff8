//! As decisões do cadastro de condutores e de veículos.
//!
//! O cadastro é rápido de usar e difícil de sujar: sem confirmação, um nome ou
//! uma frota parecida com o que já existe é devolvida como `SEMELHANTE` **sem
//! gravar nada**. Gravar e perguntar depois é o que produziu 182 nomes para
//! cerca de 70 pessoas no sistema antigo. O programa em volta lê os cadastros
//! e grava; aqui se decide.

use vstd::prelude::*;

use crate::erro::{lit, recusa, recusado, texto, ErroApp, Recusa};
use crate::modelo::{Motorista, ParDuplicata, Veiculo, VeiculoDisponibilidade};
use crate::nome::{frota_norm, frota_norm_spec, maiusculas, maiusculas_de, nome_norm, nome_norm_spec};
use crate::semelhanca::{
    distancia, levenshtein, semelhantes_ate, DISTANCIA_FROTA, DISTANCIA_NOME,
};
use crate::texto::{
    aparado, aparar_spec, chars_de, decimal, decimal_spec, juntar_com, juntar_exec, limpar,
    limpo_spec, string_de, vista,
};
use crate::validacao::{frota_valida, validar_frota, validar_fusao, validar_nome, NOME_MINIMO};

verus! {

// ------------------------------------------------------------ semelhança ---

/// Os pares `(i, j)` da linha `i`, com `i < j < fim`, cujas chaves são
/// semelhantes, em ordem de `j`.
pub open spec fn pares_da_linha(chaves: Seq<Seq<char>>, limite: nat, i: int, fim: int) -> Seq<
    (int, int),
>
    decreases fim - i,
{
    if fim <= i + 1 {
        Seq::empty()
    } else {
        pares_da_linha(chaves, limite, i, fim - 1) + if semelhantes_ate(
            chaves[i],
            chaves[fim - 1],
            limite,
        ) {
            seq![(i, fim - 1)]
        } else {
            Seq::empty()
        }
    }
}

/// Os pares semelhantes das linhas `0 .. n`.
pub open spec fn pares_ate(chaves: Seq<Seq<char>>, limite: nat, n: int) -> Seq<(int, int)>
    decreases n,
{
    if n <= 0 {
        Seq::empty()
    } else {
        pares_ate(chaves, limite, n - 1) + pares_da_linha(chaves, limite, n - 1, chaves.len() as int)
    }
}

/// Todos os pares `(i, j)`, `i < j`, de chaves semelhantes, na ordem de `i` e
/// depois de `j`: cada par aparece uma vez.
pub open spec fn pares_semelhantes(chaves: Seq<Seq<char>>, limite: nat) -> Seq<(int, int)> {
    pares_ate(chaves, limite, chaves.len() as int)
}

/// `r` lista os pares `p`, cada um com a distância entre as chaves.
pub open spec fn lista_pares(r: Seq<(usize, usize, usize)>, p: Seq<(int, int)>, chaves: Seq<Seq<char>>) -> bool {
    &&& r.len() == p.len()
    &&& forall|k: int|
        0 <= k < r.len() ==> {
            &&& (#[trigger] r[k]).0 == p[k].0
            &&& r[k].1 == p[k].1
            &&& r[k].2 == levenshtein(chaves[p[k].0], chaves[p[k].1])
        }
}

proof fn lema_lista_push(
    r: Seq<(usize, usize, usize)>,
    p: Seq<(int, int)>,
    chaves: Seq<Seq<char>>,
    x: (usize, usize, usize),
    y: (int, int),
)
    requires
        lista_pares(r, p, chaves),
        x.0 == y.0,
        x.1 == y.1,
        x.2 == levenshtein(chaves[y.0], chaves[y.1]),
    ensures
        lista_pares(r.push(x), p + seq![y], chaves),
{
    let q = p + seq![y];
    assert forall|k: int| 0 <= k < r.push(x).len() implies {
        &&& (#[trigger] r.push(x)[k]).0 == q[k].0
        &&& r.push(x)[k].1 == q[k].1
        &&& r.push(x)[k].2 == levenshtein(chaves[q[k].0], chaves[q[k].1])
    } by {
        if k < r.len() {
            assert(r.push(x)[k] == r[k]);
            assert(q[k] == p[k]);
        }
    }
}

/// Os pares semelhantes de `chaves`, com a distância de cada um. Roda em
/// memória: a base tem centenas de linhas, não milhões.
fn pares_semelhantes_exec(chaves: &Vec<String>, limite: usize) -> (r: Vec<(usize, usize, usize)>)
    ensures
        lista_pares(
            r@,
            pares_semelhantes(chaves@.map_values(|c: String| c@), limite as nat),
            chaves@.map_values(|c: String| c@),
        ),
{
    let ghost vs = chaves@.map_values(|c: String| c@);
    let n = chaves.len();
    let mut r: Vec<(usize, usize, usize)> = Vec::new();
    let mut i: usize = 0;
    while i < n
        invariant
            n == chaves.len(),
            vs == chaves@.map_values(|c: String| c@),
            i <= n,
            lista_pares(r@, pares_ate(vs, limite as nat, i as int), vs),
        decreases n - i,
    {
        let mut j: usize = i + 1;
        let ghost base = pares_ate(vs, limite as nat, i as int);
        assert(pares_da_linha(vs, limite as nat, i as int, j as int) =~= Seq::empty());
        assert(base + Seq::empty() =~= base);
        while j < n
            invariant
                n == chaves.len(),
                vs == chaves@.map_values(|c: String| c@),
                i < n,
                i + 1 <= j <= n,
                base == pares_ate(vs, limite as nat, i as int),
                lista_pares(r@, base + pares_da_linha(vs, limite as nat, i as int, j as int), vs),
            decreases n - j,
        {
            let ghost antes = pares_da_linha(vs, limite as nat, i as int, j as int);
            let d = distancia(chaves[i].as_str(), chaves[j].as_str());
            proof {
                assert(vs[i as int] == chaves@[i as int]@);
                assert(vs[j as int] == chaves@[j as int]@);
            }
            if d > 0 && d <= limite {
                proof {
                    lema_lista_push(r@, base + antes, vs, (i, j, d), (i as int, j as int));
                    assert(pares_da_linha(vs, limite as nat, i as int, j + 1) == antes + seq![
                        (i as int, j as int),
                    ]);
                    assert(base + antes + seq![(i as int, j as int)] =~= base + (antes + seq![
                        (i as int, j as int),
                    ]));
                }
                r.push((i, j, d));
            } else {
                proof {
                    assert(pares_da_linha(vs, limite as nat, i as int, j + 1) =~= antes);
                }
            }
            j = j + 1;
        }
        proof {
            assert(pares_ate(vs, limite as nat, i + 1) == base + pares_da_linha(
                vs,
                limite as nat,
                i as int,
                n as int,
            ));
        }
        i = i + 1;
    }
    r
}


proof fn lema_linha_valida(chaves: Seq<Seq<char>>, limite: nat, i: int, fim: int)
    requires
        0 <= i,
        fim <= chaves.len(),
    ensures
        forall|k: int|
            0 <= k < pares_da_linha(chaves, limite, i, fim).len() ==> {
                let par = #[trigger] pares_da_linha(chaves, limite, i, fim)[k];
                &&& par.0 == i
                &&& i < par.1 < fim
                &&& semelhantes_ate(chaves[par.0], chaves[par.1], limite)
            },
    decreases fim - i,
{
    if fim > i + 1 {
        lema_linha_valida(chaves, limite, i, fim - 1);
        let p = pares_da_linha(chaves, limite, i, fim - 1);
        let q = pares_da_linha(chaves, limite, i, fim);
        assert forall|k: int| 0 <= k < q.len() implies {
            let par = #[trigger] q[k];
            &&& par.0 == i
            &&& i < par.1 < fim
            &&& semelhantes_ate(chaves[par.0], chaves[par.1], limite)
        } by {
            if k < p.len() {
                assert(q[k] == p[k]);
            }
        }
    }
}

proof fn lema_pares_validos(chaves: Seq<Seq<char>>, limite: nat, n: int)
    requires
        n <= chaves.len(),
    ensures
        forall|k: int|
            0 <= k < pares_ate(chaves, limite, n).len() ==> {
                let par = #[trigger] pares_ate(chaves, limite, n)[k];
                &&& 0 <= par.0 < n
                &&& par.0 < par.1 < chaves.len()
                &&& semelhantes_ate(chaves[par.0], chaves[par.1], limite)
            },
    decreases n,
{
    if n > 0 {
        lema_pares_validos(chaves, limite, n - 1);
        lema_linha_valida(chaves, limite, n - 1, chaves.len() as int);
        let p = pares_ate(chaves, limite, n - 1);
        let l = pares_da_linha(chaves, limite, n - 1, chaves.len() as int);
        let q = pares_ate(chaves, limite, n);
        assert forall|k: int| 0 <= k < q.len() implies {
            let par = #[trigger] q[k];
            &&& 0 <= par.0 < n
            &&& par.0 < par.1 < chaves.len()
            &&& semelhantes_ate(chaves[par.0], chaves[par.1], limite)
        } by {
            if k < p.len() {
                assert(q[k] == p[k]);
            } else {
                assert(q[k] == l[k - p.len()]);
            }
        }
    }
}

proof fn lema_par_na_linha(chaves: Seq<Seq<char>>, limite: nat, i: int, j: int, fim: int) -> (k: int)
    requires
        0 <= i < j < fim,
        semelhantes_ate(chaves[i], chaves[j], limite),
    ensures
        0 <= k < pares_da_linha(chaves, limite, i, fim).len(),
        pares_da_linha(chaves, limite, i, fim)[k] == (i, j),
    decreases fim - i,
{
    let p = pares_da_linha(chaves, limite, i, fim - 1);
    if j == fim - 1 {
        p.len() as int
    } else {
        let k = lema_par_na_linha(chaves, limite, i, j, fim - 1);
        assert(pares_da_linha(chaves, limite, i, fim)[k] == p[k]);
        k
    }
}

proof fn lema_par_presente(chaves: Seq<Seq<char>>, limite: nat, i: int, j: int, n: int) -> (k: int)
    requires
        0 <= i < n,
        i < j < chaves.len(),
        semelhantes_ate(chaves[i], chaves[j], limite),
    ensures
        0 <= k < pares_ate(chaves, limite, n).len(),
        pares_ate(chaves, limite, n)[k] == (i, j),
    decreases n,
{
    let p = pares_ate(chaves, limite, n - 1);
    if i == n - 1 {
        let k = lema_par_na_linha(chaves, limite, i, j, chaves.len() as int);
        p.len() + k
    } else {
        let k = lema_par_presente(chaves, limite, i, j, n - 1);
        assert(pares_ate(chaves, limite, n)[k] == p[k]);
        k
    }
}

/// O indicador de duplicatas não inventa nem esquece par: cada par listado tem
/// `i < j` e chaves semelhantes, e todo par de chaves semelhantes está na
/// lista.
pub proof fn lei_duplicatas_exatas(chaves: Seq<Seq<char>>, limite: nat)
    ensures
        forall|k: int|
            0 <= k < pares_semelhantes(chaves, limite).len() ==> {
                let par = #[trigger] pares_semelhantes(chaves, limite)[k];
                &&& 0 <= par.0 < par.1 < chaves.len()
                &&& semelhantes_ate(chaves[par.0], chaves[par.1], limite)
            },
        forall|i: int, j: int|
            0 <= i < j < chaves.len() && #[trigger] semelhantes_ate(chaves[i], chaves[j], limite)
                ==> exists|k: int|
                0 <= k < pares_semelhantes(chaves, limite).len() && #[trigger] pares_semelhantes(
                    chaves,
                    limite,
                )[k] == (i, j),
{
    lema_pares_validos(chaves, limite, chaves.len() as int);
    assert forall|i: int, j: int|
        0 <= i < j < chaves.len() && #[trigger] semelhantes_ate(
            chaves[i],
            chaves[j],
            limite,
        ) implies exists|k: int|
        0 <= k < pares_semelhantes(chaves, limite).len() && #[trigger] pares_semelhantes(
            chaves,
            limite,
        )[k] == (i, j) by {
        let k = lema_par_presente(chaves, limite, i, j, chaves.len() as int);
        assert(pares_semelhantes(chaves, limite)[k] == (i, j));
    }
}

/// Os pares listados por `r`, com cópias dos cadastros e a distância.
pub open spec fn duplicatas_listam<T>(
    r: Seq<ParDuplicata<T>>,
    todos: Seq<T>,
    p: Seq<(int, int)>,
    chaves: Seq<Seq<char>>,
) -> bool {
    &&& r.len() == p.len()
    &&& forall|k: int|
        0 <= k < r.len() ==> {
            &&& (#[trigger] r[k]).a == todos[p[k].0]
            &&& r[k].b == todos[p[k].1]
            &&& r[k].distancia == levenshtein(chaves[p[k].0], chaves[p[k].1])
        }
}

pub open spec fn chaves_motoristas(todos: Seq<Motorista>) -> Seq<Seq<char>> {
    todos.map_values(|m: Motorista| m.nome_norm@)
}

pub open spec fn chaves_veiculos(todos: Seq<Veiculo>) -> Seq<Seq<char>> {
    todos.map_values(|v: Veiculo| v.frota@)
}

fn nomes_normalizados(todos: &Vec<Motorista>) -> (r: Vec<String>)
    ensures
        r@.map_values(|c: String| c@) == chaves_motoristas(todos@),
{
    let mut r: Vec<String> = Vec::new();
    let mut i: usize = 0;
    while i < todos.len()
        invariant
            i <= todos.len(),
            r@.len() == i,
            forall|k: int| 0 <= k < i ==> (#[trigger] r@[k])@ == todos@[k].nome_norm@,
        decreases todos.len() - i,
    {
        r.push(todos[i].nome_norm.clone());
        i = i + 1;
    }
    assert(r@.map_values(|c: String| c@) =~= chaves_motoristas(todos@));
    r
}

fn frotas_de(todos: &Vec<Veiculo>) -> (r: Vec<String>)
    ensures
        r@.map_values(|c: String| c@) == chaves_veiculos(todos@),
{
    let mut r: Vec<String> = Vec::new();
    let mut i: usize = 0;
    while i < todos.len()
        invariant
            i <= todos.len(),
            r@.len() == i,
            forall|k: int| 0 <= k < i ==> (#[trigger] r@[k])@ == todos@[k].frota@,
        decreases todos.len() - i,
    {
        r.push(todos[i].frota.clone());
        i = i + 1;
    }
    assert(r@.map_values(|c: String| c@) =~= chaves_veiculos(todos@));
    r
}

/// O indicador de duplicatas da tela de Gestão: todo par de condutores com nomes
/// a distância 1 ou 2. É a rede de segurança do cadastro rápido.
pub fn possiveis_duplicatas_motoristas(todos: &Vec<Motorista>) -> (r: Vec<ParDuplicata<Motorista>>)
    ensures
        duplicatas_listam(
            r@,
            todos@,
            pares_semelhantes(chaves_motoristas(todos@), DISTANCIA_NOME as nat),
            chaves_motoristas(todos@),
        ),
{
    let chaves = nomes_normalizados(todos);
    let pares = pares_semelhantes_exec(&chaves, DISTANCIA_NOME);
    let ghost vs = chaves_motoristas(todos@);
    let ghost p = pares_semelhantes(vs, DISTANCIA_NOME as nat);
    proof {
        lema_pares_validos(vs, DISTANCIA_NOME as nat, vs.len() as int);
    }
    let mut r: Vec<ParDuplicata<Motorista>> = Vec::new();
    let mut k: usize = 0;
    while k < pares.len()
        invariant
            k <= pares.len(),
            vs == chaves_motoristas(todos@),
            p == pares_semelhantes(vs, DISTANCIA_NOME as nat),
            lista_pares(pares@, p, vs),
            vs.len() == todos@.len(),
            forall|q: int|
                0 <= q < p.len() ==> {
                    let par = #[trigger] p[q];
                    &&& 0 <= par.0 < par.1 < vs.len()
                    &&& semelhantes_ate(vs[par.0], vs[par.1], DISTANCIA_NOME as nat)
                },
            duplicatas_listam(r@, todos@, p.take(k as int), vs),
        decreases pares.len() - k,
    {
        let (i, j, d) = pares[k];
        assert(p[k as int] == p.take(k + 1)[k as int]);
        let par = ParDuplicata { a: todos[i].copia(), b: todos[j].copia(), distancia: d as u32 };
        r.push(par);
        k = k + 1;
        assert forall|q: int| 0 <= q < r@.len() implies {
            &&& (#[trigger] r@[q]).a == todos@[p.take(k as int)[q].0]
            &&& r@[q].b == todos@[p.take(k as int)[q].1]
            &&& r@[q].distancia == levenshtein(vs[p.take(k as int)[q].0], vs[p.take(k as int)[q].1])
        } by {
            assert(p.take(k as int)[q] == p[q]);
            if q < r@.len() - 1 {
                assert(p.take(k - 1)[q] == p[q]);
            }
        }
    }
    assert(p.take(pares.len() as int) =~= p);
    r
}

/// O mesmo indicador para veículos: frotas a um `char` de distância.
pub fn possiveis_duplicatas_veiculos(todos: &Vec<Veiculo>) -> (r: Vec<ParDuplicata<Veiculo>>)
    ensures
        duplicatas_listam(
            r@,
            todos@,
            pares_semelhantes(chaves_veiculos(todos@), DISTANCIA_FROTA as nat),
            chaves_veiculos(todos@),
        ),
{
    let chaves = frotas_de(todos);
    let pares = pares_semelhantes_exec(&chaves, DISTANCIA_FROTA);
    let ghost vs = chaves_veiculos(todos@);
    let ghost p = pares_semelhantes(vs, DISTANCIA_FROTA as nat);
    proof {
        lema_pares_validos(vs, DISTANCIA_FROTA as nat, vs.len() as int);
    }
    let mut r: Vec<ParDuplicata<Veiculo>> = Vec::new();
    let mut k: usize = 0;
    while k < pares.len()
        invariant
            k <= pares.len(),
            vs == chaves_veiculos(todos@),
            p == pares_semelhantes(vs, DISTANCIA_FROTA as nat),
            lista_pares(pares@, p, vs),
            vs.len() == todos@.len(),
            forall|q: int|
                0 <= q < p.len() ==> {
                    let par = #[trigger] p[q];
                    &&& 0 <= par.0 < par.1 < vs.len()
                    &&& semelhantes_ate(vs[par.0], vs[par.1], DISTANCIA_FROTA as nat)
                },
            duplicatas_listam(r@, todos@, p.take(k as int), vs),
        decreases pares.len() - k,
    {
        let (i, j, d) = pares[k];
        assert(p[k as int] == p.take(k + 1)[k as int]);
        let par = ParDuplicata { a: todos[i].copia(), b: todos[j].copia(), distancia: d as u32 };
        r.push(par);
        k = k + 1;
        assert forall|q: int| 0 <= q < r@.len() implies {
            &&& (#[trigger] r@[q]).a == todos@[p.take(k as int)[q].0]
            &&& r@[q].b == todos@[p.take(k as int)[q].1]
            &&& r@[q].distancia == levenshtein(vs[p.take(k as int)[q].0], vs[p.take(k as int)[q].1])
        } by {
            assert(p.take(k as int)[q] == p[q]);
            if q < r@.len() - 1 {
                assert(p.take(k - 1)[q] == p[q]);
            }
        }
    }
    assert(p.take(pares.len() as int) =~= p);
    r
}


// ------------------------------------------------------------- candidatos ---

/// Os condutores cujo nome normalizado lembra `alvo`, na ordem do cadastro.
pub open spec fn candidatos_motoristas(todos: Seq<Motorista>, alvo: Seq<char>) -> Seq<Motorista>
    decreases todos.len(),
{
    if todos.len() == 0 {
        Seq::empty()
    } else {
        let p = candidatos_motoristas(todos.drop_last(), alvo);
        if semelhantes_ate(todos.last().nome_norm@, alvo, DISTANCIA_NOME as nat) {
            p.push(todos.last())
        } else {
            p
        }
    }
}

/// Os veículos cuja frota lembra `alvo`, na ordem do cadastro.
pub open spec fn candidatos_veiculos(todos: Seq<Veiculo>, alvo: Seq<char>) -> Seq<Veiculo>
    decreases todos.len(),
{
    if todos.len() == 0 {
        Seq::empty()
    } else {
        let p = candidatos_veiculos(todos.drop_last(), alvo);
        if semelhantes_ate(todos.last().frota@, alvo, DISTANCIA_FROTA as nat) {
            p.push(todos.last())
        } else {
            p
        }
    }
}

pub fn semelhantes_motoristas(todos: &Vec<Motorista>, alvo_norm: &str) -> (r: Vec<Motorista>)
    ensures
        r@ == candidatos_motoristas(todos@, alvo_norm@),
{
    let mut r: Vec<Motorista> = Vec::new();
    let mut i: usize = 0;
    while i < todos.len()
        invariant
            i <= todos.len(),
            r@ == candidatos_motoristas(todos@.take(i as int), alvo_norm@),
        decreases todos.len() - i,
    {
        assert(todos@.take(i + 1).drop_last() =~= todos@.take(i as int));
        if crate::semelhanca::nomes_semelhantes(todos[i].nome_norm.as_str(), alvo_norm) {
            r.push(todos[i].copia());
        }
        i = i + 1;
    }
    assert(todos@.take(todos.len() as int) =~= todos@);
    r
}

pub fn semelhantes_veiculos(todos: &Vec<Veiculo>, alvo: &str) -> (r: Vec<Veiculo>)
    ensures
        r@ == candidatos_veiculos(todos@, alvo@),
{
    let mut r: Vec<Veiculo> = Vec::new();
    let mut i: usize = 0;
    while i < todos.len()
        invariant
            i <= todos.len(),
            r@ == candidatos_veiculos(todos@.take(i as int), alvo@),
        decreases todos.len() - i,
    {
        assert(todos@.take(i + 1).drop_last() =~= todos@.take(i as int));
        if crate::semelhanca::frotas_semelhantes(todos[i].frota.as_str(), alvo) {
            r.push(todos[i].copia());
        }
        i = i + 1;
    }
    assert(todos@.take(todos.len() as int) =~= todos@);
    r
}

/// Os textos de `v`, separados por `sep`, e os ids separados por `,`.
fn textos_e_ids(textos: &Vec<String>, ids: &Vec<i64>) -> (r: (Vec<char>, Vec<char>))
    requires
        textos@.len() == ids@.len(),
    ensures
        r.0@ == juntar_com(textos@.map_values(|t: String| t@), lit(", ")),
        r.1@ == juntar_com(ids@.map_values(|n: i64| decimal_spec(n as int)), lit(",")),
{
    let mut partes: Vec<Vec<char>> = Vec::new();
    let mut numeros: Vec<Vec<char>> = Vec::new();
    let mut i: usize = 0;
    while i < textos.len()
        invariant
            i <= textos.len(),
            textos@.len() == ids@.len(),
            partes@.len() == i,
            numeros@.len() == i,
            forall|k: int| 0 <= k < i ==> (#[trigger] partes@[k])@ == textos@[k]@,
            forall|k: int| 0 <= k < i ==> (#[trigger] numeros@[k])@ == decimal_spec(ids@[k] as int),
        decreases textos.len() - i,
    {
        partes.push(chars_de(textos[i].as_str()));
        numeros.push(decimal(ids[i]));
        i = i + 1;
    }
    assert(partes@.map_values(|c: Vec<char>| c@) =~= textos@.map_values(|t: String| t@));
    assert(numeros@.map_values(|c: Vec<char>| c@) =~= ids@.map_values(|n: i64| decimal_spec(n as int)));
    (juntar_exec(&partes, ", "), juntar_exec(&numeros, ","))
}

/// `SEMELHANTE` com os nomes dos candidatos e, no detalhe, os ids, para a tela
/// oferecer "é a mesma pessoa?".
pub open spec fn recusa_semelhante_motoristas(c: Seq<Motorista>) -> Recusa {
    Recusa {
        codigo: lit("SEMELHANTE"),
        mensagem: lit("Já existe ") + juntar_com(c.map_values(|m: Motorista| m.nome@), lit(", "))
            + lit(". É a mesma pessoa?"),
        detalhe: Some(
            lit("IDS:") + juntar_com(c.map_values(|m: Motorista| decimal_spec(m.id as int)), lit(",")),
        ),
    }
}

pub open spec fn recusa_semelhante_veiculos(c: Seq<Veiculo>) -> Recusa {
    Recusa {
        codigo: lit("SEMELHANTE"),
        mensagem: lit("Já existe a frota ") + juntar_com(c.map_values(|v: Veiculo| v.frota@), lit(", "))
            + lit(". É o mesmo veículo?"),
        detalhe: Some(
            lit("IDS:") + juntar_com(c.map_values(|v: Veiculo| decimal_spec(v.id as int)), lit(",")),
        ),
    }
}

pub fn erro_semelhante_motoristas(candidatos: &Vec<Motorista>) -> (r: ErroApp)
    ensures
        crate::erro::corresponde(r, recusa_semelhante_motoristas(candidatos@)),
{
    let mut nomes: Vec<String> = Vec::new();
    let mut ids: Vec<i64> = Vec::new();
    let mut i: usize = 0;
    while i < candidatos.len()
        invariant
            i <= candidatos.len(),
            nomes@.len() == i,
            ids@.len() == i,
            forall|k: int| 0 <= k < i ==> (#[trigger] nomes@[k])@ == candidatos@[k].nome@,
            forall|k: int| 0 <= k < i ==> #[trigger] ids@[k] == candidatos@[k].id,
        decreases candidatos.len() - i,
    {
        nomes.push(candidatos[i].nome.clone());
        ids.push(candidatos[i].id);
        i = i + 1;
    }
    assert(nomes@.map_values(|t: String| t@) =~= candidatos@.map_values(|m: Motorista| m.nome@));
    assert(ids@.map_values(|n: i64| decimal_spec(n as int)) =~= candidatos@.map_values(
        |m: Motorista| decimal_spec(m.id as int),
    ));
    let (lista, numeros) = textos_e_ids(&nomes, &ids);
    let mut mensagem: Vec<char> = chars_de("Já existe ");
    crate::texto::anexar(&mut mensagem, &lista);
    crate::texto::anexar_str(&mut mensagem, ". É a mesma pessoa?");
    let mut detalhe: Vec<char> = chars_de("IDS:");
    crate::texto::anexar(&mut detalhe, &numeros);
    ErroApp::semelhante(string_de(&mensagem)).com_detalhe(string_de(&detalhe))
}

pub fn erro_semelhante_veiculos(candidatos: &Vec<Veiculo>) -> (r: ErroApp)
    ensures
        crate::erro::corresponde(r, recusa_semelhante_veiculos(candidatos@)),
{
    let mut frotas: Vec<String> = Vec::new();
    let mut ids: Vec<i64> = Vec::new();
    let mut i: usize = 0;
    while i < candidatos.len()
        invariant
            i <= candidatos.len(),
            frotas@.len() == i,
            ids@.len() == i,
            forall|k: int| 0 <= k < i ==> (#[trigger] frotas@[k])@ == candidatos@[k].frota@,
            forall|k: int| 0 <= k < i ==> #[trigger] ids@[k] == candidatos@[k].id,
        decreases candidatos.len() - i,
    {
        frotas.push(candidatos[i].frota.clone());
        ids.push(candidatos[i].id);
        i = i + 1;
    }
    assert(frotas@.map_values(|t: String| t@) =~= candidatos@.map_values(|v: Veiculo| v.frota@));
    assert(ids@.map_values(|n: i64| decimal_spec(n as int)) =~= candidatos@.map_values(
        |v: Veiculo| decimal_spec(v.id as int),
    ));
    let (lista, numeros) = textos_e_ids(&frotas, &ids);
    let mut mensagem: Vec<char> = chars_de("Já existe a frota ");
    crate::texto::anexar(&mut mensagem, &lista);
    crate::texto::anexar_str(&mut mensagem, ". É o mesmo veículo?");
    let mut detalhe: Vec<char> = chars_de("IDS:");
    crate::texto::anexar(&mut detalhe, &numeros);
    ErroApp::semelhante(string_de(&mensagem)).com_detalhe(string_de(&detalhe))
}


// -------------------------------------------------------------- condutores ---

/// O pedido de cadastro ou de alteração de um condutor.
#[derive(Debug)]
pub struct PedidoMotorista {
    pub nome: String,
    pub matricula: Option<String>,
    pub setor: Option<String>,
}

/// O que se grava de um condutor.
#[derive(Debug)]
pub struct CamposMotorista {
    pub nome: String,
    pub nome_norm: String,
    pub matricula: Option<String>,
    pub setor: Option<String>,
}

/// O nome aparado e normalizado; matrícula e setor limpos.
pub open spec fn grava_motorista(c: CamposMotorista, p: PedidoMotorista) -> bool {
    &&& c.nome@ == aparar_spec(p.nome@)
    &&& c.nome_norm@ == nome_norm_spec(p.nome@)
    &&& vista(c.matricula) == limpo_spec(p.matricula)
    &&& vista(c.setor) == limpo_spec(p.setor)
}

pub open spec fn recusa_nome_curto() -> Recusa {
    recusa("VALIDACAO", "O nome precisa ter pelo menos 3 caracteres.", Some("CAMPO:nome"))
}

fn campos_motorista(p: &PedidoMotorista) -> (r: CamposMotorista)
    ensures
        grava_motorista(r, *p),
{
    CamposMotorista {
        nome: aparado(p.nome.as_str()),
        nome_norm: nome_norm(p.nome.as_str()),
        matricula: limpar(&p.matricula),
        setor: limpar(&p.setor),
    }
}

/// A primeira recusa do cadastro de um condutor: nome curto, ou, sem
/// confirmação, nomes parecidos entre os cadastrados.
pub open spec fn recusa_criacao_motorista(
    p: PedidoMotorista,
    confirmado: bool,
    cadastrados: Seq<Motorista>,
) -> Option<Recusa> {
    if aparar_spec(p.nome@).len() < NOME_MINIMO {
        Some(recusa_nome_curto())
    } else if !confirmado && candidatos_motoristas(cadastrados, nome_norm_spec(p.nome@)).len() > 0 {
        Some(recusa_semelhante_motoristas(candidatos_motoristas(cadastrados, nome_norm_spec(p.nome@))))
    } else {
        None
    }
}

/// `confirmado = false` procura parecido entre `cadastrados` e devolve
/// `SEMELHANTE` sem gravar nada.
pub fn decidir_criacao_motorista(
    p: &PedidoMotorista,
    confirmado: bool,
    cadastrados: &Vec<Motorista>,
) -> (r: Result<CamposMotorista, ErroApp>)
    ensures
        match recusa_criacao_motorista(*p, confirmado, cadastrados@) {
            Some(f) => recusado(r, f),
            None => r matches Ok(c) && grava_motorista(c, *p),
        },
{
    validar_nome(p.nome.as_str())?;
    let campos = campos_motorista(p);
    if !confirmado {
        let candidatos = semelhantes_motoristas(cadastrados, campos.nome_norm.as_str());
        if candidatos.len() > 0 {
            return Err(erro_semelhante_motoristas(&candidatos));
        }
    }
    Ok(campos)
}

/// A alteração confere o nome e que o condutor existe.
pub fn decidir_atualizacao_motorista(p: &PedidoMotorista, existe: bool) -> (r: Result<
    CamposMotorista,
    ErroApp,
>)
    ensures
        aparar_spec(p.nome@).len() < NOME_MINIMO ==> recusado(r, recusa_nome_curto()),
        aparar_spec(p.nome@).len() >= NOME_MINIMO && !existe ==> recusado(
            r,
            recusa("NAO_ENCONTRADO", "Condutor não encontrado.", None),
        ),
        aparar_spec(p.nome@).len() >= NOME_MINIMO && existe ==> (r matches Ok(c)
            && grava_motorista(c, *p)),
{
    validar_nome(p.nome.as_str())?;
    if !existe {
        return Err(ErroApp::nao_encontrado(texto("Condutor não encontrado.")));
    }
    Ok(campos_motorista(p))
}

/// Inativar um condutor em viagem deixaria a viagem sem dono ativo.
pub fn decidir_inativacao_motorista(existe: bool, em_viagem: bool) -> (r: Result<(), ErroApp>)
    ensures
        !existe ==> recusado(r, recusa("NAO_ENCONTRADO", "Condutor não encontrado.", None)),
        existe && em_viagem ==> recusado(
            r,
            recusa(
                "VALIDACAO",
                "Este condutor está em viagem. Encerre a viagem antes de inativar.",
                None,
            ),
        ),
        existe && !em_viagem ==> r is Ok,
{
    if !existe {
        return Err(ErroApp::nao_encontrado(texto("Condutor não encontrado.")));
    }
    if em_viagem {
        return Err(
            ErroApp::validacao(
                texto("Este condutor está em viagem. Encerre a viagem antes de inativar."),
            ),
        );
    }
    Ok(())
}

/// A primeira recusa de uma fusão: um dos cadastros que não existe, os dois
/// iguais, ou viagem aberta num deles.
pub open spec fn recusa_da_fusao(
    nao_encontrado: Seq<char>,
    manter_id: i64,
    remover_id: i64,
    manter_existe: bool,
    remover_existe: bool,
    manter_tem_aberta: bool,
    remover_tem_aberta: bool,
) -> Option<Recusa> {
    if !manter_existe || !remover_existe {
        Some(Recusa { codigo: lit("NAO_ENCONTRADO"), mensagem: nao_encontrado, detalhe: None })
    } else if manter_id == remover_id {
        Some(recusa("VALIDACAO", "Selecione dois cadastros diferentes para fundir.", None))
    } else if manter_tem_aberta || remover_tem_aberta {
        Some(
            recusa(
                "VALIDACAO",
                "Encerre as viagens abertas dos dois cadastros antes de fundir.",
                None,
            ),
        )
    } else {
        None
    }
}

fn decidir_fusao(
    nao_encontrado: &str,
    manter_id: i64,
    remover_id: i64,
    manter_existe: bool,
    remover_existe: bool,
    manter_tem_aberta: bool,
    remover_tem_aberta: bool,
) -> (r: Result<(), ErroApp>)
    ensures
        match recusa_da_fusao(
            nao_encontrado@,
            manter_id,
            remover_id,
            manter_existe,
            remover_existe,
            manter_tem_aberta,
            remover_tem_aberta,
        ) {
            Some(f) => recusado(r, f),
            None => r is Ok,
        },
{
    if !manter_existe || !remover_existe {
        return Err(ErroApp::nao_encontrado(texto(nao_encontrado)));
    }
    validar_fusao(manter_id, remover_id, manter_tem_aberta, remover_tem_aberta)
}

/// A fusão de condutores: os dois existem, são diferentes e nenhum está na rua.
pub fn decidir_fusao_motoristas(
    manter_id: i64,
    remover_id: i64,
    manter_existe: bool,
    remover_existe: bool,
    manter_tem_aberta: bool,
    remover_tem_aberta: bool,
) -> (r: Result<(), ErroApp>)
    ensures
        match recusa_da_fusao(
            lit("Condutor não encontrado."),
            manter_id,
            remover_id,
            manter_existe,
            remover_existe,
            manter_tem_aberta,
            remover_tem_aberta,
        ) {
            Some(f) => recusado(r, f),
            None => r is Ok,
        },
{
    decidir_fusao(
        "Condutor não encontrado.",
        manter_id,
        remover_id,
        manter_existe,
        remover_existe,
        manter_tem_aberta,
        remover_tem_aberta,
    )
}

/// A fusão de veículos, com as mesmas condições.
pub fn decidir_fusao_veiculos(
    manter_id: i64,
    remover_id: i64,
    manter_existe: bool,
    remover_existe: bool,
    manter_tem_aberta: bool,
    remover_tem_aberta: bool,
) -> (r: Result<(), ErroApp>)
    ensures
        match recusa_da_fusao(
            lit("Veículo não encontrado."),
            manter_id,
            remover_id,
            manter_existe,
            remover_existe,
            manter_tem_aberta,
            remover_tem_aberta,
        ) {
            Some(f) => recusado(r, f),
            None => r is Ok,
        },
{
    decidir_fusao(
        "Veículo não encontrado.",
        manter_id,
        remover_id,
        manter_existe,
        remover_existe,
        manter_tem_aberta,
        remover_tem_aberta,
    )
}

/// Uma fusão de condutores aceita, diante das viagens gravadas, não perde nem
/// duplica viagem: todas as do removido passam ao mantido, nenhuma fica com o
/// removido, e as regras de ouro continuam valendo.
pub proof fn lei_fusao_aceita_de_motoristas(
    rs: Seq<crate::regras::Registro>,
    manter_id: i64,
    remover_id: i64,
    manter_tem_aberta: bool,
    remover_tem_aberta: bool,
)
    requires
        crate::regras::regras_de_ouro(rs),
        manter_tem_aberta <==> !crate::regras::motorista_livre_em(rs, manter_id),
        remover_tem_aberta <==> !crate::regras::motorista_livre_em(rs, remover_id),
        recusa_da_fusao(
            lit("Condutor não encontrado."),
            manter_id,
            remover_id,
            true,
            true,
            manter_tem_aberta,
            remover_tem_aberta,
        ) is None,
    ensures
        crate::regras::fundir_motoristas_spec(rs, manter_id, remover_id).len() == rs.len(),
        crate::regras::viagens_do_motorista(
            crate::regras::fundir_motoristas_spec(rs, manter_id, remover_id),
            manter_id,
        ) == crate::regras::viagens_do_motorista(rs, manter_id)
            + crate::regras::viagens_do_motorista(rs, remover_id),
        crate::regras::viagens_do_motorista(
            crate::regras::fundir_motoristas_spec(rs, manter_id, remover_id),
            remover_id,
        ) == 0,
        crate::regras::regras_de_ouro(
            crate::regras::fundir_motoristas_spec(rs, manter_id, remover_id),
        ),
{
    crate::regras::lei_fusao_de_motoristas(rs, manter_id, remover_id);
}

/// O padrão `LIKE` da busca de condutores pelo termo digitado, ou `None` quando
/// o termo normalizado é vazio e a busca vira a lista dos ativos.
pub fn padrao_busca_motoristas(termo: &str) -> (r: Option<String>)
    ensures
        nome_norm_spec(termo@).len() == 0 ==> r is None,
        nome_norm_spec(termo@).len() > 0 ==> (r matches Some(p) && p@ == lit("%")
            + nome_norm_spec(termo@) + lit("%")),
{
    let alvo = nome_norm(termo);
    if chars_de(alvo.as_str()).len() == 0 {
        return None;
    }
    let mut p = String::from_str("%");
    p.append(alvo.as_str());
    p.append("%");
    Some(p)
}

// ---------------------------------------------------------------- veículos ---

/// O pedido de cadastro ou de alteração de um veículo.
#[derive(Debug)]
pub struct PedidoVeiculo {
    pub frota: String,
    pub placa: Option<String>,
    pub modelo: Option<String>,
    pub marca: Option<String>,
    pub ano: Option<i64>,
    pub tipo: Option<String>,
    pub hodometro_atual: Option<i64>,
    pub observacao: Option<String>,
}

/// O que se grava de um veículo.
#[derive(Debug)]
pub struct CamposVeiculo {
    pub frota: String,
    pub placa: Option<String>,
    pub modelo: Option<String>,
    pub marca: Option<String>,
    pub ano: Option<i64>,
    pub tipo: Option<String>,
    pub hodometro_atual: Option<i64>,
    pub observacao: Option<String>,
}

/// A placa limpa e em maiúsculas.
pub open spec fn maiusculo_limpo_spec(o: Option<String>) -> Option<Seq<char>> {
    match limpo_spec(o) {
        Some(s) => Some(maiusculas_de(s)),
        None => None,
    }
}

pub fn limpar_maiusculo(valor: &Option<String>) -> (r: Option<String>)
    ensures
        vista(r) == maiusculo_limpo_spec(*valor),
{
    match limpar(valor) {
        Some(v) => Some(maiusculas(v.as_str())),
        None => None,
    }
}

/// A frota normalizada, a placa em maiúsculas, os textos limpos.
pub open spec fn grava_veiculo(c: CamposVeiculo, p: PedidoVeiculo) -> bool {
    &&& c.frota@ == frota_norm_spec(p.frota@)
    &&& vista(c.placa) == maiusculo_limpo_spec(p.placa)
    &&& vista(c.modelo) == limpo_spec(p.modelo)
    &&& vista(c.marca) == limpo_spec(p.marca)
    &&& c.ano == p.ano
    &&& vista(c.tipo) == limpo_spec(p.tipo)
    &&& c.hodometro_atual == p.hodometro_atual
    &&& vista(c.observacao) == limpo_spec(p.observacao)
}

pub open spec fn recusa_frota_invalida() -> Recusa {
    recusa(
        "VALIDACAO",
        "A frota precisa ter de 4 a 8 caracteres, apenas letras e números.",
        Some("CAMPO:frota"),
    )
}

fn campos_veiculo(p: &PedidoVeiculo) -> (r: CamposVeiculo)
    ensures
        grava_veiculo(r, *p),
{
    CamposVeiculo {
        frota: frota_norm(p.frota.as_str()),
        placa: limpar_maiusculo(&p.placa),
        modelo: limpar(&p.modelo),
        marca: limpar(&p.marca),
        ano: p.ano,
        tipo: limpar(&p.tipo),
        hodometro_atual: p.hodometro_atual,
        observacao: limpar(&p.observacao),
    }
}

/// A primeira recusa do cadastro de um veículo: frota normalizada inválida, ou,
/// sem confirmação, frotas parecidas entre as cadastradas.
pub open spec fn recusa_criacao_veiculo(p: PedidoVeiculo, confirmado: bool, cadastrados: Seq<Veiculo>) -> Option<
    Recusa,
> {
    if !frota_valida(frota_norm_spec(p.frota@)) {
        Some(recusa_frota_invalida())
    } else if !confirmado && candidatos_veiculos(cadastrados, frota_norm_spec(p.frota@)).len() > 0 {
        Some(recusa_semelhante_veiculos(candidatos_veiculos(cadastrados, frota_norm_spec(p.frota@))))
    } else {
        None
    }
}

pub fn decidir_criacao_veiculo(p: &PedidoVeiculo, confirmado: bool, cadastrados: &Vec<Veiculo>) -> (r:
    Result<CamposVeiculo, ErroApp>)
    ensures
        match recusa_criacao_veiculo(*p, confirmado, cadastrados@) {
            Some(f) => recusado(r, f),
            None => r matches Ok(c) && grava_veiculo(c, *p),
        },
{
    let campos = campos_veiculo(p);
    validar_frota(campos.frota.as_str())?;
    if !confirmado {
        let candidatos = semelhantes_veiculos(cadastrados, campos.frota.as_str());
        if candidatos.len() > 0 {
            return Err(erro_semelhante_veiculos(&candidatos));
        }
    }
    Ok(campos)
}

pub fn decidir_atualizacao_veiculo(p: &PedidoVeiculo, existe: bool) -> (r: Result<
    CamposVeiculo,
    ErroApp,
>)
    ensures
        !frota_valida(frota_norm_spec(p.frota@)) ==> recusado(r, recusa_frota_invalida()),
        frota_valida(frota_norm_spec(p.frota@)) && !existe ==> recusado(
            r,
            recusa("NAO_ENCONTRADO", "Veículo não encontrado.", None),
        ),
        frota_valida(frota_norm_spec(p.frota@)) && existe ==> (r matches Ok(c) && grava_veiculo(
            c,
            *p,
        )),
{
    let campos = campos_veiculo(p);
    validar_frota(campos.frota.as_str())?;
    if !existe {
        return Err(ErroApp::nao_encontrado(texto("Veículo não encontrado.")));
    }
    Ok(campos)
}

pub fn decidir_inativacao_veiculo(existe: bool, em_viagem: bool) -> (r: Result<(), ErroApp>)
    ensures
        !existe ==> recusado(r, recusa("NAO_ENCONTRADO", "Veículo não encontrado.", None)),
        existe && em_viagem ==> recusado(
            r,
            recusa(
                "VALIDACAO",
                "Este veículo está em viagem. Encerre a viagem antes de inativar.",
                None,
            ),
        ),
        existe && !em_viagem ==> r is Ok,
{
    if !existe {
        return Err(ErroApp::nao_encontrado(texto("Veículo não encontrado.")));
    }
    if em_viagem {
        return Err(
            ErroApp::validacao(
                texto("Este veículo está em viagem. Encerre a viagem antes de inativar."),
            ),
        );
    }
    Ok(())
}

/// O padrão `LIKE` da busca de veículos, ou `None` com o termo vazio.
pub fn padrao_busca_veiculos(termo: &str) -> (r: Option<String>)
    ensures
        frota_norm_spec(termo@).len() == 0 ==> r is None,
        frota_norm_spec(termo@).len() > 0 ==> (r matches Some(p) && p@ == lit("%")
            + frota_norm_spec(termo@) + lit("%")),
{
    let alvo = frota_norm(termo);
    if chars_de(alvo.as_str()).len() == 0 {
        return None;
    }
    let mut p = String::from_str("%");
    p.append(alvo.as_str());
    p.append("%");
    Some(p)
}

/// Um veículo no combo de abertura: livre quando não há viagem aberta com ele.
pub fn disponibilidade(
    veiculo: Veiculo,
    motorista_atual: Option<String>,
    desde: Option<String>,
    destino_atual: Option<String>,
) -> (r: VeiculoDisponibilidade)
    ensures
        r.veiculo == veiculo,
        r.disponivel == (desde is None),
        r.motorista_atual == motorista_atual,
        r.desde == desde,
        r.destino_atual == destino_atual,
{
    let disponivel = desde.is_none();
    VeiculoDisponibilidade { veiculo, disponivel, motorista_atual, desde, destino_atual }
}

} // verus!
