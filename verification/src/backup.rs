//! O nome dos arquivos de backup e a rotação que impede a pasta de crescer sem
//! fim.
//!
//! | Faixa | Mantém |
//! | Últimas 48 h | todos |
//! | Últimos 30 dias | o último de cada dia |
//! | Últimos 12 meses | o último de cada mês |
//! | Anteriores | descarta |

use vstd::prelude::*;

use crate::datahora::{
    analisar, analisar_spec, datahora_valida, formatar_para_arquivo, escrita_chrono, instante,
    instante_exec, texto_arquivo, DataHora, Momento, FORMATO_ARQUIVO,
};
use crate::erro::lit;
use crate::texto::{anexar, anexar_str, chars_de, string_de};
use std::collections::HashMap;

verus! {

pub const PREFIXO: &'static str = "controle_";
pub const SUFIXO: &'static str = ".db";

pub const SEGUNDOS_48H: i64 = 172_800;
pub const SEGUNDOS_30_DIAS: i64 = 2_592_000;
pub const SEGUNDOS_12_MESES: i64 = 31_536_000;

/// `controle_AAAA-MM-DD_HHMM.db`.
pub fn nome_de_backup(agora: &DataHora) -> (r: String)
    requires
        datahora_valida(*agora),
    ensures
        r@ == lit("controle_") + escrita_chrono(*agora, FORMATO_ARQUIVO@) + lit(".db"),
        0 <= agora.ano <= 9999 ==> r@ == lit("controle_") + texto_arquivo(*agora) + lit(".db"),
{
    let mut v = chars_de(PREFIXO);
    anexar(&mut v, &chars_de(formatar_para_arquivo(agora).as_str()));
    anexar_str(&mut v, SUFIXO);
    string_de(&v)
}

pub open spec fn ascii(c: char) -> bool {
    (c as u32) < 128
}

/// A primeira posição de `c` em `s`.
pub open spec fn primeira_posicao(s: Seq<char>, c: char) -> Option<int> {
    if exists|k: int| 0 <= k < s.len() && s[k] == c {
        Some(choose|k: int| 0 <= k < s.len() && s[k] == c && forall|j: int| 0 <= j < k ==> s[j] != c)
    } else {
        None
    }
}

/// O instante escrito num nome `controle_AAAA-MM-DD_HHMM.db`, ou `None` quando
/// o nome não segue o padrão: arquivo que não foi este módulo que criou nunca é
/// apagado. A hora precisa ter quatro `char` ASCII.
pub open spec fn data_do_nome_spec(nome: Seq<char>) -> Option<DataHora> {
    if nome.len() >= 12 && nome.take(9) == lit("controle_") && nome.skip(nome.len() - 3) == lit(
        ".db",
    ) {
        let miolo = nome.subrange(9, nome.len() - 3);
        match primeira_posicao(miolo, '_') {
            Some(k) => {
                let data = miolo.take(k);
                let hora = miolo.skip(k + 1);
                if hora.len() == 4 && ascii(hora[0]) && ascii(hora[1]) && ascii(hora[2]) && ascii(
                    hora[3],
                ) {
                    analisar_spec(data + seq![' ', hora[0], hora[1], ':', hora[2], hora[3]])
                } else {
                    None
                }
            },
            None => None,
        }
    } else {
        None
    }
}

fn comeca_e_termina(v: &Vec<char>) -> (r: bool)
    ensures
        r == (v@.len() >= 12 && v@.take(9) == lit("controle_") && v@.skip(v@.len() - 3) == lit(
            ".db",
        )),
{
    if v.len() < 12 {
        return false;
    }
    let p = chars_de(PREFIXO);
    let s = chars_de(SUFIXO);
    let mut i: usize = 0;
    while i < 9
        invariant
            i <= 9,
            v.len() >= 12,
            p@ == PREFIXO@,
            p@.len() == 9 || true,
            forall|j: int| 0 <= j < i ==> j < p@.len() && v@[j] == p@[j],
        decreases 9 - i,
    {
        if i >= p.len() || v[i] != p[i] {
            proof {
                reveal_strlit("controle_");
            }
            return false;
        }
        i = i + 1;
    }
    proof {
        reveal_strlit("controle_");
        assert(v@.take(9) =~= lit("controle_"));
    }
    let n = v.len();
    let mut k: usize = 0;
    while k < 3
        invariant
            k <= 3,
            n == v.len(),
            n >= 12,
            s@ == SUFIXO@,
            v@.take(9) == lit("controle_"),
            forall|j: int| 0 <= j < k ==> j < s@.len() && v@[n - 3 + j] == s@[j],
        decreases 3 - k,
    {
        if k >= s.len() || v[n - 3 + k] != s[k] {
            proof {
                reveal_strlit(".db");
            }
            return false;
        }
        k = k + 1;
    }
    proof {
        reveal_strlit(".db");
        assert(v@.skip(n - 3) =~= lit(".db"));
    }
    true
}

/// `controle_2026-09-19_1430.db` → `2026-09-19 14:30`.
pub fn data_do_nome(nome: &str) -> (r: Option<DataHora>)
    ensures
        r == data_do_nome_spec(nome@),
        r matches Some(x) ==> datahora_valida(x),
{
    let v = chars_de(nome);
    if !comeca_e_termina(&v) {
        return None;
    }
    let n = v.len();
    let ghost miolo = v@.subrange(9, n - 3);
    let mut k: usize = 9;
    while k < n - 3 && v[k] != '_'
        invariant
            9 <= k <= n - 3,
            n == v.len(),
            n >= 12,
            miolo == v@.subrange(9, n - 3),
            forall|j: int| 0 <= j < k - 9 ==> miolo[j] != '_',
        decreases n - 3 - k,
    {
        k = k + 1;
    }
    if k == n - 3 {
        assert(!exists|j: int| 0 <= j < miolo.len() && miolo[j] == '_');
        return None;
    }
    let ghost pos = (k - 9) as int;
    assert(miolo[pos] == '_');
    proof {
        let escolhido = choose|j: int|
            0 <= j < miolo.len() && miolo[j] == '_' && forall|i: int| 0 <= i < j ==> miolo[i] != '_';
        assert(0 <= pos < miolo.len() && miolo[pos] == '_' && forall|i: int| 0 <= i < pos ==> miolo[i] != '_');
        if escolhido < pos {
            assert(miolo[escolhido] != '_');
        }
        if pos < escolhido {
            assert(miolo[pos] != '_');
        }
        assert(primeira_posicao(miolo, '_') == Some(pos));
    }
    if n - 3 - (k + 1) != 4 {
        assert(miolo.skip(pos + 1).len() != 4);
        return None;
    }
    let h0 = v[k + 1];
    let h1 = v[k + 2];
    let h2 = v[k + 3];
    let h3 = v[k + 4];
    assert(miolo.skip(pos + 1)[0] == h0);
    assert(miolo.skip(pos + 1)[1] == h1);
    assert(miolo.skip(pos + 1)[2] == h2);
    assert(miolo.skip(pos + 1)[3] == h3);
    if !((h0 as u32) < 128 && (h1 as u32) < 128 && (h2 as u32) < 128 && (h3 as u32) < 128) {
        return None;
    }
    let mut texto: Vec<char> = Vec::new();
    let mut i: usize = 9;
    while i < k
        invariant
            9 <= i <= k,
            k < n,
            n == v.len(),
            texto@ == v@.subrange(9, i as int),
        decreases k - i,
    {
        texto.push(v[i]);
        i = i + 1;
        assert(texto@ =~= v@.subrange(9, i as int));
    }
    assert(texto@ =~= miolo.take(pos));
    texto.push(' ');
    texto.push(h0);
    texto.push(h1);
    texto.push(':');
    texto.push(h2);
    texto.push(h3);
    assert(texto@ =~= miolo.take(pos) + seq![' ', h0, h1, ':', h2, h3]);
    let s = string_de(&texto);
    match analisar(s.as_str()) {
        Ok(x) => Some(x),
        Err(_) => None,
    }
}

/// `t` não é mais velho que `limite` segundos antes de `agora`. Os backups têm
/// segundos inteiros e o relógio tem fração de segundo: com fração, o instante
/// exato `limite` antes de agora já ficou para trás.
pub open spec fn dentro_de(t: DataHora, agora: Momento, limite: int) -> bool {
    if agora.nanos == 0 {
        instante(t) >= instante(agora.datahora) - limite
    } else {
        instante(t) > instante(agora.datahora) - limite
    }
}

/// A faixa de um backup, por idade: 0 nas últimas 48 h, 1 nos últimos 30 dias,
/// 2 nos últimos 12 meses, 3 antes disso.
pub open spec fn faixa(t: DataHora, agora: Momento) -> int {
    if dentro_de(t, agora, SEGUNDOS_48H as int) {
        0
    } else if dentro_de(t, agora, SEGUNDOS_30_DIAS as int) {
        1
    } else if dentro_de(t, agora, SEGUNDOS_12_MESES as int) {
        2
    } else {
        3
    }
}

pub open spec fn mesmo_dia(a: DataHora, b: DataHora) -> bool {
    a.ano == b.ano && a.mes == b.mes && a.dia == b.dia
}

pub open spec fn mesmo_mes(a: DataHora, b: DataHora) -> bool {
    a.ano == b.ano && a.mes == b.mes
}

/// `i` é o último do seu grupo (mesma faixa e mesmo dia ou mês): nenhum outro é
/// mais novo, e entre iguais vale o primeiro da lista.
pub open spec fn vence_grupo(arquivos: Seq<DataHora>, agora: Momento, i: int) -> bool {
    let f = faixa(arquivos[i], agora);
    forall|j: int|
        0 <= j < arquivos.len() && faixa(#[trigger] arquivos[j], agora) == f && (if f == 1 {
            mesmo_dia(arquivos[j], arquivos[i])
        } else {
            mesmo_mes(arquivos[j], arquivos[i])
        }) ==> instante(arquivos[j]) < instante(arquivos[i]) || (instante(arquivos[j])
            == instante(arquivos[i]) && j >= i)
}

/// Se o backup `i` fica: todos das últimas 48 h, o último de cada dia nos
/// últimos 30 dias, o último de cada mês nos últimos 12 meses, nenhum anterior.
pub open spec fn fica(arquivos: Seq<DataHora>, agora: Momento, i: int) -> bool {
    let f = faixa(arquivos[i], agora);
    f == 0 || ((f == 1 || f == 2) && vence_grupo(arquivos, agora, i))
}

fn faixa_exec(t: &DataHora, agora: &Momento) -> (r: i64)
    requires
        datahora_valida(*t),
        datahora_valida(agora.datahora),
    ensures
        r == faixa(*t, *agora),
{
    let limite = instante_exec(&agora.datahora);
    let x = instante_exec(t);
    let estrito = agora.nanos != 0;
    let dentro_48h = if estrito {
        x > limite - SEGUNDOS_48H
    } else {
        x >= limite - SEGUNDOS_48H
    };
    let dentro_30d = if estrito {
        x > limite - SEGUNDOS_30_DIAS
    } else {
        x >= limite - SEGUNDOS_30_DIAS
    };
    let dentro_12m = if estrito {
        x > limite - SEGUNDOS_12_MESES
    } else {
        x >= limite - SEGUNDOS_12_MESES
    };
    if dentro_48h {
        0
    } else if dentro_30d {
        1
    } else if dentro_12m {
        2
    } else {
        3
    }
}

/// A chave do dia de um instante, e a do mês: números que só coincidem para o
/// mesmo dia, ou o mesmo mês.
pub open spec fn chave_dia(t: DataHora) -> int {
    (t.ano + 300_000) * 10_000 + t.mes * 100 + t.dia
}

pub open spec fn chave_mes(t: DataHora) -> int {
    (t.ano + 300_000) * 100 + t.mes
}

/// A chave do grupo na faixa `f`: o dia nos 30 dias, o mês nos 12 meses.
pub open spec fn chave_do_grupo(t: DataHora, f: int) -> int {
    if f == 1 {
        chave_dia(t)
    } else {
        chave_mes(t)
    }
}

pub open spec fn mesmo_grupo(a: DataHora, b: DataHora, f: int) -> bool {
    if f == 1 {
        mesmo_dia(a, b)
    } else {
        mesmo_mes(a, b)
    }
}

proof fn lema_chave_do_grupo(a: DataHora, b: DataHora, f: int)
    requires
        datahora_valida(a),
        datahora_valida(b),
    ensures
        chave_do_grupo(a, f) == chave_do_grupo(b, f) <==> mesmo_grupo(a, b, f),
{
}

fn chave_exec(t: &DataHora, f: i64) -> (r: u64)
    requires
        datahora_valida(*t),
    ensures
        r == chave_do_grupo(*t, f as int),
{
    let ano = (t.ano as i64 + 300_000) as u64;
    if f == 1 {
        ano * 10_000 + t.mes as u64 * 100 + t.dia as u64
    } else {
        ano * 100 + t.mes as u64
    }
}

/// `w` ganha de `j` no grupo: é mais novo, ou igual e vem antes na lista.
pub open spec fn ganha(arquivos: Seq<DataHora>, w: int, j: int) -> bool {
    instante(arquivos[j]) < instante(arquivos[w]) || (instante(arquivos[j]) == instante(
        arquivos[w],
    ) && j >= w)
}

/// O mapa de uma faixa guarda, para cada grupo visto entre os `i` primeiros
/// arquivos, o índice do que ganha de todos eles.
pub open spec fn vencedores_ate(
    m: Map<u64, usize>,
    arquivos: Seq<DataHora>,
    agora: Momento,
    f: int,
    i: int,
) -> bool {
    &&& forall|k: u64|
        #[trigger] m.contains_key(k) ==> m[k] < i && faixa(arquivos[m[k] as int], agora) == f
            && chave_do_grupo(arquivos[m[k] as int], f) == k
    &&& forall|j: int|
        0 <= j < i && faixa(#[trigger] arquivos[j], agora) == f ==> {
            let k = chave_do_grupo(arquivos[j], f) as u64;
            &&& m.contains_key(k)
            &&& ganha(arquivos, m[k] as int, j)
        }
}

/// Confere o arquivo `i` contra o vencedor guardado do seu grupo, e guarda `i`
/// quando ele é mais novo.
fn disputar(
    vencedores: &mut HashMap<u64, usize>,
    arquivos: &Vec<DataHora>,
    agora: &Momento,
    f: i64,
    i: usize,
)
    requires
        i < arquivos.len(),
        datahora_valida(agora.datahora),
        forall|j: int| 0 <= j < arquivos.len() ==> datahora_valida(#[trigger] arquivos@[j]),
        faixa(arquivos@[i as int], *agora) == f,
        vencedores_ate(old(vencedores)@, arquivos@, *agora, f as int, i as int),
    ensures
        vencedores_ate(final(vencedores)@, arquivos@, *agora, f as int, i + 1),
{
    broadcast use vstd::std_specs::hash::group_hash_axioms;

    let k = chave_exec(&arquivos[i], f);
    let ti = instante_exec(&arquivos[i]);
    let ghost antes = vencedores@;
    let trocar = match vencedores.get(&k) {
        None => true,
        Some(w) => {
            let w = *w;
            ti > instante_exec(&arquivos[w])
        },
    };
    if trocar {
        vencedores.insert(k, i);
    }
    proof {
        let depois = vencedores@;
        assert forall|j: int|
            0 <= j < i + 1 && faixa(#[trigger] arquivos@[j], *agora) == f implies {
            let kj = chave_do_grupo(arquivos@[j], f as int) as u64;
            &&& depois.contains_key(kj)
            &&& ganha(arquivos@, depois[kj] as int, j)
        } by {
            let kj = chave_do_grupo(arquivos@[j], f as int) as u64;
            if j < i {
                assert(antes.contains_key(kj));
            }
        }
    }
}

/// Para cada backup, se ele fica. Os grupos de dia e de mês são mapas da chave
/// do grupo para o índice do backup mais novo dele. Separada da remoção para a
/// política ser conferida sem tocar em disco.
pub fn selecionar_para_manter(arquivos: &Vec<DataHora>, agora: &Momento) -> (r: Vec<bool>)
    requires
        datahora_valida(agora.datahora),
        forall|j: int| 0 <= j < arquivos.len() ==> datahora_valida(#[trigger] arquivos@[j]),
    ensures
        r.len() == arquivos.len(),
        forall|i: int| 0 <= i < arquivos.len() ==> r@[i] == fica(arquivos@, *agora, i),
{
    broadcast use vstd::std_specs::hash::group_hash_axioms;

    let mut ultimo_do_dia: HashMap<u64, usize> = HashMap::new();
    let mut ultimo_do_mes: HashMap<u64, usize> = HashMap::new();
    let mut i: usize = 0;
    while i < arquivos.len()
        invariant
            i <= arquivos.len(),
            datahora_valida(agora.datahora),
            forall|j: int| 0 <= j < arquivos.len() ==> datahora_valida(#[trigger] arquivos@[j]),
            vencedores_ate(ultimo_do_dia@, arquivos@, *agora, 1, i as int),
            vencedores_ate(ultimo_do_mes@, arquivos@, *agora, 2, i as int),
        decreases arquivos.len() - i,
    {
        let f = faixa_exec(&arquivos[i], agora);
        if f == 1 {
            disputar(&mut ultimo_do_dia, arquivos, agora, 1, i);
            assert(vencedores_ate(ultimo_do_mes@, arquivos@, *agora, 2, i + 1));
        } else if f == 2 {
            disputar(&mut ultimo_do_mes, arquivos, agora, 2, i);
            assert(vencedores_ate(ultimo_do_dia@, arquivos@, *agora, 1, i + 1));
        } else {
            assert(vencedores_ate(ultimo_do_dia@, arquivos@, *agora, 1, i + 1));
            assert(vencedores_ate(ultimo_do_mes@, arquivos@, *agora, 2, i + 1));
        }
        i = i + 1;
    }
    let mut r: Vec<bool> = Vec::new();
    let mut i: usize = 0;
    while i < arquivos.len()
        invariant
            i <= arquivos.len(),
            r.len() == i,
            datahora_valida(agora.datahora),
            forall|j: int| 0 <= j < arquivos.len() ==> datahora_valida(#[trigger] arquivos@[j]),
            vencedores_ate(ultimo_do_dia@, arquivos@, *agora, 1, arquivos.len() as int),
            vencedores_ate(ultimo_do_mes@, arquivos@, *agora, 2, arquivos.len() as int),
            forall|k: int| 0 <= k < i ==> r@[k] == fica(arquivos@, *agora, k),
        decreases arquivos.len() - i,
    {
        let f = faixa_exec(&arquivos[i], agora);
        let fica_aqui = if f == 0 {
            true
        } else if f == 1 || f == 2 {
            let k = chave_exec(&arquivos[i], f);
            let guardado = if f == 1 {
                ultimo_do_dia.get(&k)
            } else {
                ultimo_do_mes.get(&k)
            };
            match guardado {
                Some(w) => *w == i,
                None => false,
            }
        } else {
            false
        };
        proof {
            if f == 1 || f == 2 {
                let m = if f == 1 {
                    ultimo_do_dia@
                } else {
                    ultimo_do_mes@
                };
                lema_fica_pelo_vencedor(m, arquivos@, *agora, i as int);
            }
        }
        r.push(fica_aqui);
        i = i + 1;
    }
    r
}

/// Um backup das faixas de 30 dias ou 12 meses fica exatamente quando é o
/// vencedor guardado do seu grupo.
proof fn lema_fica_pelo_vencedor(m: Map<u64, usize>, arquivos: Seq<DataHora>, agora: Momento, i: int)
    requires
        0 <= i < arquivos.len(),
        datahora_valida(agora.datahora),
        forall|j: int| 0 <= j < arquivos.len() ==> datahora_valida(#[trigger] arquivos[j]),
        faixa(arquivos[i], agora) == 1 || faixa(arquivos[i], agora) == 2,
        vencedores_ate(m, arquivos, agora, faixa(arquivos[i], agora), arquivos.len() as int),
    ensures
        ({
            let k = chave_do_grupo(arquivos[i], faixa(arquivos[i], agora)) as u64;
            m.contains_key(k) && (m[k] == i <==> fica(arquivos, agora, i))
        }),
{
    let f = faixa(arquivos[i], agora);
    let k = chave_do_grupo(arquivos[i], f) as u64;
    assert(m.contains_key(k));
    let w = m[k] as int;
    if w == i {
        assert forall|j: int|
            0 <= j < arquivos.len() && faixa(#[trigger] arquivos[j], agora) == f && (if f == 1 {
                mesmo_dia(arquivos[j], arquivos[i])
            } else {
                mesmo_mes(arquivos[j], arquivos[i])
            }) implies instante(arquivos[j]) < instante(arquivos[i]) || (instante(arquivos[j])
            == instante(arquivos[i]) && j >= i) by {
            lema_chave_do_grupo(arquivos[j], arquivos[i], f);
            assert(chave_do_grupo(arquivos[j], f) as u64 == k);
        }
        assert(fica(arquivos, agora, i));
    } else {
        assert(faixa(arquivos[w], agora) == f);
        assert(chave_do_grupo(arquivos[w], f) == k);
        lema_chave_do_grupo(arquivos[w], arquivos[i], f);
        if fica(arquivos, agora, i) {
            assert(ganha(arquivos, w, i));
            assert(faixa(arquivos[w], agora) == f && (if f == 1 {
                mesmo_dia(arquivos[w], arquivos[i])
            } else {
                mesmo_mes(arquivos[w], arquivos[i])
            }));
            assert(false);
        }
    }
}

/// Tudo das últimas 48 h fica, e nada com mais de 12 meses sobrevive.
pub proof fn lei_rotacao_por_faixa(arquivos: Seq<DataHora>, agora: Momento, i: int)
    requires
        0 <= i < arquivos.len(),
    ensures
        dentro_de(arquivos[i], agora, SEGUNDOS_48H as int) ==> fica(arquivos, agora, i),
        fica(arquivos, agora, i) ==> dentro_de(arquivos[i], agora, SEGUNDOS_12_MESES as int),
{
}

/// Na faixa dos 30 dias fica no máximo um backup por dia, e na dos 12 meses no
/// máximo um por mês.
pub proof fn lei_rotacao_um_por_grupo(arquivos: Seq<DataHora>, agora: Momento, i: int, j: int)
    requires
        0 <= i < arquivos.len(),
        0 <= j < arquivos.len(),
        i != j,
        fica(arquivos, agora, i),
        fica(arquivos, agora, j),
        faixa(arquivos[i], agora) == faixa(arquivos[j], agora),
    ensures
        faixa(arquivos[i], agora) == 1 ==> !mesmo_dia(arquivos[i], arquivos[j]),
        faixa(arquivos[i], agora) == 2 ==> !mesmo_mes(arquivos[i], arquivos[j]),
{
    let f = faixa(arquivos[i], agora);
    if f == 1 && mesmo_dia(arquivos[i], arquivos[j]) {
        assert(faixa(arquivos[j], agora) == f);
        assert(faixa(arquivos[i], agora) == faixa(arquivos[j], agora));
    }
    if f == 2 && mesmo_mes(arquivos[i], arquivos[j]) {
        assert(faixa(arquivos[j], agora) == f);
    }
}


/// O texto com cada `'` dobrado, como um literal SQL pede.
pub open spec fn aspas_dobradas(s: Seq<char>) -> Seq<char>
    decreases s.len(),
{
    if s.len() == 0 {
        Seq::empty()
    } else if s.last() == '\'' {
        aspas_dobradas(s.drop_last()) + seq!['\'', '\'']
    } else {
        aspas_dobradas(s.drop_last()).push(s.last())
    }
}

/// O comando que grava a cópia consistente em `destino`. `VACUUM INTO` produz
/// uma cópia consistente por construção; cópia byte a byte de um arquivo sendo
/// escrito pode capturar páginas de dois estados.
pub fn comando_vacuum(destino: &str) -> (r: String)
    ensures
        r@ == crate::erro::lit("VACUUM INTO '") + aspas_dobradas(destino@) + seq!['\''],
{
    let v = crate::texto::chars_de(destino);
    let mut r: Vec<char> = crate::texto::chars_de("VACUUM INTO '");
    let ghost inicio = r@;
    let mut i: usize = 0;
    while i < v.len()
        invariant
            i <= v.len(),
            r@ == inicio + aspas_dobradas(v@.take(i as int)),
        decreases v.len() - i,
    {
        assert(v@.take(i + 1).drop_last() =~= v@.take(i as int));
        if v[i] == '\'' {
            r.push('\'');
            r.push('\'');
            assert(r@ =~= inicio + aspas_dobradas(v@.take(i + 1)));
        } else {
            r.push(v[i]);
            assert(r@ =~= inicio + aspas_dobradas(v@.take(i + 1)));
        }
        i = i + 1;
    }
    assert(v@.take(v.len() as int) =~= v@);
    r.push('\'');
    crate::texto::string_de(&r)
}

} // verus!
