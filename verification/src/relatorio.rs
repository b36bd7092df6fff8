//! Os relatórios: os números do cabeçalho, o CSV para o Excel e o HTML para ver
//! e imprimir.
//!
//! Horas chegam em centésimos de hora inteiros, e percentuais em décimos de
//! ponto percentual inteiros: `22,50` h são `2250`, `20,0%` são `200`.

use vstd::prelude::*;

use crate::datahora::{
    analisar_data, analisar_data_spec, data_valida, dia_absoluto, dois_digitos, escrita_chrono, formatar_data, meia_noite, primeiro_do_mes,
    proximo_dia, proximo_dia_spec, Data, FORMATO_DATA,
};
use crate::erro::{lit, recusa, recusado, texto, ErroApp};
use crate::modelo::{recusa_data, FiltroSaidas};
use crate::texto::{
    anexar, anexar_str, char_digito, chars_de, decimal, decimal_spec, digito,
    digitos, juntar, lema_juntar_acrescenta, menor, menor_lex, string_de, vista,
};

verus! {

#[derive(Debug, Clone, Copy, PartialEq, Eq, Structural)]
pub enum TipoRelatorio {
    UsoVeiculo,
    UsoMotorista,
}

#[derive(Debug, Clone, Copy, PartialEq, Eq, Structural)]
pub enum Formato {
    Html,
    Pdf,
    Csv,
}

pub open spec fn titulo_spec(t: TipoRelatorio) -> Seq<char> {
    match t {
        TipoRelatorio::UsoVeiculo => lit("Uso de veículo"),
        TipoRelatorio::UsoMotorista => lit("Uso por condutor"),
    }
}

pub open spec fn arquivo_spec(t: TipoRelatorio) -> Seq<char> {
    match t {
        TipoRelatorio::UsoVeiculo => lit("uso-veiculo"),
        TipoRelatorio::UsoMotorista => lit("uso-motorista"),
    }
}

impl TipoRelatorio {
    pub fn titulo(&self) -> (r: &'static str)
        ensures
            r@ == titulo_spec(*self),
    {
        match self {
            TipoRelatorio::UsoVeiculo => "Uso de veículo",
            TipoRelatorio::UsoMotorista => "Uso por condutor",
        }
    }

    /// O começo do nome do arquivo emitido.
    pub fn arquivo(&self) -> (r: &'static str)
        ensures
            r@ == arquivo_spec(*self),
    {
        match self {
            TipoRelatorio::UsoVeiculo => "uso-veiculo",
            TipoRelatorio::UsoMotorista => "uso-motorista",
        }
    }
}

/// Sem estes números, o total de horas afirma algo que não sabe.
#[derive(Debug)]
pub struct CabecalhoRelatorio {
    pub de: String,
    pub ate: String,
    pub viagens: u32,
    pub sem_chegada: u32,
    /// Décimos de ponto percentual.
    pub sem_chegada_pct: i64,
    pub chegadas_manuais: u32,
    pub chegadas_manuais_pct: i64,
    pub hodometro_completo: u32,
    pub hodometro_completo_pct: i64,
    pub emitido_em: String,
    pub emitido_por: String,
}

#[derive(Debug)]
pub struct LinhaRelatorio {
    pub rotulo: String,
    pub viagens: u32,
    pub abertas: u32,
    /// Centésimos de hora.
    pub horas_totais: i64,
    /// `None` quando nenhuma viagem da linha fechou.
    pub horas_media: Option<i64>,
    pub chegadas_manuais: u32,
    pub km: Option<i64>,
    pub veiculos_distintos: Option<u32>,
    pub frotas: Option<String>,
}

#[derive(Debug)]
pub struct RelatorioDados {
    pub tipo: TipoRelatorio,
    pub cabecalho: CabecalhoRelatorio,
    pub linhas: Vec<LinhaRelatorio>,
}

/// `parte` sobre `total` em décimos de ponto percentual, com a metade
/// arredondada para cima; zero quando não há viagem nenhuma.
pub open spec fn porcentagem_spec(parte: int, total: int) -> int {
    if total == 0 {
        0
    } else {
        (parte * 2000 + total) / (total * 2)
    }
}

pub fn porcentagem(parte: u32, total: u32) -> (r: i64)
    ensures
        r == porcentagem_spec(parte as int, total as int),
{
    if total == 0 {
        0
    } else {
        (parte as i64 * 2000 + total as i64) / (total as i64 * 2)
    }
}

/// Um número não negativo em centésimos, com vírgula decimal: `2250` é `22,50`.
pub open spec fn centesimos_nat(c: nat) -> Seq<char> {
    digitos(c / 100) + seq![','] + dois_digitos((c % 100) as int)
}

/// Vírgula decimal e duas casas, que é o que o Excel em português espera.
pub open spec fn numero_spec(c: int) -> Seq<char> {
    if c < 0 {
        seq!['-'] + centesimos_nat((-c) as nat)
    } else {
        centesimos_nat(c as nat)
    }
}

/// Décimos com vírgula e o sinal de porcento: `200` é `20,0%`.
pub open spec fn decimos_nat(c: nat) -> Seq<char> {
    digitos(c / 10) + seq![',', digito((c % 10) as int)]
}

pub open spec fn pct_spec(c: int) -> Seq<char> {
    if c < 0 {
        seq!['-'] + decimos_nat((-c) as nat) + seq!['%']
    } else {
        decimos_nat(c as nat) + seq!['%']
    }
}

fn numero(c: i64) -> (r: Vec<char>)
    ensures
        r@ == numero_spec(c as int),
{
    let mut v: Vec<char> = Vec::new();
    let m: u64 = if c < 0 {
        v.push('-');
        (-(c as i128)) as u64
    } else {
        c as u64
    };
    anexar(&mut v, &decimal((m / 100) as i64));
    v.push(',');
    v.push(char_digito((m % 100) / 10));
    v.push(char_digito(m % 10));
    assert(v@ =~= numero_spec(c as int));
    v
}

fn pct(c: i64) -> (r: Vec<char>)
    ensures
        r@ == pct_spec(c as int),
{
    let mut v: Vec<char> = Vec::new();
    let m: u64 = if c < 0 {
        v.push('-');
        (-(c as i128)) as u64
    } else {
        c as u64
    };
    anexar(&mut v, &decimal((m / 10) as i64));
    v.push(',');
    v.push(char_digito(m % 10));
    v.push('%');
    assert(v@ =~= pct_spec(c as int));
    v
}

/// `s` com cada `"` dobrado.
pub open spec fn dobrar_aspas(s: Seq<char>) -> Seq<char>
    decreases s.len(),
{
    if s.len() == 0 {
        s
    } else if s.last() == '"' {
        dobrar_aspas(s.drop_last()) + seq!['"', '"']
    } else {
        dobrar_aspas(s.drop_last()).push(s.last())
    }
}

pub open spec fn especial_csv(c: char) -> bool {
    c == ';' || c == '"' || c == '\n'
}

/// `v` contém `;`, `"` ou quebra de linha.
pub open spec fn precisa_aspas(v: Seq<char>) -> bool {
    exists|k: int| 0 <= k < v.len() && especial_csv(#[trigger] v[k])
}

/// Uma célula com `;`, `"` ou quebra de linha vai entre aspas, com as aspas de
/// dentro dobradas.
pub open spec fn escapar_spec(v: Seq<char>) -> Seq<char> {
    if precisa_aspas(v) {
        seq!['"'] + dobrar_aspas(v) + seq!['"']
    } else {
        v
    }
}

fn escapar(v: &Vec<char>) -> (r: Vec<char>)
    ensures
        r@ == escapar_spec(v@),
{
    let mut precisa = false;
    let mut i: usize = 0;
    while i < v.len()
        invariant
            i <= v.len(),
            precisa == exists|k: int| 0 <= k < i && especial_csv(#[trigger] v@[k]),
        decreases v.len() - i,
    {
        let c = v[i];
        if c == ';' || c == '"' || c == '\n' {
            precisa = true;
        }
        i = i + 1;
    }
    if !precisa {
        let mut r: Vec<char> = Vec::new();
        anexar(&mut r, v);
        assert(r@ =~= v@);
        return r;
    }
    let mut r: Vec<char> = Vec::new();
    r.push('"');
    let mut j: usize = 0;
    while j < v.len()
        invariant
            j <= v.len(),
            r@ == seq!['"'] + dobrar_aspas(v@.take(j as int)),
        decreases v.len() - j,
    {
        assert(v@.take(j + 1).drop_last() =~= v@.take(j as int));
        if v[j] == '"' {
            r.push('"');
            r.push('"');
        } else {
            r.push(v[j]);
        }
        j = j + 1;
        assert(r@ =~= seq!['"'] + dobrar_aspas(v@.take(j as int)));
    }
    assert(v@.take(v.len() as int) =~= v@);
    r.push('"');
    r
}

/// As células escapadas, separadas por `;`, e a quebra de linha.
pub open spec fn linha_csv_spec(celulas: Seq<Seq<char>>) -> Seq<char> {
    juntar(celulas.map_values(|c: Seq<char>| escapar_spec(c)), ';').push('\n')
}

fn linha_csv(celulas: &Vec<Vec<char>>) -> (r: Vec<char>)
    ensures
        r@ == linha_csv_spec(celulas@.map_values(|c: Vec<char>| c@)),
{
    let ghost vistas = celulas@.map_values(|c: Vec<char>| c@);
    let mut r: Vec<char> = Vec::new();
    let mut i: usize = 0;
    while i < celulas.len()
        invariant
            i <= celulas.len(),
            vistas == celulas@.map_values(|c: Vec<char>| c@),
            r@ == juntar(vistas.take(i as int).map_values(|c: Seq<char>| escapar_spec(c)), ';'),
        decreases celulas.len() - i,
    {
        let e = escapar(&celulas[i]);
        proof {
            let p = vistas.take(i as int).map_values(|c: Seq<char>| escapar_spec(c));
            assert(vistas.take(i + 1).map_values(|c: Seq<char>| escapar_spec(c)) =~= p.push(e@));
            lema_juntar_acrescenta(p, e@, ';');
        }
        if i > 0 {
            r.push(';');
        }
        anexar(&mut r, &e);
        i = i + 1;
    }
    assert(vistas.take(celulas.len() as int) =~= vistas);
    r.push('\n');
    r
}


pub open spec fn colunas_spec(t: TipoRelatorio) -> Seq<Seq<char>> {
    match t {
        TipoRelatorio::UsoVeiculo => seq![
            lit("Veículo"),
            lit("Viagens"),
            lit("Abertas"),
            lit("Horas totais"),
            lit("Horas média"),
            lit("Chegadas manuais"),
            lit("Km"),
        ],
        TipoRelatorio::UsoMotorista => seq![
            lit("Condutor"),
            lit("Viagens"),
            lit("Abertas"),
            lit("Horas totais"),
            lit("Horas média"),
            lit("Chegadas manuais"),
            lit("Veículos distintos"),
            lit("Frotas"),
        ],
    }
}

pub open spec fn opcional_numero(o: Option<i64>) -> Seq<char> {
    match o {
        Some(c) => numero_spec(c as int),
        None => Seq::empty(),
    }
}

pub open spec fn opcional_decimal(o: Option<i64>) -> Seq<char> {
    match o {
        Some(n) => decimal_spec(n as int),
        None => Seq::empty(),
    }
}

/// As células de uma linha. Dado ausente vira célula vazia, nunca zero: média
/// de zero viagens fechadas é ausência de dado.
pub open spec fn celulas_spec(t: TipoRelatorio, l: LinhaRelatorio) -> Seq<Seq<char>> {
    let comuns = seq![
        l.rotulo@,
        decimal_spec(l.viagens as int),
        decimal_spec(l.abertas as int),
        numero_spec(l.horas_totais as int),
        opcional_numero(l.horas_media),
        decimal_spec(l.chegadas_manuais as int),
    ];
    match t {
        TipoRelatorio::UsoVeiculo => comuns.push(opcional_decimal(l.km)),
        TipoRelatorio::UsoMotorista => comuns.push(
            match l.veiculos_distintos {
                Some(n) => decimal_spec(n as int),
                None => Seq::empty(),
            },
        ).push(
            match l.frotas {
                Some(f) => f@,
                None => Seq::empty(),
            },
        ),
    }
}

/// Cada célula de uma linha fica sob a coluna do seu campo: o rótulo sob
/// Veículo ou Condutor, as viagens sob Viagens, as abertas sob Abertas, as horas
/// totais e a média sob as suas, as chegadas manuais sob Chegadas manuais, e o
/// km, ou os veículos distintos e as frotas, nas últimas.
pub proof fn lei_celula_sob_a_sua_coluna(t: TipoRelatorio, l: LinhaRelatorio)
    ensures
        celulas_spec(t, l).len() == colunas_spec(t).len(),
        colunas_spec(t)[0] == (if t == TipoRelatorio::UsoVeiculo {
            lit("Veículo")
        } else {
            lit("Condutor")
        }) && celulas_spec(t, l)[0] == l.rotulo@,
        colunas_spec(t)[1] == lit("Viagens") && celulas_spec(t, l)[1] == decimal_spec(
            l.viagens as int,
        ),
        colunas_spec(t)[2] == lit("Abertas") && celulas_spec(t, l)[2] == decimal_spec(
            l.abertas as int,
        ),
        colunas_spec(t)[3] == lit("Horas totais") && celulas_spec(t, l)[3] == numero_spec(
            l.horas_totais as int,
        ),
        colunas_spec(t)[4] == lit("Horas média") && celulas_spec(t, l)[4] == (match l.horas_media {
            Some(c) => numero_spec(c as int),
            None => Seq::empty(),
        }),
        colunas_spec(t)[5] == lit("Chegadas manuais") && celulas_spec(t, l)[5] == decimal_spec(
            l.chegadas_manuais as int,
        ),
        t == TipoRelatorio::UsoVeiculo ==> colunas_spec(t).len() == 7 && colunas_spec(t)[6]
            == lit("Km") && celulas_spec(t, l)[6] == (match l.km {
            Some(n) => decimal_spec(n as int),
            None => Seq::empty(),
        }),
        t == TipoRelatorio::UsoMotorista ==> colunas_spec(t).len() == 8 && colunas_spec(t)[6]
            == lit("Veículos distintos") && celulas_spec(t, l)[6] == (match l.veiculos_distintos {
            Some(n) => decimal_spec(n as int),
            None => Seq::empty(),
        }) && colunas_spec(t)[7] == lit("Frotas") && celulas_spec(t, l)[7] == (match l.frotas {
            Some(f) => f@,
            None => Seq::empty(),
        }),
{
}

pub open spec fn linhas_csv_spec(t: TipoRelatorio, ls: Seq<LinhaRelatorio>) -> Seq<char>
    decreases ls.len(),
{
    if ls.len() == 0 {
        Seq::empty()
    } else {
        linhas_csv_spec(t, ls.drop_last()) + linha_csv_spec(celulas_spec(t, ls.last()))
    }
}

/// O Excel em português só reconhece `;` como separador, e sem a marca de ordem
/// de bytes abre "JOSÃ‰" em vez de "JOSÉ".
pub const BOM_UTF8: char = '\u{feff}';

/// O cabeçalho obrigatório, uma linha em branco, os nomes das colunas e uma
/// linha por veículo ou condutor.
pub open spec fn csv_spec(d: RelatorioDados) -> Seq<char> {
    let c = d.cabecalho;
    seq![BOM_UTF8] + linha_csv_spec(seq![lit("Relatório"), titulo_spec(d.tipo)])
        + linha_csv_spec(seq![lit("Período"), c.de@, lit("a"), c.ate@]) + linha_csv_spec(
        seq![lit("Viagens no período"), decimal_spec(c.viagens as int)],
    ) + linha_csv_spec(
        seq![
            lit("Viagens sem chegada"),
            decimal_spec(c.sem_chegada as int),
            pct_spec(c.sem_chegada_pct as int),
        ],
    ) + linha_csv_spec(
        seq![
            lit("Chegadas informadas manualmente"),
            decimal_spec(c.chegadas_manuais as int),
            pct_spec(c.chegadas_manuais_pct as int),
        ],
    ) + linha_csv_spec(
        seq![
            lit("Viagens com hodômetro nas duas pontas"),
            decimal_spec(c.hodometro_completo as int),
            pct_spec(c.hodometro_completo_pct as int),
        ],
    ) + linha_csv_spec(seq![lit("Emitido em"), c.emitido_em@, lit("por"), c.emitido_por@])
        + seq!['\n'] + linha_csv_spec(colunas_spec(d.tipo)) + linhas_csv_spec(d.tipo, d.linhas@)
}

fn colunas(t: TipoRelatorio) -> (r: Vec<Vec<char>>)
    ensures
        r@.map_values(|c: Vec<char>| c@) == colunas_spec(t),
{
    let mut r: Vec<Vec<char>> = Vec::new();
    match t {
        TipoRelatorio::UsoVeiculo => {
            r.push(chars_str("Veículo"));
            r.push(chars_str("Viagens"));
            r.push(chars_str("Abertas"));
            r.push(chars_str("Horas totais"));
            r.push(chars_str("Horas média"));
            r.push(chars_str("Chegadas manuais"));
            r.push(chars_str("Km"));
        },
        TipoRelatorio::UsoMotorista => {
            r.push(chars_str("Condutor"));
            r.push(chars_str("Viagens"));
            r.push(chars_str("Abertas"));
            r.push(chars_str("Horas totais"));
            r.push(chars_str("Horas média"));
            r.push(chars_str("Chegadas manuais"));
            r.push(chars_str("Veículos distintos"));
            r.push(chars_str("Frotas"));
        },
    }
    assert(r@.map_values(|c: Vec<char>| c@) =~= colunas_spec(t));
    r
}

fn chars_str(s: &str) -> (r: Vec<char>)
    ensures
        r@ == s@,
{
    crate::texto::chars_de(s)
}

fn celulas(t: TipoRelatorio, l: &LinhaRelatorio) -> (r: Vec<Vec<char>>)
    ensures
        r@.map_values(|c: Vec<char>| c@) == celulas_spec(t, *l),
{
    let mut r: Vec<Vec<char>> = Vec::new();
    r.push(chars_str(l.rotulo.as_str()));
    r.push(decimal(l.viagens as i64));
    r.push(decimal(l.abertas as i64));
    r.push(numero(l.horas_totais));
    r.push(
        match l.horas_media {
            Some(c) => numero(c),
            None => Vec::new(),
        },
    );
    r.push(decimal(l.chegadas_manuais as i64));
    match t {
        TipoRelatorio::UsoVeiculo => {
            r.push(
                match l.km {
                    Some(k) => decimal(k),
                    None => Vec::new(),
                },
            );
        },
        TipoRelatorio::UsoMotorista => {
            r.push(
                match l.veiculos_distintos {
                    Some(n) => decimal(n as i64),
                    None => Vec::new(),
                },
            );
            r.push(
                match &l.frotas {
                    Some(f) => chars_str(f.as_str()),
                    None => Vec::new(),
                },
            );
        },
    }
    assert(r@.map_values(|c: Vec<char>| c@) =~= celulas_spec(t, *l));
    r
}

fn linha_de(celulas: Vec<Vec<char>>) -> (r: Vec<char>)
    ensures
        r@ == linha_csv_spec(celulas@.map_values(|c: Vec<char>| c@)),
{
    linha_csv(&celulas)
}

fn par(a: &str, b: Vec<char>) -> (r: Vec<Vec<char>>)
    ensures
        r@.map_values(|c: Vec<char>| c@) == seq![a@, b@],
{
    let mut r: Vec<Vec<char>> = Vec::new();
    r.push(chars_str(a));
    r.push(b);
    assert(r@.map_values(|c: Vec<char>| c@) =~= seq![a@, b@]);
    r
}

fn trio(a: &str, b: Vec<char>, c: Vec<char>) -> (r: Vec<Vec<char>>)
    ensures
        r@.map_values(|x: Vec<char>| x@) == seq![a@, b@, c@],
{
    let mut r: Vec<Vec<char>> = Vec::new();
    r.push(chars_str(a));
    r.push(b);
    r.push(c);
    assert(r@.map_values(|x: Vec<char>| x@) =~= seq![a@, b@, c@]);
    r
}

fn quarteto(a: &str, b: Vec<char>, c: &str, d: Vec<char>) -> (r: Vec<Vec<char>>)
    ensures
        r@.map_values(|x: Vec<char>| x@) == seq![a@, b@, c@, d@],
{
    let mut r: Vec<Vec<char>> = Vec::new();
    r.push(chars_str(a));
    r.push(b);
    r.push(chars_str(c));
    r.push(d);
    assert(r@.map_values(|x: Vec<char>| x@) =~= seq![a@, b@, c@, d@]);
    r
}

/// O relatório em CSV: marca de ordem de bytes, separador `;`, vírgula decimal.
pub fn csv(d: &RelatorioDados) -> (r: String)
    ensures
        r@ == csv_spec(*d),
{
    let c = &d.cabecalho;
    let mut v: Vec<char> = Vec::new();
    v.push(BOM_UTF8);
    anexar(&mut v, &linha_de(par("Relatório", chars_str(d.tipo.titulo()))));
    anexar(
        &mut v,
        &linha_de(quarteto("Período", chars_str(c.de.as_str()), "a", chars_str(c.ate.as_str()))),
    );
    anexar(&mut v, &linha_de(par("Viagens no período", decimal(c.viagens as i64))));
    anexar(
        &mut v,
        &linha_de(
            trio("Viagens sem chegada", decimal(c.sem_chegada as i64), pct(c.sem_chegada_pct)),
        ),
    );
    anexar(
        &mut v,
        &linha_de(
            trio(
                "Chegadas informadas manualmente",
                decimal(c.chegadas_manuais as i64),
                pct(c.chegadas_manuais_pct),
            ),
        ),
    );
    anexar(
        &mut v,
        &linha_de(
            trio(
                "Viagens com hodômetro nas duas pontas",
                decimal(c.hodometro_completo as i64),
                pct(c.hodometro_completo_pct),
            ),
        ),
    );
    anexar(
        &mut v,
        &linha_de(
            quarteto(
                "Emitido em",
                chars_str(c.emitido_em.as_str()),
                "por",
                chars_str(c.emitido_por.as_str()),
            ),
        ),
    );
    v.push('\n');
    anexar(&mut v, &linha_de(colunas(d.tipo)));
    let ghost prefixo = v@;
    let mut i: usize = 0;
    while i < d.linhas.len()
        invariant
            i <= d.linhas.len(),
            v@ == prefixo + linhas_csv_spec(d.tipo, d.linhas@.take(i as int)),
        decreases d.linhas.len() - i,
    {
        assert(d.linhas@.take(i + 1).drop_last() =~= d.linhas@.take(i as int));
        let linha = linha_de(celulas(d.tipo, &d.linhas[i]));
        anexar(&mut v, &linha);
        i = i + 1;
        assert(v@ =~= prefixo + linhas_csv_spec(d.tipo, d.linhas@.take(i as int)));
    }
    assert(d.linhas@.take(d.linhas.len() as int) =~= d.linhas@);
    assert(v@ =~= csv_spec(*d));
    string_de(&v)
}


/// `&`, `<`, `>` e `"` viram entidades; o resto fica.
pub open spec fn escapar_html_spec(v: Seq<char>) -> Seq<char>
    decreases v.len(),
{
    if v.len() == 0 {
        v
    } else {
        let c = v.last();
        escapar_html_spec(v.drop_last()) + if c == '&' {
            lit("&amp;")
        } else if c == '<' {
            lit("&lt;")
        } else if c == '>' {
            lit("&gt;")
        } else if c == '"' {
            lit("&quot;")
        } else {
            seq![c]
        }
    }
}

fn escapar_html(v: &Vec<char>) -> (r: Vec<char>)
    ensures
        r@ == escapar_html_spec(v@),
{
    let mut r: Vec<char> = Vec::new();
    let mut i: usize = 0;
    while i < v.len()
        invariant
            i <= v.len(),
            r@ == escapar_html_spec(v@.take(i as int)),
        decreases v.len() - i,
    {
        assert(v@.take(i + 1).drop_last() =~= v@.take(i as int));
        let c = v[i];
        if c == '&' {
            anexar_str(&mut r, "&amp;");
        } else if c == '<' {
            anexar_str(&mut r, "&lt;");
        } else if c == '>' {
            anexar_str(&mut r, "&gt;");
        } else if c == '"' {
            anexar_str(&mut r, "&quot;");
        } else {
            r.push(c);
        }
        i = i + 1;
        assert(r@ =~= escapar_html_spec(v@.take(i as int)));
    }
    assert(v@.take(v.len() as int) =~= v@);
    r
}

/// Sem CSS externo, sem fonte remota, sem script: as máquinas podem não ter
/// internet.
pub const ESTILO: &'static str = "
body { font-family: Arial, Helvetica, sans-serif; color: #1e2a3a; margin: 24px; }
h1 { color: #0f396d; font-size: 20px; margin: 0 0 4px; }
.periodo { margin: 0 0 16px; color: #6b7280; }
.periodo span { font-size: 12px; }
table { border-collapse: collapse; width: 100%; }
table.cabecalho { width: auto; margin-bottom: 20px; }
table.cabecalho th { text-align: left; padding: 3px 16px 3px 0; font-weight: 600; }
table.cabecalho td { padding: 3px 0; }
.pct { color: #6b7280; }
table.dados th { background: #0f396d; color: #fff; text-align: left; padding: 6px 8px;
                 font-size: 12px; }
table.dados td { border-bottom: 1px solid #d1d9e0; padding: 5px 8px; font-size: 13px; }
td.num { text-align: right; }
td.vazio { text-align: center; color: #6b7280; padding: 24px; }
.rodape { margin-top: 20px; color: #6b7280; font-size: 12px; }
@media print { body { margin: 0; } table.dados th { -webkit-print-color-adjust: exact; } }
";

pub open spec fn linha_cabecalho_spec(rotulo: Seq<char>, valor: Seq<char>, pct: Option<int>) -> Seq<
    char,
> {
    lit("<tr><th>") + escapar_html_spec(rotulo) + lit("</th><td>") + escapar_html_spec(valor)
        + match pct {
        Some(p) => lit(" <span class=\"pct\">(") + pct_spec(p) + lit(")</span>"),
        None => Seq::empty(),
    } + lit("</td></tr>\n")
}

pub open spec fn ths_spec(cs: Seq<Seq<char>>) -> Seq<char>
    decreases cs.len(),
{
    if cs.len() == 0 {
        Seq::empty()
    } else {
        ths_spec(cs.drop_last()) + lit("<th>") + escapar_html_spec(cs.last()) + lit("</th>")
    }
}

/// A primeira célula é o rótulo; as demais são números, alinhados à direita.
pub open spec fn tds_spec(cs: Seq<Seq<char>>) -> Seq<char>
    decreases cs.len(),
{
    if cs.len() == 0 {
        Seq::empty()
    } else {
        tds_spec(cs.drop_last()) + if cs.len() == 1 {
            lit("<td>")
        } else {
            lit("<td class=\"num\">")
        } + escapar_html_spec(cs.last()) + lit("</td>")
    }
}

pub open spec fn linhas_html_spec(t: TipoRelatorio, ls: Seq<LinhaRelatorio>) -> Seq<char>
    decreases ls.len(),
{
    if ls.len() == 0 {
        Seq::empty()
    } else {
        linhas_html_spec(t, ls.drop_last()) + lit("<tr>") + tds_spec(celulas_spec(t, ls.last()))
            + lit("</tr>\n")
    }
}

pub open spec fn topo_html_spec(d: RelatorioDados) -> Seq<char> {
    lit("<h1>") + escapar_html_spec(titulo_spec(d.tipo)) + lit("</h1>\n<p class=\"periodo\">")
        + escapar_html_spec(d.cabecalho.de@) + lit(" a ") + escapar_html_spec(d.cabecalho.ate@)
        + lit(" <span>(limite final exclusivo)</span></p>\n")
}

pub open spec fn tabela_cabecalho_spec(c: CabecalhoRelatorio) -> Seq<char> {
    lit("<table class=\"cabecalho\"><tbody>\n") + linha_cabecalho_spec(
        lit("Viagens no período"),
        decimal_spec(c.viagens as int),
        None,
    ) + linha_cabecalho_spec(
        lit("Viagens sem chegada"),
        decimal_spec(c.sem_chegada as int),
        Some(c.sem_chegada_pct as int),
    ) + linha_cabecalho_spec(
        lit("Chegadas informadas manualmente"),
        decimal_spec(c.chegadas_manuais as int),
        Some(c.chegadas_manuais_pct as int),
    ) + linha_cabecalho_spec(
        lit("Viagens com hodômetro nas duas pontas"),
        decimal_spec(c.hodometro_completo as int),
        Some(c.hodometro_completo_pct as int),
    ) + lit("</tbody></table>\n")
}

pub open spec fn tabela_dados_spec(d: RelatorioDados) -> Seq<char> {
    lit("<table class=\"dados\"><thead><tr>") + ths_spec(colunas_spec(d.tipo)) + lit(
        "</tr></thead><tbody>\n",
    ) + linhas_html_spec(d.tipo, d.linhas@) + if d.linhas.len() == 0 {
        lit("<tr><td colspan=\"9\" class=\"vazio\">Nenhuma viagem no período.</td></tr>")
    } else {
        Seq::empty()
    } + lit("</tbody></table>\n")
}

pub open spec fn rodape_html_spec(c: CabecalhoRelatorio) -> Seq<char> {
    lit("<p class=\"rodape\">Emitido em ") + escapar_html_spec(c.emitido_em@) + lit(" por ")
        + escapar_html_spec(c.emitido_por@) + lit("</p>\n")
}

/// O título, o período, o cabeçalho obrigatório com os percentuais, a tabela e
/// o rodapé com quem emitiu e quando.
pub open spec fn corpo_html_spec(d: RelatorioDados) -> Seq<char> {
    topo_html_spec(d) + tabela_cabecalho_spec(d.cabecalho) + tabela_dados_spec(d)
        + rodape_html_spec(d.cabecalho)
}

/// HTML autocontido: renderiza no próprio navegador e imprime em PDF por ele.
pub open spec fn html_spec(d: RelatorioDados) -> Seq<char> {
    let c = d.cabecalho;
    lit("<!doctype html>\n<html lang=\"pt-BR\"><head><meta charset=\"utf-8\">\n<title>")
        + escapar_html_spec(titulo_spec(d.tipo)) + lit(" — ") + escapar_html_spec(c.de@) + lit(
        " a ",
    ) + escapar_html_spec(c.ate@) + lit("</title>\n<style>") + ESTILO@ + lit(
        "</style></head>\n<body>\n",
    ) + corpo_html_spec(d) + lit("</body></html>\n")
}

fn anexar_escapado(v: &mut Vec<char>, t: &Vec<char>)
    ensures
        final(v)@ == old(v)@ + escapar_html_spec(t@),
{
    anexar(v, &escapar_html(t));
}

fn linha_cabecalho(v: &mut Vec<char>, rotulo: &str, valor: Vec<char>, p: Option<i64>)
    ensures
        final(v)@ == old(v)@ + linha_cabecalho_spec(
            rotulo@,
            valor@,
            match p {
                Some(x) => Some(x as int),
                None => None,
            },
        ),
{
    anexar_str(v, "<tr><th>");
    anexar_escapado(v, &chars_str(rotulo));
    anexar_str(v, "</th><td>");
    anexar_escapado(v, &valor);
    match p {
        Some(x) => {
            anexar_str(v, " <span class=\"pct\">(");
            anexar(v, &pct(x));
            anexar_str(v, ")</span>");
        },
        None => {},
    }
    anexar_str(v, "</td></tr>\n");
    assert(v@ =~= old(v)@ + linha_cabecalho_spec(
        rotulo@,
        valor@,
        match p {
            Some(x) => Some(x as int),
            None => None,
        },
    ));
}

fn ths(v: &mut Vec<char>, cs: &Vec<Vec<char>>)
    ensures
        final(v)@ == old(v)@ + ths_spec(cs@.map_values(|c: Vec<char>| c@)),
{
    let ghost vistas = cs@.map_values(|c: Vec<char>| c@);
    let ghost inicio = v@;
    let mut i: usize = 0;
    while i < cs.len()
        invariant
            i <= cs.len(),
            vistas == cs@.map_values(|c: Vec<char>| c@),
            v@ == inicio + ths_spec(vistas.take(i as int)),
        decreases cs.len() - i,
    {
        assert(vistas.take(i + 1).drop_last() =~= vistas.take(i as int));
        anexar_str(v, "<th>");
        anexar_escapado(v, &cs[i]);
        anexar_str(v, "</th>");
        i = i + 1;
        assert(v@ =~= inicio + ths_spec(vistas.take(i as int)));
    }
    assert(vistas.take(cs.len() as int) =~= vistas);
}

fn tds(v: &mut Vec<char>, cs: &Vec<Vec<char>>)
    ensures
        final(v)@ == old(v)@ + tds_spec(cs@.map_values(|c: Vec<char>| c@)),
{
    let ghost vistas = cs@.map_values(|c: Vec<char>| c@);
    let ghost inicio = v@;
    let mut i: usize = 0;
    while i < cs.len()
        invariant
            i <= cs.len(),
            vistas == cs@.map_values(|c: Vec<char>| c@),
            v@ == inicio + tds_spec(vistas.take(i as int)),
        decreases cs.len() - i,
    {
        assert(vistas.take(i + 1).drop_last() =~= vistas.take(i as int));
        if i == 0 {
            anexar_str(v, "<td>");
        } else {
            anexar_str(v, "<td class=\"num\">");
        }
        anexar_escapado(v, &cs[i]);
        anexar_str(v, "</td>");
        i = i + 1;
        assert(v@ =~= inicio + tds_spec(vistas.take(i as int)));
    }
    assert(vistas.take(cs.len() as int) =~= vistas);
}

fn topo_html(v: &mut Vec<char>, d: &RelatorioDados)
    ensures
        final(v)@ == old(v)@ + topo_html_spec(*d),
{
    anexar_str(v, "<h1>");
    anexar_escapado(v, &chars_str(d.tipo.titulo()));
    anexar_str(v, "</h1>\n<p class=\"periodo\">");
    anexar_escapado(v, &chars_str(d.cabecalho.de.as_str()));
    anexar_str(v, " a ");
    anexar_escapado(v, &chars_str(d.cabecalho.ate.as_str()));
    anexar_str(v, " <span>(limite final exclusivo)</span></p>\n");
    assert(v@ =~= old(v)@ + topo_html_spec(*d));
}

fn tabela_cabecalho(v: &mut Vec<char>, c: &CabecalhoRelatorio)
    ensures
        final(v)@ == old(v)@ + tabela_cabecalho_spec(*c),
{
    anexar_str(v, "<table class=\"cabecalho\"><tbody>\n");
    linha_cabecalho(v, "Viagens no período", decimal(c.viagens as i64), None);
    linha_cabecalho(
        v,
        "Viagens sem chegada",
        decimal(c.sem_chegada as i64),
        Some(c.sem_chegada_pct),
    );
    linha_cabecalho(
        v,
        "Chegadas informadas manualmente",
        decimal(c.chegadas_manuais as i64),
        Some(c.chegadas_manuais_pct),
    );
    linha_cabecalho(
        v,
        "Viagens com hodômetro nas duas pontas",
        decimal(c.hodometro_completo as i64),
        Some(c.hodometro_completo_pct),
    );
    anexar_str(v, "</tbody></table>\n");
    assert(v@ =~= old(v)@ + tabela_cabecalho_spec(*c));
}

fn tabela_dados(v: &mut Vec<char>, d: &RelatorioDados)
    ensures
        final(v)@ == old(v)@ + tabela_dados_spec(*d),
{
    anexar_str(v, "<table class=\"dados\"><thead><tr>");
    ths(v, &colunas(d.tipo));
    anexar_str(v, "</tr></thead><tbody>\n");
    let ghost antes_linhas = v@;
    let mut i: usize = 0;
    while i < d.linhas.len()
        invariant
            i <= d.linhas.len(),
            v@ == antes_linhas + linhas_html_spec(d.tipo, d.linhas@.take(i as int)),
        decreases d.linhas.len() - i,
    {
        assert(d.linhas@.take(i + 1).drop_last() =~= d.linhas@.take(i as int));
        anexar_str(v, "<tr>");
        tds(v, &celulas(d.tipo, &d.linhas[i]));
        anexar_str(v, "</tr>\n");
        i = i + 1;
        assert(v@ =~= antes_linhas + linhas_html_spec(d.tipo, d.linhas@.take(i as int)));
    }
    assert(d.linhas@.take(d.linhas.len() as int) =~= d.linhas@);
    if d.linhas.len() == 0 {
        anexar_str(
            v,
            "<tr><td colspan=\"9\" class=\"vazio\">Nenhuma viagem no período.</td></tr>",
        );
    }
    anexar_str(v, "</tbody></table>\n");
    assert(v@ =~= old(v)@ + tabela_dados_spec(*d));
}

fn rodape_html(v: &mut Vec<char>, c: &CabecalhoRelatorio)
    ensures
        final(v)@ == old(v)@ + rodape_html_spec(*c),
{
    anexar_str(v, "<p class=\"rodape\">Emitido em ");
    anexar_escapado(v, &chars_str(c.emitido_em.as_str()));
    anexar_str(v, " por ");
    anexar_escapado(v, &chars_str(c.emitido_por.as_str()));
    anexar_str(v, "</p>\n");
    assert(v@ =~= old(v)@ + rodape_html_spec(*c));
}

fn corpo_html(v: &mut Vec<char>, d: &RelatorioDados)
    ensures
        final(v)@ == old(v)@ + corpo_html_spec(*d),
{
    topo_html(v, d);
    tabela_cabecalho(v, &d.cabecalho);
    tabela_dados(v, d);
    rodape_html(v, &d.cabecalho);
    assert(v@ =~= old(v)@ + corpo_html_spec(*d));
}

/// O relatório em HTML autocontido.
pub fn html(d: &RelatorioDados) -> (r: String)
    ensures
        r@ == html_spec(*d),
{
    let c = &d.cabecalho;
    let mut v: Vec<char> = Vec::new();
    anexar_str(&mut v, "<!doctype html>\n<html lang=\"pt-BR\"><head><meta charset=\"utf-8\">\n<title>");
    anexar_escapado(&mut v, &chars_str(d.tipo.titulo()));
    anexar_str(&mut v, " — ");
    anexar_escapado(&mut v, &chars_str(c.de.as_str()));
    anexar_str(&mut v, " a ");
    anexar_escapado(&mut v, &chars_str(c.ate.as_str()));
    anexar_str(&mut v, "</title>\n<style>");
    anexar_str(&mut v, ESTILO);
    anexar_str(&mut v, "</style></head>\n<body>\n");
    corpo_html(&mut v, d);
    anexar_str(&mut v, "</body></html>\n");
    assert(v@ =~= html_spec(*d));
    string_de(&v)
}


// ------------------------------------------------------------- emissão ---

/// O início efetivo do período: o informado, ou o primeiro dia do mês de hoje.
pub open spec fn inicio_do_periodo(f: FiltroSaidas, hoje: Data) -> Seq<char> {
    match f.de {
        Some(d) => d@,
        None => escrita_chrono(meia_noite(Data { dia: 1, ..hoje }), FORMATO_DATA@),
    }
}

/// O fim efetivo, **exclusivo**: o informado, ou amanhã; `None` quando amanhã
/// não existe no calendário.
pub open spec fn fim_do_periodo(f: FiltroSaidas, hoje: Data) -> Option<Seq<char>> {
    match f.ate {
        Some(a) => Some(a@),
        None => match proximo_dia_spec(hoje) {
            Some(n) => Some(escrita_chrono(meia_noite(n), FORMATO_DATA@)),
            None => None,
        },
    }
}

/// O período efetivo do relatório. `ate` é **exclusivo**: para "setembro
/// inteiro", `2026-10-01`. Os limites são comparados como texto, que é como o
/// banco os compara.
pub fn periodo(filtro: &FiltroSaidas, hoje: &Data) -> (r: Result<(String, String), ErroApp>)
    requires
        data_valida(*hoje),
    ensures
        match fim_do_periodo(*filtro, *hoje) {
            None => recusado(
                r,
                recusa("VALIDACAO", "não foi possível calcular o fim do período", None),
            ),
            Some(ate) => if menor_lex(inicio_do_periodo(*filtro, *hoje), ate) {
                r matches Ok(p) && p.0@ == inicio_do_periodo(*filtro, *hoje) && p.1@ == ate
            } else {
                recusado(
                    r,
                    recusa(
                        "VALIDACAO",
                        "A data final precisa ser depois da inicial. O limite final é exclusivo.",
                        None,
                    ),
                )
            },
        },
{
    let de: String = match &filtro.de {
        Some(d) => d.clone(),
        None => formatar_data(&primeiro_do_mes(hoje)),
    };
    let ate: String = match &filtro.ate {
        Some(a) => a.clone(),
        None => match proximo_dia(hoje) {
            Some(amanha) => formatar_data(&amanha),
            None => {
                return Err(
                    ErroApp::validacao(texto("não foi possível calcular o fim do período")),
                );
            },
        },
    };
    if !menor(de.as_str(), ate.as_str()) {
        return Err(
            ErroApp::validacao(
                texto("A data final precisa ser depois da inicial. O limite final é exclusivo."),
            ),
        );
    }
    Ok((de, ate))
}

/// O período padrão é o mês corrente até hoje inclusive: começa no dia 1, e o
/// limite exclusivo é o dia seguinte a hoje.
pub proof fn lei_periodo_padrao_inclui_hoje(hoje: Data)
    requires
        data_valida(hoje),
        proximo_dia_spec(hoje) is Some,
    ensures
        dia_absoluto(Data { dia: 1, ..hoje }) <= dia_absoluto(hoje),
        dia_absoluto(hoje) < dia_absoluto(proximo_dia_spec(hoje)->0),
        dia_absoluto(proximo_dia_spec(hoje)->0) == dia_absoluto(hoje) + 1,
{
    crate::datahora::lema_proximo_dia(hoje);
}

/// As datas do período precisam ser `AAAA-MM-DD` legíveis antes de consultar.
pub fn validar_periodo(de: &str, ate: &str) -> (r: Result<(), ErroApp>)
    ensures
        analisar_data_spec(de@) is None ==> recusado(r, recusa_data(de@)),
        analisar_data_spec(de@) is Some && analisar_data_spec(ate@) is None ==> recusado(
            r,
            recusa_data(ate@),
        ),
        analisar_data_spec(de@) is Some && analisar_data_spec(ate@) is Some ==> r is Ok,
{
    analisar_data(de)?;
    analisar_data(ate)?;
    Ok(())
}

/// O cabeçalho a partir das contagens do período.
pub fn cabecalho_de(
    de: String,
    ate: String,
    viagens: u32,
    sem_chegada: u32,
    chegadas_manuais: u32,
    hodometro_completo: u32,
    emitido_em: String,
    emitido_por: String,
) -> (r: CabecalhoRelatorio)
    ensures
        r.de == de,
        r.ate == ate,
        r.viagens == viagens,
        r.sem_chegada == sem_chegada,
        r.sem_chegada_pct == porcentagem_spec(sem_chegada as int, viagens as int),
        r.chegadas_manuais == chegadas_manuais,
        r.chegadas_manuais_pct == porcentagem_spec(chegadas_manuais as int, viagens as int),
        r.hodometro_completo == hodometro_completo,
        r.hodometro_completo_pct == porcentagem_spec(hodometro_completo as int, viagens as int),
        r.emitido_em == emitido_em,
        r.emitido_por == emitido_por,
{
    CabecalhoRelatorio {
        de,
        ate,
        viagens,
        sem_chegada,
        sem_chegada_pct: porcentagem(sem_chegada, viagens),
        chegadas_manuais,
        chegadas_manuais_pct: porcentagem(chegadas_manuais, viagens),
        hodometro_completo,
        hodometro_completo_pct: porcentagem(hodometro_completo, viagens),
        emitido_em,
        emitido_por,
    }
}

/// `frota — modelo` ou `nome — matrícula`; sem o complemento, ou com ele vazio,
/// só o principal.
pub open spec fn rotulo_spec(principal: Seq<char>, complemento: Option<Seq<char>>) -> Seq<char> {
    match complemento {
        Some(m) => if m.len() > 0 {
            principal + lit(" — ") + m
        } else {
            principal
        },
        None => principal,
    }
}

pub fn rotulo(principal: &str, complemento: &Option<String>) -> (r: String)
    ensures
        r@ == rotulo_spec(principal@, vista(*complemento)),
{
    match complemento {
        Some(m) => if chars_de(m.as_str()).len() > 0 {
            let mut r = String::from_str(principal);
            r.append(" — ");
            r.append(m.as_str());
            r
        } else {
            texto(principal)
        },
        None => texto(principal),
    }
}

/// A lista de frotas com `, ` no lugar de cada `,`.
pub open spec fn virgulas_espacadas(s: Seq<char>) -> Seq<char>
    decreases s.len(),
{
    if s.len() == 0 {
        Seq::empty()
    } else if s.last() == ',' {
        virgulas_espacadas(s.drop_last()) + lit(", ")
    } else {
        virgulas_espacadas(s.drop_last()).push(s.last())
    }
}

/// O banco junta as frotas com `,`, sem espaço; a tela e o arquivo mostram
/// `, `.
pub fn frotas_legiveis(frotas: &Option<String>) -> (r: Option<String>)
    ensures
        match *frotas {
            Some(f) => r matches Some(g) && g@ == virgulas_espacadas(f@),
            None => r is None,
        },
{
    match frotas {
        Some(f) => {
            let v = chars_de(f.as_str());
            let mut r: Vec<char> = Vec::new();
            let mut i: usize = 0;
            while i < v.len()
                invariant
                    i <= v.len(),
                    r@ == virgulas_espacadas(v@.take(i as int)),
                decreases v.len() - i,
            {
                assert(v@.take(i + 1).drop_last() =~= v@.take(i as int));
                if v[i] == ',' {
                    anexar_str(&mut r, ", ");
                } else {
                    r.push(v[i]);
                }
                i = i + 1;
            }
            assert(v@.take(v.len() as int) =~= v@);
            Some(string_de(&r))
        },
        None => None,
    }
}

/// Uma linha do relatório de uso de veículo. As horas chegam em centésimos; as
/// contagens ausentes são zero, e a média ausente continua ausente.
pub fn linha_uso_veiculo(
    frota: &str,
    modelo: &Option<String>,
    viagens: i64,
    abertas: Option<i64>,
    horas_totais: Option<i64>,
    horas_media: Option<i64>,
    chegadas_manuais: Option<i64>,
    km: Option<i64>,
) -> (r: LinhaRelatorio)
    ensures
        r.rotulo@ == rotulo_spec(frota@, vista(*modelo)),
        r.viagens == viagens as u32,
        r.abertas == (match abertas { Some(a) => a, None => 0 }) as u32,
        r.horas_totais == (match horas_totais { Some(h) => h, None => 0 }),
        r.horas_media == horas_media,
        r.chegadas_manuais == (match chegadas_manuais { Some(c) => c, None => 0 }) as u32,
        r.km == km,
        r.veiculos_distintos is None,
        r.frotas is None,
{
    LinhaRelatorio {
        rotulo: rotulo(frota, modelo),
        viagens: viagens as u32,
        abertas: (match abertas {
            Some(a) => a,
            None => 0,
        }) as u32,
        horas_totais: match horas_totais {
            Some(h) => h,
            None => 0,
        },
        horas_media,
        chegadas_manuais: (match chegadas_manuais {
            Some(c) => c,
            None => 0,
        }) as u32,
        km,
        veiculos_distintos: None,
        frotas: None,
    }
}

/// Uma linha do relatório de uso por condutor.
pub fn linha_uso_motorista(
    nome: &str,
    matricula: &Option<String>,
    viagens: i64,
    veiculos_distintos: i64,
    frotas: &Option<String>,
    abertas: Option<i64>,
    horas_totais: Option<i64>,
    horas_media: Option<i64>,
    chegadas_manuais: Option<i64>,
) -> (r: LinhaRelatorio)
    ensures
        r.rotulo@ == rotulo_spec(nome@, vista(*matricula)),
        r.viagens == viagens as u32,
        r.veiculos_distintos == Some(veiculos_distintos as u32),
        match *frotas {
            Some(f) => r.frotas matches Some(g) && g@ == virgulas_espacadas(f@),
            None => r.frotas is None,
        },
        r.abertas == (match abertas { Some(a) => a, None => 0 }) as u32,
        r.horas_totais == (match horas_totais { Some(h) => h, None => 0 }),
        r.horas_media == horas_media,
        r.chegadas_manuais == (match chegadas_manuais { Some(c) => c, None => 0 }) as u32,
        r.km is None,
{
    LinhaRelatorio {
        rotulo: rotulo(nome, matricula),
        viagens: viagens as u32,
        veiculos_distintos: Some(veiculos_distintos as u32),
        frotas: frotas_legiveis(frotas),
        abertas: (match abertas {
            Some(a) => a,
            None => 0,
        }) as u32,
        horas_totais: match horas_totais {
            Some(h) => h,
            None => 0,
        },
        horas_media,
        chegadas_manuais: (match chegadas_manuais {
            Some(c) => c,
            None => 0,
        }) as u32,
        km: None,
    }
}

/// O detalhamento de quem pegou o carro, que cada linha de uso de veículo abre.
#[derive(Debug)]
pub struct DetalheViagem {
    pub motorista: String,
    pub dt_saida: String,
    pub dt_chegada: Option<String>,
    pub turno: String,
    pub destino: Option<String>,
    pub atividade: String,
    pub chegada_manual: bool,
    /// Centésimos de hora; `None` para viagem aberta.
    pub horas: Option<i64>,
}

/// A pasta do mês de início do período, `AAAA-MM`: é como a pasta da rede é
/// organizada.
pub fn pasta_do_mes(de: &str) -> (r: String)
    requires
        de@.len() >= 7,
        forall|i: int| 0 <= i < 7 ==> (#[trigger] de@[i] as u32) < 128,
    ensures
        r@ == de@.subrange(0, 7),
{
    let v = chars_de(de);
    let mut r: Vec<char> = Vec::new();
    let mut i: usize = 0;
    while i < 7
        invariant
            i <= 7,
            v@ == de@,
            v@.len() >= 7,
            r@ == v@.subrange(0, i as int),
        decreases 7 - i,
    {
        r.push(v[i]);
        i = i + 1;
        assert(r@ =~= v@.subrange(0, i as int));
    }
    string_de(&r)
}

pub open spec fn extensao_spec(f: Formato) -> Seq<char> {
    match f {
        Formato::Csv => lit("csv"),
        Formato::Html => lit("html"),
        Formato::Pdf => lit("html"),
    }
}

/// PDF sai da impressão do próprio navegador sobre o HTML: gerar PDF exigiria
/// uma engine de layout inteira para um botão de imprimir.
pub fn extensao(f: Formato) -> (r: &'static str)
    ensures
        r@ == extensao_spec(f),
{
    match f {
        Formato::Csv => "csv",
        Formato::Html => "html",
        Formato::Pdf => "html",
    }
}

/// O conteúdo do arquivo emitido.
pub fn conteudo(d: &RelatorioDados, f: Formato) -> (r: String)
    ensures
        f == Formato::Csv ==> r@ == csv_spec(*d),
        f != Formato::Csv ==> r@ == html_spec(*d),
{
    match f {
        Formato::Csv => csv(d),
        _ => html(d),
    }
}

/// `uso-veiculo_2026-09-01_a_2026-10-01.csv`.
pub fn nome_do_arquivo(tipo: TipoRelatorio, de: &str, ate: &str, f: Formato) -> (r: String)
    ensures
        r@ == arquivo_spec(tipo) + lit("_") + de@ + lit("_a_") + ate@ + lit(".") + extensao_spec(f),
{
    let mut r = String::from_str(tipo.arquivo());
    r.append("_");
    r.append(de);
    r.append("_a_");
    r.append(ate);
    r.append(".");
    r.append(extensao(f));
    r
}

} // verus!
