//! Data-hora do sistema: `YYYY-MM-DD HH:MM`, sempre local.
//!
//! Nenhuma função aqui aceita UTC ou epoch. O setor inteiro opera num fuso só,
//! e converter só criaria chance de erro num campo que o operador digita à mão.

use chrono::{Datelike, Timelike};
use vstd::prelude::*;

use crate::erro::{erro_sem_detalhe, lit, texto, ErroApp};
use crate::texto::{aparar, aparar_spec, chars_de, char_digito, digito, string_de};

verus! {

/// O menor e o maior ano que o calendário do `chrono` representa.
pub const ANO_MINIMO: i32 = -262143;
pub const ANO_MAXIMO: i32 = 262142;

/// Um dia do calendário gregoriano proléptico.
#[derive(Debug, Clone, Copy, PartialEq, Eq, Structural)]
pub struct Data {
    pub ano: i32,
    pub mes: u32,
    pub dia: u32,
}

/// Um instante local, com precisão de segundo.
#[derive(Debug, Clone, Copy, PartialEq, Eq, Structural)]
pub struct DataHora {
    pub ano: i32,
    pub mes: u32,
    pub dia: u32,
    pub hora: u32,
    pub minuto: u32,
    pub segundo: u32,
}

pub open spec fn bissexto(ano: int) -> bool {
    (ano % 4 == 0 && ano % 100 != 0) || ano % 400 == 0
}

pub open spec fn dias_no_mes(ano: int, mes: int) -> int {
    if mes == 2 {
        if bissexto(ano) {
            29
        } else {
            28
        }
    } else if mes == 4 || mes == 6 || mes == 9 || mes == 11 {
        30
    } else {
        31
    }
}

pub open spec fn data_valida(d: Data) -> bool {
    &&& ANO_MINIMO <= d.ano <= ANO_MAXIMO
    &&& 1 <= d.mes <= 12
    &&& 1 <= d.dia <= dias_no_mes(d.ano as int, d.mes as int)
}

pub open spec fn data_de(x: DataHora) -> Data {
    Data { ano: x.ano, mes: x.mes, dia: x.dia }
}

pub open spec fn datahora_valida(x: DataHora) -> bool {
    &&& data_valida(data_de(x))
    &&& x.hora < 24
    &&& x.minuto < 60
    &&& x.segundo < 60
}

/// Anos bissextos em `[0, ano)`, contados com sinal quando `ano` é negativo.
pub open spec fn bissextos_antes(ano: int) -> int {
    (ano + 3) / 4 - (ano + 99) / 100 + (ano + 399) / 400
}

pub open spec fn dias_antes_do_mes(ano: int, mes: int) -> int {
    let base: int = if mes == 1 {
        0
    } else if mes == 2 {
        31
    } else if mes == 3 {
        59
    } else if mes == 4 {
        90
    } else if mes == 5 {
        120
    } else if mes == 6 {
        151
    } else if mes == 7 {
        181
    } else if mes == 8 {
        212
    } else if mes == 9 {
        243
    } else if mes == 10 {
        273
    } else if mes == 11 {
        304
    } else {
        334
    };
    base + if mes > 2 && bissexto(ano) {
        1int
    } else {
        0int
    }
}

/// Dias desde 1º de janeiro do ano 0.
pub open spec fn dia_absoluto(d: Data) -> int {
    365 * d.ano + bissextos_antes(d.ano as int) + dias_antes_do_mes(d.ano as int, d.mes as int)
        + d.dia - 1
}

/// Segundos desde a meia-noite de 1º de janeiro do ano 0: a reta em que a
/// diferença entre dois instantes é uma subtração.
pub open spec fn instante(x: DataHora) -> int {
    dia_absoluto(data_de(x)) * 86400 + x.hora * 3600 + x.minuto * 60 + x.segundo
}

/// Divisão inteira que trunca em direção a zero, como a de Rust.
pub open spec fn dividir_truncando(a: int, b: int) -> int
    recommends
        b > 0,
{
    if a >= 0 {
        a / b
    } else {
        -((-a) / b)
    }
}

/// `TimeDelta::num_minutes` da diferença `depois - antes`.
pub open spec fn minutos_entre_spec(antes: DataHora, depois: DataHora) -> int {
    dividir_truncando(instante(depois) - instante(antes), 60)
}

/// `TimeDelta::num_days` da diferença `agora - x`.
pub open spec fn dias_atras_spec(x: DataHora, agora: DataHora) -> int {
    dividir_truncando(instante(agora) - instante(x), 86400)
}

fn dia_absoluto_exec(d: &Data) -> (r: i64)
    requires
        data_valida(*d),
    ensures
        r == dia_absoluto(*d),
{
    let ano = d.ano as i64;
    let deslocado = ano + 400000;
    let q4 = (deslocado + 3) / 4 - 100000;
    let q100 = (deslocado + 99) / 100 - 4000;
    let q400 = (deslocado + 399) / 400 - 1000;
    assert(q4 == (ano + 3) / 4);
    assert(q100 == (ano + 99) / 100);
    assert(q400 == (ano + 399) / 400);
    let bissexto_ano = (deslocado % 4 == 0 && deslocado % 100 != 0) || deslocado % 400 == 0;
    assert(bissexto_ano == bissexto(ano as int));
    let base: i64 = match d.mes {
        1 => 0,
        2 => 31,
        3 => 59,
        4 => 90,
        5 => 120,
        6 => 151,
        7 => 181,
        8 => 212,
        9 => 243,
        10 => 273,
        11 => 304,
        _ => 334,
    };
    let extra: i64 = if d.mes > 2 && bissexto_ano {
        1
    } else {
        0
    };
    365 * ano + (q4 - q100 + q400) + base + extra + d.dia as i64 - 1
}

/// O dia seguinte, ou `None` no último dia que o calendário representa.
pub open spec fn proximo_dia_spec(d: Data) -> Option<Data> {
    if d.dia < dias_no_mes(d.ano as int, d.mes as int) {
        Some(Data { dia: (d.dia + 1) as u32, ..d })
    } else if d.mes < 12 {
        Some(Data { ano: d.ano, mes: (d.mes + 1) as u32, dia: 1 })
    } else if d.ano < ANO_MAXIMO {
        Some(Data { ano: (d.ano + 1) as i32, mes: 1, dia: 1 })
    } else {
        None
    }
}

fn bissexto_exec(ano: i32) -> (r: bool)
    requires
        ANO_MINIMO <= ano <= ANO_MAXIMO,
    ensures
        r == bissexto(ano as int),
{
    let deslocado = ano as i64 + 400000;
    let r = (deslocado % 4 == 0 && deslocado % 100 != 0) || deslocado % 400 == 0;
    assert(r == bissexto(ano as int));
    r
}

fn dias_no_mes_exec(ano: i32, mes: u32) -> (r: u32)
    requires
        ANO_MINIMO <= ano <= ANO_MAXIMO,
    ensures
        r == dias_no_mes(ano as int, mes as int),
{
    if mes == 2 {
        if bissexto_exec(ano) {
            29
        } else {
            28
        }
    } else if mes == 4 || mes == 6 || mes == 9 || mes == 11 {
        30
    } else {
        31
    }
}

/// O dia seguinte é o dia absoluto seguinte.
pub proof fn lema_proximo_dia(d: Data)
    requires
        data_valida(d),
    ensures
        proximo_dia_spec(d) matches Some(n) ==> data_valida(n) && dia_absoluto(n) == dia_absoluto(
            d,
        ) + 1,
{
    if d.dia >= dias_no_mes(d.ano as int, d.mes as int) && d.mes >= 12 && d.ano < ANO_MAXIMO {
        lema_virada_de_ano(d.ano as int);
    }
}

proof fn lema_degrau(a: int, k: int)
    requires
        k == 4 || k == 100 || k == 400,
    ensures
        (a + k) / k - (a + k - 1) / k == if a % k == 0 {
            1int
        } else {
            0int
        },
{
    if k == 4 {
        assert((a + 4) / 4 - (a + 3) / 4 == if a % 4 == 0 {
            1int
        } else {
            0int
        });
    } else if k == 100 {
        assert((a + 100) / 100 - (a + 99) / 100 == if a % 100 == 0 {
            1int
        } else {
            0int
        });
    } else {
        assert((a + 400) / 400 - (a + 399) / 400 == if a % 400 == 0 {
            1int
        } else {
            0int
        });
    }
}

pub(crate) proof fn lema_virada_de_ano(a: int)
    ensures
        bissextos_antes(a + 1) - bissextos_antes(a) == if bissexto(a) {
            1int
        } else {
            0int
        },
{
    lema_degrau(a, 4);
    lema_degrau(a, 100);
    lema_degrau(a, 400);
    assert(a % 100 == 0 ==> a % 4 == 0);
    assert(a % 400 == 0 ==> a % 100 == 0);
}

/// Como `NaiveDate::succ_opt`: o dia seguinte é o dia absoluto seguinte, e só
/// não existe no último dia representável.
pub fn proximo_dia(d: &Data) -> (r: Option<Data>)
    requires
        data_valida(*d),
    ensures
        r == proximo_dia_spec(*d),
        match r {
            Some(n) => data_valida(n) && dia_absoluto(n) == dia_absoluto(*d) + 1,
            None => d.ano == ANO_MAXIMO && d.mes == 12 && d.dia == 31,
        },
{
    if d.dia < dias_no_mes_exec(d.ano, d.mes) {
        Some(Data { dia: d.dia + 1, ..*d })
    } else if d.mes < 12 {
        Some(Data { ano: d.ano, mes: d.mes + 1, dia: 1 })
    } else if d.ano < ANO_MAXIMO {
        proof {
            lema_virada_de_ano(d.ano as int);
        }
        Some(Data { ano: d.ano + 1, mes: 1, dia: 1 })
    } else {
        None
    }
}

/// O primeiro dia do mês de `d`.
pub fn primeiro_do_mes(d: &Data) -> (r: Data)
    requires
        data_valida(*d),
    ensures
        r == (Data { dia: 1, ..*d }),
        data_valida(r),
{
    Data { dia: 1, ..*d }
}

pub fn instante_exec(x: &DataHora) -> (r: i64)
    requires
        datahora_valida(*x),
    ensures
        r == instante(*x),
{
    let d = Data { ano: x.ano, mes: x.mes, dia: x.dia };
    let dias = dia_absoluto_exec(&d);
    dias * 86400 + x.hora as i64 * 3600 + x.minuto as i64 * 60 + x.segundo as i64
}

fn dividir_truncando_exec(a: i64, b: i64) -> (r: i64)
    requires
        b > 0,
        a > i64::MIN,
    ensures
        r == dividir_truncando(a as int, b as int),
{
    if a >= 0 {
        a / b
    } else {
        -((-a) / b)
    }
}

/// Minutos inteiros de `antes` a `depois`, truncados em direção a zero.
pub fn minutos_entre(antes: &DataHora, depois: &DataHora) -> (r: i64)
    requires
        datahora_valida(*antes),
        datahora_valida(*depois),
    ensures
        r == minutos_entre_spec(*antes, *depois),
{
    dividir_truncando_exec(instante_exec(depois) - instante_exec(antes), 60)
}

/// Dias inteiros de `x` até `agora`, truncados em direção a zero.
pub fn dias_atras(x: &DataHora, agora: &DataHora) -> (r: i64)
    requires
        datahora_valida(*x),
        datahora_valida(*agora),
    ensures
        r == dias_atras_spec(*x, *agora),
{
    dividir_truncando_exec(instante_exec(agora) - instante_exec(x), 86400)
}

/// Uma data-hora está no futuro quando passa de `agora` por mais que a folga.
/// A folga existe porque o relógio da estação e o do servidor divergem alguns
/// segundos, e recusar por isso seria incompreensível para quem digita.
pub open spec fn no_futuro_alem_de_spec(x: DataHora, minutos: int, agora: DataHora) -> bool {
    instante(x) > instante(agora) + minutos * 60
}

pub fn no_futuro_alem_de(x: &DataHora, minutos: i64, agora: &DataHora) -> (r: bool)
    requires
        datahora_valida(*x),
        datahora_valida(*agora),
        0 <= minutos <= 1_000_000,
    ensures
        r == no_futuro_alem_de_spec(*x, minutos as int, *agora),
{
    instante_exec(x) > instante_exec(agora) + minutos * 60
}


pub const FORMATO: &'static str = "%Y-%m-%d %H:%M";
pub const FORMATO_DATA: &'static str = "%Y-%m-%d";
/// O formato do carimbo de `controle.lock.info`: aqui a diferença de segundos
/// entre duas batidas é a informação, não ruído.
pub const FORMATO_CARIMBO: &'static str = "%Y-%m-%dT%H:%M:%S";
/// Usado no nome do arquivo de backup, onde `:` é inválido no Windows.
pub const FORMATO_ARQUIVO: &'static str = "%Y-%m-%d_%H%M";
/// Só a hora, como a tela de bloqueio mostra o início da sessão.
pub const FORMATO_HORA: &'static str = "%H:%M";

/// O que `NaiveDateTime::parse_from_str(texto, formato)` do `chrono` lê.
pub uninterp spec fn leitura_chrono(texto: Seq<char>, formato: Seq<char>) -> Option<DataHora>;

/// O que `NaiveDate::parse_from_str(texto, formato)` do `chrono` lê.
pub uninterp spec fn leitura_data_chrono(texto: Seq<char>, formato: Seq<char>) -> Option<Data>;

/// O que `NaiveDateTime::format(formato)` do `chrono` escreve para `x`.
pub uninterp spec fn escrita_chrono(x: DataHora, formato: Seq<char>) -> Seq<char>;

pub open spec fn dois_digitos(n: int) -> Seq<char> {
    seq![digito(n / 10), digito(n % 10)]
}

pub open spec fn quatro_digitos(n: int) -> Seq<char> {
    seq![digito(n / 1000), digito((n / 100) % 10), digito((n / 10) % 10), digito(n % 10)]
}

/// `AAAA-MM-DD`.
pub open spec fn texto_data(x: DataHora) -> Seq<char> {
    quatro_digitos(x.ano as int) + seq!['-'] + dois_digitos(x.mes as int) + seq!['-']
        + dois_digitos(x.dia as int)
}

/// `AAAA-MM-DD HH:MM`.
pub open spec fn texto_datahora(x: DataHora) -> Seq<char> {
    texto_data(x) + seq![' '] + dois_digitos(x.hora as int) + seq![':'] + dois_digitos(
        x.minuto as int,
    )
}

/// `AAAA-MM-DD_HHMM`.
pub open spec fn texto_arquivo(x: DataHora) -> Seq<char> {
    texto_data(x) + seq!['_'] + dois_digitos(x.hora as int) + dois_digitos(x.minuto as int)
}

/// `HH:MM`.
pub open spec fn texto_hora(x: DataHora) -> Seq<char> {
    dois_digitos(x.hora as int) + seq![':'] + dois_digitos(x.minuto as int)
}

/// `AAAA-MM-DDTHH:MM:SS`.
pub open spec fn texto_carimbo(x: DataHora) -> Seq<char> {
    texto_data(x) + seq!['T'] + dois_digitos(x.hora as int) + seq![':'] + dois_digitos(
        x.minuto as int,
    ) + seq![':'] + dois_digitos(x.segundo as int)
}

/// Chama `NaiveDateTime::parse_from_str` do `chrono`. O contrato dá nome ao que
/// é lido e afirma o que o tipo do `chrono` garante: só existe data-hora válida,
/// e um formato sem `%S` lê segundo zero.
#[verifier::external_body]
fn ler_datahora_chrono(texto: &str, formato: &str) -> (r: Option<DataHora>)
    ensures
        r == leitura_chrono(texto@, formato@),
        r matches Some(x) ==> datahora_valida(x),
        formato@ == FORMATO@ ==> (r matches Some(x) ==> x.segundo == 0),
{
    match chrono::NaiveDateTime::parse_from_str(texto, formato) {
        Ok(d) => Some(
            DataHora {
                ano: d.year(),
                mes: d.month(),
                dia: d.day(),
                hora: d.hour(),
                minuto: d.minute(),
                segundo: d.second(),
            },
        ),
        Err(_) => None,
    }
}

/// Chama `NaiveDate::parse_from_str` do `chrono`. O contrato dá nome ao que é
/// lido e afirma que só existe data válida.
#[verifier::external_body]
fn ler_data_chrono(texto: &str, formato: &str) -> (r: Option<Data>)
    ensures
        r == leitura_data_chrono(texto@, formato@),
        r matches Some(d) ==> data_valida(d),
{
    match chrono::NaiveDate::parse_from_str(texto, formato) {
        Ok(d) => Some(Data { ano: d.year(), mes: d.month(), dia: d.day() }),
        Err(_) => None,
    }
}

/// Os cinco formatos que o sistema escreve. Um especificador que o `chrono`
/// não conhece faria a escrita falhar, e `to_string` entrar em pânico.
pub open spec fn formato_do_sistema(f: Seq<char>) -> bool {
    f == FORMATO@ || f == FORMATO_DATA@ || f == FORMATO_ARQUIVO@ || f == FORMATO_CARIMBO@
        || f == FORMATO_HORA@
}

/// Chama `NaiveDateTime::format` do `chrono` e escreve o resultado. O contrato
/// dá nome ao texto e afirma, para os formatos que o sistema usa (com anos de 0
/// a 9999 quando o formato tem `%Y`), o que a documentação de `%Y`, `%m`, `%d`,
/// `%H`, `%M` e `%S` diz: números com zeros à esquerda, ano com quatro dígitos.
#[verifier::external_body]
fn escrever_chrono(x: &DataHora, formato: &str) -> (r: String)
    requires
        datahora_valida(*x),
        formato_do_sistema(formato@),
    ensures
        r@ == escrita_chrono(*x, formato@),
        0 <= x.ano <= 9999 && formato@ == FORMATO@ ==> r@ == texto_datahora(*x),
        0 <= x.ano <= 9999 && formato@ == FORMATO_DATA@ ==> r@ == texto_data(*x),
        0 <= x.ano <= 9999 && formato@ == FORMATO_ARQUIVO@ ==> r@ == texto_arquivo(*x),
        0 <= x.ano <= 9999 && formato@ == FORMATO_CARIMBO@ ==> r@ == texto_carimbo(*x),
        formato@ == FORMATO_HORA@ ==> r@ == texto_hora(*x),
{
    let data = chrono::NaiveDate::from_ymd_opt(x.ano, x.mes, x.dia).unwrap_or_default();
    let momento = data.and_hms_opt(x.hora, x.minuto, x.segundo).unwrap_or_default();
    momento.format(formato).to_string()
}

/// Um instante do relógio: a data-hora em segundos inteiros e a fração de
/// segundo, em nanossegundos.
#[derive(Debug, Clone, Copy, PartialEq, Eq, Structural)]
pub struct Momento {
    pub datahora: DataHora,
    pub nanos: u32,
}

/// Chama `chrono::Local::now`: o relógio local da estação. O contrato diz que a
/// data-hora é válida e que a fração de segundo fica abaixo de um segundo: o
/// `chrono` monta o instante com os `subsec_nanos` do relógio do sistema.
#[verifier::external_body]
pub fn agora() -> (r: Momento)
    ensures
        datahora_valida(r.datahora),
        r.nanos < 1_000_000_000,
{
    let d = chrono::Local::now().naive_local();
    Momento {
        datahora: DataHora {
            ano: d.year(),
            mes: d.month(),
            dia: d.day(),
            hora: d.hour(),
            minuto: d.minute(),
            segundo: d.second(),
        },
        nanos: d.nanosecond(),
    }
}

pub open spec fn meia_noite(d: Data) -> DataHora {
    DataHora { ano: d.ano, mes: d.mes, dia: d.dia, hora: 0, minuto: 0, segundo: 0 }
}

/// `texto` aparado e lido como `AAAA-MM-DD HH:MM`.
pub open spec fn analisar_spec(t: Seq<char>) -> Option<DataHora> {
    leitura_chrono(aparar_spec(t), FORMATO@)
}

pub open spec fn analisar_data_spec(t: Seq<char>) -> Option<Data> {
    leitura_data_chrono(aparar_spec(t), FORMATO_DATA@)
}

pub fn concatenar3(a: &str, b: &str, c: &str) -> (r: String)
    ensures
        r@ == a@ + b@ + c@,
{
    let mut r = String::from_str(a);
    r.append(b);
    r.append(c);
    r
}

/// Lê uma data-hora digitada. Só aceita `AAAA-MM-DD HH:MM`: sem segundos, sem
/// `T`, sem epoch.
pub fn analisar(t: &str) -> (r: Result<DataHora, ErroApp>)
    ensures
        match analisar_spec(t@) {
            Some(x) => r == Ok::<DataHora, ErroApp>(x) && datahora_valida(x) && x.segundo == 0,
            None => r matches Err(e) && erro_sem_detalhe(
                e,
                "VALIDACAO",
                lit("Data-hora inválida: \"") + t@ + lit("\". Use o formato AAAA-MM-DD HH:MM."),
            ),
        },
{
    let aparado = string_de(&aparar(&chars_de(t)));
    match ler_datahora_chrono(aparado.as_str(), FORMATO) {
        Some(x) => Ok(x),
        None => Err(
            ErroApp::validacao(
                concatenar3("Data-hora inválida: \"", t, "\". Use o formato AAAA-MM-DD HH:MM."),
            ),
        ),
    }
}

/// Lê uma data `AAAA-MM-DD`.
pub fn analisar_data(t: &str) -> (r: Result<Data, ErroApp>)
    ensures
        match analisar_data_spec(t@) {
            Some(d) => r == Ok::<Data, ErroApp>(d) && data_valida(d),
            None => r matches Err(e) && erro_sem_detalhe(
                e,
                "VALIDACAO",
                lit("Data inválida: \"") + t@ + lit("\". Use AAAA-MM-DD."),
            ),
        },
{
    let aparado = string_de(&aparar(&chars_de(t)));
    match ler_data_chrono(aparado.as_str(), FORMATO_DATA) {
        Some(d) => Ok(d),
        None => Err(
            ErroApp::validacao(concatenar3("Data inválida: \"", t, "\". Use AAAA-MM-DD.")),
        ),
    }
}

/// `AAAA-MM-DD HH:MM`.
pub fn formatar(x: &DataHora) -> (r: String)
    requires
        datahora_valida(*x),
    ensures
        r@ == escrita_chrono(*x, FORMATO@),
        0 <= x.ano <= 9999 ==> r@ == texto_datahora(*x),
{
    escrever_chrono(x, FORMATO)
}

/// `AAAA-MM-DD`.
pub fn formatar_data(d: &Data) -> (r: String)
    requires
        data_valida(*d),
    ensures
        r@ == escrita_chrono(meia_noite(*d), FORMATO_DATA@),
        0 <= d.ano <= 9999 ==> r@ == texto_data(meia_noite(*d)),
{
    let x = DataHora { ano: d.ano, mes: d.mes, dia: d.dia, hora: 0, minuto: 0, segundo: 0 };
    escrever_chrono(&x, FORMATO_DATA)
}

/// `AAAA-MM-DD_HHMM`, o carimbo do nome de arquivo de backup.
pub fn formatar_para_arquivo(x: &DataHora) -> (r: String)
    requires
        datahora_valida(*x),
    ensures
        r@ == escrita_chrono(*x, FORMATO_ARQUIVO@),
        0 <= x.ano <= 9999 ==> r@ == texto_arquivo(*x),
{
    escrever_chrono(x, FORMATO_ARQUIVO)
}

/// `AAAA-MM-DDTHH:MM:SS`, o carimbo de `controle.lock.info`.
pub fn formatar_carimbo(x: &DataHora) -> (r: String)
    requires
        datahora_valida(*x),
    ensures
        r@ == escrita_chrono(*x, FORMATO_CARIMBO@),
        0 <= x.ano <= 9999 ==> r@ == texto_carimbo(*x),
{
    escrever_chrono(x, FORMATO_CARIMBO)
}

/// `HH:MM`.
pub fn formatar_hora(x: &DataHora) -> (r: String)
    requires
        datahora_valida(*x),
    ensures
        r@ == escrita_chrono(*x, FORMATO_HORA@),
        r@ == texto_hora(*x),
{
    escrever_chrono(x, FORMATO_HORA)
}

/// Lê o carimbo `AAAA-MM-DDTHH:MM:SS` de `controle.lock.info`.
pub fn analisar_carimbo(t: &str) -> (r: Option<DataHora>)
    ensures
        r == leitura_chrono(t@, FORMATO_CARIMBO@),
        r matches Some(x) ==> datahora_valida(x),
{
    ler_datahora_chrono(t, FORMATO_CARIMBO)
}


/// Anexa `n` com dois algarismos, zero à esquerda.
pub fn anexar_dois_digitos(s: &mut Vec<char>, n: u32)
    requires
        n < 100,
    ensures
        final(s)@ == old(s)@ + dois_digitos(n as int),
{
    s.push(char_digito((n / 10) as u64));
    s.push(char_digito((n % 10) as u64));
    assert(s@ =~= old(s)@ + dois_digitos(n as int));
}

} // verus!
