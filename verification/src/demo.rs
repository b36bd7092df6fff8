//! Base fictícia da apresentação.
//!
//! É o entregável de verdade do modo demonstração: tela vazia não apresenta
//! nada, e dado fictício mal feito apresenta pior ainda. Cada coisa aqui existe
//! para que uma parte do roteiro tenha o que mostrar. O plano é montado aqui;
//! quem grava no banco é o programa em volta.

use chrono::{Datelike, Timelike};
use vstd::prelude::*;

use crate::datahora::{
    bissextos_antes, data_de, datahora_valida, dia_absoluto, instante, lema_virada_de_ano, DataHora,
    ANO_MAXIMO, ANO_MINIMO,
};
use crate::erro::{lit, texto};
use crate::nome::{frota_norm, frota_norm_spec, nome_norm, nome_norm_spec};
use crate::regras::{em_aberto, regras_de_ouro, Registro};

verus! {

/// Um passo do xorshift de 64 bits.
#[verifier::opaque]
pub open spec fn xorshift(x: u64) -> u64 {
    let a = x ^ (x << 13u64);
    let b = a ^ (a >> 7u64);
    b ^ (b << 17u64)
}

/// O estado do sorteio depois de `n` passos a partir de `x`.
pub open spec fn avancado(x: u64, n: nat) -> u64
    decreases n,
{
    if n == 0 {
        x
    } else {
        xorshift(avancado(x, (n - 1) as nat))
    }
}

/// O `n`-ésimo número sorteado a partir do estado `x` (o primeiro é `n == 1`),
/// em `0 .. limite`.
pub open spec fn sorteado(x: u64, n: nat, limite: u64) -> int {
    (avancado(x, n) % limite) as int
}

/// Gerador determinístico: a mesma apresentação duas vezes mostra os mesmos
/// números, e sorteio diferente a cada abertura atrapalharia quem está
/// ensaiando a fala.
#[derive(Debug)]
pub struct Sorteio(pub u64);

impl Sorteio {
    /// Avança o estado um passo e devolve um número em `0 .. limite` (em `0 .. 1`
    /// com limite zero).
    pub fn proximo(&mut self, limite: u64) -> (r: u64)
        ensures
            final(self).0 == xorshift(old(self).0),
            r == xorshift(old(self).0) % (if limite == 0 {
                1
            } else {
                limite
            }),
            limite > 0 ==> r < limite,
            limite == 0 ==> r == 0,
    {
        proof {
            reveal(xorshift);
        }
        let x = self.0;
        let a = x ^ (x << 13u64);
        let b = a ^ (a >> 7u64);
        let c = b ^ (b << 17u64);
        self.0 = c;
        let m: u64 = if limite == 0 {
            1
        } else {
            limite
        };
        c % m
    }
}

/// A semente do sorteio da demonstração.
pub const SEMENTE: u64 = 0x5EED_1234_ABCD_0001;

/// Quantos passos do sorteio uma viagem fechada consome: nove, ou onze quando
/// ela leva hodômetro.
pub open spec fn passos_da_fechada(s: u64) -> nat {
    if sorteado(s, 7, 3) != 0 {
        11
    } else {
        9
    }
}

/// O estado depois de `n` viagens fechadas sorteadas a partir de `s`.
pub open spec fn apos_fechadas(s: u64, n: nat) -> u64
    decreases n,
{
    if n == 0 {
        s
    } else {
        apos_fechadas(avancado(s, passos_da_fechada(s)), (n - 1) as nat)
    }
}

/// O histórico fechado, do dia `dias_atras` até o dia 2 antes de agora, a
/// partir do estado `s`: quantas viagens, e o estado ao fim. Cada dia sorteia
/// de uma a três viagens.
pub open spec fn historico(s: u64, dias_atras: int) -> (nat, u64)
    decreases dias_atras,
{
    if dias_atras < 2 {
        (0, s)
    } else {
        let q = (1 + sorteado(s, 1, 3)) as nat;
        let depois = historico(apos_fechadas(avancado(s, 1), q), dias_atras - 1);
        (q + depois.0, depois.1)
    }
}

/// Com a semente da demonstração, o histórico fechado tem 128 viagens.
proof fn lema_historico_da_semente()
    ensures
        historico(SEMENTE, 60).0 == 128,
{
    reveal(xorshift);
    assert(historico(SEMENTE, 60).0 == 128) by (bit_vector);
}

/// O primeiro e o último instante que o calendário representa.
pub open spec fn no_calendario(s: int) -> bool {
    instante(DataHora { ano: ANO_MINIMO, mes: 1, dia: 1, hora: 0, minuto: 0, segundo: 0 }) <= s
        <= instante(
        DataHora { ano: ANO_MAXIMO, mes: 12, dia: 31, hora: 23, minuto: 59, segundo: 59 },
    )
}

/// O primeiro dia do ano `a`, contado como `dia_absoluto`.
pub open spec fn inicio_do_ano(a: int) -> int {
    365 * a + bissextos_antes(a)
}

proof fn lema_inicio_do_ano_cresce(a: int, b: int)
    requires
        a <= b,
    ensures
        inicio_do_ano(a) <= inicio_do_ano(b),
{
    assert((a + 3) / 4 <= (b + 3) / 4);
    assert((a + 399) / 400 <= (b + 399) / 400);
    assert((b + 99) / 100 - (a + 99) / 100 <= b - a + 1);
    if a < b {
        assert(inicio_do_ano(b) - inicio_do_ano(a) >= 365 * (b - a) - (b - a + 1));
    }
}

/// Toda data-hora válida cai dentro do calendário que o `chrono` representa.
proof fn lema_valida_no_calendario(x: DataHora)
    requires
        datahora_valida(x),
    ensures
        no_calendario(instante(x)),
{
    let a = x.ano as int;
    lema_virada_de_ano(a);
    lema_virada_de_ano(ANO_MAXIMO as int);
    lema_inicio_do_ano_cresce(ANO_MINIMO as int, a);
    lema_inicio_do_ano_cresce(a + 1, ANO_MAXIMO as int + 1);
    let d = dia_absoluto(data_de(x));
    assert(inicio_do_ano(a) <= d);
    assert(d <= inicio_do_ano(a + 1) - 1);
}

/// Chama `NaiveDateTime::checked_add_signed` do `chrono` com
/// `TimeDelta::try_seconds`. O contrato afirma o que a documentação dá: o
/// resultado é o instante deslocado de `segundos`, e só falta quando sai do
/// calendário.
#[verifier::external_body]
fn deslocar(x: &DataHora, segundos: i64) -> (r: Option<DataHora>)
    requires
        datahora_valida(*x),
        -1_000_000_000 <= segundos <= 1_000_000_000,
    ensures
        r matches Some(y) ==> datahora_valida(y) && instante(y) == instante(*x) + segundos,
        no_calendario(instante(*x) + segundos) ==> r is Some,
{
    let d = chrono::NaiveDate::from_ymd_opt(x.ano, x.mes, x.dia)?;
    let d = d.and_hms_opt(x.hora, x.minuto, x.segundo)?;
    let y = d.checked_add_signed(chrono::TimeDelta::try_seconds(segundos)?)?;
    let (ano, mes, dia) = (y.year(), y.month(), y.day());
    Some(DataHora { ano, mes, dia, hora: y.hour(), minuto: y.minute(), segundo: y.second() })
}

#[derive(Debug)]
pub struct VeiculoDemo {
    pub frota: String,
    pub modelo: String,
    pub marca: String,
    pub ano: i64,
    pub tipo: String,
    pub hodometro_atual: i64,
}

#[derive(Debug)]
pub struct MotoristaDemo {
    pub nome: String,
    pub nome_norm: String,
    pub matricula: String,
    pub setor: String,
}

/// Uma viagem fictícia; `chegada` ausente é viagem aberta.
#[derive(Debug)]
pub struct ViagemDemo {
    pub veiculo_id: i64,
    pub motorista_id: i64,
    pub turno: String,
    pub destino: String,
    pub atividade: String,
    pub saida: DataHora,
    pub chegada: Option<DataHora>,
    pub hodometro_saida: Option<i64>,
    pub hodometro_chegada: Option<i64>,
    pub chegada_manual: bool,
}

#[derive(Debug)]
pub struct PlanoDemo {
    pub veiculos: Vec<VeiculoDemo>,
    pub motoristas: Vec<MotoristaDemo>,
    pub viagens: Vec<ViagemDemo>,
}

pub const QUANTOS_VEICULOS: u64 = 8;

pub const QUANTOS_MOTORISTAS: u64 = 10;

/// Os veículos da demonstração: frota, modelo, marca, ano e tipo.
pub open spec fn veiculo_spec(i: int) -> (Seq<char>, Seq<char>, Seq<char>, int, Seq<char>) {
    if i == 0 {
        (lit("907015"), lit("Saveiro"), lit("Volkswagen"), 2021, lit("Utilitário"))
    } else if i == 1 {
        (lit("907018"), lit("Strada"), lit("Fiat"), 2022, lit("Utilitário"))
    } else if i == 2 {
        (lit("907022"), lit("Hilux"), lit("Toyota"), 2020, lit("Caminhonete"))
    } else if i == 3 {
        (lit("907031"), lit("Ranger"), lit("Ford"), 2019, lit("Caminhonete"))
    } else if i == 4 {
        (lit("907044"), lit("Kombi"), lit("Volkswagen"), 2015, lit("Van"))
    } else if i == 5 {
        (lit("907050"), lit("Ducato"), lit("Fiat"), 2023, lit("Van"))
    } else if i == 6 {
        (lit("907061"), lit("Onix"), lit("Chevrolet"), 2022, lit("Passeio"))
    } else {
        (lit("907073"), lit("Gol"), lit("Volkswagen"), 2018, lit("Passeio"))
    }
}

fn veiculo_da_tabela(i: u64) -> (r: (&'static str, &'static str, &'static str, i64, &'static str))
    requires
        i < QUANTOS_VEICULOS,
    ensures
        (r.0@, r.1@, r.2@, r.3 as int, r.4@) == veiculo_spec(i as int),
        2015 <= r.3 <= 2023,
{
    match i {
        0 => ("907015", "Saveiro", "Volkswagen", 2021, "Utilitário"),
        1 => ("907018", "Strada", "Fiat", 2022, "Utilitário"),
        2 => ("907022", "Hilux", "Toyota", 2020, "Caminhonete"),
        3 => ("907031", "Ranger", "Ford", 2019, "Caminhonete"),
        4 => ("907044", "Kombi", "Volkswagen", 2015, "Van"),
        5 => ("907050", "Ducato", "Fiat", 2023, "Van"),
        6 => ("907061", "Onix", "Chevrolet", 2022, "Passeio"),
        _ => ("907073", "Gol", "Volkswagen", 2018, "Passeio"),
    }
}

/// Os condutores da demonstração: nome, matrícula e setor.
/// `ANGELO JUNIOR` e `ANJELO JUNIOR` são propositais: é com eles que o alerta
/// de nome parecido tem o que alertar na apresentação.
pub open spec fn motorista_spec(i: int) -> (Seq<char>, Seq<char>, Seq<char>) {
    if i == 0 {
        (lit("Angelo Junior"), lit("40122"), lit("Logística"))
    } else if i == 1 {
        (lit("Anjelo Junior"), lit("40871"), lit("Logística"))
    } else if i == 2 {
        (lit("José Carlos da Silva"), lit("40233"), lit("Logística"))
    } else if i == 3 {
        (lit("Maria das Graças Lima"), lit("40344"), lit("Logística"))
    } else if i == 4 {
        (lit("Antônio Ferreira"), lit("40455"), lit("Manutenção"))
    } else if i == 5 {
        (lit("Cícero Nascimento"), lit("40566"), lit("Logística"))
    } else if i == 6 {
        (lit("Rosângela Alves"), lit("40677"), lit("Administrativo"))
    } else if i == 7 {
        (lit("Paulo Sérgio Rocha"), lit("40788"), lit("Logística"))
    } else if i == 8 {
        (lit("Francisco de Assis"), lit("40899"), lit("Manutenção"))
    } else {
        (lit("Luciana Cavalcanti"), lit("40911"), lit("Logística"))
    }
}

fn motorista_da_tabela(i: u64) -> (r: (&'static str, &'static str, &'static str))
    requires
        i < QUANTOS_MOTORISTAS,
    ensures
        (r.0@, r.1@, r.2@) == motorista_spec(i as int),
{
    match i {
        0 => ("Angelo Junior", "40122", "Logística"),
        1 => ("Anjelo Junior", "40871", "Logística"),
        2 => ("José Carlos da Silva", "40233", "Logística"),
        3 => ("Maria das Graças Lima", "40344", "Logística"),
        4 => ("Antônio Ferreira", "40455", "Manutenção"),
        5 => ("Cícero Nascimento", "40566", "Logística"),
        6 => ("Rosângela Alves", "40677", "Administrativo"),
        7 => ("Paulo Sérgio Rocha", "40788", "Logística"),
        8 => ("Francisco de Assis", "40899", "Manutenção"),
        _ => ("Luciana Cavalcanti", "40911", "Logística"),
    }
}

/// Os destinos que o sorteio escolhe.
pub open spec fn destino_spec(i: int) -> Seq<char> {
    if i == 0 {
        lit("Portaria principal")
    } else if i == 1 {
        lit("Campo 7")
    } else if i == 2 {
        lit("Oficina central")
    } else if i == 3 {
        lit("Almoxarifado")
    } else if i == 4 {
        lit("Balança")
    } else if i == 5 {
        lit("Escritório da usina")
    } else if i == 6 {
        lit("Recife — matriz")
    } else {
        lit("Destilaria")
    }
}

fn destino_da_tabela(i: u64) -> (r: &'static str)
    requires
        i < 8,
    ensures
        r@ == destino_spec(i as int),
{
    match i {
        0 => "Portaria principal",
        1 => "Campo 7",
        2 => "Oficina central",
        3 => "Almoxarifado",
        4 => "Balança",
        5 => "Escritório da usina",
        6 => "Recife — matriz",
        _ => "Destilaria",
    }
}

/// As atividades que o sorteio escolhe.
pub open spec fn atividade_spec(i: int) -> Seq<char> {
    if i == 0 {
        lit("Transporte de equipe")
    } else if i == 1 {
        lit("Entrega de material")
    } else if i == 2 {
        lit("Vistoria de campo")
    } else if i == 3 {
        lit("Apoio à manutenção")
    } else if i == 4 {
        lit("Coleta de amostras")
    } else {
        lit("Transporte administrativo")
    }
}

fn atividade_da_tabela(i: u64) -> (r: &'static str)
    requires
        i < 6,
    ensures
        r@ == atividade_spec(i as int),
{
    match i {
        0 => "Transporte de equipe",
        1 => "Entrega de material",
        2 => "Vistoria de campo",
        3 => "Apoio à manutenção",
        4 => "Coleta de amostras",
        _ => "Transporte administrativo",
    }
}

/// O turno pela hora de saída: C de madrugada, A até as 14 h, B depois.
pub open spec fn turno_da_hora(hora: u32) -> Seq<char> {
    if hora <= 6 {
        lit("C")
    } else if hora <= 14 {
        lit("A")
    } else {
        lit("B")
    }
}

fn turno_de(hora: u32) -> (r: String)
    ensures
        r@ == turno_da_hora(hora),
{
    if hora <= 6 {
        texto("C")
    } else if hora <= 14 {
        texto("A")
    } else {
        texto("B")
    }
}

/// O que toda viagem fictícia cumpre: cadastros que existem, turno da hora de
/// saída, chegada depois da saída, e hodômetro que não anda para trás.
pub open spec fn viagem_coerente(v: ViagemDemo) -> bool {
    &&& 1 <= v.veiculo_id <= QUANTOS_VEICULOS
    &&& 1 <= v.motorista_id <= QUANTOS_MOTORISTAS
    &&& datahora_valida(v.saida)
    &&& v.turno@ == turno_da_hora(v.saida.hora)
    &&& v.chegada matches Some(c) ==> datahora_valida(c) && instante(c) > instante(v.saida)
    &&& v.hodometro_chegada matches Some(hc) ==> (v.hodometro_saida matches Some(hs) && hs <= hc)
}

/// As viagens como as regras de ouro as leem.
pub open spec fn registros_de(vs: Seq<ViagemDemo>) -> Seq<Registro> {
    Seq::new(
        vs.len(),
        |k: int|
            Registro {
                id: (k + 1) as i64,
                veiculo_id: vs[k].veiculo_id,
                motorista_id: vs[k].motorista_id,
                encerrada: vs[k].chegada is Some,
                excluida: false,
            },
    )
}

/// O condutor de cada viagem aberta da demonstração, pelo veículo.
pub open spec fn condutor_da_aberta(veiculo: i64) -> i64 {
    if veiculo == 1 {
        1
    } else if veiculo == 2 {
        3
    } else if veiculo == 3 {
        4
    } else {
        6
    }
}

/// As viagens abertas vêm por último, em ordem crescente de veículo, cada
/// veículo com o seu condutor.
pub open spec fn abertas_ordenadas(vs: Seq<ViagemDemo>, ultimo: int) -> bool {
    &&& forall|k: int|
        0 <= k < vs.len() && (#[trigger] vs[k]).chegada is None ==> {
            &&& vs[k].veiculo_id <= ultimo
            &&& (vs[k].veiculo_id == 1 || vs[k].veiculo_id == 2 || vs[k].veiculo_id == 3
                || vs[k].veiculo_id == 5)
            &&& vs[k].motorista_id == condutor_da_aberta(vs[k].veiculo_id)
        }
    &&& forall|k1: int, k2: int|
        0 <= k1 < k2 < vs.len() && (#[trigger] vs[k1]).chegada is None && (#[trigger] vs[
            k2
        ]).chegada is None ==> vs[k1].veiculo_id < vs[k2].veiculo_id
}

proof fn lema_abertas_respeitam_regras(vs: Seq<ViagemDemo>, ultimo: int)
    requires
        abertas_ordenadas(vs, ultimo),
    ensures
        regras_de_ouro(registros_de(vs)),
{
    let rs = registros_de(vs);
    assert forall|i: int, j: int|
        0 <= i < rs.len() && 0 <= j < rs.len() && i != j && em_aberto(#[trigger] rs[i])
            && em_aberto(#[trigger] rs[j]) implies rs[i].veiculo_id != rs[j].veiculo_id
        && rs[i].motorista_id != rs[j].motorista_id by {
        assert(vs[i].chegada is None && vs[j].chegada is None);
        if i < j {
            assert(vs[i].veiculo_id < vs[j].veiculo_id);
        } else {
            assert(vs[j].veiculo_id < vs[i].veiculo_id);
        }
    }
}

/// O veículo `i` da demonstração, como é cadastrado: frota normalizada e
/// hodômetro que cresce com a idade do carro.
pub open spec fn veiculo_cadastrado(v: VeiculoDemo, i: int) -> bool {
    let t = veiculo_spec(i);
    &&& v.frota@ == frota_norm_spec(t.0)
    &&& v.modelo@ == t.1
    &&& v.marca@ == t.2
    &&& v.ano == t.3
    &&& v.tipo@ == t.4
    &&& v.hodometro_atual == 40_000 + (t.3 - 2015) * 12_000
}

/// O condutor `i` da demonstração, como é cadastrado, com a chave de nome.
pub open spec fn motorista_cadastrado(m: MotoristaDemo, i: int) -> bool {
    let t = motorista_spec(i);
    &&& m.nome@ == t.0
    &&& m.nome_norm@ == nome_norm_spec(t.0)
    &&& m.matricula@ == t.1
    &&& m.setor@ == t.2
}

/// Os cadastros da demonstração: oito veículos e dez condutores.
fn cadastros_demo() -> (r: (Vec<VeiculoDemo>, Vec<MotoristaDemo>))
    ensures
        r.0@.len() == QUANTOS_VEICULOS,
        r.1@.len() == QUANTOS_MOTORISTAS,
        forall|i: int| 0 <= i < r.0@.len() ==> veiculo_cadastrado(#[trigger] r.0@[i], i),
        forall|i: int| 0 <= i < r.1@.len() ==> motorista_cadastrado(#[trigger] r.1@[i], i),
{
    let mut veiculos: Vec<VeiculoDemo> = Vec::new();
    let mut i: u64 = 0;
    while i < QUANTOS_VEICULOS
        invariant
            i <= QUANTOS_VEICULOS,
            veiculos@.len() == i,
            forall|k: int| 0 <= k < veiculos@.len() ==> veiculo_cadastrado(#[trigger] veiculos@[k], k),
        decreases QUANTOS_VEICULOS - i,
    {
        let (frota, modelo, marca, ano, tipo) = veiculo_da_tabela(i);
        veiculos.push(
            VeiculoDemo {
                frota: frota_norm(frota),
                modelo: texto(modelo),
                marca: texto(marca),
                ano,
                tipo: texto(tipo),
                hodometro_atual: 40_000 + (ano - 2015) * 12_000,
            },
        );
        i = i + 1;
    }
    let mut motoristas: Vec<MotoristaDemo> = Vec::new();
    let mut j: u64 = 0;
    while j < QUANTOS_MOTORISTAS
        invariant
            j <= QUANTOS_MOTORISTAS,
            motoristas@.len() == j,
            forall|k: int|
                0 <= k < motoristas@.len() ==> motorista_cadastrado(#[trigger] motoristas@[k], k),
        decreases QUANTOS_MOTORISTAS - j,
    {
        let (nome, matricula, setor) = motorista_da_tabela(j);
        motoristas.push(
            MotoristaDemo {
                nome: texto(nome),
                nome_norm: nome_norm(nome),
                matricula: texto(matricula),
                setor: texto(setor),
            },
        );
        j = j + 1;
    }
    (veiculos, motoristas)
}

/// Destino e atividade sorteados, nesta ordem.
fn destino_e_atividade(sorteio: &mut Sorteio) -> (r: (String, String))
    ensures
        final(sorteio).0 == avancado(old(sorteio).0, 2),
        r.0@ == destino_spec(sorteado(old(sorteio).0, 1, 8)),
        r.1@ == atividade_spec(sorteado(old(sorteio).0, 2, 6)),
{
    let ghost s0 = sorteio.0;
    assert(avancado(s0, 0) == s0);
    assert(avancado(s0, 1) == xorshift(s0));
    assert(avancado(s0, 2) == xorshift(avancado(s0, 1)));
    let d = sorteio.proximo(8);
    let a = sorteio.proximo(6);
    (texto(destino_da_tabela(d)), texto(atividade_da_tabela(a)))
}

/// A meia-noite do dia que fica `dias_atras` dias antes de `agora`, em
/// segundos na reta de `instante`.
pub open spec fn inicio_do_dia_atras(agora: DataHora, dias_atras: int) -> int {
    ((instante(agora) - dias_atras * 86400) / 86400) * 86400
}

/// A viagem fechada que os sorteios a partir do estado `s0` descrevem: veículo,
/// condutor, hora e minuto de saída no dia `dias_atras` antes de `agora`,
/// duração, chegada manual ou não, hodômetro (em dois de cada três sorteios),
/// destino e atividade, nesta ordem.
pub open spec fn viagem_sorteada(v: ViagemDemo, agora: DataHora, dias_atras: int, s0: u64) -> bool {
    let hora = 6 + sorteado(s0, 3, 12);
    let minuto = sorteado(s0, 4, 4) * 15;
    let com_hodometro = sorteado(s0, 7, 3) != 0;
    &&& v.veiculo_id == 1 + sorteado(s0, 1, 8)
    &&& v.motorista_id == 1 + sorteado(s0, 2, 10)
    &&& v.saida.hora == hora
    &&& v.saida.minuto == minuto
    &&& v.saida.segundo == 0
    &&& instante(v.saida) == inicio_do_dia_atras(agora, dias_atras) + hora * 3600 + minuto * 60
    &&& v.chegada matches Some(c) && instante(c) == instante(v.saida) + (40 + sorteado(
        s0,
        5,
        420,
    )) * 60
    &&& v.chegada_manual == (sorteado(s0, 6, 4) == 0)
    &&& v.turno@ == turno_da_hora(v.saida.hora)
    &&& if com_hodometro {
        &&& v.hodometro_saida == Some((40_000 + sorteado(s0, 8, 30_000)) as i64)
        &&& v.hodometro_chegada == Some(
            (40_000 + sorteado(s0, 8, 30_000) + 8 + sorteado(s0, 9, 180)) as i64,
        )
        &&& v.destino@ == destino_spec(sorteado(s0, 10, 8))
        &&& v.atividade@ == atividade_spec(sorteado(s0, 11, 6))
    } else {
        &&& v.hodometro_saida is None
        &&& v.hodometro_chegada is None
        &&& v.destino@ == destino_spec(sorteado(s0, 8, 8))
        &&& v.atividade@ == atividade_spec(sorteado(s0, 9, 6))
    }
}

/// A saída sorteada cai no dia `dias_atras` antes de `agora`, e a chegada,
/// até pouco mais de sete horas depois, ainda cabe no calendário.
proof fn lema_saida_no_dia(
    agora: DataHora,
    dias_atras: int,
    dia: DataHora,
    hora: int,
    minuto: int,
    duracao: int,
)
    requires
        datahora_valida(agora),
        2 <= dias_atras <= 60,
        datahora_valida(dia),
        instante(dia) == instante(agora) - dias_atras * 86400,
        6 <= hora <= 17,
        0 <= minuto <= 45,
        40 <= duracao < 460,
    ensures
        datahora_valida(DataHora { hora: hora as u32, minuto: minuto as u32, segundo: 0, ..dia }),
        instante(DataHora { hora: hora as u32, minuto: minuto as u32, segundo: 0, ..dia })
            == inicio_do_dia_atras(agora, dias_atras) + hora * 3600 + minuto * 60,
        no_calendario(
            instante(DataHora { hora: hora as u32, minuto: minuto as u32, segundo: 0, ..dia })
                + duracao * 60,
        ),
{
    let saida = DataHora { hora: hora as u32, minuto: minuto as u32, segundo: 0, ..dia };
    lema_valida_no_calendario(agora);
    lema_valida_no_calendario(saida);
    let d = dia_absoluto(data_de(dia));
    assert(data_de(saida) == data_de(dia));
    assert(instante(dia) == d * 86400 + dia.hora * 3600 + dia.minuto * 60 + dia.segundo);
    assert(instante(dia) / 86400 == d);
}

/// Uma viagem fechada `dias_atras` dias antes de agora, ou `None` quando esse
/// dia sai do calendário.
fn viagem_fechada(agora: &DataHora, dias_atras: i64, sorteio: &mut Sorteio) -> (r: Option<
    ViagemDemo,
>)
    requires
        datahora_valida(*agora),
        2 <= dias_atras <= 60,
    ensures
        r is Some <==> no_calendario(instante(*agora) - dias_atras * 86400),
        r is None ==> final(sorteio).0 == avancado(old(sorteio).0, 4),
        r matches Some(v) ==> {
            &&& viagem_coerente(v)
            &&& viagem_sorteada(v, *agora, dias_atras as int, old(sorteio).0)
            &&& v.hodometro_saida is Some ==> final(sorteio).0 == avancado(old(sorteio).0, 11)
            &&& v.hodometro_saida is None ==> final(sorteio).0 == avancado(old(sorteio).0, 9)
        },
{
    let ghost s0 = sorteio.0;
    let ghost base = instante(*agora) - dias_atras * 86400;
    assert(avancado(s0, 0) == s0);
    assert(avancado(s0, 1) == xorshift(avancado(s0, 0)));
    let veiculo = 1 + sorteio.proximo(QUANTOS_VEICULOS) as i64;
    assert(avancado(s0, 2) == xorshift(avancado(s0, 1)));
    let motorista = 1 + sorteio.proximo(QUANTOS_MOTORISTAS) as i64;
    assert(avancado(s0, 3) == xorshift(avancado(s0, 2)));
    let hora = 6 + sorteio.proximo(12) as u32;
    assert(avancado(s0, 4) == xorshift(avancado(s0, 3)));
    let minuto = (sorteio.proximo(4) * 15) as u32;
    let dia = match deslocar(agora, -(dias_atras * 86400)) {
        Some(d) => d,
        None => {
            return None;
        },
    };
    let saida = DataHora { hora, minuto, segundo: 0, ..dia };
    assert(avancado(s0, 5) == xorshift(avancado(s0, 4)));
    let duracao_minutos = 40 + sorteio.proximo(420) as i64;
    proof {
        lema_saida_no_dia(*agora, dias_atras as int, dia, hora as int, minuto as int,
            duracao_minutos as int);
    }
    let chegada = match deslocar(&saida, duracao_minutos * 60) {
        Some(c) => c,
        None => {
            return None;
        },
    };
    assert(avancado(s0, 6) == xorshift(avancado(s0, 5)));
    let manual = sorteio.proximo(4) == 0;
    assert(avancado(s0, 7) == xorshift(avancado(s0, 6)));
    let com_hodometro = sorteio.proximo(3) != 0;
    assert(avancado(s0, 8) == xorshift(avancado(s0, 7)));
    assert(avancado(s0, 9) == xorshift(avancado(s0, 8)));
    assert(avancado(s0, 10) == xorshift(avancado(s0, 9)));
    assert(avancado(s0, 11) == xorshift(avancado(s0, 10)));
    let hodometro_saida: Option<i64> = if com_hodometro {
        Some(40_000 + sorteio.proximo(30_000) as i64)
    } else {
        None
    };
    let hodometro_chegada: Option<i64> = match hodometro_saida {
        Some(h) => Some(h + 8 + sorteio.proximo(180) as i64),
        None => None,
    };
    let ghost antes_do_destino = sorteio.0;
    assert(avancado(antes_do_destino, 0) == antes_do_destino);
    assert(avancado(antes_do_destino, 1) == xorshift(avancado(antes_do_destino, 0)));
    assert(avancado(antes_do_destino, 2) == xorshift(avancado(antes_do_destino, 1)));
    let (destino, atividade) = destino_e_atividade(sorteio);
    Some(
        ViagemDemo {
            veiculo_id: veiculo,
            motorista_id: motorista,
            turno: turno_de(saida.hora),
            destino,
            atividade,
            saida,
            chegada: Some(chegada),
            hodometro_saida,
            hodometro_chegada,
            chegada_manual: manual,
        },
    )
}

/// O veículo da `i`-ésima viagem aberta.
pub open spec fn veiculo_da_aberta(i: int) -> i64 {
    if i == 0 {
        1
    } else if i == 1 {
        2
    } else if i == 2 {
        3
    } else {
        5
    }
}

/// Há quantas horas saiu a `i`-ésima viagem aberta.
pub open spec fn horas_da_aberta(i: int) -> i64 {
    if i == 0 {
        3
    } else if i == 1 {
        9
    } else if i == 2 {
        26
    } else {
        1
    }
}

/// A `i`-ésima viagem aberta como o plano a monta: sem chegada, no veículo e
/// com o condutor da tabela, saída `horas_da_aberta(i)` horas antes de agora.
pub open spec fn aberta_planejada(v: ViagemDemo, i: int, agora: DataHora) -> bool {
    &&& v.chegada is None
    &&& v.veiculo_id == veiculo_da_aberta(i)
    &&& v.motorista_id == condutor_da_aberta(veiculo_da_aberta(i))
    &&& instante(v.saida) == instante(agora) - horas_da_aberta(i) * 3600
}

/// As viagens abertas: uma por veículo distinto, porque o índice único não
/// deixa repetir veículo nem condutor. A de 26 h é a que pinta a linha de
/// vermelho no Painel.
fn aberta_da_tabela(i: u64) -> (r: (i64, i64, i64))
    requires
        i < 4,
    ensures
        r.0 == veiculo_da_aberta(i as int),
        r.1 == condutor_da_aberta(r.0),
        r.2 == horas_da_aberta(i as int),
{
    match i {
        0 => (1, 1, 3),
        1 => (2, 3, 9),
        2 => (3, 4, 26),
        _ => (5, 6, 1),
    }
}

/// A base fictícia inteira para o instante `agora`: oito veículos, dez
/// condutores, dois meses de viagens fechadas e quatro abertas. Toda viagem é
/// coerente, e nenhum veículo ou condutor fica em duas viagens abertas.
pub fn plano_demo(agora: &DataHora) -> (r: PlanoDemo)
    requires
        datahora_valida(*agora),
    ensures
        r.veiculos@.len() == QUANTOS_VEICULOS,
        r.motoristas@.len() == QUANTOS_MOTORISTAS,
        forall|i: int| 0 <= i < r.veiculos@.len() ==> veiculo_cadastrado(#[trigger] r.veiculos@[i], i),
        forall|i: int|
            0 <= i < r.motoristas@.len() ==> motorista_cadastrado(#[trigger] r.motoristas@[i], i),
        forall|i: int|
            0 <= i < r.motoristas@.len() ==> (#[trigger] r.motoristas@[i]).nome_norm@
                == nome_norm_spec(r.motoristas@[i].nome@),
        forall|k: int| 0 <= k < r.viagens@.len() ==> viagem_coerente(#[trigger] r.viagens@[k]),
        regras_de_ouro(registros_de(r.viagens@)),
        no_calendario(instante(*agora) - 60 * 86400) ==> {
            &&& r.viagens@.len() == 132
            &&& forall|k: int| 0 <= k < 128 ==> (#[trigger] r.viagens@[k]).chegada is Some
            &&& forall|i: int|
                0 <= i < 4 ==> aberta_planejada(#[trigger] r.viagens@[128 + i], i, *agora)
            &&& instante(*agora) - instante(r.viagens@[130].saida) > 24 * 3600
        },
{
    let (veiculos, motoristas) = cadastros_demo();
    let mut sorteio = Sorteio(SEMENTE);
    let mut viagens: Vec<ViagemDemo> = Vec::new();
    let ghost no_calendario_todo = no_calendario(instante(*agora) - 60 * 86400);
    proof {
        lema_valida_no_calendario(*agora);
        lema_historico_da_semente();
    }

    // Dois meses de histórico fechado: sem isso o relatório do mês sai vazio.
    let mut dias_atras: i64 = 60;
    while dias_atras >= 2
        invariant
            datahora_valida(*agora),
            1 <= dias_atras <= 60,
            no_calendario(instante(*agora)),
            no_calendario_todo == no_calendario(instante(*agora) - 60 * 86400),
            forall|k: int| 0 <= k < viagens@.len() ==> viagem_coerente(#[trigger] viagens@[k]),
            forall|k: int| 0 <= k < viagens@.len() ==> (#[trigger] viagens@[k]).chegada is Some,
            no_calendario_todo ==> viagens@.len() + historico(sorteio.0, dias_atras as int).0
                == historico(SEMENTE, 60).0,
        decreases dias_atras,
    {
        let ghost s_dia = sorteio.0;
        assert(avancado(s_dia, 0) == s_dia);
        assert(avancado(s_dia, 1) == xorshift(avancado(s_dia, 0)));
        let quantas = 1 + sorteio.proximo(3);
        let ghost s1 = sorteio.0;
        let ghost antes = viagens@.len();
        assert(no_calendario_todo ==> no_calendario(instante(*agora) - dias_atras * 86400));
        let mut n: u64 = 0;
        while n < quantas
            invariant
                datahora_valida(*agora),
                2 <= dias_atras <= 60,
                n <= quantas,
                no_calendario_todo ==> no_calendario(instante(*agora) - dias_atras * 86400),
                forall|k: int| 0 <= k < viagens@.len() ==> viagem_coerente(#[trigger] viagens@[k]),
                forall|k: int| 0 <= k < viagens@.len() ==> (#[trigger] viagens@[k]).chegada is Some,
                no_calendario_todo ==> viagens@.len() == antes + n,
                no_calendario_todo ==> apos_fechadas(sorteio.0, (quantas - n) as nat)
                    == apos_fechadas(s1, quantas as nat),
            decreases quantas - n,
        {
            let ghost s_viagem = sorteio.0;
            if let Some(v) = viagem_fechada(agora, dias_atras, &mut sorteio) {
                proof {
                    assert(sorteio.0 == avancado(s_viagem, passos_da_fechada(s_viagem)));
                    assert(apos_fechadas(s_viagem, (quantas - n) as nat) == apos_fechadas(
                        avancado(s_viagem, passos_da_fechada(s_viagem)),
                        (quantas - n - 1) as nat,
                    ));
                }
                viagens.push(v);
            }
            n = n + 1;
        }
        proof {
            assert(no_calendario_todo ==> sorteio.0 == apos_fechadas(s1, quantas as nat));
            assert(quantas == 1 + sorteado(s_dia, 1, 3));
        }
        dias_atras = dias_atras - 1;
    }

    let ghost fechadas = viagens@.len();
    assert(no_calendario_todo ==> fechadas == 128);
    let ghost mut ultimo: int = 0;
    let mut i: u64 = 0;
    while i < 4
        invariant
            datahora_valida(*agora),
            i <= 4,
            no_calendario(instante(*agora)),
            no_calendario_todo == no_calendario(instante(*agora) - 60 * 86400),
            ultimo < (if i == 0 {
                1int
            } else if i == 1 {
                2
            } else if i == 2 {
                3
            } else {
                5
            }) || i == 4,
            forall|k: int| 0 <= k < viagens@.len() ==> viagem_coerente(#[trigger] viagens@[k]),
            abertas_ordenadas(viagens@, ultimo),
            viagens@.len() >= fechadas,
            forall|k: int| 0 <= k < fechadas ==> (#[trigger] viagens@[k]).chegada is Some,
            no_calendario_todo ==> fechadas == 128 && viagens@.len() == 128 + i,
            no_calendario_todo ==> forall|j: int|
                0 <= j < i ==> aberta_planejada(#[trigger] viagens@[128 + j], j, *agora),
        decreases 4 - i,
    {
        let (veiculo, motorista, horas) = aberta_da_tabela(i);
        let hodometro = 40_000 + sorteio.proximo(30_000) as i64;
        assert(no_calendario_todo ==> no_calendario(instante(*agora) - horas * 3600));
        if let Some(saida) = deslocar(agora, -(horas * 3600)) {
            let (destino, atividade) = destino_e_atividade(&mut sorteio);
            let v = ViagemDemo {
                veiculo_id: veiculo,
                motorista_id: motorista,
                turno: turno_de(saida.hora),
                destino,
                atividade,
                saida,
                chegada: None,
                hodometro_saida: Some(hodometro),
                hodometro_chegada: None,
                chegada_manual: false,
            };
            let ghost antes = viagens@;
            viagens.push(v);
            proof {
                assert forall|k: int|
                    0 <= k < viagens@.len() && (#[trigger] viagens@[k]).chegada is None implies {
                    &&& viagens@[k].veiculo_id <= veiculo
                    &&& (viagens@[k].veiculo_id == 1 || viagens@[k].veiculo_id == 2
                        || viagens@[k].veiculo_id == 3 || viagens@[k].veiculo_id == 5)
                    &&& viagens@[k].motorista_id == condutor_da_aberta(viagens@[k].veiculo_id)
                } by {
                    if k < antes.len() {
                        assert(viagens@[k] == antes[k]);
                    }
                }
                assert forall|k1: int, k2: int|
                    0 <= k1 < k2 < viagens@.len() && (#[trigger] viagens@[k1]).chegada is None
                        && (#[trigger] viagens@[k2]).chegada is None implies viagens@[k1].veiculo_id
                    < viagens@[k2].veiculo_id by {
                    assert(viagens@[k1] == antes[k1]);
                    if k2 < antes.len() {
                        assert(viagens@[k2] == antes[k2]);
                    }
                }
                assert forall|k: int| 0 <= k < fechadas implies (#[trigger] viagens@[k]).chegada
                    is Some by {
                    assert(viagens@[k] == antes[k]);
                }
                if no_calendario_todo {
                    assert forall|j: int| 0 <= j < i + 1 implies aberta_planejada(
                        #[trigger] viagens@[128 + j],
                        j,
                        *agora,
                    ) by {
                        if j < i {
                            assert(viagens@[128 + j] == antes[128 + j]);
                        }
                    }
                }
                ultimo = veiculo as int;
            }
        }
        i = i + 1;
    }
    proof {
        lema_abertas_respeitam_regras(viagens@, ultimo);
        if no_calendario_todo {
            assert(aberta_planejada(viagens@[128int + 2], 2, *agora));
        }
    }
    PlanoDemo { veiculos, motoristas, viagens }
}

} // verus!
