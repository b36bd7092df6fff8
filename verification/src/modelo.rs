//! Os registros que atravessam a fronteira com a tela, e o filtro de viagens.

use vstd::prelude::*;

use crate::datahora::{analisar_data, analisar_data_spec};
use crate::erro::{lit, recusado, ErroApp, Recusa};
use crate::texto::{
    anexar, anexar_str, chars_de, decimal_spec, escrever_digitos_largo, juntar_com,
    juntar_exec, string_de,
};
use crate::validacao::{turno_valido, validar_turno};

verus! {

#[derive(Debug)]
pub struct Motorista {
    pub id: i64,
    pub nome: String,
    pub nome_norm: String,
    pub matricula: Option<String>,
    pub setor: Option<String>,
    pub ativo: bool,
    pub criado_em: String,
}

#[derive(Debug)]
pub struct Veiculo {
    pub id: i64,
    pub frota: String,
    pub placa: Option<String>,
    pub modelo: Option<String>,
    pub marca: Option<String>,
    pub ano: Option<i64>,
    pub tipo: Option<String>,
    pub hodometro_atual: Option<i64>,
    pub ativo: bool,
    pub observacao: Option<String>,
    pub criado_em: String,
}

#[derive(Debug)]
pub struct Saida {
    pub id: i64,
    pub veiculo_id: i64,
    pub motorista_id: i64,
    pub turno: String,
    pub destino: Option<String>,
    pub atividade: String,
    pub dt_saida: String,
    pub dt_chegada: Option<String>,
    pub hodometro_saida: Option<i64>,
    pub hodometro_chegada: Option<i64>,
    pub chegada_manual: bool,
    pub observacao: Option<String>,
    pub excluida_em: Option<String>,
    pub excluida_por: Option<String>,
    pub excluida_motivo: Option<String>,
    pub criado_em: String,
    pub atualizado_em: Option<String>,
    /// A frota e o nome vêm da junção: a tela mostra os dois, nunca o id.
    pub frota: Option<String>,
    pub motorista: Option<String>,
}

impl Motorista {
    /// Uma cópia campo a campo.
    pub fn copia(&self) -> (r: Motorista)
        ensures
            r == *self,
    {
        Motorista {
            id: self.id,
            nome: self.nome.clone(),
            nome_norm: self.nome_norm.clone(),
            matricula: copia_opcional(&self.matricula),
            setor: copia_opcional(&self.setor),
            ativo: self.ativo,
            criado_em: self.criado_em.clone(),
        }
    }
}

impl Veiculo {
    /// Uma cópia campo a campo.
    pub fn copia(&self) -> (r: Veiculo)
        ensures
            r == *self,
    {
        Veiculo {
            id: self.id,
            frota: self.frota.clone(),
            placa: copia_opcional(&self.placa),
            modelo: copia_opcional(&self.modelo),
            marca: copia_opcional(&self.marca),
            ano: self.ano,
            tipo: copia_opcional(&self.tipo),
            hodometro_atual: self.hodometro_atual,
            ativo: self.ativo,
            observacao: copia_opcional(&self.observacao),
            criado_em: self.criado_em.clone(),
        }
    }
}

pub fn copia_opcional(o: &Option<String>) -> (r: Option<String>)
    ensures
        r == *o,
{
    match o {
        Some(s) => Some(s.clone()),
        None => None,
    }
}

/// Uma viagem na rua, para o Painel.
#[derive(Debug)]
pub struct SaidaAberta {
    pub id: i64,
    pub frota: String,
    pub motorista: String,
    pub destino: Option<String>,
    pub atividade: String,
    pub dt_saida: String,
    pub turno: String,
    /// Centésimos de hora desde a saída.
    pub horas_decorridas: i64,
    /// Acima de 24 h: é a linha vermelha do Painel.
    pub alerta: bool,
}

/// O combo mostra os ocupados esmaecidos, com quem está e desde quando, em vez
/// de escondê-los: quem registra precisa saber a quem recorrer.
#[derive(Debug)]
pub struct VeiculoDisponibilidade {
    pub veiculo: Veiculo,
    pub disponivel: bool,
    pub motorista_atual: Option<String>,
    pub desde: Option<String>,
    pub destino_atual: Option<String>,
}

#[derive(Debug)]
pub struct Kpis {
    pub viagens: u32,
    pub abertas: u32,
    pub condutores_distintos: u32,
    pub frotas_distintas: u32,
    /// Centésimos de hora; `None` quando nenhuma viagem fechou. Zero afirmaria
    /// que os carros rodaram sem gastar tempo.
    pub duracao_media_horas: Option<i64>,
    /// Turnos A, B e C.
    pub por_turno: [u32; 3],
}

/// Par de candidatos a duplicata, para o indicador da tela de Gestão.
#[derive(Debug)]
pub struct ParDuplicata<T> {
    pub a: T,
    pub b: T,
    pub distancia: u32,
}

#[derive(Debug)]
pub struct FiltroSaidas {
    pub de: Option<String>,
    /// Exclusivo: para "setembro inteiro", `2026-10-01`.
    pub ate: Option<String>,
    pub veiculo_id: Option<i64>,
    pub motorista_id: Option<i64>,
    pub turnos: Vec<String>,
    pub somente_abertas: bool,
    pub incluir_excluidas: bool,
}

impl Default for FiltroSaidas {
    fn default() -> (r: FiltroSaidas)
        ensures
            r.de is None,
            r.ate is None,
            r.veiculo_id is None,
            r.motorista_id is None,
            r.turnos@.len() == 0,
            !r.somente_abertas,
            !r.incluir_excluidas,
    {
        FiltroSaidas {
            de: None,
            ate: None,
            veiculo_id: None,
            motorista_id: None,
            turnos: Vec::new(),
            somente_abertas: false,
            incluir_excluidas: false,
        }
    }
}

/// Um valor ligado a um `?n` da consulta.
#[derive(Debug)]
pub enum Parametro {
    Texto(String),
    Inteiro(i64),
}

pub enum ParametroVista {
    Texto(Seq<char>),
    Inteiro(int),
}

pub open spec fn vista_parametro(p: Parametro) -> ParametroVista {
    match p {
        Parametro::Texto(t) => ParametroVista::Texto(t@),
        Parametro::Inteiro(n) => ParametroVista::Inteiro(n as int),
    }
}

/// `?n`.
pub open spec fn marcador(n: int) -> Seq<char> {
    seq!['?'] + decimal_spec(n)
}

pub open spec fn marcadores(base: int, n: nat) -> Seq<Seq<char>> {
    Seq::new(n, |k: int| marcador(base + k + 1))
}

/// As condições do filtro antes dos turnos, e os valores ligados a elas.
pub open spec fn clausulas_base_spec(f: FiltroSaidas) -> (Seq<Seq<char>>, Seq<ParametroVista>) {
    let c0: Seq<Seq<char>> = Seq::empty();
    let p0: Seq<ParametroVista> = Seq::empty();
    let c1 = if !f.incluir_excluidas {
        c0.push(lit("s.excluida_em IS NULL"))
    } else {
        c0
    };
    let c2 = if f.somente_abertas {
        c1.push(lit("s.dt_chegada IS NULL AND s.excluida_em IS NULL"))
    } else {
        c1
    };
    let (c3, p3) = match f.de {
        Some(d) => (
            c2.push(lit("s.dt_saida >= ") + marcador(p0.len() + 1int)),
            p0.push(ParametroVista::Texto(d@)),
        ),
        None => (c2, p0),
    };
    let (c4, p4) = match f.ate {
        Some(a) => (
            c3.push(lit("s.dt_saida < ") + marcador(p3.len() + 1int)),
            p3.push(ParametroVista::Texto(a@)),
        ),
        None => (c3, p3),
    };
    let (c5, p5) = match f.veiculo_id {
        Some(id) => (
            c4.push(lit("s.veiculo_id = ") + marcador(p4.len() + 1int)),
            p4.push(ParametroVista::Inteiro(id as int)),
        ),
        None => (c4, p4),
    };
    let (c6, p6) = match f.motorista_id {
        Some(id) => (
            c5.push(lit("s.motorista_id = ") + marcador(p5.len() + 1int)),
            p5.push(ParametroVista::Inteiro(id as int)),
        ),
        None => (c5, p5),
    };
    (c6, p6)
}

/// As condições do filtro e os valores ligados a elas, na ordem. "Aberta"
/// significa sem chegada **e** não excluída, sempre as duas condições.
pub open spec fn clausulas_spec(f: FiltroSaidas) -> (Seq<Seq<char>>, Seq<ParametroVista>) {
    let (c6, p6) = clausulas_base_spec(f);
    if f.turnos.len() > 0 {
        (
            c6.push(
                lit("s.turno IN (") + juntar_com(marcadores(p6.len() as int, f.turnos.len() as nat), lit(", "))
                    + lit(")"),
            ),
            p6 + f.turnos@.map_values(|t: String| ParametroVista::Texto(t@)),
        )
    } else {
        (c6, p6)
    }
}

/// Uma das condições é `coluna` seguida de `?n`, e o `n`-ésimo parâmetro é
/// `valor`.
pub open spec fn condicao_ligada(
    c: Seq<Seq<char>>,
    p: Seq<ParametroVista>,
    coluna: Seq<char>,
    valor: ParametroVista,
) -> bool {
    exists|k: int, n: int|
        #![trigger c[k], marcador(n)]
        0 <= k < c.len() && 1 <= n <= p.len() && c[k] == coluna + marcador(n) && p[n - 1] == valor
}

pub open spec fn um_se(b: bool) -> int {
    if b {
        1
    } else {
        0
    }
}

/// Cada campo preenchido do filtro vira uma condição sobre a sua coluna, ligada
/// a um parâmetro com o valor do campo: a data inicial a `s.dt_saida >=`, a final
/// a `s.dt_saida <`, o veículo a `s.veiculo_id`, o condutor a `s.motorista_id`.
/// Não há parâmetro além dos campos e dos turnos, nem condição além das suas.
pub proof fn lei_condicoes_do_filtro(f: FiltroSaidas)
    ensures
        ({
            let (c, p) = clausulas_spec(f);
            &&& p.len() == um_se(f.de is Some) + um_se(f.ate is Some) + um_se(f.veiculo_id is Some)
                + um_se(f.motorista_id is Some) + f.turnos.len()
            &&& c.len() == um_se(!f.incluir_excluidas) + um_se(f.somente_abertas) + um_se(
                f.de is Some,
            ) + um_se(f.ate is Some) + um_se(f.veiculo_id is Some) + um_se(f.motorista_id is Some)
                + um_se(f.turnos.len() > 0)
            &&& f.de matches Some(de) ==> condicao_ligada(
                c,
                p,
                lit("s.dt_saida >= "),
                ParametroVista::Texto(de@),
            )
            &&& f.ate matches Some(ate) ==> condicao_ligada(
                c,
                p,
                lit("s.dt_saida < "),
                ParametroVista::Texto(ate@),
            )
            &&& f.veiculo_id matches Some(id) ==> condicao_ligada(
                c,
                p,
                lit("s.veiculo_id = "),
                ParametroVista::Inteiro(id as int),
            )
            &&& f.motorista_id matches Some(id) ==> condicao_ligada(
                c,
                p,
                lit("s.motorista_id = "),
                ParametroVista::Inteiro(id as int),
            )
            &&& !f.incluir_excluidas ==> c.contains(lit("s.excluida_em IS NULL"))
            &&& f.somente_abertas ==> c.contains(lit("s.dt_chegada IS NULL AND s.excluida_em IS NULL"))
        }),
{
    let c0: Seq<Seq<char>> = Seq::empty();
    let p0: Seq<ParametroVista> = Seq::empty();
    let c1 = if !f.incluir_excluidas {
        c0.push(lit("s.excluida_em IS NULL"))
    } else {
        c0
    };
    let c2 = if f.somente_abertas {
        c1.push(lit("s.dt_chegada IS NULL AND s.excluida_em IS NULL"))
    } else {
        c1
    };
    let (c3, p3) = match f.de {
        Some(d) => (
            c2.push(lit("s.dt_saida >= ") + marcador(p0.len() + 1int)),
            p0.push(ParametroVista::Texto(d@)),
        ),
        None => (c2, p0),
    };
    let (c4, p4) = match f.ate {
        Some(a) => (
            c3.push(lit("s.dt_saida < ") + marcador(p3.len() + 1int)),
            p3.push(ParametroVista::Texto(a@)),
        ),
        None => (c3, p3),
    };
    let (c5, p5) = match f.veiculo_id {
        Some(id) => (
            c4.push(lit("s.veiculo_id = ") + marcador(p4.len() + 1int)),
            p4.push(ParametroVista::Inteiro(id as int)),
        ),
        None => (c4, p4),
    };
    let (c6, p6) = match f.motorista_id {
        Some(id) => (
            c5.push(lit("s.motorista_id = ") + marcador(p5.len() + 1int)),
            p5.push(ParametroVista::Inteiro(id as int)),
        ),
        None => (c5, p5),
    };
    assert(clausulas_base_spec(f) == (c6, p6));
    let (c, p) = clausulas_spec(f);
    assert(c.len() >= c6.len() && p.len() >= p6.len());
    assert(forall|k: int| 0 <= k < c6.len() ==> c[k] == c6[k]);
    assert(forall|k: int| 0 <= k < p6.len() ==> p[k] == p6[k]);
    if !f.incluir_excluidas {
        assert(c[0] == c6[0] && c6[0] == c1[0]);
    }
    if f.somente_abertas {
        let k = c1.len() as int;
        assert(c[k] == c6[k] && c6[k] == c2[k]);
    }
    if let Some(d) = f.de {
        let k = c2.len() as int;
        let n = 1int;
        assert(c[k] == c6[k] && c6[k] == c3[k]);
        assert(p[n - 1] == p6[n - 1] && p6[n - 1] == p3[n - 1]);
        assert(c[k] == lit("s.dt_saida >= ") + marcador(n));
    }
    if let Some(a) = f.ate {
        let k = c3.len() as int;
        let n = p3.len() + 1int;
        assert(c[k] == c6[k] && c6[k] == c4[k]);
        assert(p[n - 1] == p6[n - 1] && p6[n - 1] == p4[n - 1]);
        assert(c[k] == lit("s.dt_saida < ") + marcador(n));
    }
    if let Some(id) = f.veiculo_id {
        let k = c4.len() as int;
        let n = p4.len() + 1int;
        assert(c[k] == c6[k] && c6[k] == c5[k]);
        assert(p[n - 1] == p6[n - 1] && p6[n - 1] == p5[n - 1]);
        assert(c[k] == lit("s.veiculo_id = ") + marcador(n));
    }
    if let Some(id) = f.motorista_id {
        let k = c5.len() as int;
        let n = p5.len() + 1int;
        assert(c[k] == c6[k]);
        assert(p[n - 1] == p6[n - 1]);
        assert(c[k] == lit("s.motorista_id = ") + marcador(n));
    }
}

/// `WHERE` seguido das condições ligadas por `AND`, ou nada.
pub open spec fn onde_spec(c: Seq<Seq<char>>) -> Seq<char> {
    if c.len() == 0 {
        Seq::empty()
    } else {
        lit("WHERE ") + juntar_com(c, lit(" AND "))
    }
}

pub open spec fn recusa_data(t: Seq<char>) -> Recusa {
    Recusa {
        codigo: lit("VALIDACAO"),
        mensagem: lit("Data inválida: \"") + t + lit("\". Use AAAA-MM-DD."),
        detalhe: None,
    }
}

/// A primeira coisa inválida no filtro: a data inicial, a final, um turno.
pub open spec fn erro_filtro(f: FiltroSaidas) -> Option<Recusa> {
    if f.de is Some && analisar_data_spec(f.de->0@) is None {
        Some(recusa_data(f.de->0@))
    } else if f.ate is Some && analisar_data_spec(f.ate->0@) is None {
        Some(recusa_data(f.ate->0@))
    } else if exists|i: int| 0 <= i < f.turnos.len() && !turno_valido(#[trigger] f.turnos@[i]@) {
        Some(
            Recusa {
                codigo: lit("VALIDACAO"),
                mensagem: lit("Turno deve ser A, B ou C."),
                detalhe: Some(lit("CAMPO:turno")),
            },
        )
    } else {
        None
    }
}

fn marcador_exec(n: u128) -> (r: Vec<char>)
    ensures
        r@ == marcador(n as int),
{
    let mut r: Vec<char> = Vec::new();
    r.push('?');
    escrever_digitos_largo(n, &mut r);
    assert(r@ =~= marcador(n as int));
    r
}

fn texto_de(s: &String) -> (r: String)
    ensures
        r@ == s@,
{
    string_de(&chars_de(s.as_str()))
}

fn clausulas_base(f: &FiltroSaidas) -> (r: Result<(Vec<Vec<char>>, Vec<Parametro>), ErroApp>)
    ensures
        f.de is Some && analisar_data_spec(f.de->0@) is None ==> recusado(r, recusa_data(f.de->0@)),
        !(f.de is Some && analisar_data_spec(f.de->0@) is None) && f.ate is Some
            && analisar_data_spec(f.ate->0@) is None ==> recusado(r, recusa_data(f.ate->0@)),
        !(f.de is Some && analisar_data_spec(f.de->0@) is None) && !(f.ate is Some
            && analisar_data_spec(f.ate->0@) is None) ==> (r matches Ok((c, p)) && c@.map_values(
            |x: Vec<char>| x@,
        ) == clausulas_base_spec(*f).0 && p@.map_values(|x: Parametro| vista_parametro(x))
            == clausulas_base_spec(*f).1 && p.len() <= 4),
{
    let mut c: Vec<Vec<char>> = Vec::new();
    let mut p: Vec<Parametro> = Vec::new();
    if !f.incluir_excluidas {
        c.push(chars_de("s.excluida_em IS NULL"));
    }
    if f.somente_abertas {
        c.push(chars_de("s.dt_chegada IS NULL AND s.excluida_em IS NULL"));
    }
    if let Some(de) = &f.de {
        analisar_data(de.as_str())?;
        let mut cl = chars_de("s.dt_saida >= ");
        anexar(&mut cl, &marcador_exec(p.len() as u128 + 1));
        c.push(cl);
        p.push(Parametro::Texto(texto_de(de)));
    }
    if let Some(ate) = &f.ate {
        analisar_data(ate.as_str())?;
        let mut cl = chars_de("s.dt_saida < ");
        anexar(&mut cl, &marcador_exec(p.len() as u128 + 1));
        c.push(cl);
        p.push(Parametro::Texto(texto_de(ate)));
    }
    if let Some(id) = f.veiculo_id {
        let mut cl = chars_de("s.veiculo_id = ");
        anexar(&mut cl, &marcador_exec(p.len() as u128 + 1));
        c.push(cl);
        p.push(Parametro::Inteiro(id));
    }
    if let Some(id) = f.motorista_id {
        let mut cl = chars_de("s.motorista_id = ");
        anexar(&mut cl, &marcador_exec(p.len() as u128 + 1));
        c.push(cl);
        p.push(Parametro::Inteiro(id));
    }
    assert(c@.map_values(|x: Vec<char>| x@) =~= clausulas_base_spec(*f).0);
    assert(p@.map_values(|x: Parametro| vista_parametro(x)) =~= clausulas_base_spec(*f).1);
    Ok((c, p))
}

fn marcadores_e_turnos(f: &FiltroSaidas, base: usize) -> (r: Result<
    (Vec<Vec<char>>, Vec<Parametro>),
    ErroApp,
>)
    requires
        base <= 4,
    ensures
        (exists|i: int| 0 <= i < f.turnos.len() && !turno_valido(#[trigger] f.turnos@[i]@))
            ==> recusado(
            r,
            Recusa {
                codigo: lit("VALIDACAO"),
                mensagem: lit("Turno deve ser A, B ou C."),
                detalhe: Some(lit("CAMPO:turno")),
            },
        ),
        !(exists|i: int| 0 <= i < f.turnos.len() && !turno_valido(#[trigger] f.turnos@[i]@))
            ==> (r matches Ok((ms, ts)) && ms@.map_values(|x: Vec<char>| x@) == marcadores(
            base as int,
            f.turnos.len() as nat,
        ) && ts@.map_values(|x: Parametro| vista_parametro(x)) == f.turnos@.map_values(
            |t: String| ParametroVista::Texto(t@),
        )),
{
    let mut ms: Vec<Vec<char>> = Vec::new();
    let mut ts: Vec<Parametro> = Vec::new();
    let mut i: usize = 0;
    while i < f.turnos.len()
        invariant
            i <= f.turnos.len(),
            base <= 4,
            ts.len() == i,
            ts@.map_values(|x: Parametro| vista_parametro(x)) == f.turnos@.take(i as int).map_values(
                |t: String| ParametroVista::Texto(t@),
            ),
            ms@.map_values(|x: Vec<char>| x@) == marcadores(base as int, i as nat),
            forall|j: int| 0 <= j < i ==> turno_valido(#[trigger] f.turnos@[j]@),
        decreases f.turnos.len() - i,
    {
        validar_turno(f.turnos[i].as_str())?;
        let m = marcador_exec(base as u128 + i as u128 + 1);
        let ghost antes = ms@.map_values(|x: Vec<char>| x@);
        ms.push(m);
        assert(ms@.map_values(|x: Vec<char>| x@) =~= antes.push(m@));
        let t = texto_de(&f.turnos[i]);
        let ghost antes_ts = ts@.map_values(|x: Parametro| vista_parametro(x));
        ts.push(Parametro::Texto(t));
        assert(ts@.map_values(|x: Parametro| vista_parametro(x)) =~= antes_ts.push(
            ParametroVista::Texto(f.turnos@[i as int]@),
        ));
        assert(f.turnos@.take(i + 1) =~= f.turnos@.take(i as int).push(f.turnos@[i as int]));
        i = i + 1;
        assert(ms@.map_values(|x: Vec<char>| x@) =~= marcadores(base as int, i as nat));
        assert(ts@.map_values(|x: Parametro| vista_parametro(x)) =~= f.turnos@.take(
            i as int,
        ).map_values(|t: String| ParametroVista::Texto(t@)));
    }
    assert(f.turnos@.take(f.turnos.len() as int) =~= f.turnos@);
    Ok((ms, ts))
}

/// Monta o `WHERE` compartilhado por listagem, indicadores e relatórios, com os
/// valores na ordem dos `?n`.
pub fn clausulas_do_filtro(f: &FiltroSaidas) -> (r: Result<(String, Vec<Parametro>), ErroApp>)
    ensures
        match erro_filtro(*f) {
            Some(x) => recusado(r, x),
            None => r matches Ok((onde, ps)) && onde@ == onde_spec(clausulas_spec(*f).0)
                && ps@.map_values(|p: Parametro| vista_parametro(p)) == clausulas_spec(*f).1,
        },
{
    let (mut c, mut p) = clausulas_base(f)?;
    if f.turnos.len() > 0 {
        let ghost c6 = c@.map_values(|x: Vec<char>| x@);
        let ghost p6 = p@.map_values(|x: Parametro| vista_parametro(x));
        let (ms, mut ts) = marcadores_e_turnos(f, p.len())?;
        let mut cl = chars_de("s.turno IN (");
        anexar(&mut cl, &juntar_exec(&ms, ", "));
        anexar_str(&mut cl, ")");
        c.push(cl);
        assert(c@.map_values(|x: Vec<char>| x@) =~= c6.push(cl@));
        let ghost pt = ts@.map_values(|x: Parametro| vista_parametro(x));
        p.append(&mut ts);
        assert(p@.map_values(|x: Parametro| vista_parametro(x)) =~= p6 + pt);
    }
    assert(c@.map_values(|x: Vec<char>| x@) =~= clausulas_spec(*f).0);
    assert(p@.map_values(|x: Parametro| vista_parametro(x)) =~= clausulas_spec(*f).1);
    let onde = if c.len() == 0 {
        Vec::new()
    } else {
        let mut o = chars_de("WHERE ");
        anexar(&mut o, &juntar_exec(&c, " AND "));
        o
    };
    assert(onde@ =~= onde_spec(clausulas_spec(*f).0));
    Ok((string_de(&onde), p))
}

} // verus!
