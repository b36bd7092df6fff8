//! As decisões de abertura, encerramento, edição e exclusão de viagem.
//!
//! O programa em volta abre a transação, lê o que a decisão precisa (a viagem,
//! o veículo, o condutor, quem está com o veículo agora), chama a decisão e
//! grava o que ela devolve. A decisão, na ordem em que o pedido é conferido,
//! diz qual é a primeira recusa, ou o que gravar.
//!
//! "Aberta" é sem chegada **e** não excluída, sempre as duas condições.

use vstd::prelude::*;

use crate::datahora::{
    analisar, analisar_spec, datahora_valida, escrita_chrono, formatar, instante, instante_exec,
    no_futuro_alem_de, no_futuro_alem_de_spec, DataHora, FORMATO,
};
use crate::erro::{lit, recusa, recusado, texto, validacao_com, ErroApp, Recusa};
use crate::duracao::{centesimos_de_hora, centesimos_de_hora_spec, LIMIAR_ALERTA_ABERTA_CENTESIMOS};
use crate::modelo::{Kpis, Saida, SaidaAberta, Veiculo};
use crate::regras::{motorista_livre_em, regras_de_ouro, veiculo_livre_em, lei_abrir_preserva, Registro};
use crate::texto::{aparado, aparar_spec, juntar, limpar, limpo_spec, vista};
use crate::validacao;
use crate::validacao::{
    avisos_abertura, avisos_encerramento, detalhe_spec, erro_de_confirmacao, mensagem_spec,
    recusa_abertura, recusa_encerramento, turno_valido, validar_abertura, validar_atividade,
    validar_encerramento, validar_turno, Aviso, FOLGA_FUTURO_MINUTOS,
};

verus! {

/// O pedido de abertura, como a tela manda.
#[derive(Debug)]
pub struct DadosAbertura {
    pub veiculo_id: i64,
    pub motorista_id: i64,
    pub turno: String,
    pub destino: Option<String>,
    pub atividade: String,
    /// `None` = agora.
    pub dt_saida: Option<String>,
    pub hodometro_saida: Option<i64>,
    pub observacao: Option<String>,
}

/// A linha que a abertura insere.
#[derive(Debug)]
pub struct NovaSaida {
    pub veiculo_id: i64,
    pub motorista_id: i64,
    pub turno: String,
    pub destino: Option<String>,
    pub atividade: String,
    pub dt_saida: String,
    pub hodometro_saida: Option<i64>,
    pub observacao: Option<String>,
}

/// Quem está com o veículo numa viagem aberta, e desde quando.
#[derive(Debug)]
pub struct Ocupacao {
    pub motorista: String,
    pub dt_saida: String,
}

/// A recusa de uma data-hora ilegível.
pub open spec fn recusa_leitura(t: Seq<char>) -> Recusa {
    Recusa {
        codigo: lit("VALIDACAO"),
        mensagem: lit("Data-hora inválida: \"") + t + lit("\". Use o formato AAAA-MM-DD HH:MM."),
        detalhe: None,
    }
}

/// A recusa que pede confirmação dos avisos.
pub open spec fn recusa_confirmacao(avisos: Seq<Aviso>) -> Recusa {
    Recusa {
        codigo: lit("VALIDACAO"),
        mensagem: juntar(avisos.map_values(|a: Aviso| mensagem_spec(a)), ' '),
        detalhe: Some(juntar(avisos.map_values(|a: Aviso| detalhe_spec(a)), ';')),
    }
}

/// A data-hora lida, ou a recusa de leitura.
fn ler(t: &str) -> (r: Result<DataHora, ErroApp>)
    ensures
        match analisar_spec(t@) {
            Some(x) => r == Ok::<DataHora, ErroApp>(x) && datahora_valida(x),
            None => recusado(r, recusa_leitura(t@)),
        },
{
    analisar(t)
}

/// A recusa de confirmação quando há avisos e eles não foram confirmados.
fn confirmar(avisos: &Vec<Aviso>, confirmado: bool) -> (r: Result<(), ErroApp>)
    ensures
        avisos@.len() > 0 && !confirmado ==> recusado(r, recusa_confirmacao(avisos@)),
        !(avisos@.len() > 0 && !confirmado) ==> r is Ok,
{
    if avisos.len() > 0 && !confirmado {
        return Err(erro_de_confirmacao(avisos));
    }
    Ok(())
}

/// O texto da saída: o informado, ou agora.
pub open spec fn texto_saida(d: DadosAbertura, agora: DataHora) -> Seq<char> {
    match d.dt_saida {
        Some(t) => t@,
        None => escrita_chrono(agora, FORMATO@),
    }
}

pub open spec fn para_validar_abertura(
    d: DadosAbertura,
    momento: DataHora,
    v: Veiculo,
    motorista_ativo: bool,
) -> validacao::DadosAbertura {
    validacao::DadosAbertura {
        turno: d.turno,
        atividade: d.atividade,
        dt_saida: momento,
        hodometro_saida: d.hodometro_saida,
        veiculo_ativo: v.ativo,
        motorista_ativo,
        hodometro_atual: v.hodometro_atual,
    }
}

/// A primeira recusa da abertura antes de olhar quem está na rua: data-hora,
/// veículo e condutor existentes, as regras de abertura, e os avisos não
/// confirmados.
pub open spec fn recusa_da_abertura(
    d: DadosAbertura,
    agora: DataHora,
    veiculo: Option<Veiculo>,
    motorista_ativo: Option<bool>,
    confirmado: bool,
) -> Option<Recusa> {
    let t = texto_saida(d, agora);
    match analisar_spec(t) {
        None => Some(recusa_leitura(t)),
        Some(momento) => match veiculo {
            None => Some(recusa("NAO_ENCONTRADO", "Veículo não encontrado.", None)),
            Some(v) => match motorista_ativo {
                None => Some(recusa("NAO_ENCONTRADO", "Condutor não encontrado.", None)),
                Some(ativo) => {
                    let vd = para_validar_abertura(d, momento, v, ativo);
                    match recusa_abertura(vd, agora) {
                        Some(f) => Some(f),
                        None => if avisos_abertura(vd, agora).len() > 0 && !confirmado {
                            Some(recusa_confirmacao(avisos_abertura(vd, agora)))
                        } else {
                            None
                        },
                    }
                },
            },
        },
    }
}

/// A recusa por ocupação: o veículo na rua, com quem está e desde quando; ou o
/// condutor na rua.
pub open spec fn recusa_da_ocupacao(com_o_veiculo: Option<Ocupacao>, motorista_em_viagem: bool) -> Option<
    Recusa,
> {
    match com_o_veiculo {
        Some(o) => Some(
            Recusa {
                codigo: lit("VEICULO_EM_USO"),
                mensagem: lit("Este veículo já está em viagem e ainda não retornou."),
                detalhe: Some(lit("COM:") + o.motorista@ + lit(" · desde ") + o.dt_saida@),
            },
        ),
        None => if motorista_em_viagem {
            Some(
                recusa(
                    "MOTORISTA_EM_USO",
                    "Este condutor já está em viagem e ainda não retornou.",
                    None,
                ),
            )
        } else {
            None
        },
    }
}

/// O que a abertura grava: o pedido, com a atividade aparada, destino e
/// observação limpos e a data-hora como foi escrita.
pub open spec fn grava_abertura(n: NovaSaida, d: DadosAbertura, t: Seq<char>) -> bool {
    &&& n.veiculo_id == d.veiculo_id
    &&& n.motorista_id == d.motorista_id
    &&& n.turno@ == d.turno@
    &&& vista(n.destino) == limpo_spec(d.destino)
    &&& n.atividade@ == aparar_spec(d.atividade@)
    &&& n.dt_saida@ == t
    &&& n.hodometro_saida == d.hodometro_saida
    &&& vista(n.observacao) == limpo_spec(d.observacao)
}

/// Confere o pedido de abertura contra o veículo e o condutor lidos (`None`
/// quando não existem) e devolve a linha a inserir.
pub fn avaliar_abertura(
    d: &DadosAbertura,
    agora: &DataHora,
    veiculo: &Option<Veiculo>,
    motorista_ativo: Option<bool>,
    confirmado_avisos: bool,
) -> (r: Result<NovaSaida, ErroApp>)
    requires
        datahora_valida(*agora),
    ensures
        match recusa_da_abertura(*d, *agora, *veiculo, motorista_ativo, confirmado_avisos) {
            Some(f) => recusado(r, f),
            None => r matches Ok(n) && grava_abertura(n, *d, texto_saida(*d, *agora)),
        },
{
    let saida_texto: String = match &d.dt_saida {
        Some(t) => t.clone(),
        None => formatar(agora),
    };
    let momento = ler(saida_texto.as_str())?;
    let v = match veiculo {
        Some(v) => v,
        None => {
            return Err(ErroApp::nao_encontrado(texto("Veículo não encontrado.")));
        },
    };
    let ativo = match motorista_ativo {
        Some(a) => a,
        None => {
            return Err(ErroApp::nao_encontrado(texto("Condutor não encontrado.")));
        },
    };
    let vd = validacao::DadosAbertura {
        turno: d.turno.clone(),
        atividade: d.atividade.clone(),
        dt_saida: momento,
        hodometro_saida: d.hodometro_saida,
        veiculo_ativo: v.ativo,
        motorista_ativo: ativo,
        hodometro_atual: v.hodometro_atual,
    };
    assert(vd == para_validar_abertura(*d, momento, *v, ativo));
    let avisos = validar_abertura(&vd, agora)?;
    confirmar(&avisos, confirmado_avisos)?;
    Ok(
        NovaSaida {
            veiculo_id: d.veiculo_id,
            motorista_id: d.motorista_id,
            turno: d.turno.clone(),
            destino: limpar(&d.destino),
            atividade: aparado(d.atividade.as_str()),
            dt_saida: saida_texto,
            hodometro_saida: d.hodometro_saida,
            observacao: limpar(&d.observacao),
        },
    )
}

/// Recusa a abertura se o veículo ou o condutor já estão na rua.
pub fn conferir_ocupacao(com_o_veiculo: &Option<Ocupacao>, motorista_em_viagem: bool) -> (r:
    Result<(), ErroApp>)
    ensures
        match recusa_da_ocupacao(*com_o_veiculo, motorista_em_viagem) {
            Some(f) => recusado(r, f),
            None => r is Ok,
        },
{
    if let Some(o) = com_o_veiculo {
        let mut detalhe = String::from_str("COM:");
        detalhe.append(o.motorista.as_str());
        detalhe.append(" · desde ");
        detalhe.append(o.dt_saida.as_str());
        return Err(ErroApp::veiculo_em_uso().com_detalhe(detalhe));
    }
    if motorista_em_viagem {
        return Err(ErroApp::motorista_em_uso());
    }
    Ok(())
}

/// A abertura inteira: o pedido, e depois a ocupação.
pub fn decidir_abertura(
    d: &DadosAbertura,
    agora: &DataHora,
    veiculo: &Option<Veiculo>,
    motorista_ativo: Option<bool>,
    com_o_veiculo: &Option<Ocupacao>,
    motorista_em_viagem: bool,
    confirmado_avisos: bool,
) -> (r: Result<NovaSaida, ErroApp>)
    requires
        datahora_valida(*agora),
    ensures
        match recusa_da_abertura(*d, *agora, *veiculo, motorista_ativo, confirmado_avisos) {
            Some(f) => recusado(r, f),
            None => match recusa_da_ocupacao(*com_o_veiculo, motorista_em_viagem) {
                Some(f) => recusado(r, f),
                None => r matches Ok(n) && grava_abertura(n, *d, texto_saida(*d, *agora)),
            },
        },
{
    let nova = avaliar_abertura(d, agora, veiculo, motorista_ativo, confirmado_avisos)?;
    conferir_ocupacao(com_o_veiculo, motorista_em_viagem)?;
    Ok(nova)
}

/// Diante das viagens gravadas, uma abertura que passa pela ocupação nunca põe
/// um veículo ou um condutor em duas viagens abertas; com o veículo na rua ela
/// é recusada como `VEICULO_EM_USO`, e com o condutor na rua, como
/// `MOTORISTA_EM_USO`.
pub proof fn lei_abertura_respeita_regras_de_ouro(
    rs: Seq<Registro>,
    veiculo_id: i64,
    motorista_id: i64,
    com_o_veiculo: Option<Ocupacao>,
    motorista_em_viagem: bool,
    id: i64,
)
    requires
        regras_de_ouro(rs),
        com_o_veiculo is None <==> veiculo_livre_em(rs, veiculo_id),
        motorista_em_viagem <==> !motorista_livre_em(rs, motorista_id),
    ensures
        recusa_da_ocupacao(com_o_veiculo, motorista_em_viagem) is None ==> regras_de_ouro(
            rs.push(
                Registro { id, veiculo_id, motorista_id, encerrada: false, excluida: false },
            ),
        ),
        !veiculo_livre_em(rs, veiculo_id) ==> (recusa_da_ocupacao(
            com_o_veiculo,
            motorista_em_viagem,
        ) matches Some(f) && f.codigo == lit("VEICULO_EM_USO")),
        veiculo_livre_em(rs, veiculo_id) && !motorista_livre_em(rs, motorista_id) ==> (
        recusa_da_ocupacao(com_o_veiculo, motorista_em_viagem) matches Some(f) && f.codigo == lit(
            "MOTORISTA_EM_USO",
        )),
{
    if recusa_da_ocupacao(com_o_veiculo, motorista_em_viagem) is None {
        lei_abrir_preserva(
            rs,
            Registro { id, veiculo_id, motorista_id, encerrada: false, excluida: false },
        );
    }
}


/// Com a chegada acima da saída, a diferença entre os dois hodômetros cabe num
/// `i64`. Chegada abaixo da saída é recusada antes de qualquer subtração.
pub open spec fn subtraiveis(chegada: Option<i64>, saida: Option<i64>) -> bool {
    match (chegada, saida) {
        (Some(c), Some(s)) => c >= s ==> c - s <= i64::MAX,
        _ => true,
    }
}

/// O que o encerramento grava na viagem; o veículo é o que tem o hodômetro
/// avançado.
#[derive(Debug)]
pub struct Encerramento {
    pub dt_chegada: String,
    pub hodometro_chegada: Option<i64>,
    /// Chegada informada à mão: o relatório mostra o percentual, indicador de
    /// quanto o registro está sendo feito depois.
    pub chegada_manual: bool,
    pub veiculo_id: i64,
}

pub open spec fn texto_chegada(dt_chegada: Option<String>, agora: DataHora) -> Seq<char> {
    match dt_chegada {
        Some(t) => t@,
        None => escrita_chrono(agora, FORMATO@),
    }
}

pub open spec fn para_encerrar(
    saida: DataHora,
    chegada: DataHora,
    antes: Saida,
    hodometro_chegada: Option<i64>,
) -> validacao::DadosEncerramento {
    validacao::DadosEncerramento {
        dt_saida: saida,
        dt_chegada: chegada,
        ja_encerrada: antes.dt_chegada is Some,
        hodometro_saida: antes.hodometro_saida,
        hodometro_chegada,
    }
}

/// A recusa das regras de encerramento, ou a de confirmação dos avisos.
pub open spec fn recusa_das_regras_de_encerramento(
    de: validacao::DadosEncerramento,
    agora: DataHora,
    confirmado: bool,
) -> Option<Recusa> {
    match recusa_encerramento(de, agora) {
        Some(f) => Some(f),
        None => if avisos_encerramento(de).len() > 0 && !confirmado {
            Some(recusa_confirmacao(avisos_encerramento(de)))
        } else {
            None
        },
    }
}

/// A primeira recusa do encerramento: a chegada ilegível, a viagem que não
/// existe, a excluída, a saída gravada ilegível, as regras de encerramento e os
/// avisos não confirmados.
pub open spec fn recusa_do_encerramento(
    antes: Option<Saida>,
    dt_chegada: Option<String>,
    hodometro_chegada: Option<i64>,
    agora: DataHora,
    confirmado: bool,
) -> Option<Recusa> {
    let t = texto_chegada(dt_chegada, agora);
    match analisar_spec(t) {
        None => Some(recusa_leitura(t)),
        Some(chegada) => match antes {
            None => Some(recusa("NAO_ENCONTRADO", "Viagem não encontrada.", None)),
            Some(s) => if s.excluida_em is Some {
                Some(recusa("VALIDACAO", "Esta viagem foi excluída.", None))
            } else {
                match analisar_spec(s.dt_saida@) {
                    None => Some(recusa_leitura(s.dt_saida@)),
                    Some(saida) => recusa_das_regras_de_encerramento(
                        para_encerrar(saida, chegada, s, hodometro_chegada),
                        agora,
                        confirmado,
                    ),
                }
            },
        },
    }
}

/// Chegada que as regras de encerramento aceitam nunca fica além da folga de
/// cinco minutos depois de agora.
proof fn lema_regras_respeitam_a_folga(de: validacao::DadosEncerramento, agora: DataHora, confirmado: bool)
    ensures
        recusa_das_regras_de_encerramento(de, agora, confirmado) is None ==> instante(de.dt_chegada)
            <= instante(agora) + FOLGA_FUTURO_MINUTOS * 60,
{
    validacao::lei_chegada_nunca_alem_da_folga(de, agora);
}

/// Um encerramento aceito registra uma chegada legível que não está no futuro
/// além da folga: a viagem só fica livre por uma chegada que já aconteceu.
pub proof fn lei_encerramento_nao_vem_do_futuro(
    antes: Option<Saida>,
    dt_chegada: Option<String>,
    hodometro_chegada: Option<i64>,
    agora: DataHora,
    confirmado: bool,
)
    ensures
        recusa_do_encerramento(antes, dt_chegada, hodometro_chegada, agora, confirmado) is None
            ==> (analisar_spec(texto_chegada(dt_chegada, agora)) matches Some(c) && instante(c)
            <= instante(agora) + FOLGA_FUTURO_MINUTOS * 60),
{
    let t = texto_chegada(dt_chegada, agora);
    if let Some(chegada) = analisar_spec(t) {
        if let Some(s) = antes {
            if let Some(saida) = analisar_spec(s.dt_saida@) {
                lema_regras_respeitam_a_folga(
                    para_encerrar(saida, chegada, s, hodometro_chegada),
                    agora,
                    confirmado,
                );
            }
        }
    }
}

fn regras_de_encerramento(
    de: &validacao::DadosEncerramento,
    agora: &DataHora,
    confirmado: bool,
) -> (r: Result<(), ErroApp>)
    requires
        datahora_valida(de.dt_saida),
        datahora_valida(de.dt_chegada),
        datahora_valida(*agora),
        validacao::hodometros_subtraiveis(*de),
    ensures
        match recusa_das_regras_de_encerramento(*de, *agora, confirmado) {
            Some(f) => recusado(r, f),
            None => r is Ok,
        },
{
    let avisos = validar_encerramento(de, agora)?;
    confirmar(&avisos, confirmado)
}

/// Confere o encerramento da viagem lida (`None` quando não existe) e devolve o
/// que gravar.
pub fn decidir_encerramento(
    antes: &Option<Saida>,
    dt_chegada: &Option<String>,
    hodometro_chegada: Option<i64>,
    agora: &DataHora,
    confirmado_avisos: bool,
) -> (r: Result<Encerramento, ErroApp>)
    requires
        datahora_valida(*agora),
        antes matches Some(s) ==> subtraiveis(hodometro_chegada, s.hodometro_saida),
    ensures
        match recusa_do_encerramento(
            *antes,
            *dt_chegada,
            hodometro_chegada,
            *agora,
            confirmado_avisos,
        ) {
            Some(f) => recusado(r, f),
            None => r matches Ok(e) && antes matches Some(s) && e.dt_chegada@ == texto_chegada(
                *dt_chegada,
                *agora,
            ) && e.hodometro_chegada == hodometro_chegada && e.chegada_manual
                == (dt_chegada is Some) && e.veiculo_id == s.veiculo_id,
        },
        r matches Ok(e) ==> (analisar_spec(e.dt_chegada@) matches Some(c) && instante(c)
            <= instante(*agora) + FOLGA_FUTURO_MINUTOS * 60),
{
    proof {
        lei_encerramento_nao_vem_do_futuro(
            *antes,
            *dt_chegada,
            hodometro_chegada,
            *agora,
            confirmado_avisos,
        );
    }
    let manual = dt_chegada.is_some();
    let chegada_texto: String = match dt_chegada {
        Some(t) => t.clone(),
        None => formatar(agora),
    };
    let chegada = ler(chegada_texto.as_str())?;
    let s = match antes {
        Some(s) => s,
        None => {
            return Err(ErroApp::nao_encontrado(texto("Viagem não encontrada.")));
        },
    };
    if s.excluida_em.is_some() {
        return Err(ErroApp::validacao(texto("Esta viagem foi excluída.")));
    }
    let saida = ler(s.dt_saida.as_str())?;
    let de = validacao::DadosEncerramento {
        dt_saida: saida,
        dt_chegada: chegada,
        ja_encerrada: s.dt_chegada.is_some(),
        hodometro_saida: s.hodometro_saida,
        hodometro_chegada,
    };
    assert(de == para_encerrar(saida, chegada, *s, hodometro_chegada));
    regras_de_encerramento(&de, agora, confirmado_avisos)?;
    Ok(
        Encerramento {
            dt_chegada: chegada_texto,
            hodometro_chegada,
            chegada_manual: manual,
            veiculo_id: s.veiculo_id,
        },
    )
}

/// O pedido de edição de uma viagem, como a tela manda.
#[derive(Debug)]
pub struct DadosEdicao {
    pub id: i64,
    pub turno: String,
    pub destino: Option<String>,
    pub atividade: String,
    pub dt_saida: String,
    pub dt_chegada: Option<String>,
    pub hodometro_saida: Option<i64>,
    pub hodometro_chegada: Option<i64>,
    pub observacao: Option<String>,
}

/// O que a edição grava.
#[derive(Debug)]
pub struct Edicao {
    pub turno: String,
    pub destino: Option<String>,
    pub atividade: String,
    pub dt_saida: String,
    pub dt_chegada: Option<String>,
    pub hodometro_saida: Option<i64>,
    pub hodometro_chegada: Option<i64>,
    pub observacao: Option<String>,
}

/// A recusa das datas de uma edição: a chegada, quando informada, segue as
/// regras de encerramento como se a viagem ainda estivesse aberta.
pub open spec fn recusa_da_chegada_editada(d: DadosEdicao, momento: DataHora, agora: DataHora, confirmado: bool) -> Option<Recusa> {
    match d.dt_chegada {
        None => None,
        Some(tc) => match analisar_spec(tc@) {
            None => Some(recusa_leitura(tc@)),
            Some(chegada) => recusa_das_regras_de_encerramento(
                validacao::DadosEncerramento {
                    dt_saida: momento,
                    dt_chegada: chegada,
                    ja_encerrada: false,
                    hodometro_saida: d.hodometro_saida,
                    hodometro_chegada: d.hodometro_chegada,
                },
                agora,
                confirmado,
            ),
        },
    }
}

/// A primeira recusa da edição: a saída ilegível, o turno, a atividade, a
/// saída no futuro, a viagem que não existe, a excluída, e a chegada.
pub open spec fn recusa_da_edicao(
    d: DadosEdicao,
    antes: Option<Saida>,
    agora: DataHora,
    confirmado: bool,
) -> Option<Recusa> {
    match analisar_spec(d.dt_saida@) {
        None => Some(recusa_leitura(d.dt_saida@)),
        Some(momento) => if !turno_valido(d.turno@) {
            Some(recusa("VALIDACAO", "Turno deve ser A, B ou C.", Some("CAMPO:turno")))
        } else if aparar_spec(d.atividade@).len() == 0 {
            Some(recusa("VALIDACAO", "Informe a atividade.", Some("CAMPO:atividade")))
        } else if no_futuro_alem_de_spec(momento, FOLGA_FUTURO_MINUTOS as int, agora) {
            Some(recusa("VALIDACAO", "A saída não pode ficar no futuro.", Some("CAMPO:dt_saida")))
        } else {
            match antes {
                None => Some(recusa("NAO_ENCONTRADO", "Viagem não encontrada.", None)),
                Some(s) => if s.excluida_em is Some {
                    Some(recusa("VALIDACAO", "Esta viagem foi excluída.", None))
                } else {
                    recusa_da_chegada_editada(d, momento, agora, confirmado)
                },
            }
        },
    }
}

/// O que a edição grava: o pedido, com a atividade aparada e destino e
/// observação limpos; as datas como foram escritas.
pub open spec fn grava_edicao(e: Edicao, d: DadosEdicao) -> bool {
    &&& e.turno@ == d.turno@
    &&& vista(e.destino) == limpo_spec(d.destino)
    &&& e.atividade@ == aparar_spec(d.atividade@)
    &&& e.dt_saida@ == d.dt_saida@
    &&& vista(e.dt_chegada) == vista(d.dt_chegada)
    &&& e.hodometro_saida == d.hodometro_saida
    &&& e.hodometro_chegada == d.hodometro_chegada
    &&& vista(e.observacao) == limpo_spec(d.observacao)
}

fn conferir_chegada_editada(d: &DadosEdicao, momento: &DataHora, agora: &DataHora, confirmado: bool) -> (r: Result<(), ErroApp>)
    requires
        datahora_valida(*momento),
        datahora_valida(*agora),
        d.dt_chegada is Some ==> subtraiveis(d.hodometro_chegada, d.hodometro_saida),
    ensures
        match recusa_da_chegada_editada(*d, *momento, *agora, confirmado) {
            Some(f) => recusado(r, f),
            None => r is Ok,
        },
{
    match &d.dt_chegada {
        None => Ok(()),
        Some(tc) => {
            let chegada = ler(tc.as_str())?;
            let de = validacao::DadosEncerramento {
                dt_saida: *momento,
                dt_chegada: chegada,
                ja_encerrada: false,
                hodometro_saida: d.hodometro_saida,
                hodometro_chegada: d.hodometro_chegada,
            };
            regras_de_encerramento(&de, agora, confirmado)
        },
    }
}

/// Toda edição aceita é de viagem que existe e não foi excluída, grava uma
/// atividade não vazia, turno A, B ou C, uma saída legível que não está no
/// futuro além da folga e, quando traz chegada, uma chegada legível que também
/// não está.
pub proof fn lei_edicao_aceita(d: DadosEdicao, antes: Option<Saida>, agora: DataHora, confirmado: bool)
    ensures
        recusa_da_edicao(d, antes, agora, confirmado) is None ==> {
            &&& aparar_spec(d.atividade@).len() > 0
            &&& (d.turno@ == lit("A") || d.turno@ == lit("B") || d.turno@ == lit("C"))
            &&& antes matches Some(s) && s.excluida_em is None
            &&& analisar_spec(d.dt_saida@) matches Some(m) && instante(m) <= instante(agora)
                + FOLGA_FUTURO_MINUTOS * 60
            &&& d.dt_chegada matches Some(tc) ==> (analisar_spec(tc@) matches Some(c) && instante(c)
                <= instante(agora) + FOLGA_FUTURO_MINUTOS * 60)
        },
{
    if let Some(momento) = analisar_spec(d.dt_saida@) {
        if let Some(tc) = d.dt_chegada {
            if let Some(chegada) = analisar_spec(tc@) {
                lema_regras_respeitam_a_folga(
                    validacao::DadosEncerramento {
                        dt_saida: momento,
                        dt_chegada: chegada,
                        ja_encerrada: false,
                        hodometro_saida: d.hodometro_saida,
                        hodometro_chegada: d.hodometro_chegada,
                    },
                    agora,
                    confirmado,
                );
            }
        }
    }
}

/// Confere a edição contra a viagem lida (`None` quando não existe) e devolve o
/// que gravar.
pub fn decidir_edicao(
    d: &DadosEdicao,
    antes: &Option<Saida>,
    agora: &DataHora,
    confirmado_avisos: bool,
) -> (r: Result<Edicao, ErroApp>)
    requires
        datahora_valida(*agora),
        d.dt_chegada is Some ==> subtraiveis(d.hodometro_chegada, d.hodometro_saida),
    ensures
        match recusa_da_edicao(*d, *antes, *agora, confirmado_avisos) {
            Some(f) => recusado(r, f),
            None => r matches Ok(e) && grava_edicao(e, *d),
        },
        r matches Ok(e) ==> e.atividade@.len() > 0,
        r matches Ok(e) ==> (e.dt_chegada matches Some(tc) ==> (analisar_spec(tc@) matches Some(
            c,
        ) && instante(c) <= instante(*agora) + FOLGA_FUTURO_MINUTOS * 60)),
{
    proof {
        lei_edicao_aceita(*d, *antes, *agora, confirmado_avisos);
    }
    let momento = ler(d.dt_saida.as_str())?;
    validar_turno(d.turno.as_str())?;
    validar_atividade(d.atividade.as_str())?;
    if no_futuro_alem_de(&momento, FOLGA_FUTURO_MINUTOS, agora) {
        return Err(validacao_com("A saída não pode ficar no futuro.", "CAMPO:dt_saida"));
    }
    let s = match antes {
        Some(s) => s,
        None => {
            return Err(ErroApp::nao_encontrado(texto("Viagem não encontrada.")));
        },
    };
    if s.excluida_em.is_some() {
        return Err(ErroApp::validacao(texto("Esta viagem foi excluída.")));
    }
    conferir_chegada_editada(d, &momento, agora, confirmado_avisos)?;
    let dt_chegada: Option<String> = match &d.dt_chegada {
        Some(t) => Some(t.clone()),
        None => None,
    };
    Ok(
        Edicao {
            turno: d.turno.clone(),
            destino: limpar(&d.destino),
            atividade: aparado(d.atividade.as_str()),
            dt_saida: d.dt_saida.clone(),
            dt_chegada,
            hodometro_saida: d.hodometro_saida,
            hodometro_chegada: d.hodometro_chegada,
            observacao: limpar(&d.observacao),
        },
    )
}

/// A primeira recusa da exclusão: a viagem que não existe, a já excluída, e o
/// motivo curto.
pub open spec fn recusa_da_exclusao(antes: Option<Saida>, motivo: Seq<char>) -> Option<Recusa> {
    match antes {
        None => Some(recusa("NAO_ENCONTRADO", "Viagem não encontrada.", None)),
        Some(s) => if s.excluida_em is Some {
            Some(recusa("VALIDACAO", "Esta viagem já foi excluída.", None))
        } else if aparar_spec(motivo).len() < validacao::MOTIVO_MINIMO {
            Some(
                recusa(
                    "VALIDACAO",
                    "Informe o motivo da exclusão, com pelo menos 3 caracteres.",
                    Some("CAMPO:motivo"),
                ),
            )
        } else {
            None
        },
    }
}

/// Exclusão é sempre lógica: a viagem sai das telas e dos relatórios, libera o
/// veículo e o condutor, e continua auditável. Devolve o motivo aparado, que é
/// o que se grava.
pub fn decidir_exclusao(antes: &Option<Saida>, motivo: &str) -> (r: Result<String, ErroApp>)
    ensures
        match recusa_da_exclusao(*antes, motivo@) {
            Some(f) => recusado(r, f),
            None => r matches Ok(m) && m@ == aparar_spec(motivo@),
        },
{
    let s = match antes {
        Some(s) => s,
        None => {
            return Err(ErroApp::nao_encontrado(texto("Viagem não encontrada.")));
        },
    };
    validacao::validar_exclusao(s.excluida_em.is_some(), motivo)?;
    Ok(aparado(motivo))
}


/// Centésimos de hora desde a saída. Data ilegível não some do Painel: o carro
/// está na rua de qualquer jeito, e a linha aparece sem o tempo decorrido.
pub open spec fn decorrido_spec(dt_saida: Seq<char>, agora: DataHora) -> int {
    match analisar_spec(dt_saida) {
        Some(m) => centesimos_de_hora_spec(instante(agora) - instante(m)),
        None => 0,
    }
}

/// Uma viagem na rua, como o Painel a mostra: o tempo decorrido e o alerta de
/// mais de 24 h.
pub fn viagem_aberta(
    id: i64,
    frota: String,
    motorista: String,
    destino: Option<String>,
    atividade: String,
    dt_saida: String,
    turno: String,
    agora: &DataHora,
) -> (r: SaidaAberta)
    requires
        datahora_valida(*agora),
    ensures
        r.id == id,
        r.frota == frota,
        r.motorista == motorista,
        r.destino == destino,
        r.atividade == atividade,
        r.dt_saida == dt_saida,
        r.turno == turno,
        r.horas_decorridas == decorrido_spec(dt_saida@, *agora),
        r.alerta == (decorrido_spec(dt_saida@, *agora) > LIMIAR_ALERTA_ABERTA_CENTESIMOS),
{
    let horas: i64 = match analisar(dt_saida.as_str()) {
        Ok(m) => centesimos_de_hora(instante_exec(agora) - instante_exec(&m)),
        Err(_) => 0,
    };
    SaidaAberta {
        id,
        frota,
        motorista,
        destino,
        atividade,
        dt_saida,
        turno,
        horas_decorridas: horas,
        alerta: horas > LIMIAR_ALERTA_ABERTA_CENTESIMOS,
    }
}

/// Os indicadores a partir das contagens da consulta. Contagem ausente é zero;
/// a média ausente continua ausente: média de zero viagens fechadas é ausência
/// de dado, e zero afirmaria que os carros rodaram sem gastar tempo.
pub fn kpis_de(
    viagens: i64,
    abertas: Option<i64>,
    condutores_distintos: i64,
    frotas_distintas: i64,
    duracao_media: Option<i64>,
    turno_a: Option<i64>,
    turno_b: Option<i64>,
    turno_c: Option<i64>,
) -> (r: Kpis)
    ensures
        r.viagens == viagens as u32,
        r.abertas == zero_se_ausente(abertas) as u32,
        r.condutores_distintos == condutores_distintos as u32,
        r.frotas_distintas == frotas_distintas as u32,
        r.duracao_media_horas == duracao_media,
        r.por_turno[0] == zero_se_ausente(turno_a) as u32,
        r.por_turno[1] == zero_se_ausente(turno_b) as u32,
        r.por_turno[2] == zero_se_ausente(turno_c) as u32,
{
    Kpis {
        viagens: viagens as u32,
        abertas: ou_zero(abertas) as u32,
        condutores_distintos: condutores_distintos as u32,
        frotas_distintas: frotas_distintas as u32,
        duracao_media_horas: duracao_media,
        por_turno: [ou_zero(turno_a) as u32, ou_zero(turno_b) as u32, ou_zero(turno_c) as u32],
    }
}

pub open spec fn zero_se_ausente(o: Option<i64>) -> i64 {
    match o {
        Some(v) => v,
        None => 0,
    }
}

fn ou_zero(o: Option<i64>) -> (r: i64)
    ensures
        r == zero_se_ausente(o),
{
    match o {
        Some(v) => v,
        None => 0,
    }
}

} // verus!
