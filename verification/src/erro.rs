//! Erro único da aplicação.
//!
//! A tela trata pelo `codigo`, nunca pela mensagem: mensagem é para humano e
//! muda; código é contrato.

use vstd::prelude::*;

use crate::texto::{contem_spec, contem_str};

verus! {

#[derive(Debug, Clone)]
pub struct ErroApp {
    pub codigo: String,
    pub mensagem: String,
    pub detalhe: Option<String>,
}

/// Texto de um literal, para os contratos.
pub open spec fn lit(s: &str) -> Seq<char> {
    s@
}

/// O erro tem este código, esta mensagem e nenhum detalhe.
pub open spec fn erro_sem_detalhe(e: ErroApp, codigo: &str, mensagem: Seq<char>) -> bool {
    &&& e.codigo@ == codigo@
    &&& e.mensagem@ == mensagem
    &&& e.detalhe is None
}

/// O erro tem este código, esta mensagem e este detalhe.
pub open spec fn erro_com_detalhe(
    e: ErroApp,
    codigo: &str,
    mensagem: Seq<char>,
    detalhe: Seq<char>,
) -> bool {
    &&& e.codigo@ == codigo@
    &&& e.mensagem@ == mensagem
    &&& e.detalhe matches Some(d) && d@ == detalhe
}

pub fn texto(s: &str) -> (r: String)
    ensures
        r@ == s@,
{
    String::from_str(s)
}

impl ErroApp {
    fn novo(codigo: &str, mensagem: String) -> (r: ErroApp)
        ensures
            erro_sem_detalhe(r, codigo, mensagem@),
    {
        ErroApp { codigo: texto(codigo), mensagem, detalhe: None }
    }

    pub fn com_detalhe(self, detalhe: String) -> (r: ErroApp)
        ensures
            r.codigo == self.codigo,
            r.mensagem == self.mensagem,
            r.detalhe == Some(detalhe),
    {
        ErroApp { detalhe: Some(detalhe), ..self }
    }

    pub fn veiculo_em_uso() -> (r: ErroApp)
        ensures
            erro_sem_detalhe(
                r,
                "VEICULO_EM_USO",
                lit("Este veículo já está em viagem e ainda não retornou."),
            ),
    {
        ErroApp::novo(
            "VEICULO_EM_USO",
            texto("Este veículo já está em viagem e ainda não retornou."),
        )
    }

    pub fn motorista_em_uso() -> (r: ErroApp)
        ensures
            erro_sem_detalhe(
                r,
                "MOTORISTA_EM_USO",
                lit("Este condutor já está em viagem e ainda não retornou."),
            ),
    {
        ErroApp::novo(
            "MOTORISTA_EM_USO",
            texto("Este condutor já está em viagem e ainda não retornou."),
        )
    }

    pub fn duplicado(mensagem: String) -> (r: ErroApp)
        ensures
            erro_sem_detalhe(r, "DUPLICADO", mensagem@),
    {
        ErroApp::novo("DUPLICADO", mensagem)
    }

    pub fn semelhante(mensagem: String) -> (r: ErroApp)
        ensures
            erro_sem_detalhe(r, "SEMELHANTE", mensagem@),
    {
        ErroApp::novo("SEMELHANTE", mensagem)
    }

    pub fn nao_encontrado(mensagem: String) -> (r: ErroApp)
        ensures
            erro_sem_detalhe(r, "NAO_ENCONTRADO", mensagem@),
    {
        ErroApp::novo("NAO_ENCONTRADO", mensagem)
    }

    pub fn validacao(mensagem: String) -> (r: ErroApp)
        ensures
            erro_sem_detalhe(r, "VALIDACAO", mensagem@),
    {
        ErroApp::novo("VALIDACAO", mensagem)
    }

    pub fn banco(mensagem: String) -> (r: ErroApp)
        ensures
            erro_sem_detalhe(r, "BANCO", mensagem@),
    {
        ErroApp::novo("BANCO", mensagem)
    }

    pub fn sessao_perdida() -> (r: ErroApp)
        ensures
            erro_sem_detalhe(
                r,
                "SESSAO_PERDIDA",
                lit(
                    "A sessão com o servidor foi perdida e o registro não pode ser gravado. Reconecte antes de continuar.",
                ),
            ),
    {
        ErroApp::novo(
            "SESSAO_PERDIDA",
            texto(
                "A sessão com o servidor foi perdida e o registro não pode ser gravado. Reconecte antes de continuar.",
            ),
        )
    }

    pub fn conexao_perdida() -> (r: ErroApp)
        ensures
            erro_sem_detalhe(
                r,
                "CONEXAO_PERDIDA",
                lit("Conexão com o servidor perdida, o último registro pode não ter sido salvo."),
            ),
    {
        ErroApp::novo(
            "CONEXAO_PERDIDA",
            texto("Conexão com o servidor perdida, o último registro pode não ter sido salvo."),
        )
    }
}

/// O erro que uma violação de restrição única cujo texto é `t` significa para o
/// operador, ou `None` quando o texto não identifica nenhuma regra conhecida.
///
/// Ao violar um índice único parcial o SQLite não cita o nome do índice, cita a
/// coluna: `saidas.veiculo_id` e `saidas.motorista_id` só são únicos por causa
/// desses índices, então a coluna identifica a regra sem ambiguidade.
pub open spec fn restricao_spec(t: Seq<char>) -> Option<(Seq<char>, Seq<char>)> {
    if contem_spec(t, lit("ux_veiculo_em_uso")) || contem_spec(t, lit("saidas.veiculo_id")) {
        Some((lit("VEICULO_EM_USO"), lit("Este veículo já está em viagem e ainda não retornou.")))
    } else if contem_spec(t, lit("ux_motorista_em_uso")) || contem_spec(
        t,
        lit("saidas.motorista_id"),
    ) {
        Some(
            (lit("MOTORISTA_EM_USO"), lit("Este condutor já está em viagem e ainda não retornou.")),
        )
    } else if contem_spec(t, lit("motoristas.nome_norm")) {
        Some((lit("DUPLICADO"), lit("Já existe um condutor com esse nome.")))
    } else if contem_spec(t, lit("motoristas.matricula")) {
        Some((lit("DUPLICADO"), lit("Já existe um condutor com essa matrícula.")))
    } else if contem_spec(t, lit("veiculos.frota")) {
        Some((lit("DUPLICADO"), lit("Já existe um veículo com essa frota.")))
    } else if contem_spec(t, lit("veiculos.placa")) {
        Some((lit("DUPLICADO"), lit("Já existe um veículo com essa placa.")))
    } else {
        None
    }
}

pub fn por_restricao(texto_erro: &str) -> (r: Option<ErroApp>)
    ensures
        match restricao_spec(texto_erro@) {
            Some((codigo, mensagem)) => r matches Some(e) && e.codigo@ == codigo && e.mensagem@
                == mensagem && e.detalhe is None,
            None => r is None,
        },
{
    if contem_str(texto_erro, "ux_veiculo_em_uso") || contem_str(texto_erro, "saidas.veiculo_id") {
        return Some(ErroApp::veiculo_em_uso());
    }
    if contem_str(texto_erro, "ux_motorista_em_uso") || contem_str(
        texto_erro,
        "saidas.motorista_id",
    ) {
        return Some(ErroApp::motorista_em_uso());
    }
    if contem_str(texto_erro, "motoristas.nome_norm") {
        return Some(ErroApp::duplicado(texto("Já existe um condutor com esse nome.")));
    }
    if contem_str(texto_erro, "motoristas.matricula") {
        return Some(ErroApp::duplicado(texto("Já existe um condutor com essa matrícula.")));
    }
    if contem_str(texto_erro, "veiculos.frota") {
        return Some(ErroApp::duplicado(texto("Já existe um veículo com essa frota.")));
    }
    if contem_str(texto_erro, "veiculos.placa") {
        return Some(ErroApp::duplicado(texto("Já existe um veículo com essa placa.")));
    }
    None
}

/// A classe da falha do SQLite, lida pelo programa a partir do código que o
/// `rusqlite` devolve.
#[derive(Debug, Clone, Copy, PartialEq, Eq, Structural)]
pub enum FalhaBanco {
    /// `ErrorCode::ConstraintViolation`.
    Restricao,
    /// `CannotOpen`, `SystemIoFailure`, `DatabaseBusy` ou `DatabaseLocked`: o
    /// servidor de arquivos sumindo, não um banco quebrado.
    Acesso,
    /// Qualquer outra falha do SQLite.
    OutraDoSqlite,
    /// Um erro do `rusqlite` que não veio do SQLite.
    ForaDoSqlite,
}

/// Traduz a falha do SQLite para o vocabulário da aplicação. `mensagem` é o
/// texto que o SQLite anexou à falha, e `descricao` é o erro inteiro como texto.
pub fn traduzir_falha(falha: FalhaBanco, mensagem: Option<String>, descricao: String) -> (r:
    ErroApp)
    ensures
        ({
            let t = match mensagem {
                Some(m) => m@,
                None => Seq::<char>::empty(),
            };
            if falha == FalhaBanco::Restricao && restricao_spec(t) is Some {
                let (codigo, texto_msg) = restricao_spec(t).unwrap();
                r.codigo@ == codigo && r.mensagem@ == texto_msg && r.detalhe is None
            } else if falha == FalhaBanco::Acesso {
                erro_com_detalhe(
                    r,
                    "CONEXAO_PERDIDA",
                    lit(
                        "Conexão com o servidor perdida, o último registro pode não ter sido salvo.",
                    ),
                    t,
                )
            } else {
                erro_com_detalhe(r, "BANCO", lit("Falha ao acessar o banco de dados."), descricao@)
            }
        }),
{
    let t = match mensagem {
        Some(m) => m,
        None => String::new(),
    };
    if falha == FalhaBanco::Restricao {
        if let Some(mapeado) = por_restricao(t.as_str()) {
            return mapeado;
        }
    }
    if falha == FalhaBanco::Acesso {
        return ErroApp::conexao_perdida().com_detalhe(t);
    }
    ErroApp::banco(texto("Falha ao acessar o banco de dados.")).com_detalhe(descricao)
}


/// Um erro descrito por seus textos, para os contratos.
pub struct Recusa {
    pub codigo: Seq<char>,
    pub mensagem: Seq<char>,
    pub detalhe: Option<Seq<char>>,
}

pub open spec fn recusa(codigo: &str, mensagem: &str, detalhe: Option<&str>) -> Recusa {
    Recusa {
        codigo: codigo@,
        mensagem: mensagem@,
        detalhe: match detalhe {
            Some(d) => Some(d@),
            None => None,
        },
    }
}

/// O erro `e` é exatamente a recusa `f`.
pub open spec fn corresponde(e: ErroApp, f: Recusa) -> bool {
    &&& e.codigo@ == f.codigo
    &&& e.mensagem@ == f.mensagem
    &&& match f.detalhe {
        Some(d) => e.detalhe matches Some(x) && x@ == d,
        None => e.detalhe is None,
    }
}

/// `r` é a recusa `f`.
pub open spec fn recusado<T>(r: Result<T, ErroApp>, f: Recusa) -> bool {
    r matches Err(e) && corresponde(e, f)
}

/// Um `VALIDACAO` com mensagem e detalhe de literais.
pub fn validacao_com(mensagem: &str, detalhe: &str) -> (r: ErroApp)
    ensures
        corresponde(r, recusa("VALIDACAO", mensagem, Some(detalhe))),
{
    ErroApp::validacao(texto(mensagem)).com_detalhe(texto(detalhe))
}

/// Um `VALIDACAO` com mensagem de literal e sem detalhe.
pub fn validacao_sem(mensagem: &str) -> (r: ErroApp)
    ensures
        corresponde(r, recusa("VALIDACAO", mensagem, None)),
{
    ErroApp::validacao(texto(mensagem))
}

} // verus!
