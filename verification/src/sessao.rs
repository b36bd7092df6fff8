//! A sessão: a ordem da abertura, a batida do lock, a tela de bloqueio e a
//! tomada de posse.
//!
//! A ordem da abertura não é negociável: o lock vem **antes** de tudo que toca
//! o banco. Abrir o banco primeiro e só então descobrir que outra máquina está
//! com ele é exatamente a escrita concorrente que o lock existe para impedir.
//! O programa em volta executa cada passo e conta o desfecho; aqui se decide o
//! que vem depois.

use vstd::prelude::*;

use crate::config::Modo;
use crate::datahora::{datahora_valida, DataHora};
use crate::erro::{corresponde, lit, recusa, recusado, texto, ErroApp, Recusa};
use crate::lock::{
    hora_de_inicio_spec, minutos_desde_heartbeat_spec, pode_tomar_posse_spec, InfoLock,
    FALHAS_PARA_DEGRADAR,
};
use crate::texto::{aparado, aparar_spec, chars_de, iguais};

verus! {

#[derive(Debug, Clone, Copy, PartialEq, Eq, Structural)]
pub enum Conexao {
    Normal,
    Degradada,
}

/// O que a barra de status mostra.
#[derive(Debug)]
pub struct EstadoSessao {
    pub usuario_windows: String,
    pub maquina: String,
    pub inicio: String,
    pub conexao: Conexao,
    pub ultimo_backup: Option<String>,
    pub user_version: i64,
    pub caminho_dados: String,
    pub modo: Modo,
    /// Falso fora do Windows. A barra de status é obrigada a mostrar isso: stub
    /// silencioso é como se descobre em produção que o lock nunca existiu.
    pub lock_confiavel: bool,
}

/// Todo comando que escreve passa por aqui antes. Em modo degradado o lock pode
/// ter sido perdido, e gravar assim mesmo é como duas máquinas acabam
/// escrevendo no mesmo arquivo.
pub fn exigir_conexao_normal(conexao: Conexao) -> (r: Result<(), ErroApp>)
    ensures
        conexao == Conexao::Normal ==> r is Ok,
        conexao == Conexao::Degradada ==> recusado(
            r,
            recusa(
                "SESSAO_PERDIDA",
                "A sessão com o servidor foi perdida e o registro não pode ser gravado. Reconecte antes de continuar.",
                None,
            ),
        ),
{
    if conexao == Conexao::Degradada {
        return Err(ErroApp::sessao_perdida());
    }
    Ok(())
}

/// O último backup registrado; texto vazio é o mesmo que nenhum.
pub fn ultimo_backup_de(lido: Option<String>) -> (r: Option<String>)
    ensures
        match lido {
            Some(v) => if v@.len() == 0 {
                r is None
            } else {
                r == Some(v)
            },
            None => r is None,
        },
{
    match lido {
        Some(v) => if chars_de(v.as_str()).len() == 0 {
            None
        } else {
            Some(v)
        },
        None => None,
    }
}

/// Os passos da abertura da sessão.
#[derive(Debug, Clone, Copy, PartialEq, Eq, Structural)]
pub enum Passo {
    AdquirirLock,
    /// Em demonstração o banco é recriado do zero a cada abertura, e só depois
    /// do lock: a segunda instância precisa cair na tela de bloqueio sem ter
    /// apagado o banco que a primeira está usando.
    PrepararDemonstracao,
    AbrirConexao,
    /// Integridade antes de escrever qualquer coisa: gravar sobre um arquivo
    /// corrompido destrói o que ainda dava para recuperar.
    ChecarIntegridade,
    /// Migrações pendentes, com backup antes de cada uma.
    AplicarMigracoes,
    PopularDemonstracao,
}

/// Como um passo terminou.
#[derive(Debug)]
pub enum Desfecho {
    Concluido,
    Falhou(ErroApp),
    /// Só da checagem de integridade: o banco respondeu, e está corrompido.
    BancoCorrompido,
}

/// O que fazer em seguida.
#[derive(Debug)]
pub enum Acao {
    Executar(Passo),
    /// A sessão está aberta.
    Pronta,
    /// Devolver o erro, liberando antes o lock quando ele já foi obtido.
    Desistir { liberar_lock: bool, erro: ErroApp },
}

/// A ordem dos passos, em produção e em demonstração.
pub open spec fn roteiro(demonstracao: bool) -> Seq<Passo> {
    if demonstracao {
        seq![
            Passo::AdquirirLock,
            Passo::PrepararDemonstracao,
            Passo::AbrirConexao,
            Passo::ChecarIntegridade,
            Passo::AplicarMigracoes,
            Passo::PopularDemonstracao,
        ]
    } else {
        seq![
            Passo::AdquirirLock,
            Passo::AbrirConexao,
            Passo::ChecarIntegridade,
            Passo::AplicarMigracoes,
        ]
    }
}

pub open spec fn seguinte_spec(p: Passo, demonstracao: bool) -> Option<Passo> {
    match p {
        Passo::AdquirirLock => if demonstracao {
            Some(Passo::PrepararDemonstracao)
        } else {
            Some(Passo::AbrirConexao)
        },
        Passo::PrepararDemonstracao => Some(Passo::AbrirConexao),
        Passo::AbrirConexao => Some(Passo::ChecarIntegridade),
        Passo::ChecarIntegridade => Some(Passo::AplicarMigracoes),
        Passo::AplicarMigracoes => if demonstracao {
            Some(Passo::PopularDemonstracao)
        } else {
            None
        },
        Passo::PopularDemonstracao => None,
    }
}

pub open spec fn recusa_banco_corrompido(caminho_banco: Seq<char>) -> Recusa {
    Recusa {
        codigo: lit("BANCO"),
        mensagem: lit(
            "O banco de dados está corrompido e o sistema não pode ser aberto. Procure o suporte antes de continuar.",
        ),
        detalhe: Some(lit("ARQUIVO:") + caminho_banco),
    }
}

pub fn primeiro_passo() -> (r: Passo)
    ensures
        r == Passo::AdquirirLock,
{
    Passo::AdquirirLock
}

/// Depois de cada passo: o próximo, a sessão pronta, ou desistir. Qualquer
/// falha depois do lock obtido libera o lock antes de devolver o erro.
pub fn proxima_acao(passo: Passo, modo: Modo, desfecho: Desfecho, caminho_banco: &str) -> (r:
    Acao)
    ensures
        match desfecho {
            Desfecho::Concluido => match seguinte_spec(passo, modo == Modo::Demonstracao) {
                Some(p) => r == Acao::Executar(p),
                None => r is Pronta,
            },
            Desfecho::Falhou(e) => r == Acao::Desistir {
                liberar_lock: passo != Passo::AdquirirLock,
                erro: e,
            },
            Desfecho::BancoCorrompido => r matches Acao::Desistir { liberar_lock, erro }
                && liberar_lock == (passo != Passo::AdquirirLock) && corresponde(
                erro,
                recusa_banco_corrompido(caminho_banco@),
            ),
        },
{
    let demonstracao = modo == Modo::Demonstracao;
    match desfecho {
        Desfecho::Concluido => match passo {
            Passo::AdquirirLock => if demonstracao {
                Acao::Executar(Passo::PrepararDemonstracao)
            } else {
                Acao::Executar(Passo::AbrirConexao)
            },
            Passo::PrepararDemonstracao => Acao::Executar(Passo::AbrirConexao),
            Passo::AbrirConexao => Acao::Executar(Passo::ChecarIntegridade),
            Passo::ChecarIntegridade => Acao::Executar(Passo::AplicarMigracoes),
            Passo::AplicarMigracoes => if demonstracao {
                Acao::Executar(Passo::PopularDemonstracao)
            } else {
                Acao::Pronta
            },
            Passo::PopularDemonstracao => Acao::Pronta,
        },
        Desfecho::Falhou(e) => Acao::Desistir { liberar_lock: passo != Passo::AdquirirLock, erro: e },
        Desfecho::BancoCorrompido => {
            let mut detalhe = String::from_str("ARQUIVO:");
            detalhe.append(caminho_banco);
            Acao::Desistir {
                liberar_lock: passo != Passo::AdquirirLock,
                erro: ErroApp::banco(
                    texto(
                        "O banco de dados está corrompido e o sistema não pode ser aberto. Procure o suporte antes de continuar.",
                    ),
                ).com_detalhe(detalhe),
            }
        },
    }
}

/// A abertura percorre o roteiro do começo ao fim: começa pelo lock, cada passo
/// concluído leva ao seguinte do roteiro, e o último deixa a sessão pronta.
/// Assim, nada toca o banco, nem para recriar a base de demonstração, antes do
/// lock.
pub proof fn lei_abertura_segue_o_roteiro(demonstracao: bool)
    ensures
        roteiro(demonstracao)[0] == Passo::AdquirirLock,
        forall|i: int|
            0 <= i < roteiro(demonstracao).len() - 1 ==> seguinte_spec(
                #[trigger] roteiro(demonstracao)[i],
                demonstracao,
            ) == Some(roteiro(demonstracao)[i + 1]),
        seguinte_spec(roteiro(demonstracao).last(), demonstracao) is None,
        forall|i: int|
            0 < i < roteiro(demonstracao).len() ==> #[trigger] roteiro(demonstracao)[i]
                != Passo::AdquirirLock,
{
}

/// Numa base que ainda não existe não há o que salvar antes de migrar.
pub fn backup_antes_de_migrar(nivel_atual: i64) -> (r: bool)
    ensures
        r == (nivel_atual != 0),
{
    nivel_atual != 0
}

/// A contagem de batidas falhas seguidas depois de uma batida, e se a conta
/// chegou ao limite que denuncia a rede caída. Uma batida boa zera a conta.
pub fn apos_heartbeat(falhas: u32, sucesso: bool) -> (r: (u32, bool))
    requires
        sucesso || falhas < u32::MAX,
    ensures
        sucesso ==> r == (0u32, false),
        !sucesso ==> r.0 == falhas + 1 && r.1 == (falhas + 1 >= FALHAS_PARA_DEGRADAR),
{
    if sucesso {
        (0, false)
    } else {
        let total = falhas + 1;
        (total, total >= FALHAS_PARA_DEGRADAR)
    }
}

/// O que a tela de bloqueio mostra. Sem menu e sem contorno: o caminho certo é
/// procurar a pessoa, não insistir no botão.
#[derive(Debug)]
pub struct InfoBloqueio {
    pub usuario_windows: String,
    pub maquina: String,
    pub desde: String,
    pub minutos_sem_heartbeat: Option<i64>,
    /// Só com heartbeat parado há mais de 10 minutos.
    pub pode_tomar_posse: bool,
}

pub fn bloqueio_de(info: &InfoLock, agora: &DataHora) -> (r: InfoBloqueio)
    requires
        datahora_valida(*agora),
    ensures
        r.usuario_windows == info.usuario_windows,
        r.maquina == info.maquina,
        r.desde@ == hora_de_inicio_spec(*info),
        match minutos_desde_heartbeat_spec(*info, *agora) {
            Some(m) => r.minutos_sem_heartbeat == Some(m as i64),
            None => r.minutos_sem_heartbeat is None,
        },
        r.pode_tomar_posse == pode_tomar_posse_spec(*info, *agora),
{
    InfoBloqueio {
        usuario_windows: info.usuario_windows.clone(),
        maquina: info.maquina.clone(),
        desde: info.hora_de_inicio(),
        minutos_sem_heartbeat: info.minutos_desde_heartbeat(agora),
        pode_tomar_posse: info.pode_tomar_posse(agora),
    }
}

/// A tomada de posse exige digitar `CONFIRMAR` e, se há outra sessão
/// registrada, a batida dela parada há mais de 10 minutos. Sem esse atrito,
/// tomada de posse vira o botão que todo mundo aperta, e duas máquinas
/// escrevendo no mesmo arquivo é como o banco corrompe.
pub fn autorizar_tomada_de_posse(
    confirmacao: &str,
    anterior: &Option<InfoLock>,
    agora: &DataHora,
) -> (r: Result<(), ErroApp>)
    requires
        datahora_valida(*agora),
    ensures
        aparar_spec(confirmacao@) != lit("CONFIRMAR") ==> recusado(
            r,
            recusa("VALIDACAO", "Digite CONFIRMAR para assumir a sessão.", None),
        ),
        aparar_spec(confirmacao@) == lit("CONFIRMAR") && (anterior matches Some(i)
            && !pode_tomar_posse_spec(*i, *agora)) ==> recusado(
            r,
            recusa(
                "VALIDACAO",
                "A outra sessão ainda está ativa. Procure a pessoa antes de assumir.",
                None,
            ),
        ),
        r is Ok <==> aparar_spec(confirmacao@) == lit("CONFIRMAR") && match anterior {
            Some(i) => pode_tomar_posse_spec(*i, *agora),
            None => true,
        },
{
    let digitado = aparado(confirmacao);
    if !iguais(digitado.as_str(), "CONFIRMAR") {
        return Err(ErroApp::validacao(texto("Digite CONFIRMAR para assumir a sessão.")));
    }
    if let Some(info) = anterior {
        if !info.pode_tomar_posse(agora) {
            return Err(
                ErroApp::validacao(
                    texto("A outra sessão ainda está ativa. Procure a pessoa antes de assumir."),
                ),
            );
        }
    }
    Ok(())
}

} // verus!
