//! A sonda da rede: o protótipo que responde se o SQLite sobrevive a uma queda
//! de rede no meio de uma escrita, direto sobre a pasta compartilhada. O
//! programa em volta grava, lê e imprime; aqui se decide o veredito.

use vstd::prelude::*;

use crate::erro::lit;
use crate::texto::{digitos, escrever_digitos, string_de};

verus! {

#[derive(Debug, Clone, Copy, PartialEq, Eq, Structural)]
pub enum ModoSonda {
    /// Grava uma transação por segundo, sem parar.
    Martelo,
    /// `integrity_check` e a contagem contra o maior número gravado.
    Checar,
    /// Tenta adquirir o lock e segura até o Enter.
    Lock,
    /// Mede a abertura da conexão, 20 vezes.
    Tempo,
}

pub open spec fn modo_spec(nome: Seq<char>) -> Option<ModoSonda> {
    if nome == lit("martelo") {
        Some(ModoSonda::Martelo)
    } else if nome == lit("checar") {
        Some(ModoSonda::Checar)
    } else if nome == lit("lock") {
        Some(ModoSonda::Lock)
    } else if nome == lit("tempo") {
        Some(ModoSonda::Tempo)
    } else {
        None
    }
}

pub fn escolher_modo(nome: &str) -> (r: Option<ModoSonda>)
    ensures
        r == modo_spec(nome@),
{
    if crate::texto::iguais(nome, "martelo") {
        Some(ModoSonda::Martelo)
    } else if crate::texto::iguais(nome, "checar") {
        Some(ModoSonda::Checar)
    } else if crate::texto::iguais(nome, "lock") {
        Some(ModoSonda::Lock)
    } else if crate::texto::iguais(nome, "tempo") {
        Some(ModoSonda::Tempo)
    } else {
        None
    }
}

/// O journal que o SQLite deixa ao lado do banco quando uma escrita é
/// interrompida. Ele é revertido sozinho na abertura, e nunca se apaga à mão.
pub fn caminho_do_journal(caminho: &str) -> (r: String)
    ensures
        r@ == caminho@ + lit("-journal"),
{
    let mut r = String::from_str(caminho);
    r.append("-journal");
    r
}

/// O carimbo de cada linha gravada: segundos desde a época.
pub fn carimbo_de(segundos: u64) -> (r: String)
    ensures
        r@ == lit("epoch:") + digitos(segundos as nat),
{
    let mut v: Vec<char> = crate::texto::chars_de("epoch:");
    escrever_digitos(segundos, &mut v);
    string_de(&v)
}

/// O resultado da checagem depois da queda.
#[derive(Debug)]
pub struct Veredito {
    pub integro: bool,
    pub sem_buraco: bool,
    /// Quantas linhas faltam na sequência.
    pub faltando: i64,
}

/// Aprovado só com o banco íntegro e sem buraco na sequência: buraco significa
/// transação confirmada que sumiu, que é exatamente o que reprova.
pub fn avaliar_checagem(integridade: &str, total: i64, maior: i64) -> (r: Veredito)
    requires
        i64::MIN <= maior - total <= i64::MAX,
    ensures
        r.integro == (integridade@ == lit("ok")),
        r.sem_buraco == (total == maior),
        r.faltando == maior - total,
{
    Veredito {
        integro: crate::texto::iguais(integridade, "ok"),
        sem_buraco: total == maior,
        faltando: maior - total,
    }
}

} // verus!
