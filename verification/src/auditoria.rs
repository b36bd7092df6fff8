//! Trilha de auditoria.
//!
//! O programa em volta grava o evento **dentro da transação do chamador**, nunca
//! numa conexão própria: um registro que entrou e uma auditoria que não entrou
//! é pior que nenhuma das duas, porque dá a impressão de que a trilha é
//! confiável.

use vstd::prelude::*;

verus! {

pub const ABRIR_SAIDA: &'static str = "ABRIR_SAIDA";
pub const ENCERRAR_SAIDA: &'static str = "ENCERRAR_SAIDA";
pub const EDITAR_SAIDA: &'static str = "EDITAR_SAIDA";
pub const EXCLUIR_SAIDA: &'static str = "EXCLUIR_SAIDA";
pub const CRIAR: &'static str = "CRIAR";
pub const ATUALIZAR: &'static str = "ATUALIZAR";
pub const INATIVAR: &'static str = "INATIVAR";
pub const FUNDIR: &'static str = "FUNDIR";
pub const TOMADA_LOCK: &'static str = "TOMADA_LOCK";

/// Um evento da trilha. `antes` e `depois` são o registro em JSON.
#[derive(Debug)]
pub struct Evento<'a> {
    pub entidade: &'a str,
    pub entidade_id: Option<i64>,
    pub acao: &'a str,
    pub antes: Option<String>,
    pub depois: Option<String>,
}

impl<'a> Evento<'a> {
    pub fn novo(entidade: &'a str, acao: &'a str) -> (r: Evento<'a>)
        ensures
            r.entidade == entidade,
            r.acao == acao,
            r.entidade_id is None,
            r.antes is None,
            r.depois is None,
    {
        Evento { entidade, entidade_id: None, acao, antes: None, depois: None }
    }

    pub fn id(self, id: i64) -> (r: Evento<'a>)
        ensures
            r == (Evento { entidade_id: Some(id), ..self }),
    {
        Evento { entidade_id: Some(id), ..self }
    }

    /// O estado anterior, já em JSON; `None` quando não deu para serializar.
    pub fn antes(self, json: Option<String>) -> (r: Evento<'a>)
        ensures
            r == (Evento { antes: json, ..self }),
    {
        Evento { antes: json, ..self }
    }

    /// O estado posterior, já em JSON.
    pub fn depois(self, json: Option<String>) -> (r: Evento<'a>)
        ensures
            r == (Evento { depois: json, ..self }),
    {
        Evento { depois: json, ..self }
    }
}

} // verus!
