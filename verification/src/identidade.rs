//! Quem está operando e de onde.
//!
//! Não existe login: o sistema roda de uma pasta de rede e confia no usuário do
//! Windows. É esse nome que vai para a auditoria, para o `controle.lock.info` e
//! para o rodapé do relatório. O programa em volta lê as variáveis de ambiente;
//! aqui se decide o que elas dizem.

use vstd::prelude::*;

use crate::erro::{lit, texto};
use crate::texto::{aparado, aparar_spec, chars_de};

verus! {

/// `DOMINIO\usuario` quando os dois existem, só o usuário quando só ele existe,
/// e `desconhecido` sem nenhum.
pub open spec fn usuario_spec(dominio: Option<Seq<char>>, nome: Option<Seq<char>>) -> Seq<char> {
    match nome {
        Some(n) => if n.len() == 0 {
            lit("desconhecido")
        } else {
            match dominio {
                Some(d) => if d.len() > 0 {
                    d + lit("\\") + n
                } else {
                    n
                },
                None => n,
            }
        },
        None => lit("desconhecido"),
    }
}

pub fn usuario_de(dominio: &Option<String>, nome: &Option<String>) -> (r: String)
    ensures
        r@ == usuario_spec(crate::texto::vista(*dominio), crate::texto::vista(*nome)),
{
    match nome {
        Some(n) => if chars_de(n.as_str()).len() == 0 {
            texto("desconhecido")
        } else {
            match dominio {
                Some(d) => if chars_de(d.as_str()).len() > 0 {
                    let mut r = String::from_str(d.as_str());
                    r.append("\\");
                    r.append(n.as_str());
                    r
                } else {
                    n.clone()
                },
                None => n.clone(),
            }
        },
        None => texto("desconhecido"),
    }
}

/// O nome da máquina: o do Windows, o do ambiente, o de `/etc/hostname`
/// aparado, nessa ordem, pulando os vazios; `desconhecida` sem nenhum.
pub open spec fn maquina_spec(
    computername: Option<Seq<char>>,
    hostname: Option<Seq<char>>,
    arquivo: Option<Seq<char>>,
) -> Seq<char> {
    if computername matches Some(c) && c.len() > 0 {
        computername->0
    } else if hostname matches Some(h) && h.len() > 0 {
        hostname->0
    } else if arquivo matches Some(a) && aparar_spec(a).len() > 0 {
        aparar_spec(arquivo->0)
    } else {
        lit("desconhecida")
    }
}

pub fn maquina_de(
    computername: &Option<String>,
    hostname: &Option<String>,
    arquivo_hostname: &Option<String>,
) -> (r: String)
    ensures
        r@ == maquina_spec(
            crate::texto::vista(*computername),
            crate::texto::vista(*hostname),
            crate::texto::vista(*arquivo_hostname),
        ),
{
    if let Some(c) = computername {
        if chars_de(c.as_str()).len() > 0 {
            return c.clone();
        }
    }
    if let Some(h) = hostname {
        if chars_de(h.as_str()).len() > 0 {
            return h.clone();
        }
    }
    if let Some(a) = arquivo_hostname {
        let limpo = aparado(a.as_str());
        if chars_de(limpo.as_str()).len() > 0 {
            return limpo;
        }
    }
    texto("desconhecida")
}

} // verus!
