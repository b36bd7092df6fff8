//! A linha do log em arquivo, na máquina do usuário.
//!
//! Escrever é do programa em volta, e falha de log nunca derruba nada: sem lugar
//! para escrever, a linha se perde e o sistema segue.

use vstd::prelude::*;

use crate::erro::lit;

verus! {

pub const INFO: &'static str = "INFO";
pub const AVISO: &'static str = "AVISO";
pub const ERRO: &'static str = "ERRO";

/// `carimbo [NIVEL] texto`, terminada em quebra de linha.
pub fn linha_de_log(carimbo: &str, nivel: &str, texto: &str) -> (r: String)
    ensures
        r@ == carimbo@ + lit(" [") + nivel@ + lit("] ") + texto@ + lit("\n"),
{
    let mut r = String::from_str(carimbo);
    r.append(" [");
    r.append(nivel);
    r.append("] ");
    r.append(texto);
    r.append("\n");
    r
}

} // verus!
