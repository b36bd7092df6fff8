//! Duração de viagem.
//!
//! As datas são completas, com dia. Não existe adivinhação de virada de
//! meia-noite: `22:40 → 05:30` do dia seguinte são 6 h 50 por subtração direta,
//! e não 16 h nem um alerta espúrio.
//!
//! As horas são arredondadas a duas casas e guardadas como centésimos de hora
//! inteiros: o alerta de viagem longa, a mensagem de confirmação e os
//! relatórios olham o mesmo número, sem a surpresa de "o relatório diz 6,83 e a
//! tela diz 6,8333".

use vstd::prelude::*;

use crate::datahora::{anexar_dois_digitos, dois_digitos};
use crate::texto::{decimal, decimal_spec, string_de};

verus! {

/// Existem turnos legítimos de monitor com 10 a 12 h. O alerta não pode disparar
/// antes de 14 h, ou vira ruído que o operador aprende a ignorar. Em centésimos
/// de hora, como as horas arredondadas a duas casas que a tela mostra.
pub const LIMIAR_DURACAO_LONGA_CENTESIMOS: i64 = 1400;

/// Acima de 24 h, em centésimos de hora, a linha da viagem aberta fica vermelha
/// no Painel.
pub const LIMIAR_ALERTA_ABERTA_CENTESIMOS: i64 = 2400;

/// Mais de 14 h, com as horas já arredondadas a duas casas: 14 h e 1 minuto
/// são 14,02 h, e 14 h e 30 s já são 14,01 h.
pub open spec fn longa_spec(centesimos: int) -> bool {
    centesimos > LIMIAR_DURACAO_LONGA_CENTESIMOS
}

pub fn longa(centesimos: i64) -> (r: bool)
    ensures
        r == longa_spec(centesimos as int),
{
    centesimos > LIMIAR_DURACAO_LONGA_CENTESIMOS
}

/// Segundos em centésimos de hora, arredondando a metade para longe do zero,
/// que é o arredondamento a duas casas que os relatórios fazem.
pub open spec fn centesimos_de_hora_spec(segundos: int) -> int {
    if segundos >= 0 {
        (segundos + 18) / 36
    } else {
        -((-segundos + 18) / 36)
    }
}

pub fn centesimos_de_hora(segundos: i64) -> (r: i64)
    requires
        i64::MIN + 18 < segundos < i64::MAX - 18,
    ensures
        r == centesimos_de_hora_spec(segundos as int),
{
    if segundos >= 0 {
        (segundos + 18) / 36
    } else {
        -((-segundos + 18) / 36)
    }
}

/// `16h20`: as horas inteiras, `h`, e os minutos com dois algarismos.
pub open spec fn texto_duracao(minutos: int) -> Seq<char> {
    let h = if minutos >= 0 {
        minutos / 60
    } else {
        -((-minutos) / 60)
    };
    let m = if minutos >= 0 {
        minutos % 60
    } else {
        (-minutos) % 60
    };
    decimal_spec(h) + seq!['h'] + dois_digitos(m)
}

/// Centésimos de hora em minutos inteiros, arredondando ao mais próximo: três
/// quintos de um centésimo nunca caem em meio minuto, e a metade vai para longe
/// do zero como nos relatórios.
pub open spec fn minutos_de_centesimos(centesimos: int) -> int {
    if centesimos >= 0 {
        (6 * centesimos + 5) / 10
    } else {
        -((-6 * centesimos + 5) / 10)
    }
}

/// As horas arredondadas, como a mensagem de confirmação as mostra: `16h21`.
pub open spec fn texto_horas(centesimos: int) -> Seq<char> {
    texto_duracao(minutos_de_centesimos(centesimos))
}

/// `16h20`, que é como a mensagem de confirmação mostra uma duração dada em
/// centésimos de hora.
pub fn formatar_duracao(centesimos: i64) -> (r: String)
    ensures
        r@ == texto_horas(centesimos as int),
{
    let v = texto_horas_exec(centesimos);
    string_de(&v)
}

pub fn texto_horas_exec(centesimos: i64) -> (r: Vec<char>)
    ensures
        r@ == texto_horas(centesimos as int),
{
    let largo: i128 = centesimos as i128;
    assert(i64::MIN <= largo <= i64::MAX);
    let minutos: i128 = if largo >= 0 {
        (6 * largo + 5) / 10
    } else {
        let oposto: i128 = -largo;
        -((6 * oposto + 5) / 10)
    };
    assert(minutos == minutos_de_centesimos(centesimos as int));
    assert(i64::MIN <= minutos <= i64::MAX);
    texto_duracao_exec(minutos as i64)
}

pub fn texto_duracao_exec(minutos: i64) -> (r: Vec<char>)
    ensures
        r@ == texto_duracao(minutos as int),
{
    let largo = minutos as i128;
    let h: i128 = if largo >= 0 {
        largo / 60
    } else {
        -((-largo) / 60)
    };
    let m: i128 = if largo >= 0 {
        largo % 60
    } else {
        (-largo) % 60
    };
    let mut v = decimal(h as i64);
    v.push('h');
    anexar_dois_digitos(&mut v, m as u32);
    assert(v@ =~= texto_duracao(minutos as int));
    v
}

} // verus!
