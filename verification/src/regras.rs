//! As duas regras de ouro: um veículo e um condutor nunca estão em duas viagens
//! abertas ao mesmo tempo.
//!
//! O banco as garante por índice único parcial; aqui elas são um invariante
//! sobre a tabela de viagens, e cada operação que os comandos fazem prova que o
//! preserva. "Aberta" é sem chegada **e** não excluída, sempre as duas
//! condições.

use vstd::prelude::*;

verus! {

/// Uma linha da tabela de viagens, reduzida ao que as regras de ouro leem.
#[derive(Debug, Clone, Copy, PartialEq, Eq, Structural)]
pub struct Registro {
    pub id: i64,
    pub veiculo_id: i64,
    pub motorista_id: i64,
    pub encerrada: bool,
    pub excluida: bool,
}

pub open spec fn em_aberto(r: Registro) -> bool {
    !r.encerrada && !r.excluida
}

/// Nenhum veículo e nenhum condutor em duas viagens abertas.
pub open spec fn regras_de_ouro(rs: Seq<Registro>) -> bool {
    forall|i: int, j: int|
        0 <= i < rs.len() && 0 <= j < rs.len() && i != j && em_aberto(#[trigger] rs[i])
            && em_aberto(#[trigger] rs[j]) ==> rs[i].veiculo_id != rs[j].veiculo_id
            && rs[i].motorista_id != rs[j].motorista_id
}

pub open spec fn veiculo_livre_em(rs: Seq<Registro>, veiculo_id: i64) -> bool {
    forall|i: int| 0 <= i < rs.len() && em_aberto(#[trigger] rs[i]) ==> rs[i].veiculo_id != veiculo_id
}

pub open spec fn motorista_livre_em(rs: Seq<Registro>, motorista_id: i64) -> bool {
    forall|i: int|
        0 <= i < rs.len() && em_aberto(#[trigger] rs[i]) ==> rs[i].motorista_id != motorista_id
}

/// Abrir uma viagem para um veículo livre e um condutor livre mantém as regras
/// de ouro.
pub proof fn lei_abrir_preserva(rs: Seq<Registro>, novo: Registro)
    requires
        regras_de_ouro(rs),
        veiculo_livre_em(rs, novo.veiculo_id),
        motorista_livre_em(rs, novo.motorista_id),
    ensures
        regras_de_ouro(rs.push(novo)),
{
    let n = rs.push(novo);
    assert forall|i: int, j: int|
        0 <= i < n.len() && 0 <= j < n.len() && i != j && em_aberto(#[trigger] n[i]) && em_aberto(
            #[trigger] n[j],
        ) implies n[i].veiculo_id != n[j].veiculo_id && n[i].motorista_id != n[j].motorista_id by {
        if i == rs.len() {
            assert(n[j] == rs[j]);
        } else if j == rs.len() {
            assert(n[i] == rs[i]);
        } else {
            assert(n[i] == rs[i] && n[j] == rs[j]);
        }
    }
}

pub open spec fn encerrar_spec(rs: Seq<Registro>, k: int) -> Seq<Registro> {
    rs.update(k, Registro { encerrada: true, ..rs[k] })
}

pub open spec fn excluir_spec(rs: Seq<Registro>, k: int) -> Seq<Registro> {
    rs.update(k, Registro { excluida: true, ..rs[k] })
}

/// Encerrar uma viagem aberta mantém as regras de ouro e deixa o veículo e o
/// condutor dela livres para a próxima.
pub proof fn lei_encerrar_libera(rs: Seq<Registro>, k: int)
    requires
        regras_de_ouro(rs),
        0 <= k < rs.len(),
        em_aberto(rs[k]),
    ensures
        regras_de_ouro(encerrar_spec(rs, k)),
        veiculo_livre_em(encerrar_spec(rs, k), rs[k].veiculo_id),
        motorista_livre_em(encerrar_spec(rs, k), rs[k].motorista_id),
{
    let n = encerrar_spec(rs, k);
    assert forall|i: int| 0 <= i < n.len() && em_aberto(#[trigger] n[i]) implies n[i].veiculo_id
        != rs[k].veiculo_id && n[i].motorista_id != rs[k].motorista_id by {
        assert(i != k);
        assert(n[i] == rs[i]);
    }
    assert forall|i: int, j: int|
        0 <= i < n.len() && 0 <= j < n.len() && i != j && em_aberto(#[trigger] n[i]) && em_aberto(
            #[trigger] n[j],
        ) implies n[i].veiculo_id != n[j].veiculo_id && n[i].motorista_id != n[j].motorista_id by {
        assert(i != k && j != k);
        assert(n[i] == rs[i] && n[j] == rs[j]);
    }
}

/// Excluir uma viagem aberta mantém as regras de ouro e libera o veículo e o
/// condutor na hora: a excluída sai da regra, como sai do índice único.
pub proof fn lei_excluir_libera(rs: Seq<Registro>, k: int)
    requires
        regras_de_ouro(rs),
        0 <= k < rs.len(),
        em_aberto(rs[k]),
    ensures
        regras_de_ouro(excluir_spec(rs, k)),
        veiculo_livre_em(excluir_spec(rs, k), rs[k].veiculo_id),
        motorista_livre_em(excluir_spec(rs, k), rs[k].motorista_id),
        excluir_spec(rs, k).len() == rs.len(),
{
    let n = excluir_spec(rs, k);
    assert forall|i: int| 0 <= i < n.len() && em_aberto(#[trigger] n[i]) implies n[i].veiculo_id
        != rs[k].veiculo_id && n[i].motorista_id != rs[k].motorista_id by {
        assert(i != k);
        assert(n[i] == rs[i]);
    }
    assert forall|i: int, j: int|
        0 <= i < n.len() && 0 <= j < n.len() && i != j && em_aberto(#[trigger] n[i]) && em_aberto(
            #[trigger] n[j],
        ) implies n[i].veiculo_id != n[j].veiculo_id && n[i].motorista_id != n[j].motorista_id by {
        assert(i != k && j != k);
        assert(n[i] == rs[i] && n[j] == rs[j]);
    }
}

/// Reaponta para `manter` todas as viagens de `remover`.
pub open spec fn fundir_motoristas_spec(rs: Seq<Registro>, manter: i64, remover: i64) -> Seq<
    Registro,
> {
    rs.map_values(
        |r: Registro|
            if r.motorista_id == remover {
                Registro { motorista_id: manter, ..r }
            } else {
                r
            },
    )
}

pub open spec fn fundir_veiculos_spec(rs: Seq<Registro>, manter: i64, remover: i64) -> Seq<
    Registro,
> {
    rs.map_values(
        |r: Registro|
            if r.veiculo_id == remover {
                Registro { veiculo_id: manter, ..r }
            } else {
                r
            },
    )
}

/// Quantas viagens o condutor tem.
pub open spec fn viagens_do_motorista(rs: Seq<Registro>, id: i64) -> nat
    decreases rs.len(),
{
    if rs.len() == 0 {
        0
    } else {
        viagens_do_motorista(rs.drop_last(), id) + if rs.last().motorista_id == id {
            1nat
        } else {
            0nat
        }
    }
}

proof fn lema_contagem_fusao(rs: Seq<Registro>, manter: i64, remover: i64)
    requires
        manter != remover,
    ensures
        viagens_do_motorista(fundir_motoristas_spec(rs, manter, remover), manter)
            == viagens_do_motorista(rs, manter) + viagens_do_motorista(rs, remover),
        viagens_do_motorista(fundir_motoristas_spec(rs, manter, remover), remover) == 0,
    decreases rs.len(),
{
    if rs.len() > 0 {
        lema_contagem_fusao(rs.drop_last(), manter, remover);
        assert(fundir_motoristas_spec(rs, manter, remover).drop_last() =~= fundir_motoristas_spec(
            rs.drop_last(),
            manter,
            remover,
        ));
    }
}

/// Fundir dois condutores sem viagem aberta: nenhuma viagem some nem se
/// duplica, todas as do removido passam ao mantido, nada fica com o removido, e
/// as regras de ouro continuam valendo.
pub proof fn lei_fusao_de_motoristas(rs: Seq<Registro>, manter: i64, remover: i64)
    requires
        regras_de_ouro(rs),
        manter != remover,
        motorista_livre_em(rs, manter),
        motorista_livre_em(rs, remover),
    ensures
        fundir_motoristas_spec(rs, manter, remover).len() == rs.len(),
        viagens_do_motorista(fundir_motoristas_spec(rs, manter, remover), manter)
            == viagens_do_motorista(rs, manter) + viagens_do_motorista(rs, remover),
        viagens_do_motorista(fundir_motoristas_spec(rs, manter, remover), remover) == 0,
        regras_de_ouro(fundir_motoristas_spec(rs, manter, remover)),
{
    lema_contagem_fusao(rs, manter, remover);
    let n = fundir_motoristas_spec(rs, manter, remover);
    assert forall|i: int, j: int|
        0 <= i < n.len() && 0 <= j < n.len() && i != j && em_aberto(#[trigger] n[i]) && em_aberto(
            #[trigger] n[j],
        ) implies n[i].veiculo_id != n[j].veiculo_id && n[i].motorista_id != n[j].motorista_id by {
        assert(em_aberto(rs[i]) && em_aberto(rs[j]));
        assert(rs[i].motorista_id != remover && rs[j].motorista_id != remover);
        assert(n[i] == rs[i] && n[j] == rs[j]);
    }
}

/// Fundir dois veículos sem viagem aberta mantém as regras de ouro e o total de
/// viagens.
pub proof fn lei_fusao_de_veiculos(rs: Seq<Registro>, manter: i64, remover: i64)
    requires
        regras_de_ouro(rs),
        manter != remover,
        veiculo_livre_em(rs, manter),
        veiculo_livre_em(rs, remover),
    ensures
        fundir_veiculos_spec(rs, manter, remover).len() == rs.len(),
        veiculo_livre_em(fundir_veiculos_spec(rs, manter, remover), remover),
        regras_de_ouro(fundir_veiculos_spec(rs, manter, remover)),
{
    let n = fundir_veiculos_spec(rs, manter, remover);
    assert forall|i: int, j: int|
        0 <= i < n.len() && 0 <= j < n.len() && i != j && em_aberto(#[trigger] n[i]) && em_aberto(
            #[trigger] n[j],
        ) implies n[i].veiculo_id != n[j].veiculo_id && n[i].motorista_id != n[j].motorista_id by {
        assert(em_aberto(rs[i]) && em_aberto(rs[j]));
        assert(n[i] == rs[i] && n[j] == rs[j]);
    }
    assert forall|i: int| 0 <= i < n.len() && em_aberto(#[trigger] n[i]) implies n[i].veiculo_id
        != remover by {
        assert(em_aberto(rs[i]));
    }
}

/// O hodômetro que o veículo guarda depois de um encerramento: serve só para
/// pré-preencher a próxima saída, e por isso nunca anda para trás.
pub open spec fn hodometro_apos_spec(atual: Option<i64>, chegada: Option<i64>) -> Option<i64> {
    match chegada {
        Some(h) => match atual {
            Some(a) => if a < h {
                Some(h)
            } else {
                Some(a)
            },
            None => Some(h),
        },
        None => atual,
    }
}

pub fn hodometro_apos_encerramento(atual: Option<i64>, chegada: Option<i64>) -> (r: Option<i64>)
    ensures
        r == hodometro_apos_spec(atual, chegada),
{
    match chegada {
        Some(h) => match atual {
            Some(a) => if a < h {
                Some(h)
            } else {
                Some(a)
            },
            None => Some(h),
        },
        None => atual,
    }
}

/// O hodômetro guardado nunca diminui, e cobre a chegada informada.
pub proof fn lei_hodometro_nunca_retrocede(atual: Option<i64>, chegada: Option<i64>)
    ensures
        atual matches Some(a) ==> (hodometro_apos_spec(atual, chegada) matches Some(b) && a <= b),
        chegada matches Some(h) ==> (hodometro_apos_spec(atual, chegada) matches Some(b) && h <= b),
{
}

} // verus!
