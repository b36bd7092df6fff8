//! O que se decide ao abrir o banco: o modo de journal aceito, o resultado da
//! checagem de integridade e a ordem das migrações.
//!
//! O nível aplicado mora em `PRAGMA user_version` e **só lá**. Quem conversa
//! com o SQLite é o programa em volta.

use vstd::prelude::*;

use crate::erro::{lit, ErroApp, Recusa};

verus! {

/// As migrações conhecidas, em ordem. A base nasce vazia e para em 1: não existe
/// seed. Importar a lista de frotas do sistema antigo importaria também o lixo
/// dele.
pub open spec fn migracoes_spec() -> Seq<i64> {
    seq![1i64]
}

pub fn migracoes() -> (r: Vec<i64>)
    ensures
        r@ == migracoes_spec(),
{
    let mut r: Vec<i64> = Vec::new();
    r.push(1);
    assert(r@ =~= migracoes_spec());
    r
}

/// As migrações a aplicar a partir do nível `atual`, cada uma com o nível em
/// que o banco está logo antes dela: é esse nível que decide o backup prévio.
pub open spec fn plano_de_migracao_spec(numeros: Seq<i64>, atual: i64) -> Seq<(i64, i64)>
    decreases numeros.len(),
{
    if numeros.len() == 0 {
        Seq::empty()
    } else if numeros[0] <= atual {
        plano_de_migracao_spec(numeros.drop_first(), atual)
    } else {
        seq![(atual, numeros[0])] + plano_de_migracao_spec(numeros.drop_first(), numeros[0])
    }
}

/// Aplica o que faltar, em ordem: as migrações de número maior que o nível
/// corrente, cada uma precedida do nível em que o banco estava.
pub fn plano_de_migracao(numeros: &Vec<i64>, atual: i64) -> (r: Vec<(i64, i64)>)
    ensures
        r@ == plano_de_migracao_spec(numeros@, atual),
{
    let mut r: Vec<(i64, i64)> = Vec::new();
    let mut nivel = atual;
    let mut i: usize = 0;
    assert(numeros@.subrange(0, numeros@.len() as int) =~= numeros@);
    assert(r@ + plano_de_migracao_spec(numeros@, atual) =~= plano_de_migracao_spec(numeros@, atual));
    while i < numeros.len()
        invariant
            i <= numeros.len(),
            plano_de_migracao_spec(numeros@, atual) == r@ + plano_de_migracao_spec(
                numeros@.subrange(i as int, numeros@.len() as int),
                nivel,
            ),
        decreases numeros.len() - i,
    {
        let ghost resto = numeros@.subrange(i as int, numeros@.len() as int);
        assert(resto.drop_first() =~= numeros@.subrange(i + 1, numeros@.len() as int));
        if numeros[i] > nivel {
            r.push((nivel, numeros[i]));
            assert(r@ + plano_de_migracao_spec(
                numeros@.subrange(i + 1, numeros@.len() as int),
                numeros[i as int],
            ) =~= r@.drop_last() + plano_de_migracao_spec(resto, nivel));
            nivel = numeros[i];
        }
        i = i + 1;
    }
    assert(numeros@.subrange(numeros@.len() as int, numeros@.len() as int) =~= Seq::<i64>::empty());
    assert(r@ + Seq::<(i64, i64)>::empty() =~= r@);
    r
}

/// Migrar duas vezes não reaplica: depois do plano executado, o nível é o da
/// última migração, e o plano a partir dele é vazio. Cada migração do plano
/// sobe o nível.
pub proof fn lei_migrar_de_novo_nao_reaplica(numeros: Seq<i64>, atual: i64)
    requires
        forall|i: int, j: int| 0 <= i < j < numeros.len() ==> numeros[i] < numeros[j],
    ensures
        forall|k: int|
            0 <= k < plano_de_migracao_spec(numeros, atual).len() ==> (
            #[trigger] plano_de_migracao_spec(numeros, atual)[k]).0 < plano_de_migracao_spec(
                numeros,
                atual,
            )[k].1,
        plano_de_migracao_spec(numeros, nivel_final(numeros, atual)).len() == 0,
    decreases numeros.len(),
{
    lema_nivel_final_cresce(numeros, atual);
    lema_plano_vazio_acima(numeros, nivel_final(numeros, atual));
    if numeros.len() > 0 {
        let resto = numeros.drop_first();
        assert forall|i: int, j: int| 0 <= i < j < resto.len() implies resto[i] < resto[j] by {
            assert(resto[i] == numeros[i + 1] && resto[j] == numeros[j + 1]);
        }
        if numeros[0] <= atual {
            lei_migrar_de_novo_nao_reaplica(resto, atual);
            assert(plano_de_migracao_spec(numeros, atual) == plano_de_migracao_spec(resto, atual));
        } else {
            lei_migrar_de_novo_nao_reaplica(resto, numeros[0]);
            let p = plano_de_migracao_spec(numeros, atual);
            let q = plano_de_migracao_spec(resto, numeros[0]);
            assert(p == seq![(atual, numeros[0])] + q);
            assert forall|k: int| 0 <= k < p.len() implies (#[trigger] p[k]).0 < p[k].1 by {
                if k > 0 {
                    assert(p[k] == q[k - 1]);
                    assert(q[k - 1].0 < q[k - 1].1);
                } else {
                    assert(p[0] == (atual, numeros[0]));
                }
            }
        }
    }
}

/// O nível em que o banco fica depois de aplicar o plano.
pub open spec fn nivel_final(numeros: Seq<i64>, atual: i64) -> i64
    decreases numeros.len(),
{
    if numeros.len() == 0 {
        atual
    } else if numeros[0] <= atual {
        nivel_final(numeros.drop_first(), atual)
    } else {
        nivel_final(numeros.drop_first(), numeros[0])
    }
}

proof fn lema_nivel_final_cresce(numeros: Seq<i64>, atual: i64)
    ensures
        atual <= nivel_final(numeros, atual),
        forall|i: int| 0 <= i < numeros.len() ==> #[trigger] numeros[i] <= nivel_final(numeros, atual),
    decreases numeros.len(),
{
    if numeros.len() > 0 {
        let resto = numeros.drop_first();
        if numeros[0] <= atual {
            lema_nivel_final_cresce(resto, atual);
        } else {
            lema_nivel_final_cresce(resto, numeros[0]);
        }
        assert forall|i: int| 0 <= i < numeros.len() implies #[trigger] numeros[i] <= nivel_final(
            numeros,
            atual,
        ) by {
            if i > 0 {
                assert(numeros[i] == resto[i - 1]);
            }
        }
    }
}

proof fn lema_plano_vazio_acima(numeros: Seq<i64>, nivel: i64)
    requires
        forall|i: int| 0 <= i < numeros.len() ==> #[trigger] numeros[i] <= nivel,
    ensures
        plano_de_migracao_spec(numeros, nivel).len() == 0,
    decreases numeros.len(),
{
    if numeros.len() > 0 {
        let resto = numeros.drop_first();
        assert forall|i: int| 0 <= i < resto.len() implies #[trigger] resto[i] <= nivel by {
            assert(resto[i] == numeros[i + 1]);
        }
        lema_plano_vazio_acima(resto, nivel);
    }
}

/// `c` é `t` sem diferenciar caixa ASCII.
pub open spec fn mesma_letra(c: char, t: char) -> bool {
    c == t || ('a' <= t && t <= 'z' && (c as u32) + 32 == (t as u32))
}

/// `journal_mode` devolve o modo efetivo; compara-se sem diferenciar caixa.
pub open spec fn e_truncate(modo: Seq<char>) -> bool {
    &&& modo.len() == 8
    &&& forall|i: int| 0 <= i < 8 ==> mesma_letra(#[trigger] modo[i], lit("truncate")[i])
}

pub open spec fn recusa_journal(modo: Seq<char>) -> Recusa {
    Recusa {
        codigo: lit("BANCO"),
        mensagem: lit(
            "O banco recusou journal_mode = TRUNCATE, que é o único modo seguro sobre a rede.",
        ),
        detalhe: Some(lit("journal_mode efetivo: ") + modo),
    }
}

/// `WAL` **não** funciona sobre SMB: depende de memória compartilhada entre
/// processos que o compartilhamento não oferece. Ignorar o modo efetivo
/// esconderia uma troca recusada.
pub fn conferir_journal(modo: &str) -> (r: Result<(), ErroApp>)
    ensures
        e_truncate(modo@) ==> r is Ok,
        !e_truncate(modo@) ==> crate::erro::recusado(r, recusa_journal(modo@)),
{
    proof {
        reveal_strlit("truncate");
    }
    let v = crate::texto::chars_de(modo);
    let alvo = crate::texto::chars_de("truncate");
    let mut igual = v.len() == 8 && alvo.len() == 8;
    if igual {
        let mut i: usize = 0;
        while i < 8
            invariant
                v@ == modo@,
                alvo@ == lit("truncate"),
                v@.len() == 8,
                alvo@.len() == 8,
                i <= 8,
                igual == (forall|k: int| 0 <= k < i ==> mesma_letra(#[trigger] v@[k], alvo@[k])),
            decreases 8 - i,
        {
            let c = v[i];
            let t = alvo[i];
            if !(c == t || ('a' <= t && t <= 'z' && (c as u32) == (t as u32) - 32)) {
                igual = false;
            }
            i = i + 1;
        }
    }
    if igual {
        return Ok(());
    }
    let mut detalhe = String::from_str("journal_mode efetivo: ");
    detalhe.append(modo);
    Err(
        ErroApp::banco(
            crate::erro::texto(
                "O banco recusou journal_mode = TRUNCATE, que é o único modo seguro sobre a rede.",
            ),
        ).com_detalhe(detalhe),
    )
}

/// `PRAGMA integrity_check` devolve exatamente `ok` quando o banco está íntegro.
pub fn integridade_aprovada(resultado: &str) -> (r: bool)
    ensures
        r == (resultado@ == lit("ok")),
{
    crate::texto::iguais(resultado, "ok")
}

} // verus!
