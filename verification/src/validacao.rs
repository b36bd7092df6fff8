//! As tabelas de validação de campo, abertura, encerramento, fusão e exclusão.
//!
//! Duas categorias, e a diferença importa: **recusa** é erro, o registro não
//! entra; **aviso** é confirmação, o registro entra depois que o operador diz
//! que é isso mesmo. Transformar aviso em recusa trava o turno legítimo de
//! monitor; transformar recusa em aviso deixa o `08:00 → 07:00` digitado errado
//! passar.

use vstd::prelude::*;

use crate::datahora::{
    datahora_valida, dias_atras, dias_atras_spec, instante, instante_exec,
    no_futuro_alem_de, no_futuro_alem_de_spec, DataHora,
};
use crate::duracao::{
    centesimos_de_hora, centesimos_de_hora_spec, longa, longa_spec, texto_horas, texto_horas_exec,
};
use crate::erro::{
    recusado, erro_com_detalhe, lit, recusa, validacao_com, validacao_sem, ErroApp, Recusa,
};
use crate::texto::{
    anexar, anexar_str, aparar_spec, chars_de, decimal, decimal_spec, iguais, juntar,
    lema_juntar_acrescenta, string_de, tamanho_aparado,
};

verus! {

pub const FOLGA_FUTURO_MINUTOS: i64 = 5;
pub const DIAS_SAIDA_ANTIGA: i64 = 7;
pub const DIFERENCA_HODOMETRO_CONFIRMA_KM: i64 = 1_000;
pub const NOME_MINIMO: usize = 3;
pub const FROTA_MINIMO: usize = 4;
pub const FROTA_MAXIMO: usize = 8;
pub const MOTIVO_MINIMO: usize = 3;

/// O que exige um "é isso mesmo?" antes de gravar.
#[derive(Debug, Clone, Copy, PartialEq, Eq, Structural)]
pub enum Aviso {
    SaidaAntiga { dias: i64 },
    HodometroMenorQueAtual { registrado: i64, informado: i64 },
    DuracaoLonga { centesimos: i64 },
    DiferencaHodometroGrande { km: i64 },
}

/// O prefixo estável que a tela usa para decidir o texto do diálogo.
pub open spec fn detalhe_spec(a: Aviso) -> Seq<char> {
    match a {
        Aviso::SaidaAntiga { dias } => lit("SAIDA_ANTIGA:") + decimal_spec(dias as int),
        Aviso::HodometroMenorQueAtual { registrado, informado } => lit("HODOMETRO_MENOR:")
            + decimal_spec(registrado as int) + seq![':'] + decimal_spec(informado as int),
        Aviso::DuracaoLonga { centesimos } => lit("DURACAO_LONGA:") + texto_horas(centesimos as int),
        Aviso::DiferencaHodometroGrande { km } => lit("HODOMETRO_DIFERENCA:") + decimal_spec(
            km as int,
        ),
    }
}

pub open spec fn mensagem_spec(a: Aviso) -> Seq<char> {
    match a {
        Aviso::SaidaAntiga { dias } => lit("A saída está sendo registrada com ") + decimal_spec(
            dias as int,
        ) + lit(" dias de atraso."),
        Aviso::HodometroMenorQueAtual { registrado, informado } => lit("Hodômetro registrado ")
            + decimal_spec(registrado as int) + lit(", informado ") + decimal_spec(
            informado as int,
        ) + lit("."),
        Aviso::DuracaoLonga { centesimos } => lit("A viagem durou ") + texto_horas(centesimos as int)
            + lit(". Confirma esse horário de chegada?"),
        Aviso::DiferencaHodometroGrande { km } => lit("A viagem teria ") + decimal_spec(km as int)
            + lit(" km. Confirma o hodômetro?"),
    }
}

impl Aviso {
    fn detalhe_chars(&self) -> (r: Vec<char>)
        ensures
            r@ == detalhe_spec(*self),
    {
        let mut v: Vec<char> = Vec::new();
        match *self {
            Aviso::SaidaAntiga { dias } => {
                anexar_str(&mut v, "SAIDA_ANTIGA:");
                anexar(&mut v, &decimal(dias));
            },
            Aviso::HodometroMenorQueAtual { registrado, informado } => {
                anexar_str(&mut v, "HODOMETRO_MENOR:");
                anexar(&mut v, &decimal(registrado));
                v.push(':');
                anexar(&mut v, &decimal(informado));
            },
            Aviso::DuracaoLonga { centesimos } => {
                anexar_str(&mut v, "DURACAO_LONGA:");
                anexar(&mut v, &texto_horas_exec(centesimos));
            },
            Aviso::DiferencaHodometroGrande { km } => {
                anexar_str(&mut v, "HODOMETRO_DIFERENCA:");
                anexar(&mut v, &decimal(km));
            },
        }
        assert(v@ =~= detalhe_spec(*self));
        v
    }

    fn mensagem_chars(&self) -> (r: Vec<char>)
        ensures
            r@ == mensagem_spec(*self),
    {
        let mut v: Vec<char> = Vec::new();
        match *self {
            Aviso::SaidaAntiga { dias } => {
                anexar_str(&mut v, "A saída está sendo registrada com ");
                anexar(&mut v, &decimal(dias));
                anexar_str(&mut v, " dias de atraso.");
            },
            Aviso::HodometroMenorQueAtual { registrado, informado } => {
                anexar_str(&mut v, "Hodômetro registrado ");
                anexar(&mut v, &decimal(registrado));
                anexar_str(&mut v, ", informado ");
                anexar(&mut v, &decimal(informado));
                anexar_str(&mut v, ".");
            },
            Aviso::DuracaoLonga { centesimos } => {
                anexar_str(&mut v, "A viagem durou ");
                anexar(&mut v, &texto_horas_exec(centesimos));
                anexar_str(&mut v, ". Confirma esse horário de chegada?");
            },
            Aviso::DiferencaHodometroGrande { km } => {
                anexar_str(&mut v, "A viagem teria ");
                anexar(&mut v, &decimal(km));
                anexar_str(&mut v, " km. Confirma o hodômetro?");
            },
        }
        assert(v@ =~= mensagem_spec(*self));
        v
    }

    /// Vai em `ErroApp::detalhe`. A tela quebra no `:` e decide o texto do
    /// diálogo pelo prefixo, que é estável.
    pub fn detalhe(&self) -> (r: String)
        ensures
            r@ == detalhe_spec(*self),
    {
        string_de(&self.detalhe_chars())
    }

    pub fn mensagem(&self) -> (r: String)
        ensures
            r@ == mensagem_spec(*self),
    {
        string_de(&self.mensagem_chars())
    }
}

/// Junta os avisos num único `VALIDACAO` para a tela perguntar de uma vez: as
/// mensagens separadas por espaço, os detalhes por `;`.
pub fn erro_de_confirmacao(avisos: &Vec<Aviso>) -> (r: ErroApp)
    ensures
        erro_com_detalhe(
            r,
            "VALIDACAO",
            juntar(avisos@.map_values(|a: Aviso| mensagem_spec(a)), ' '),
            juntar(avisos@.map_values(|a: Aviso| detalhe_spec(a)), ';'),
        ),
{
    let mut mensagem: Vec<char> = Vec::new();
    let mut detalhe: Vec<char> = Vec::new();
    let mut i: usize = 0;
    while i < avisos.len()
        invariant
            i <= avisos.len(),
            mensagem@ == juntar(
                avisos@.take(i as int).map_values(|a: Aviso| mensagem_spec(a)),
                ' ',
            ),
            detalhe@ == juntar(avisos@.take(i as int).map_values(|a: Aviso| detalhe_spec(a)), ';'),
        decreases avisos.len() - i,
    {
        let ghost pm = avisos@.take(i as int).map_values(|a: Aviso| mensagem_spec(a));
        let ghost pd = avisos@.take(i as int).map_values(|a: Aviso| detalhe_spec(a));
        let m = avisos[i].mensagem_chars();
        let d = avisos[i].detalhe_chars();
        proof {
            assert(avisos@.take(i + 1).map_values(|a: Aviso| mensagem_spec(a)) =~= pm.push(m@));
            assert(avisos@.take(i + 1).map_values(|a: Aviso| detalhe_spec(a)) =~= pd.push(d@));
            lema_juntar_acrescenta(pm, m@, ' ');
            lema_juntar_acrescenta(pd, d@, ';');
        }
        if i > 0 {
            mensagem.push(' ');
            detalhe.push(';');
        }
        anexar(&mut mensagem, &m);
        anexar(&mut detalhe, &d);
        i = i + 1;
    }
    assert(avisos@.take(avisos.len() as int) =~= avisos@);
    ErroApp::validacao(string_de(&mensagem)).com_detalhe(string_de(&detalhe))
}

pub open spec fn turno_valido(t: Seq<char>) -> bool {
    t == lit("A") || t == lit("B") || t == lit("C")
}

pub fn validar_turno(turno: &str) -> (r: Result<(), ErroApp>)
    ensures
        turno_valido(turno@) ==> r is Ok,
        !turno_valido(turno@) ==> recusado(r, recusa("VALIDACAO", "Turno deve ser A, B ou C.", Some("CAMPO:turno")),
        ),
{
    if iguais(turno, "A") || iguais(turno, "B") || iguais(turno, "C") {
        return Ok(());
    }
    Err(validacao_com("Turno deve ser A, B ou C.", "CAMPO:turno"))
}

pub fn validar_atividade(atividade: &str) -> (r: Result<(), ErroApp>)
    ensures
        aparar_spec(atividade@).len() > 0 ==> r is Ok,
        aparar_spec(atividade@).len() == 0 ==> recusado(r, recusa("VALIDACAO", "Informe a atividade.", Some("CAMPO:atividade")),
        ),
{
    if tamanho_aparado(atividade) == 0 {
        return Err(validacao_com("Informe a atividade.", "CAMPO:atividade"));
    }
    Ok(())
}

/// O nome precisa ter ao menos três `char` depois de aparado.
pub fn validar_nome(nome: &str) -> (r: Result<(), ErroApp>)
    ensures
        aparar_spec(nome@).len() >= NOME_MINIMO ==> r is Ok,
        aparar_spec(nome@).len() < NOME_MINIMO ==> recusado(r, recusa(
                "VALIDACAO",
                "O nome precisa ter pelo menos 3 caracteres.",
                Some("CAMPO:nome"),
            ),
        ),
{
    if tamanho_aparado(nome) < NOME_MINIMO {
        return Err(
            validacao_com("O nome precisa ter pelo menos 3 caracteres.", "CAMPO:nome"),
        );
    }
    Ok(())
}

/// `char::is_ascii_alphanumeric`.
pub open spec fn alfanumerico_ascii(c: char) -> bool {
    ('0' <= c && c <= '9') || ('A' <= c && c <= 'Z') || ('a' <= c && c <= 'z')
}

pub open spec fn frota_valida(f: Seq<char>) -> bool {
    &&& FROTA_MINIMO <= f.len() <= FROTA_MAXIMO
    &&& forall|i: int| 0 <= i < f.len() ==> alfanumerico_ascii(#[trigger] f[i])
}

/// Recebe a frota **já normalizada** por `frota_norm`: de 4 a 8 `char`, só
/// letras e algarismos ASCII.
pub fn validar_frota(frota: &str) -> (r: Result<(), ErroApp>)
    ensures
        frota_valida(frota@) ==> r is Ok,
        !frota_valida(frota@) ==> recusado(r, recusa(
                "VALIDACAO",
                "A frota precisa ter de 4 a 8 caracteres, apenas letras e números.",
                Some("CAMPO:frota"),
            ),
        ),
{
    let v = chars_de(frota);
    let mut ok = FROTA_MINIMO <= v.len() && v.len() <= FROTA_MAXIMO;
    let mut i: usize = 0;
    while i < v.len()
        invariant
            i <= v.len(),
            v@ == frota@,
            ok == (FROTA_MINIMO <= v.len() <= FROTA_MAXIMO && forall|j: int|
                0 <= j < i ==> alfanumerico_ascii(#[trigger] v@[j])),
        decreases v.len() - i,
    {
        let c = v[i];
        let alnum = ('0' <= c && c <= '9') || ('A' <= c && c <= 'Z') || ('a' <= c && c <= 'z');
        if !alnum {
            ok = false;
        }
        i = i + 1;
    }
    if !ok {
        return Err(
            validacao_com(
                "A frota precisa ter de 4 a 8 caracteres, apenas letras e números.",
                "CAMPO:frota",
            ),
        );
    }
    Ok(())
}

/// Fundir exige dois cadastros diferentes e nenhuma viagem aberta nos dois:
/// reapontar saídas com viagem aberta estoura a regra de uma viagem aberta por
/// cadastro no meio da transação.
pub fn validar_fusao(
    manter_id: i64,
    remover_id: i64,
    manter_tem_aberta: bool,
    remover_tem_aberta: bool,
) -> (r: Result<(), ErroApp>)
    ensures
        manter_id == remover_id ==> recusado(r, recusa("VALIDACAO", "Selecione dois cadastros diferentes para fundir.", None),
        ),
        manter_id != remover_id && (manter_tem_aberta || remover_tem_aberta) ==> recusado(r, recusa(
                "VALIDACAO",
                "Encerre as viagens abertas dos dois cadastros antes de fundir.",
                None,
            ),
        ),
        r is Ok <==> manter_id != remover_id && !manter_tem_aberta && !remover_tem_aberta,
{
    if manter_id == remover_id {
        return Err(validacao_sem("Selecione dois cadastros diferentes para fundir."));
    }
    if manter_tem_aberta || remover_tem_aberta {
        return Err(validacao_sem("Encerre as viagens abertas dos dois cadastros antes de fundir."));
    }
    Ok(())
}

/// Exclusão pede motivo de ao menos três `char` depois de aparado, e não se
/// exclui duas vezes.
pub fn validar_exclusao(ja_excluida: bool, motivo: &str) -> (r: Result<(), ErroApp>)
    ensures
        ja_excluida ==> recusado(r, recusa("VALIDACAO", "Esta viagem já foi excluída.", None),
        ),
        !ja_excluida && aparar_spec(motivo@).len() < MOTIVO_MINIMO ==> recusado(r, recusa(
                "VALIDACAO",
                "Informe o motivo da exclusão, com pelo menos 3 caracteres.",
                Some("CAMPO:motivo"),
            ),
        ),
        r is Ok <==> !ja_excluida && aparar_spec(motivo@).len() >= MOTIVO_MINIMO,
{
    if ja_excluida {
        return Err(validacao_sem("Esta viagem já foi excluída."));
    }
    if tamanho_aparado(motivo) < MOTIVO_MINIMO {
        return Err(
            validacao_com(
                "Informe o motivo da exclusão, com pelo menos 3 caracteres.",
                "CAMPO:motivo",
            ),
        );
    }
    Ok(())
}


/// O que a abertura de viagem sabe no momento de validar.
#[derive(Debug)]
pub struct DadosAbertura {
    pub turno: String,
    pub atividade: String,
    pub dt_saida: DataHora,
    pub hodometro_saida: Option<i64>,
    pub veiculo_ativo: bool,
    pub motorista_ativo: bool,
    pub hodometro_atual: Option<i64>,
}

/// A primeira regra de abertura que o pedido viola, na ordem em que são
/// conferidas, ou `None`.
pub open spec fn recusa_abertura(d: DadosAbertura, agora: DataHora) -> Option<Recusa> {
    if !d.veiculo_ativo {
        Some(recusa("VALIDACAO", "Este veículo está inativo.", Some("CAMPO:veiculo")))
    } else if !d.motorista_ativo {
        Some(recusa("VALIDACAO", "Este condutor está inativo.", Some("CAMPO:motorista")))
    } else if !turno_valido(d.turno@) {
        Some(recusa("VALIDACAO", "Turno deve ser A, B ou C.", Some("CAMPO:turno")))
    } else if aparar_spec(d.atividade@).len() == 0 {
        Some(recusa("VALIDACAO", "Informe a atividade.", Some("CAMPO:atividade")))
    } else if no_futuro_alem_de_spec(d.dt_saida, FOLGA_FUTURO_MINUTOS as int, agora) {
        Some(
            recusa(
                "VALIDACAO",
                "A saída não pode ser registrada no futuro.",
                Some("CAMPO:dt_saida"),
            ),
        )
    } else {
        None
    }
}

/// Os avisos de uma abertura aceita: saída com mais de 7 dias de atraso e
/// hodômetro menor que o último conhecido do veículo.
pub open spec fn avisos_abertura(d: DadosAbertura, agora: DataHora) -> Seq<Aviso> {
    let dias = dias_atras_spec(d.dt_saida, agora);
    let atraso = if dias > DIAS_SAIDA_ANTIGA {
        seq![Aviso::SaidaAntiga { dias: dias as i64 }]
    } else {
        Seq::empty()
    };
    let hodometro = match (d.hodometro_saida, d.hodometro_atual) {
        (Some(informado), Some(registrado)) => if informado < registrado {
            seq![Aviso::HodometroMenorQueAtual { registrado, informado }]
        } else {
            Seq::empty()
        },
        _ => Seq::empty(),
    };
    atraso + hodometro
}

/// Uma abertura aceita tem veículo e condutor ativos, turno A, B ou C,
/// atividade que não é só espaço, e saída que não está no futuro além da folga
/// de cinco minutos.
pub proof fn lei_abertura_aceita(d: DadosAbertura, agora: DataHora)
    ensures
        recusa_abertura(d, agora) is None ==> {
            &&& d.veiculo_ativo
            &&& d.motorista_ativo
            &&& (d.turno@ == lit("A") || d.turno@ == lit("B") || d.turno@ == lit("C"))
            &&& aparar_spec(d.atividade@).len() > 0
            &&& instante(d.dt_saida) <= instante(agora) + FOLGA_FUTURO_MINUTOS * 60
        },
{
}

/// O aviso de hodômetro de uma abertura aceita aparece exatamente quando os dois
/// hodômetros são conhecidos e o informado é menor que o registrado, e traz os
/// dois valores: hodômetro igual ou maior nunca pede confirmação.
pub proof fn lei_aviso_de_hodometro(d: DadosAbertura, agora: DataHora, registrado: i64, informado: i64)
    ensures
        avisos_abertura(d, agora).contains(
            Aviso::HodometroMenorQueAtual { registrado, informado },
        ) <==> (d.hodometro_saida == Some(informado) && d.hodometro_atual == Some(registrado)
            && informado < registrado),
{
    let a = Aviso::HodometroMenorQueAtual { registrado, informado };
    let dias = dias_atras_spec(d.dt_saida, agora);
    let atraso = if dias > DIAS_SAIDA_ANTIGA {
        seq![Aviso::SaidaAntiga { dias: dias as i64 }]
    } else {
        Seq::empty()
    };
    let hodometro = match (d.hodometro_saida, d.hodometro_atual) {
        (Some(i), Some(r)) => if i < r {
            seq![Aviso::HodometroMenorQueAtual { registrado: r, informado: i }]
        } else {
            Seq::empty()
        },
        _ => Seq::empty(),
    };
    let todos = avisos_abertura(d, agora);
    assert(todos == atraso + hodometro);
    if todos.contains(a) {
        let k = choose|k: int| 0 <= k < todos.len() && todos[k] == a;
        if k < atraso.len() {
            assert(todos[k] == atraso[k]);
        } else {
            assert(todos[k] == hodometro[k - atraso.len()]);
        }
    }
    if d.hodometro_saida == Some(informado) && d.hodometro_atual == Some(registrado)
        && informado < registrado {
        assert(todos[atraso.len() as int] == a);
    }
}

/// O aviso de saída antiga aparece exatamente quando a saída tem mais de sete
/// dias inteiros de atraso, e traz esse número de dias.
pub proof fn lei_aviso_de_saida_antiga(d: DadosAbertura, agora: DataHora, dias: i64)
    requires
        i64::MIN <= dias_atras_spec(d.dt_saida, agora) <= i64::MAX,
    ensures
        avisos_abertura(d, agora).contains(Aviso::SaidaAntiga { dias }) <==> (dias
            == dias_atras_spec(d.dt_saida, agora) && dias > 7),
{
    let a = Aviso::SaidaAntiga { dias };
    let n = dias_atras_spec(d.dt_saida, agora);
    let atraso = if n > DIAS_SAIDA_ANTIGA {
        seq![Aviso::SaidaAntiga { dias: n as i64 }]
    } else {
        Seq::empty()
    };
    let hodometro = match (d.hodometro_saida, d.hodometro_atual) {
        (Some(i), Some(r)) => if i < r {
            seq![Aviso::HodometroMenorQueAtual { registrado: r, informado: i }]
        } else {
            Seq::empty()
        },
        _ => Seq::empty(),
    };
    let todos = avisos_abertura(d, agora);
    assert(todos == atraso + hodometro);
    if todos.contains(a) {
        let k = choose|k: int| 0 <= k < todos.len() && todos[k] == a;
        if k < atraso.len() {
            assert(todos[k] == atraso[k]);
        } else {
            assert(todos[k] == hodometro[k - atraso.len()]);
        }
    }
    if dias == n && dias > 7 {
        assert(todos[0] == a);
    }
}

pub fn validar_abertura(d: &DadosAbertura, agora: &DataHora) -> (r: Result<Vec<Aviso>, ErroApp>)
    requires
        datahora_valida(d.dt_saida),
        datahora_valida(*agora),
    ensures
        match recusa_abertura(*d, *agora) {
            Some(f) => recusado(r, f),
            None => r matches Ok(v) && v@ == avisos_abertura(*d, *agora),
        },
        r matches Ok(v) ==> forall|registrado: i64, informado: i64|
            #[trigger] v@.contains(Aviso::HodometroMenorQueAtual { registrado, informado })
                <==> (d.hodometro_saida == Some(informado) && d.hodometro_atual == Some(registrado)
                && informado < registrado),
{
    proof {
        assert forall|registrado: i64, informado: i64|
            #[trigger] avisos_abertura(*d, *agora).contains(
                Aviso::HodometroMenorQueAtual { registrado, informado },
            ) <==> (d.hodometro_saida == Some(informado) && d.hodometro_atual == Some(registrado)
                && informado < registrado) by {
            lei_aviso_de_hodometro(*d, *agora, registrado, informado);
        }
    }
    if !d.veiculo_ativo {
        return Err(validacao_com("Este veículo está inativo.", "CAMPO:veiculo"));
    }
    if !d.motorista_ativo {
        return Err(validacao_com("Este condutor está inativo.", "CAMPO:motorista"));
    }
    validar_turno(d.turno.as_str())?;
    validar_atividade(d.atividade.as_str())?;
    if no_futuro_alem_de(&d.dt_saida, FOLGA_FUTURO_MINUTOS, agora) {
        return Err(
            validacao_com("A saída não pode ser registrada no futuro.", "CAMPO:dt_saida"),
        );
    }
    let mut avisos: Vec<Aviso> = Vec::new();
    let dias = dias_atras(&d.dt_saida, agora);
    if dias > DIAS_SAIDA_ANTIGA {
        avisos.push(Aviso::SaidaAntiga { dias });
    }
    if let (Some(informado), Some(registrado)) = (d.hodometro_saida, d.hodometro_atual) {
        if informado < registrado {
            avisos.push(Aviso::HodometroMenorQueAtual { registrado, informado });
        }
    }
    assert(avisos@ =~= avisos_abertura(*d, *agora));
    Ok(avisos)
}

/// O que o encerramento de viagem sabe no momento de validar.
#[derive(Debug)]
pub struct DadosEncerramento {
    pub dt_saida: DataHora,
    pub dt_chegada: DataHora,
    pub ja_encerrada: bool,
    pub hodometro_saida: Option<i64>,
    pub hodometro_chegada: Option<i64>,
}

pub open spec fn recusa_encerramento(d: DadosEncerramento, agora: DataHora) -> Option<Recusa> {
    if d.ja_encerrada {
        Some(recusa("VALIDACAO", "Esta viagem já foi encerrada.", None))
    } else if instante(d.dt_chegada) <= instante(d.dt_saida) {
        Some(
            recusa(
                "VALIDACAO",
                "A chegada precisa ser depois da saída.",
                Some("CAMPO:dt_chegada"),
            ),
        )
    } else if no_futuro_alem_de_spec(d.dt_chegada, FOLGA_FUTURO_MINUTOS as int, agora) {
        Some(
            recusa(
                "VALIDACAO",
                "A chegada não pode ser registrada no futuro.",
                Some("CAMPO:dt_chegada"),
            ),
        )
    } else if d.hodometro_chegada is Some && d.hodometro_saida is Some
        && d.hodometro_chegada->0 < d.hodometro_saida->0 {
        Some(
            recusa(
                "VALIDACAO",
                "O hodômetro de chegada não pode ser menor que o de saída.",
                Some("CAMPO:hodometro_chegada"),
            ),
        )
    } else {
        None
    }
}

/// A duração da viagem em centésimos de hora: as horas arredondadas a duas
/// casas.
pub open spec fn centesimos_da_viagem(d: DadosEncerramento) -> int {
    centesimos_de_hora_spec(instante(d.dt_chegada) - instante(d.dt_saida))
}

/// Os avisos de um encerramento aceito: mais de 14 h de viagem, nas horas
/// arredondadas a duas casas, e mais de 1.000 km de hodômetro.
pub open spec fn avisos_encerramento(d: DadosEncerramento) -> Seq<Aviso> {
    let centesimos = centesimos_da_viagem(d);
    let duracao = if longa_spec(centesimos) {
        seq![Aviso::DuracaoLonga { centesimos: centesimos as i64 }]
    } else {
        Seq::empty()
    };
    let hodometro = match (d.hodometro_chegada, d.hodometro_saida) {
        (Some(chegada), Some(saida)) => if chegada - saida > DIFERENCA_HODOMETRO_CONFIRMA_KM {
            seq![Aviso::DiferencaHodometroGrande { km: (chegada - saida) as i64 }]
        } else {
            Seq::empty()
        },
        _ => Seq::empty(),
    };
    duracao + hodometro
}

/// Com a chegada acima da saída, a diferença de hodômetro cabe num `i64`: do
/// contrário a subtração estoura. Chegada abaixo da saída é recusada antes de
/// subtrair.
pub open spec fn hodometros_subtraiveis(d: DadosEncerramento) -> bool {
    match (d.hodometro_chegada, d.hodometro_saida) {
        (Some(chegada), Some(saida)) => chegada >= saida ==> chegada - saida <= i64::MAX,
        _ => true,
    }
}

/// Nenhum encerramento aceito tem a chegada além da folga de cinco minutos
/// depois de agora, e uma viagem aberta com chegada além dela é recusada pelo
/// campo da chegada.
pub proof fn lei_chegada_nunca_alem_da_folga(d: DadosEncerramento, agora: DataHora)
    ensures
        recusa_encerramento(d, agora) is None ==> instante(d.dt_chegada) <= instante(agora)
            + FOLGA_FUTURO_MINUTOS * 60,
        !d.ja_encerrada && instante(d.dt_chegada) > instante(agora) + FOLGA_FUTURO_MINUTOS * 60
            ==> (recusa_encerramento(d, agora) matches Some(f) && f.codigo == lit("VALIDACAO")
            && f.detalhe == Some(lit("CAMPO:dt_chegada"))),
{
}

/// O aviso de hodômetro de um encerramento aparece exatamente quando os dois
/// hodômetros são conhecidos e a viagem teria mais de 1.000 km, e traz os km.
pub proof fn lei_aviso_de_km(d: DadosEncerramento, km: i64)
    requires
        hodometros_subtraiveis(d),
    ensures
        match (d.hodometro_chegada, d.hodometro_saida) {
            (Some(c), Some(s)) => s <= c ==> (avisos_encerramento(d).contains(
                Aviso::DiferencaHodometroGrande { km },
            ) <==> (km == c - s && km > 1000)),
            _ => !avisos_encerramento(d).contains(Aviso::DiferencaHodometroGrande { km }),
        },
{
    let a = Aviso::DiferencaHodometroGrande { km };
    let todos = avisos_encerramento(d);
    let x = centesimos_da_viagem(d);
    let duracao = if longa_spec(x) {
        seq![Aviso::DuracaoLonga { centesimos: x as i64 }]
    } else {
        Seq::empty()
    };
    let hodometro = match (d.hodometro_chegada, d.hodometro_saida) {
        (Some(c), Some(s)) => if c - s > DIFERENCA_HODOMETRO_CONFIRMA_KM {
            seq![Aviso::DiferencaHodometroGrande { km: (c - s) as i64 }]
        } else {
            Seq::empty()
        },
        _ => Seq::empty(),
    };
    assert(todos == duracao + hodometro);
    if todos.contains(a) {
        let k = choose|k: int| 0 <= k < todos.len() && todos[k] == a;
        if k < duracao.len() {
            assert(todos[k] == duracao[k]);
        } else {
            assert(todos[k] == hodometro[k - duracao.len()]);
        }
    }
    if let (Some(c), Some(s)) = (d.hodometro_chegada, d.hodometro_saida) {
        if s <= c && km == c - s && km > 1000 {
            assert(todos[duracao.len() as int] == a);
        }
    }
}

/// Um encerramento aceito é de viagem ainda aberta, com a chegada depois da
/// saída, e com o hodômetro de chegada nunca abaixo do de saída.
pub proof fn lei_encerramento_aceito(d: DadosEncerramento, agora: DataHora)
    ensures
        recusa_encerramento(d, agora) is None ==> {
            &&& !d.ja_encerrada
            &&& instante(d.dt_saida) < instante(d.dt_chegada)
            &&& match (d.hodometro_chegada, d.hodometro_saida) {
                (Some(c), Some(s)) => s <= c,
                _ => true,
            }
        },
{
}

pub fn validar_encerramento(d: &DadosEncerramento, agora: &DataHora) -> (r: Result<
    Vec<Aviso>,
    ErroApp,
>)
    requires
        datahora_valida(d.dt_saida),
        datahora_valida(d.dt_chegada),
        datahora_valida(*agora),
        hodometros_subtraiveis(*d),
    ensures
        match recusa_encerramento(*d, *agora) {
            Some(f) => recusado(r, f),
            None => r matches Ok(v) && v@ == avisos_encerramento(*d),
        },
        r is Ok ==> instante(d.dt_chegada) <= instante(*agora) + FOLGA_FUTURO_MINUTOS * 60,
{
    proof {
        lei_chegada_nunca_alem_da_folga(*d, *agora);
    }
    if d.ja_encerrada {
        return Err(validacao_sem("Esta viagem já foi encerrada."));
    }
    if instante_exec(&d.dt_chegada) <= instante_exec(&d.dt_saida) {
        return Err(validacao_com("A chegada precisa ser depois da saída.", "CAMPO:dt_chegada"));
    }
    if no_futuro_alem_de(&d.dt_chegada, FOLGA_FUTURO_MINUTOS, agora) {
        return Err(
            validacao_com("A chegada não pode ser registrada no futuro.", "CAMPO:dt_chegada"),
        );
    }
    if let (Some(chegada), Some(saida)) = (d.hodometro_chegada, d.hodometro_saida) {
        if chegada < saida {
            return Err(
                validacao_com(
                    "O hodômetro de chegada não pode ser menor que o de saída.",
                    "CAMPO:hodometro_chegada",
                ),
            );
        }
    }
    let mut avisos: Vec<Aviso> = Vec::new();
    let centesimos = centesimos_de_hora(instante_exec(&d.dt_chegada) - instante_exec(&d.dt_saida));
    if longa(centesimos) {
        avisos.push(Aviso::DuracaoLonga { centesimos });
    }
    if let (Some(chegada), Some(saida)) = (d.hodometro_chegada, d.hodometro_saida) {
        let km = chegada - saida;
        if km > DIFERENCA_HODOMETRO_CONFIRMA_KM {
            avisos.push(Aviso::DiferencaHodometroGrande { km });
        }
    }
    assert(avisos@ =~= avisos_encerramento(*d));
    Ok(avisos)
}

} // verus!
