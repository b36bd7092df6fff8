use controle_veiculos::datahora::{analisar, formatar, DataHora};
use controle_veiculos::erro::{traduzir_falha, ErroApp, FalhaBanco};
use controle_veiculos::modelo::{clausulas_do_filtro, FiltroSaidas, Saida, Veiculo};
use controle_veiculos::regras::hodometro_apos_encerramento;
use controle_veiculos::saidas::{
    decidir_abertura, decidir_edicao, decidir_encerramento, decidir_exclusao, kpis_de,
    viagem_aberta, DadosAbertura, DadosEdicao, Ocupacao,
};
use controle_veiculos::validacao::{
    validar_encerramento, Aviso, DadosEncerramento,
};

/// O relógio dos testes: a viagem de "ontem" sai em 2026-09-20.
fn agora() -> DataHora {
    analisar("2026-09-21 12:00").expect("data válida")
}

fn dia(dias_atras: i64) -> &'static str {
    match dias_atras {
        0 => "2026-09-21",
        1 => "2026-09-20",
        _ => "2026-09-19",
    }
}

fn veiculo(id: i64) -> Veiculo {
    Veiculo {
        id,
        frota: "907015".to_string(),
        placa: None,
        modelo: None,
        marca: None,
        ano: None,
        tipo: None,
        hodometro_atual: None,
        ativo: true,
        observacao: None,
        criado_em: "2026-09-01 08:00".to_string(),
    }
}

fn abertura(veiculo_id: i64, motorista_id: i64) -> DadosAbertura {
    DadosAbertura {
        veiculo_id,
        motorista_id,
        turno: "A".to_string(),
        destino: Some("Campo 7".to_string()),
        atividade: "Transporte de equipe".to_string(),
        dt_saida: Some(format!("{} 08:00", dia(1))),
        hodometro_saida: None,
        observacao: None,
    }
}

fn abrir(
    d: &DadosAbertura,
    com_o_veiculo: Option<Ocupacao>,
    motorista_em_viagem: bool,
) -> Result<controle_veiculos::saidas::NovaSaida, ErroApp> {
    decidir_abertura(
        d,
        &agora(),
        &Some(veiculo(d.veiculo_id)),
        Some(true),
        &com_o_veiculo,
        motorista_em_viagem,
        false,
    )
}

/// A viagem gravada que a abertura `d` produz.
fn gravada(d: &DadosAbertura, id: i64) -> Saida {
    Saida {
        id,
        veiculo_id: d.veiculo_id,
        motorista_id: d.motorista_id,
        turno: d.turno.clone(),
        destino: d.destino.clone(),
        atividade: d.atividade.clone(),
        dt_saida: d.dt_saida.clone().expect("com data"),
        dt_chegada: None,
        hodometro_saida: d.hodometro_saida,
        hodometro_chegada: None,
        chegada_manual: false,
        observacao: None,
        excluida_em: None,
        excluida_por: None,
        excluida_motivo: None,
        criado_em: "2026-09-20 08:00".to_string(),
        atualizado_em: None,
        frota: Some("907015".to_string()),
        motorista: Some("Angelo Junior".to_string()),
    }
}

#[test]
fn segunda_abertura_do_mesmo_veiculo_devolve_veiculo_em_uso_e_nao_banco() {
    abrir(&abertura(1, 1), None, false).expect("primeira abre");

    let com_quem = Ocupacao {
        motorista: "Angelo Junior".to_string(),
        dt_saida: format!("{} 08:00", dia(1)),
    };
    let erro = abrir(&abertura(1, 2), Some(com_quem), false).expect_err("segunda deve recusar");

    assert_eq!(erro.codigo, "VEICULO_EM_USO");
    assert!(
        erro.detalhe.unwrap_or_default().contains("Angelo Junior"),
        "a recusa precisa dizer quem está com o carro"
    );
}

#[test]
fn segunda_abertura_do_mesmo_motorista_devolve_motorista_em_uso() {
    abrir(&abertura(1, 1), None, false).expect("primeira abre");
    let erro = abrir(&abertura(2, 1), None, true).expect_err("segunda deve recusar");
    assert_eq!(erro.codigo, "MOTORISTA_EM_USO");
}

#[test]
fn o_indice_unico_barra_mesmo_sem_o_select_previo() {
    let erro = traduzir_falha(
        FalhaBanco::Restricao,
        Some("UNIQUE constraint failed: saidas.veiculo_id".to_string()),
        "UNIQUE constraint failed: saidas.veiculo_id".to_string(),
    );
    assert_eq!(erro.codigo, "VEICULO_EM_USO");
}

#[test]
fn excluir_viagem_aberta_libera_o_indice_para_o_mesmo_veiculo() {
    let d = abertura(1, 1);
    abrir(&d, None, false).expect("abre");

    let motivo = decidir_exclusao(&Some(gravada(&d, 1)), "lançamento em duplicidade").expect("exclui");
    assert_eq!(motivo, "lançamento em duplicidade");

    let segunda = abrir(&abertura(1, 2), None, false)
        .expect("com a primeira excluída, o veículo está livre");
    assert_eq!(segunda.veiculo_id, 1);

    let (onde, _) = clausulas_do_filtro(&FiltroSaidas::default()).expect("monta");
    assert!(onde.contains("s.excluida_em IS NULL"), "a excluída não aparece por padrão");
    let (onde, _) = clausulas_do_filtro(&FiltroSaidas {
        incluir_excluidas: true,
        ..Default::default()
    })
    .expect("monta");
    assert!(!onde.contains("excluida_em"));
}

#[test]
fn exclusao_sem_motivo_e_recusada() {
    let d = abertura(1, 1);
    let erro = decidir_exclusao(&Some(gravada(&d, 1)), "  ").expect_err("deve recusar");
    assert_eq!(erro.codigo, "VALIDACAO");
}

#[test]
fn encerrar_libera_o_veiculo_para_a_proxima_viagem() {
    let d = abertura(1, 1);
    abrir(&d, None, false).expect("abre");
    decidir_encerramento(
        &Some(gravada(&d, 1)),
        &Some(format!("{} 12:00", dia(1))),
        None,
        &agora(),
        false,
    )
    .expect("encerra");
    abrir(&abertura(1, 2), None, false).expect("veículo livre de novo");
}

#[test]
fn encerramento_longo_exige_confirmacao_e_passa_quando_confirmado() {
    let d = abertura(1, 1);
    let saida = gravada(&d, 1);

    let erro = decidir_encerramento(
        &Some(saida.clone_saida()),
        &Some(format!("{} 07:00", dia(0))),
        None,
        &agora(),
        false,
    )
    .expect_err("23 h precisa de confirmação");
    assert_eq!(erro.codigo, "VALIDACAO");
    assert_eq!(erro.detalhe.as_deref(), Some("DURACAO_LONGA:23h00"));

    let encerrada = decidir_encerramento(
        &Some(saida),
        &Some(format!("{} 07:00", dia(0))),
        None,
        &agora(),
        true,
    )
    .expect("confirmado, passa");
    assert_eq!(encerrada.dt_chegada, format!("{} 07:00", dia(0)));
    assert!(encerrada.chegada_manual, "horário informado à mão");
}

trait CopiaSaida {
    fn clone_saida(&self) -> Saida;
}

impl CopiaSaida for Saida {
    fn clone_saida(&self) -> Saida {
        Saida {
            id: self.id,
            veiculo_id: self.veiculo_id,
            motorista_id: self.motorista_id,
            turno: self.turno.clone(),
            destino: self.destino.clone(),
            atividade: self.atividade.clone(),
            dt_saida: self.dt_saida.clone(),
            dt_chegada: self.dt_chegada.clone(),
            hodometro_saida: self.hodometro_saida,
            hodometro_chegada: self.hodometro_chegada,
            chegada_manual: self.chegada_manual,
            observacao: self.observacao.clone(),
            excluida_em: self.excluida_em.clone(),
            excluida_por: self.excluida_por.clone(),
            excluida_motivo: self.excluida_motivo.clone(),
            criado_em: self.criado_em.clone(),
            atualizado_em: self.atualizado_em.clone(),
            frota: self.frota.clone(),
            motorista: self.motorista.clone(),
        }
    }
}

#[test]
fn virada_de_meia_noite_encerra_sem_confirmacao() {
    let mut d = abertura(1, 1);
    d.dt_saida = Some(format!("{} 22:40", dia(1)));
    abrir(&d, None, false).expect("abre");
    decidir_encerramento(
        &Some(gravada(&d, 1)),
        &Some(format!("{} 05:30", dia(0))),
        None,
        &agora(),
        false,
    )
    .expect("6h50 não pede confirmação");
}

#[test]
fn hodometro_de_chegada_menor_que_o_de_saida_e_recusado() {
    let mut d = abertura(1, 1);
    d.hodometro_saida = Some(45_200);
    abrir(&d, None, false).expect("abre");
    let erro = decidir_encerramento(
        &Some(gravada(&d, 1)),
        &Some(format!("{} 12:00", dia(1))),
        Some(44_900),
        &agora(),
        true,
    )
    .expect_err("deve recusar");
    assert_eq!(erro.codigo, "VALIDACAO");
}

#[test]
fn encerrar_avanca_o_hodometro_do_veiculo_mas_nunca_para_tras() {
    let mut d = abertura(1, 1);
    d.hodometro_saida = Some(45_000);
    abrir(&d, None, false).expect("abre");
    let e = decidir_encerramento(
        &Some(gravada(&d, 1)),
        &Some(format!("{} 12:00", dia(1))),
        Some(45_300),
        &agora(),
        false,
    )
    .expect("encerra");
    let atual = hodometro_apos_encerramento(None, e.hodometro_chegada);
    assert_eq!(atual, Some(45_300));

    let mut d2 = abertura(1, 2);
    d2.dt_saida = Some(format!("{} 13:00", dia(1)));
    d2.hodometro_saida = Some(45_300);
    abrir(&d2, None, false).expect("abre");
    decidir_encerramento(
        &Some(gravada(&d2, 2)),
        &Some(format!("{} 14:00", dia(1))),
        Some(45_100),
        &agora(),
        true,
    )
    .expect_err("chegada menor que a saída é recusada");

    assert_eq!(hodometro_apos_encerramento(atual, Some(45_100)), Some(45_300), "o hodômetro não pode retroceder");
}

#[test]
fn viagem_aberta_conta_como_viagem_mas_nao_soma_horas() {
    // Uma viagem fechada de 4 h e uma aberta: a média é só da fechada.
    let k = kpis_de(2, Some(1), 2, 2, Some(400), Some(2), Some(0), Some(0));
    assert_eq!(k.viagens, 2);
    assert_eq!(k.abertas, 1);
    assert_eq!(k.duracao_media_horas, Some(400), "a média usa só a viagem fechada");
}

#[test]
fn media_de_zero_viagens_fechadas_e_ausencia_de_dado_e_nao_zero() {
    let k = kpis_de(1, Some(1), 1, 1, None, Some(1), None, None);
    assert_eq!(k.viagens, 1);
    assert_eq!(k.duracao_media_horas, None);
    assert_eq!(k.por_turno, [1, 0, 0]);
}

#[test]
fn saida_no_futuro_alem_da_folga_e_recusada() {
    let mut d = abertura(1, 1);
    d.dt_saida = Some("2026-09-22 12:00".to_string());
    let erro = decidir_abertura(&d, &agora(), &Some(veiculo(1)), Some(true), &None, false, true)
        .expect_err("futuro é recusado");
    assert_eq!(erro.codigo, "VALIDACAO");
}

#[test]
fn abrir_para_veiculo_inexistente_devolve_nao_encontrado() {
    let erro = decidir_abertura(&abertura(99, 1), &agora(), &None, Some(true), &None, false, false)
        .expect_err("não existe");
    assert_eq!(erro.codigo, "NAO_ENCONTRADO");
}

// -------------------------------------------------- validação de encerramento ---

fn encerramento(saida: &str, chegada: &str) -> DadosEncerramento {
    DadosEncerramento {
        dt_saida: analisar(saida).expect("data válida"),
        dt_chegada: analisar(chegada).expect("data válida"),
        ja_encerrada: false,
        hodometro_saida: None,
        hodometro_chegada: None,
    }
}

#[test]
fn duracao_longa_devolve_o_aviso_formatado() {
    let avisos = validar_encerramento(&encerramento("2026-09-19 08:00", "2026-09-20 00:20"), &agora())
        .expect("ok");
    assert_eq!(avisos, vec![Aviso::DuracaoLonga { centesimos: 1633 }]);
    assert_eq!(avisos[0].detalhe(), "DURACAO_LONGA:16h20");
}

#[test]
fn virada_de_meia_noite_nao_gera_aviso() {
    let avisos = validar_encerramento(&encerramento("2026-09-19 22:40", "2026-09-20 05:30"), &agora())
        .expect("ok");
    assert!(avisos.is_empty());
}

#[test]
fn chegada_antes_da_saida_e_recusa() {
    let erro = validar_encerramento(&encerramento("2026-09-19 08:00", "2026-09-19 07:00"), &agora())
        .expect_err("deve recusar");
    assert_eq!(erro.codigo, "VALIDACAO");
}

#[test]
fn hodometro_de_chegada_menor_e_recusa() {
    let mut d = encerramento("2026-09-19 08:00", "2026-09-19 09:00");
    d.hodometro_saida = Some(45_200);
    d.hodometro_chegada = Some(44_900);
    assert!(validar_encerramento(&d, &agora()).is_err());
}

#[test]
fn diferenca_de_hodometro_grande_so_confirma() {
    let mut d = encerramento("2026-09-19 08:00", "2026-09-19 12:00");
    d.hodometro_saida = Some(45_200);
    d.hodometro_chegada = Some(46_500);
    let avisos = validar_encerramento(&d, &agora()).expect("não deve recusar");
    assert_eq!(avisos, vec![Aviso::DiferencaHodometroGrande { km: 1_300 }]);
}

#[test]
fn viagem_ja_encerrada_e_recusa() {
    let mut d = encerramento("2026-09-19 08:00", "2026-09-19 09:00");
    d.ja_encerrada = true;
    assert!(validar_encerramento(&d, &agora()).is_err());
}

// ------------------------------------------------------------- próprios ---

#[test]
fn abertura_grava_atividade_aparada_e_campos_limpos() {
    let mut d = abertura(1, 1);
    d.atividade = "  Vistoria  ".to_string();
    d.destino = Some("   ".to_string());
    d.observacao = Some(" levar EPI ".to_string());
    let n = abrir(&d, None, false).expect("abre");
    assert_eq!(n.atividade, "Vistoria");
    assert_eq!(n.destino, None);
    assert_eq!(n.observacao.as_deref(), Some("levar EPI"));
    assert_eq!(n.dt_saida, "2026-09-20 08:00");
}

#[test]
fn abertura_sem_data_usa_agora() {
    let mut d = abertura(1, 1);
    d.dt_saida = None;
    let n = abrir(&d, None, false).expect("abre");
    assert_eq!(n.dt_saida, formatar(&agora()));
}

#[test]
fn abertura_atrasada_pede_confirmacao_com_os_dias() {
    let mut d = abertura(1, 1);
    d.dt_saida = Some("2026-09-10 08:00".to_string());
    let e = abrir(&d, None, false).expect_err("pede confirmação");
    assert_eq!(e.codigo, "VALIDACAO");
    assert_eq!(e.detalhe.as_deref(), Some("SAIDA_ANTIGA:11"));
    decidir_abertura(&d, &agora(), &Some(veiculo(1)), Some(true), &None, false, true)
        .expect("confirmado, passa");
}

#[test]
fn condutor_inexistente_ou_inativo_e_veiculo_inativo() {
    let d = abertura(1, 1);
    let e = decidir_abertura(&d, &agora(), &Some(veiculo(1)), None, &None, false, false)
        .expect_err("sem condutor");
    assert_eq!(e.mensagem, "Condutor não encontrado.");
    let e = decidir_abertura(&d, &agora(), &Some(veiculo(1)), Some(false), &None, false, false)
        .expect_err("inativo");
    assert_eq!(e.detalhe.as_deref(), Some("CAMPO:motorista"));
    let mut v = veiculo(1);
    v.ativo = false;
    let e = decidir_abertura(&d, &agora(), &Some(v), Some(true), &None, false, false)
        .expect_err("inativo");
    assert_eq!(e.detalhe.as_deref(), Some("CAMPO:veiculo"));
}

#[test]
fn ocupacao_diz_quem_e_desde_quando() {
    let com_quem = Ocupacao {
        motorista: "Maria Lima".to_string(),
        dt_saida: "2026-09-21 07:40".to_string(),
    };
    let e = abrir(&abertura(1, 2), Some(com_quem), true).expect_err("ocupado");
    assert_eq!(e.detalhe.as_deref(), Some("COM:Maria Lima · desde 2026-09-21 07:40"));
}

#[test]
fn encerrar_viagem_excluida_ou_inexistente_e_recusado() {
    let d = abertura(1, 1);
    let mut s = gravada(&d, 1);
    s.excluida_em = Some("2026-09-20 09:00".to_string());
    let e = decidir_encerramento(&Some(s), &Some("2026-09-20 10:00".to_string()), None, &agora(), false)
        .expect_err("excluída");
    assert_eq!(e.mensagem, "Esta viagem foi excluída.");
    let e = decidir_encerramento(&None, &Some("2026-09-20 10:00".to_string()), None, &agora(), false)
        .expect_err("não existe");
    assert_eq!(e.codigo, "NAO_ENCONTRADO");
    let e = decidir_encerramento(&None, &Some("amanhã".to_string()), None, &agora(), false)
        .expect_err("data primeiro");
    assert_eq!(e.codigo, "VALIDACAO");
}

#[test]
fn encerrar_sem_data_usa_agora_e_nao_e_manual() {
    let d = abertura(1, 1);
    let e = decidir_encerramento(&Some(gravada(&d, 1)), &None, None, &agora(), true).expect("encerra");
    assert!(!e.chegada_manual);
    assert_eq!(e.dt_chegada, formatar(&agora()));
    assert_eq!(e.veiculo_id, 1);
}

fn edicao() -> DadosEdicao {
    DadosEdicao {
        id: 1,
        turno: "B".to_string(),
        destino: Some(" Balança ".to_string()),
        atividade: " Entrega ".to_string(),
        dt_saida: "2026-09-20 08:00".to_string(),
        dt_chegada: Some("2026-09-20 10:00".to_string()),
        hodometro_saida: Some(100),
        hodometro_chegada: Some(150),
        observacao: None,
    }
}

#[test]
fn edicao_grava_campos_limpos_e_confere_a_chegada() {
    let d = abertura(1, 1);
    let e = decidir_edicao(&edicao(), &Some(gravada(&d, 1)), &agora(), false).expect("edita");
    assert_eq!(e.turno, "B");
    assert_eq!(e.destino.as_deref(), Some("Balança"));
    assert_eq!(e.atividade, "Entrega");
    assert_eq!(e.dt_chegada.as_deref(), Some("2026-09-20 10:00"));

    let mut futura = edicao();
    futura.dt_saida = "2026-09-23 08:00".to_string();
    futura.dt_chegada = None;
    let erro = decidir_edicao(&futura, &Some(gravada(&d, 1)), &agora(), false).expect_err("futuro");
    assert_eq!(erro.mensagem, "A saída não pode ficar no futuro.");
    assert_eq!(erro.detalhe.as_deref(), Some("CAMPO:dt_saida"));

    let mut invertida = edicao();
    invertida.dt_chegada = Some("2026-09-20 07:00".to_string());
    let erro = decidir_edicao(&invertida, &Some(gravada(&d, 1)), &agora(), false).expect_err("invertida");
    assert_eq!(erro.detalhe.as_deref(), Some("CAMPO:dt_chegada"));

    let erro = decidir_edicao(&edicao(), &None, &agora(), false).expect_err("não existe");
    assert_eq!(erro.mensagem, "Viagem não encontrada.");
}

#[test]
fn painel_marca_a_viagem_de_mais_de_vinte_e_quatro_horas() {
    let a = viagem_aberta(
        3,
        "907022".to_string(),
        "Maria".to_string(),
        None,
        "Vistoria".to_string(),
        "2026-09-20 10:00".to_string(),
        "A".to_string(),
        &agora(),
    );
    assert_eq!(a.horas_decorridas, 2600);
    assert!(a.alerta);
    let b = viagem_aberta(
        4,
        "907031".to_string(),
        "João".to_string(),
        None,
        "Vistoria".to_string(),
        "data ilegível".to_string(),
        "A".to_string(),
        &agora(),
    );
    assert_eq!(b.horas_decorridas, 0, "a linha continua no Painel sem o tempo");
    assert!(!b.alerta);
}

#[test]
fn catorze_horas_e_trinta_segundos_ja_passam_de_catorze_horas_arredondadas() {
    let d = DadosEncerramento {
        dt_saida: DataHora { ano: 2026, mes: 9, dia: 19, hora: 6, minuto: 0, segundo: 0 },
        dt_chegada: DataHora { ano: 2026, mes: 9, dia: 19, hora: 20, minuto: 0, segundo: 30 },
        ja_encerrada: false,
        hodometro_saida: None,
        hodometro_chegada: None,
    };
    let avisos = validar_encerramento(&d, &agora()).expect("ok");
    assert_eq!(avisos, vec![Aviso::DuracaoLonga { centesimos: 1401 }]);
    assert_eq!(avisos[0].detalhe(), "DURACAO_LONGA:14h01");
}

#[test]
fn dezesseis_horas_vinte_e_cinquenta_segundos_aparecem_como_16h21() {
    let d = DadosEncerramento {
        dt_saida: DataHora { ano: 2026, mes: 9, dia: 19, hora: 6, minuto: 0, segundo: 0 },
        dt_chegada: DataHora { ano: 2026, mes: 9, dia: 19, hora: 22, minuto: 20, segundo: 50 },
        ja_encerrada: false,
        hodometro_saida: None,
        hodometro_chegada: None,
    };
    let avisos = validar_encerramento(&d, &agora()).expect("ok");
    assert_eq!(avisos, vec![Aviso::DuracaoLonga { centesimos: 1635 }]);
    assert_eq!(avisos[0].detalhe(), "DURACAO_LONGA:16h21");
}

#[test]
fn edicao_sem_chegada_aceita_hodometros_de_qualquer_tamanho() {
    let d = abertura(1, 1);
    let mut sem_chegada = edicao();
    sem_chegada.dt_chegada = None;
    sem_chegada.hodometro_saida = Some(i64::MIN);
    sem_chegada.hodometro_chegada = Some(i64::MAX);
    let e = decidir_edicao(&sem_chegada, &Some(gravada(&d, 1)), &agora(), false).expect("edita");
    assert_eq!(e.hodometro_saida, Some(i64::MIN));
    assert_eq!(e.hodometro_chegada, Some(i64::MAX));
}

#[test]
fn encerramento_com_chegada_muito_abaixo_da_saida_e_recusado_sem_subtrair() {
    let d = DadosEncerramento {
        dt_saida: analisar("2026-09-20 08:00").expect("data válida"),
        dt_chegada: analisar("2026-09-20 10:00").expect("data válida"),
        ja_encerrada: false,
        hodometro_saida: Some(i64::MAX),
        hodometro_chegada: Some(i64::MIN),
    };
    let erro = validar_encerramento(&d, &agora()).expect_err("recusa");
    assert_eq!(erro.codigo, "VALIDACAO");
    assert_eq!(erro.detalhe.as_deref(), Some("CAMPO:hodometro_chegada"));
}
