use controle_veiculos::datahora::Data;
use controle_veiculos::modelo::{clausulas_do_filtro, FiltroSaidas, Parametro};
use controle_veiculos::relatorio::{
    cabecalho_de, conteudo, csv, extensao, frotas_legiveis, html, linha_uso_motorista,
    linha_uso_veiculo, nome_do_arquivo, pasta_do_mes, periodo, porcentagem, rotulo,
    validar_periodo, CabecalhoRelatorio, Formato, LinhaRelatorio, RelatorioDados, TipoRelatorio,
    BOM_UTF8,
};

fn dados() -> RelatorioDados {
    RelatorioDados {
        tipo: TipoRelatorio::UsoVeiculo,
        cabecalho: CabecalhoRelatorio {
            de: "2026-09-01".to_string(),
            ate: "2026-10-01".to_string(),
            viagens: 10,
            sem_chegada: 2,
            sem_chegada_pct: 200,
            chegadas_manuais: 3,
            chegadas_manuais_pct: 300,
            hodometro_completo: 5,
            hodometro_completo_pct: 500,
            emitido_em: "2026-09-20 10:00".to_string(),
            emitido_por: "DOMINIO\\a.lopes".to_string(),
        },
        linhas: vec![LinhaRelatorio {
            rotulo: "907015 — Saveiro; cabine dupla".to_string(),
            viagens: 4,
            abertas: 1,
            horas_totais: 2250,
            horas_media: Some(750),
            chegadas_manuais: 1,
            km: Some(340),
            veiculos_distintos: None,
            frotas: None,
        }],
    }
}

#[test]
fn csv_comeca_com_bom_e_usa_ponto_e_virgula() {
    let saida = csv(&dados());
    assert!(saida.starts_with(BOM_UTF8), "o Excel precisa do BOM");
    assert!(saida.contains("Veículo;Viagens;Abertas"));
}

#[test]
fn csv_usa_virgula_decimal() {
    let saida = csv(&dados());
    assert!(saida.contains("22,50"), "horas com vírgula decimal: {saida}");
    assert!(!saida.contains("22.50"));
}

#[test]
fn csv_escapa_celula_que_contem_o_separador() {
    let saida = csv(&dados());
    assert!(
        saida.contains("\"907015 — Saveiro; cabine dupla\""),
        "célula com ';' precisa de aspas: {saida}"
    );
}

#[test]
fn csv_traz_o_cabecalho_obrigatorio_com_percentuais() {
    let saida = csv(&dados());
    assert!(saida.contains("Viagens sem chegada;2;20,0%"));
    assert!(saida.contains("Chegadas informadas manualmente;3;30,0%"));
    assert!(saida.contains("Viagens com hodômetro nas duas pontas;5;50,0%"));
    assert!(saida.contains("Emitido em;2026-09-20 10:00;por;"));
}

#[test]
fn html_mostra_o_percentual_de_viagens_sem_chegada() {
    let saida = html(&dados());
    assert!(saida.contains("Viagens sem chegada"));
    assert!(saida.contains("20,0%"));
}

#[test]
fn html_nao_busca_nada_na_rede() {
    let saida = html(&dados());
    for proibido in ["http://", "https://", "<script"] {
        assert!(
            !saida.contains(proibido),
            "relatório não pode depender de rede nem de script: {proibido}"
        );
    }
}

#[test]
fn horas_media_ausente_vira_celula_vazia_e_nao_zero() {
    let mut d = dados();
    d.linhas[0].horas_media = None;
    let saida = csv(&d);
    assert!(saida.contains(";;1;340"), "média ausente fica vazia: {saida}");
}

#[test]
fn filtro_vazio_ainda_esconde_excluidas() {
    let (onde, params) = clausulas_do_filtro(&FiltroSaidas::default()).expect("monta");
    assert_eq!(onde, "WHERE s.excluida_em IS NULL");
    assert!(params.is_empty());
}

#[test]
fn somente_abertas_traz_as_duas_condicoes() {
    let filtro = FiltroSaidas { somente_abertas: true, ..Default::default() };
    let (onde, _) = clausulas_do_filtro(&filtro).expect("monta");
    assert!(onde.contains("s.dt_chegada IS NULL AND s.excluida_em IS NULL"));
}

#[test]
fn periodo_usa_ate_exclusivo() {
    let filtro = FiltroSaidas {
        de: Some("2026-09-01".to_string()),
        ate: Some("2026-10-01".to_string()),
        ..Default::default()
    };
    let (onde, params) = clausulas_do_filtro(&filtro).expect("monta");
    assert!(onde.contains("s.dt_saida >= ?1"));
    assert!(onde.contains("s.dt_saida < ?2"), "o limite superior é exclusivo");
    assert_eq!(params.len(), 2);
}

#[test]
fn data_invalida_no_filtro_e_recusada() {
    let filtro = FiltroSaidas { de: Some("01/09/2026".to_string()), ..Default::default() };
    assert!(clausulas_do_filtro(&filtro).is_err());
}

#[test]
fn turno_invalido_no_filtro_e_recusado() {
    let filtro = FiltroSaidas {
        turnos: vec!["A".to_string(), "Z".to_string()],
        ..Default::default()
    };
    assert!(clausulas_do_filtro(&filtro).is_err());
}

// ------------------------------------------------------------- próprios ---

#[test]
fn filtro_completo_liga_os_parametros_em_ordem() {
    let filtro = FiltroSaidas {
        de: Some("2026-09-01".to_string()),
        ate: None,
        veiculo_id: Some(3),
        motorista_id: None,
        turnos: vec!["A".to_string(), "C".to_string()],
        somente_abertas: false,
        incluir_excluidas: true,
    };
    let (onde, params) = clausulas_do_filtro(&filtro).expect("monta");
    assert!(onde.starts_with("WHERE "));
    assert!(!onde.contains("excluida_em"));
    assert!(onde.contains("s.veiculo_id = ?2"));
    assert!(onde.contains("s.turno IN (?3, ?4)"), "{onde}");
    assert_eq!(params.len(), 4);
    assert!(matches!(&params[1], Parametro::Inteiro(3)));
    assert!(matches!(&params[3], Parametro::Texto(t) if t == "C"));
}

#[test]
fn periodo_padrao_e_o_mes_ate_amanha_exclusivo() {
    let hoje = Data { ano: 2026, mes: 9, dia: 30 };
    let (de, ate) = periodo(&FiltroSaidas::default(), &hoje).expect("período");
    assert_eq!(de, "2026-09-01");
    assert_eq!(ate, "2026-10-01");

    let invertido = FiltroSaidas {
        de: Some("2026-10-01".to_string()),
        ate: Some("2026-09-01".to_string()),
        ..Default::default()
    };
    let e = periodo(&invertido, &hoje).expect_err("invertido");
    assert_eq!(
        e.mensagem,
        "A data final precisa ser depois da inicial. O limite final é exclusivo."
    );
    let igual = FiltroSaidas {
        de: Some("2026-09-01".to_string()),
        ate: Some("2026-09-01".to_string()),
        ..Default::default()
    };
    assert!(periodo(&igual, &hoje).is_err());
}

#[test]
fn cabecalho_arredonda_os_percentuais() {
    let c = cabecalho_de(
        "2026-09-01".to_string(),
        "2026-10-01".to_string(),
        3,
        1,
        2,
        0,
        "2026-09-20 10:00".to_string(),
        "a.lopes".to_string(),
    );
    assert_eq!(c.sem_chegada_pct, 333);
    assert_eq!(c.chegadas_manuais_pct, 667);
    assert_eq!(c.hodometro_completo_pct, 0);
    assert_eq!(porcentagem(5, 0), 0, "sem viagem nenhuma, zero");
    assert!(validar_periodo("2026-09-01", "2026-10-01").is_ok());
    assert!(validar_periodo("2026-09-01", "outubro").is_err());
}

#[test]
fn linhas_de_uso_montam_rotulo_e_frotas() {
    assert_eq!(rotulo("907015", &Some("Saveiro".to_string())), "907015 — Saveiro");
    assert_eq!(rotulo("907015", &Some(String::new())), "907015");
    assert_eq!(frotas_legiveis(&Some("907015,907018".to_string())), Some("907015, 907018".to_string()));
    let v = linha_uso_veiculo("907015", &None, 4, None, Some(2250), None, Some(1), Some(340));
    assert_eq!((v.rotulo.as_str(), v.abertas, v.horas_totais, v.horas_media), ("907015", 0, 2250, None));
    let m = linha_uso_motorista(
        "Maria",
        &Some("40344".to_string()),
        3,
        2,
        &Some("907015,907022".to_string()),
        Some(1),
        Some(600),
        Some(300),
        None,
    );
    assert_eq!(m.rotulo, "Maria — 40344");
    assert_eq!(m.frotas.as_deref(), Some("907015, 907022"));
    assert_eq!(m.veiculos_distintos, Some(2));
    assert_eq!(m.km, None);
}

#[test]
fn arquivo_emitido_tem_nome_pasta_e_extensao() {
    assert_eq!(pasta_do_mes("2026-09-01"), "2026-09");
    assert_eq!(
        nome_do_arquivo(TipoRelatorio::UsoMotorista, "2026-09-01", "2026-10-01", Formato::Pdf),
        "uso-motorista_2026-09-01_a_2026-10-01.html"
    );
    assert_eq!(extensao(Formato::Csv), "csv");
    assert!(conteudo(&dados(), Formato::Csv).starts_with(BOM_UTF8));
    assert!(conteudo(&dados(), Formato::Html).starts_with("<!doctype html>"));
    assert_eq!(TipoRelatorio::UsoVeiculo.titulo(), "Uso de veículo");
}
