use chrono::{Datelike, Timelike};
use controle_veiculos::backup::{comando_vacuum, data_do_nome, nome_de_backup, selecionar_para_manter};
use controle_veiculos::banco::{conferir_journal, integridade_aprovada, migracoes, plano_de_migracao};
use controle_veiculos::datahora::{analisar, formatar, DataHora, Momento};
use controle_veiculos::demo::{plano_demo, Sorteio};
use controle_veiculos::erro::{traduzir_falha, FalhaBanco};
use controle_veiculos::nome::nome_norm;
use controle_veiculos::saidas::viagem_aberta;
use controle_veiculos::semelhanca::nomes_semelhantes;

fn de_chrono(d: chrono::NaiveDateTime) -> DataHora {
    DataHora {
        ano: d.year(),
        mes: d.month(),
        dia: d.day(),
        hora: d.hour(),
        minuto: d.minute(),
        segundo: d.second(),
    }
}

#[test]
fn rotacao_com_quarenta_arquivos_sinteticos_mantem_a_politica() {
    let agora = chrono::NaiveDate::from_ymd_opt(2026, 9, 20)
        .unwrap()
        .and_hms_opt(12, 0, 0)
        .unwrap();

    let mut esperado_48h = 0;
    let mut arquivos = Vec::new();
    for i in 0..12 {
        arquivos.push(agora - chrono::Duration::hours(i * 4));
        esperado_48h += 1;
    }
    for dia in 3..10 {
        for hora in [9, 17] {
            arquivos.push((agora - chrono::Duration::days(dia)).date().and_hms_opt(hora, 0, 0).unwrap());
        }
    }
    for mes in 2..6 {
        for dia in [3, 20] {
            arquivos.push((agora - chrono::Duration::days(mes * 30 + dia)).date().and_hms_opt(8, 0, 0).unwrap());
        }
    }
    for i in 0..6 {
        arquivos.push((agora - chrono::Duration::days(400 + i * 30)).date().and_hms_opt(8, 0, 0).unwrap());
    }
    assert_eq!(arquivos.len(), 40);
    arquivos.sort();

    // Cada arquivo com o nome que o backup teria, lido de volta pelo nome.
    let datas: Vec<DataHora> = arquivos
        .iter()
        .map(|q| data_do_nome(&nome_de_backup(&de_chrono(*q))).expect("nome no padrão"))
        .collect();
    let manter = selecionar_para_manter(
        &datas,
        &Momento { datahora: de_chrono(agora), nanos: agora.nanosecond() },
    );

    let mantidos: Vec<chrono::NaiveDateTime> = arquivos
        .iter()
        .zip(manter.iter())
        .filter(|(_, fica)| **fica)
        .map(|(q, _)| *q)
        .collect();
    let dentro_48h = mantidos
        .iter()
        .filter(|q| **q >= agora - chrono::Duration::hours(48))
        .count();
    assert_eq!(dentro_48h, esperado_48h, "tudo das últimas 48 h fica");
    assert_eq!(mantidos.len(), esperado_48h + 7 + 4);
    for q in &mantidos {
        assert!(*q >= agora - chrono::Duration::days(365));
    }
}

#[test]
fn arquivo_fora_do_padrao_nunca_e_removido() {
    // A rotação só considera o que tem nome de backup: o resto nem entra na lista.
    assert_eq!(data_do_nome("planilha-do-chefe.xlsx"), None);
    let antigo = analisar("2020-01-01 08:00").expect("data válida");
    let nome = nome_de_backup(&antigo);
    assert_eq!(nome, "controle_2020-01-01_0800.db");
    let agora = analisar("2026-09-20 12:00").expect("data válida");
    let manter = selecionar_para_manter(
        &vec![data_do_nome(&nome).expect("no padrão")],
        &Momento { datahora: agora, nanos: 0 },
    );
    assert_eq!(manter, vec![false], "o backup velho sai");
}

#[test]
fn integridade_de_banco_novo_passa() {
    assert!(integridade_aprovada("ok"));
    assert!(!integridade_aprovada("*** in database main ***"));
}

#[test]
fn migrar_duas_vezes_nao_reaplica() {
    let numeros = migracoes();
    assert_eq!(plano_de_migracao(&numeros, 0), vec![(0, 1)]);
    assert!(plano_de_migracao(&numeros, 1).is_empty(), "não deve pedir backup sem migração pendente");
}

#[test]
fn backup_e_pedido_antes_de_cada_migracao_pendente() {
    let niveis: Vec<i64> = plano_de_migracao(&migracoes(), 0).iter().map(|(n, _)| *n).collect();
    assert_eq!(niveis, vec![0]);
}

#[test]
fn a_base_ficticia_tem_viagens_abertas_e_fechadas() {
    let agora = analisar("2026-09-20 12:00").expect("data válida");
    let plano = plano_demo(&agora);
    let abertas = plano.viagens.iter().filter(|v| v.chegada.is_none()).count();
    let fechadas = plano.viagens.iter().filter(|v| v.chegada.is_some()).count();
    assert_eq!(abertas, 4);
    assert!(fechadas > 50, "dois meses precisam ter volume: {fechadas}");
}

#[test]
fn existe_uma_viagem_passando_de_vinte_e_quatro_horas() {
    let agora = analisar("2026-09-20 12:00").expect("data válida");
    let plano = plano_demo(&agora);
    let alguma = plano.viagens.iter().filter(|v| v.chegada.is_none()).any(|v| {
        viagem_aberta(
            0,
            String::new(),
            String::new(),
            None,
            v.atividade.clone(),
            formatar(&v.saida),
            v.turno.clone(),
            &agora,
        )
        .alerta
    });
    assert!(alguma, "a demo precisa de uma linha vermelha para mostrar o alerta");
}

#[test]
fn existem_dois_nomes_parecidos_para_o_alerta_de_duplicata() {
    let a = nome_norm("Angelo Junior");
    let b = nome_norm("Anjelo Junior");
    assert!(nomes_semelhantes(&a, &b));
    let agora = analisar("2026-09-20 12:00").expect("data válida");
    let plano = plano_demo(&agora);
    let existem = plano.motoristas.iter().filter(|m| m.nome_norm == a || m.nome_norm == b).count();
    assert_eq!(existem, 2);
}

#[test]
fn os_kpis_da_demo_nao_ficam_zerados() {
    let agora = analisar("2026-09-20 12:00").expect("data válida");
    let plano = plano_demo(&agora);
    assert!(plano.viagens.len() > 50);
    assert_eq!(plano.viagens.iter().filter(|v| v.chegada.is_none()).count(), 4);
    assert!(plano.viagens.iter().any(|v| v.chegada.is_some()), "há viagens fechadas");
    let por_turno = ["A", "B", "C"]
        .iter()
        .map(|t| plano.viagens.iter().filter(|v| v.turno == *t).count())
        .sum::<usize>();
    assert_eq!(por_turno, plano.viagens.len());
}

#[test]
fn o_gerador_e_deterministico() {
    let agora = analisar("2026-09-20 12:00").expect("data válida");
    let primeira = plano_demo(&agora);
    let segunda = plano_demo(&agora);
    assert_eq!(primeira.viagens.len(), segunda.viagens.len());
    for (a, b) in primeira.viagens.iter().zip(segunda.viagens.iter()) {
        assert_eq!((a.veiculo_id, a.motorista_id, a.saida), (b.veiculo_id, b.motorista_id, b.saida));
    }
}

#[test]
fn coluna_de_veiculo_vira_veiculo_em_uso() {
    let e = traduzir_falha(
        FalhaBanco::Restricao,
        Some("UNIQUE constraint failed: saidas.veiculo_id".to_string()),
        String::new(),
    );
    assert_eq!(e.codigo, "VEICULO_EM_USO");
}

#[test]
fn coluna_de_motorista_vira_motorista_em_uso() {
    let e = traduzir_falha(
        FalhaBanco::Restricao,
        Some("UNIQUE constraint failed: saidas.motorista_id".to_string()),
        String::new(),
    );
    assert_eq!(e.codigo, "MOTORISTA_EM_USO");
}

#[test]
fn o_nome_do_indice_tambem_e_aceito() {
    let e = traduzir_falha(
        FalhaBanco::Restricao,
        Some("UNIQUE constraint failed: index 'ux_veiculo_em_uso'".to_string()),
        String::new(),
    );
    assert_eq!(e.codigo, "VEICULO_EM_USO");
}

#[test]
fn nome_norm_repetido_vira_duplicado() {
    let e = traduzir_falha(
        FalhaBanco::Restricao,
        Some("UNIQUE constraint failed: motoristas.nome_norm".to_string()),
        String::new(),
    );
    assert_eq!(e.codigo, "DUPLICADO");
}

#[test]
fn erro_de_io_vira_conexao_perdida() {
    let e = traduzir_falha(
        FalhaBanco::Acesso,
        Some("disk I/O error".to_string()),
        "disk I/O error".to_string(),
    );
    assert_eq!(e.codigo, "CONEXAO_PERDIDA");
    assert_eq!(e.detalhe.as_deref(), Some("disk I/O error"));
}

#[test]
fn falha_desconhecida_ainda_vira_banco() {
    let e = traduzir_falha(FalhaBanco::ForaDoSqlite, None, "Query returned no rows".to_string());
    assert_eq!(e.codigo, "BANCO");
    assert_eq!(e.mensagem, "Falha ao acessar o banco de dados.");
}

// ------------------------------------------------------------- próprios ---

#[test]
fn journal_so_truncate_sem_diferenciar_caixa() {
    assert!(conferir_journal("truncate").is_ok());
    assert!(conferir_journal("TRUNCATE").is_ok());
    let e = conferir_journal("wal").expect_err("wal não serve sobre a rede");
    assert_eq!(e.codigo, "BANCO");
    assert_eq!(e.detalhe.as_deref(), Some("journal_mode efetivo: wal"));
}

#[test]
fn vacuum_dobra_a_aspa_do_caminho() {
    assert_eq!(comando_vacuum("c:/d'avila/b.db"), "VACUUM INTO 'c:/d''avila/b.db'");
}

#[test]
fn sorteio_fica_no_limite() {
    let mut s = Sorteio(0x5EED_1234_ABCD_0001);
    for limite in [1u64, 3, 8, 30_000] {
        assert!(s.proximo(limite) < limite);
    }
    assert_eq!(s.proximo(0), 0);
}

#[test]
fn demo_nunca_poe_veiculo_ou_condutor_em_duas_abertas() {
    let agora = analisar("2026-09-20 12:00").expect("data válida");
    let plano = plano_demo(&agora);
    let abertas: Vec<(i64, i64)> = plano
        .viagens
        .iter()
        .filter(|v| v.chegada.is_none())
        .map(|v| (v.veiculo_id, v.motorista_id))
        .collect();
    assert_eq!(abertas, vec![(1, 1), (2, 3), (3, 4), (5, 6)]);
    assert_eq!(plano.veiculos.len(), 8);
    assert_eq!(plano.veiculos[0].hodometro_atual, 40_000 + 6 * 12_000);
}

#[test]
fn a_demo_tem_cento_e_trinta_e_duas_viagens_com_quatro_abertas_no_fim() {
    let agora = analisar("2026-09-20 12:00").expect("data válida");
    let plano = plano_demo(&agora);
    assert_eq!(plano.viagens.len(), 132);
    assert!(plano.viagens[..128].iter().all(|v| v.chegada.is_some()));
    let abertas: Vec<(i64, i64)> =
        plano.viagens[128..].iter().map(|v| (v.veiculo_id, v.motorista_id)).collect();
    assert_eq!(abertas, vec![(1, 1), (2, 3), (3, 4), (5, 6)]);
    assert_eq!(formatar(&plano.viagens[130].saida), "2026-09-19 10:00");
}

#[test]
fn backup_de_exatas_48_horas_sai_da_faixa_quando_o_relogio_tem_fracao() {
    let agora = analisar("2026-09-20 12:00").expect("data válida");
    let arquivos = vec![
        analisar("2026-09-18 11:00").expect("data válida"),
        analisar("2026-09-18 12:00").expect("data válida"),
    ];
    let redondo = selecionar_para_manter(&arquivos, &Momento { datahora: agora, nanos: 0 });
    assert_eq!(redondo, vec![true, true], "o de 48 h cravadas ainda está nas últimas 48 h");
    let com_fracao = selecionar_para_manter(&arquivos, &Momento { datahora: agora, nanos: 500_000_000 });
    assert_eq!(com_fracao, vec![false, true], "passou de 48 h: fica só o último do dia");
}
