use controle_veiculos::datahora::{
    analisar, analisar_carimbo, analisar_data, dias_atras, formatar, formatar_carimbo,
    formatar_data, formatar_hora, formatar_para_arquivo, instante_exec, minutos_entre,
    no_futuro_alem_de, primeiro_do_mes, proximo_dia, Data, DataHora,
};
use controle_veiculos::duracao::{
    centesimos_de_hora, formatar_duracao, longa, LIMIAR_ALERTA_ABERTA_CENTESIMOS,
};

fn dt(t: &str) -> DataHora {
    analisar(t).expect("data válida")
}

/// Centésimos de hora entre as duas datas-horas.
fn horas(saida: &str, chegada: &str) -> i64 {
    let s = dt(saida);
    let c = dt(chegada);
    centesimos_de_hora(instante_exec(&c) - instante_exec(&s))
}

fn minutos(saida: &str, chegada: &str) -> i64 {
    minutos_entre(&dt(saida), &dt(chegada))
}

#[test]
fn analisa_e_formata_de_volta() {
    let d = analisar("2026-09-19 22:40").expect("formato válido");
    assert_eq!(formatar(&d), "2026-09-19 22:40");
}

#[test]
fn recusa_formato_com_segundos() {
    assert!(analisar("2026-09-19 22:40:15").is_err());
}

#[test]
fn recusa_iso_com_t() {
    assert!(analisar("2026-09-19T22:40").is_err());
}

#[test]
fn recusa_epoch() {
    assert!(analisar("1758320400").is_err());
}

#[test]
fn virada_de_meia_noite_da_seis_horas_e_cinquenta_minutos() {
    let h = horas("2026-09-19 22:40", "2026-09-20 05:30");
    assert_eq!(h, 683);
    assert!(!longa(h));
    assert_eq!(formatar_duracao(h), "6h50");
}

#[test]
fn oito_da_manha_ate_sete_do_dia_seguinte_e_longa() {
    let h = horas("2026-09-19 08:00", "2026-09-20 07:00");
    assert_eq!(h, 2300);
    assert!(longa(h));
    assert_eq!(formatar_duracao(h), "23h00");
}

#[test]
fn turno_de_monitor_de_doze_horas_nao_alerta() {
    let h = horas("2026-09-19 06:00", "2026-09-19 18:00");
    assert_eq!(h, 1200);
    assert!(!longa(h));
}

#[test]
fn catorze_horas_cravadas_nao_alertam_e_quatorze_e_um_minuto_alerta() {
    assert!(!longa(horas("2026-09-19 06:00", "2026-09-19 20:00")));
    assert!(longa(horas("2026-09-19 06:00", "2026-09-19 20:01")));
}

#[test]
fn formata_dezesseis_horas_e_vinte() {
    assert_eq!(formatar_duracao(1633), "16h20");
}

// ------------------------------------------------------------- próprios ---

#[test]
fn analisar_apara_as_pontas_e_recusa_com_a_mensagem_do_formato() {
    assert_eq!(formatar(&dt("  2026-09-19 08:05 ")), "2026-09-19 08:05");
    let e = analisar("19/09/2026").expect_err("recusa");
    assert_eq!(e.codigo, "VALIDACAO");
    assert_eq!(
        e.mensagem,
        "Data-hora inválida: \"19/09/2026\". Use o formato AAAA-MM-DD HH:MM."
    );
    assert_eq!(e.detalhe, None);
}

#[test]
fn analisar_recusa_data_que_nao_existe() {
    assert!(analisar("2026-02-30 08:00").is_err());
    assert!(analisar("2025-02-29 08:00").is_err());
    assert!(analisar("2024-02-29 08:00").is_ok());
}

#[test]
fn formatos_de_data_arquivo_carimbo_e_hora() {
    let d = DataHora { ano: 2026, mes: 9, dia: 5, hora: 7, minuto: 3, segundo: 9 };
    assert_eq!(formatar_para_arquivo(&d), "2026-09-05_0703");
    assert_eq!(formatar_carimbo(&d), "2026-09-05T07:03:09");
    assert_eq!(formatar_hora(&d), "07:03");
    assert_eq!(formatar_data(&Data { ano: 2026, mes: 9, dia: 5 }), "2026-09-05");
    assert_eq!(analisar_carimbo("2026-09-05T07:03:09"), Some(d));
    assert_eq!(analisar_carimbo("ontem de tarde"), None);
}

#[test]
fn analisar_data_le_so_o_dia() {
    assert_eq!(analisar_data("2026-09-01").expect("ok"), Data { ano: 2026, mes: 9, dia: 1 });
    let e = analisar_data("01/09/2026").expect_err("recusa");
    assert_eq!(e.mensagem, "Data inválida: \"01/09/2026\". Use AAAA-MM-DD.");
}

#[test]
fn dias_e_minutos_truncam_em_direcao_a_zero() {
    assert_eq!(minutos("2026-09-19 08:00", "2026-09-19 07:00"), -60);
    assert_eq!(dias_atras(&dt("2026-09-10 12:00"), &dt("2026-09-19 11:00")), 8);
    assert_eq!(dias_atras(&dt("2026-09-19 12:00"), &dt("2026-09-10 13:00")), -8);
}

#[test]
fn futuro_so_alem_da_folga() {
    let agora = dt("2026-09-19 12:00");
    assert!(!no_futuro_alem_de(&dt("2026-09-19 12:05"), 5, &agora));
    assert!(no_futuro_alem_de(&dt("2026-09-19 12:06"), 5, &agora));
}

#[test]
fn proximo_dia_vira_mes_ano_e_bissexto() {
    assert_eq!(proximo_dia(&Data { ano: 2026, mes: 9, dia: 30 }), Some(Data { ano: 2026, mes: 10, dia: 1 }));
    assert_eq!(proximo_dia(&Data { ano: 2026, mes: 12, dia: 31 }), Some(Data { ano: 2027, mes: 1, dia: 1 }));
    assert_eq!(proximo_dia(&Data { ano: 2024, mes: 2, dia: 28 }), Some(Data { ano: 2024, mes: 2, dia: 29 }));
    assert_eq!(proximo_dia(&Data { ano: 2026, mes: 2, dia: 28 }), Some(Data { ano: 2026, mes: 3, dia: 1 }));
    assert_eq!(proximo_dia(&Data { ano: 262142, mes: 12, dia: 31 }), None);
    assert_eq!(primeiro_do_mes(&Data { ano: 2026, mes: 9, dia: 19 }), Data { ano: 2026, mes: 9, dia: 1 });
}

#[test]
fn centesimos_arredondam_a_metade_para_longe_do_zero() {
    assert_eq!(centesimos_de_hora(18), 1);
    assert_eq!(centesimos_de_hora(17), 0);
    assert_eq!(centesimos_de_hora(-18), -1);
    assert_eq!(centesimos_de_hora(24 * 3600), LIMIAR_ALERTA_ABERTA_CENTESIMOS);
}
