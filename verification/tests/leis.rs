use controle_veiculos::relatorio::periodo;
use controle_veiculos::datahora::Data;
use controle_veiculos::modelo::FiltroSaidas;
use controle_veiculos::regras::hodometro_apos_encerramento;
use controle_veiculos::sonda::{avaliar_checagem, caminho_do_journal, carimbo_de, escolher_modo, ModoSonda};
use controle_veiculos::registro::linha_de_log;
use controle_veiculos::auditoria::{Evento, ABRIR_SAIDA};

#[test]
fn hodometro_guardado_nunca_retrocede() {
    assert_eq!(hodometro_apos_encerramento(Some(45_300), Some(45_100)), Some(45_300));
    assert_eq!(hodometro_apos_encerramento(Some(45_000), Some(45_300)), Some(45_300));
    assert_eq!(hodometro_apos_encerramento(None, Some(10)), Some(10));
    assert_eq!(hodometro_apos_encerramento(Some(7), None), Some(7));
}

#[test]
fn periodo_padrao_inclui_hoje() {
    let (de, ate) = periodo(&FiltroSaidas::default(), &Data { ano: 2026, mes: 12, dia: 31 }).expect("ok");
    assert_eq!((de.as_str(), ate.as_str()), ("2026-12-01", "2027-01-01"));
}

#[test]
fn sonda_aprova_so_integro_e_sem_buraco() {
    let v = avaliar_checagem("ok", 120, 120);
    assert!(v.integro && v.sem_buraco);
    let v = avaliar_checagem("ok", 118, 120);
    assert!(!v.sem_buraco);
    assert_eq!(v.faltando, 2);
    assert!(!avaliar_checagem("malformed", 1, 1).integro);
    assert_eq!(caminho_do_journal("x/sonda.db"), "x/sonda.db-journal");
    assert_eq!(carimbo_de(1758320400), "epoch:1758320400");
    assert_eq!(escolher_modo("checar"), Some(ModoSonda::Checar));
    assert_eq!(escolher_modo("outro"), None);
}

#[test]
fn linha_de_log_e_evento_de_auditoria() {
    assert_eq!(linha_de_log("2026-09-20 08:00:00", "INFO", "abrindo"), "2026-09-20 08:00:00 [INFO] abrindo\n");
    let e = Evento::novo("saidas", ABRIR_SAIDA).id(7).depois(Some("{\"veiculo_id\":1}".to_string()));
    assert_eq!(e.entidade, "saidas");
    assert_eq!(e.acao, "ABRIR_SAIDA");
    assert_eq!(e.entidade_id, Some(7));
    assert_eq!(e.antes, None);
    assert_eq!(e.depois.as_deref(), Some("{\"veiculo_id\":1}"));
}
