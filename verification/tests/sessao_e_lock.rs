use controle_veiculos::config::{
    config_demo, config_desenvolvimento, config_lida, modo_padrao, Config, ConfigArquivo, Modo,
};
use controle_veiculos::datahora::{analisar, formatar_carimbo, DataHora};
use controle_veiculos::erro::ErroApp;
use controle_veiculos::identidade::{maquina_de, usuario_de};
use controle_veiculos::lock::{caminho_info, erro_em_uso, lock_e_confiavel, InfoLock};
use controle_veiculos::sessao::{
    apos_heartbeat, autorizar_tomada_de_posse, backup_antes_de_migrar, bloqueio_de,
    exigir_conexao_normal, primeiro_passo, proxima_acao, ultimo_backup_de, Acao, Conexao,
    Desfecho, Passo,
};

fn agora() -> DataHora {
    DataHora { ano: 2026, mes: 9, dia: 20, hora: 8, minuto: 30, segundo: 15 }
}

fn nova() -> InfoLock {
    InfoLock::nova("DOMINIO\\a.lopes".to_string(), "LOG-PC07".to_string(), 4242, &agora())
}

#[test]
fn tomada_de_posse_so_e_oferecida_com_heartbeat_parado() {
    let recente = nova();
    assert!(!recente.pode_tomar_posse(&agora()));

    let mut antigo = nova();
    let onze_minutos_antes = DataHora { minuto: 19, ..agora() };
    antigo.heartbeat = formatar_carimbo(&onze_minutos_antes);
    assert!(antigo.pode_tomar_posse(&agora()));

    let mut ilegivel = nova();
    ilegivel.heartbeat = "ontem de tarde".to_string();
    assert!(
        !ilegivel.pode_tomar_posse(&agora()),
        "carimbo ilegível não autoriza tomada de posse"
    );
}

// ------------------------------------------------------------- próprios ---

#[test]
fn dez_minutos_cravados_ainda_nao_autorizam() {
    let mut info = nova();
    info.heartbeat = formatar_carimbo(&DataHora { minuto: 20, ..agora() });
    assert_eq!(info.minutos_desde_heartbeat(&agora()), Some(10));
    assert!(!info.pode_tomar_posse(&agora()));
}

#[test]
fn recusa_de_lock_diz_quem_onde_e_desde_quando() {
    let info = nova();
    assert_eq!(info.inicio, "2026-09-20T08:30:15");
    assert_eq!(info.hora_de_inicio(), "08:30");
    let e = erro_em_uso(&Some(info));
    assert_eq!(e.codigo, "VALIDACAO");
    assert_eq!(e.mensagem, "O sistema já está aberto em outra máquina.");
    assert_eq!(e.detalhe.as_deref(), Some("EM_USO:DOMINIO\\a.lopes · LOG-PC07 · desde 08:30"));
    let e = erro_em_uso(&None);
    assert_eq!(
        e.detalhe.as_deref(),
        Some("EM_USO:não foi possível identificar quem está usando")
    );
    let mut torto = nova();
    torto.inicio = "cedo".to_string();
    assert_eq!(torto.hora_de_inicio(), "cedo");
}

#[test]
fn info_do_lock_fica_ao_lado_e_so_windows_e_confiavel() {
    assert_eq!(caminho_info("dados/controle.lock"), "dados/controle.lock.info");
    assert!(lock_e_confiavel("windows"));
    assert!(!lock_e_confiavel("linux"));
}

#[test]
fn tomada_de_posse_exige_confirmar_e_batida_parada() {
    let ativa = nova();
    let e = autorizar_tomada_de_posse("confirmar", &None, &agora()).expect_err("caixa errada");
    assert_eq!(e.mensagem, "Digite CONFIRMAR para assumir a sessão.");
    let e = autorizar_tomada_de_posse(" CONFIRMAR ", &Some(ativa), &agora()).expect_err("ativa");
    assert_eq!(e.mensagem, "A outra sessão ainda está ativa. Procure a pessoa antes de assumir.");
    assert!(autorizar_tomada_de_posse("CONFIRMAR", &None, &agora()).is_ok());
    let mut parada = nova();
    parada.heartbeat = "2026-09-20T08:00:00".to_string();
    assert!(autorizar_tomada_de_posse("CONFIRMAR", &Some(parada), &agora()).is_ok());
}

#[test]
fn tela_de_bloqueio_mostra_o_que_o_info_diz() {
    let mut info = nova();
    info.heartbeat = "2026-09-20T08:00:00".to_string();
    let b = bloqueio_de(&info, &agora());
    assert_eq!(b.desde, "08:30");
    assert_eq!(b.minutos_sem_heartbeat, Some(30));
    assert!(b.pode_tomar_posse);
}

#[test]
fn conexao_degradada_recusa_escrita() {
    assert!(exigir_conexao_normal(Conexao::Normal).is_ok());
    let e = exigir_conexao_normal(Conexao::Degradada).expect_err("degradada");
    assert_eq!(e.codigo, "SESSAO_PERDIDA");
}

#[test]
fn tres_falhas_seguidas_denunciam_e_uma_batida_boa_zera() {
    let (f, alerta) = apos_heartbeat(0, false);
    assert_eq!((f, alerta), (1, false));
    let (f, alerta) = apos_heartbeat(f, false);
    assert_eq!((f, alerta), (2, false));
    let (f, alerta) = apos_heartbeat(f, false);
    assert_eq!((f, alerta), (3, true));
    assert_eq!(apos_heartbeat(f, true), (0, false));
}

fn passos(modo: Modo) -> Vec<Passo> {
    let mut feitos = vec![];
    let mut passo = primeiro_passo();
    loop {
        feitos.push(passo);
        match proxima_acao(passo, modo, Desfecho::Concluido, "dados/controle.db") {
            Acao::Executar(p) => passo = p,
            Acao::Pronta => return feitos,
            Acao::Desistir { .. } => panic!("nada falhou"),
        }
    }
}

#[test]
fn abertura_da_sessao_segue_o_roteiro_com_o_lock_primeiro() {
    assert_eq!(
        passos(Modo::Producao),
        vec![Passo::AdquirirLock, Passo::AbrirConexao, Passo::ChecarIntegridade, Passo::AplicarMigracoes]
    );
    assert_eq!(
        passos(Modo::Demonstracao),
        vec![
            Passo::AdquirirLock,
            Passo::PrepararDemonstracao,
            Passo::AbrirConexao,
            Passo::ChecarIntegridade,
            Passo::AplicarMigracoes,
            Passo::PopularDemonstracao
        ]
    );
}

#[test]
fn falha_depois_do_lock_libera_o_lock() {
    let erro = ErroApp::banco("falhou".to_string());
    match proxima_acao(Passo::AdquirirLock, Modo::Producao, Desfecho::Falhou(erro), "x") {
        Acao::Desistir { liberar_lock, erro } => {
            assert!(!liberar_lock, "o lock não foi obtido");
            assert_eq!(erro.mensagem, "falhou");
        }
        _ => panic!("devia desistir"),
    }
    match proxima_acao(Passo::ChecarIntegridade, Modo::Producao, Desfecho::BancoCorrompido, "dados/controle.db") {
        Acao::Desistir { liberar_lock, erro } => {
            assert!(liberar_lock);
            assert_eq!(erro.codigo, "BANCO");
            assert_eq!(erro.detalhe.as_deref(), Some("ARQUIVO:dados/controle.db"));
        }
        _ => panic!("devia desistir"),
    }
    assert!(!backup_antes_de_migrar(0));
    assert!(backup_antes_de_migrar(1));
}

#[test]
fn ultimo_backup_vazio_e_nenhum() {
    assert_eq!(ultimo_backup_de(Some(String::new())), None);
    assert_eq!(ultimo_backup_de(Some("2026-09-20 08:00".to_string())), Some("2026-09-20 08:00".to_string()));
    assert_eq!(ultimo_backup_de(None), None);
}

#[test]
fn configuracao_de_desenvolvimento_demo_e_arquivo() {
    assert_eq!(modo_padrao(), Modo::Producao);
    let c = config_desenvolvimento("/opt/app/config.toml");
    assert_eq!(c.raiz, "dados-dev");
    assert_eq!(c.origem, "padrão de desenvolvimento (nenhum /opt/app/config.toml)");
    assert!(!c.demonstracao());
    assert!(c.banco().ends_with("controle.db"));
    assert!(c.banco().starts_with("dados-dev"));
    assert!(c.lock().ends_with("controle.lock"));

    let d = config_demo("/opt/app", "feature demo (compilada)".to_string());
    assert!(d.demonstracao());
    assert!(d.raiz.ends_with("dados-demo"));

    let lida = config_lida(
        "/opt/app",
        "/opt/app/config.toml",
        ConfigArquivo { caminho_dados: "/mnt/rede/logistica".to_string(), modo: Modo::Producao },
    );
    assert_eq!(lida.raiz, "/mnt/rede/logistica");
    assert_eq!(lida.origem, "/opt/app/config.toml");
    let _: &Config = &lida;
}

#[test]
fn identidade_do_operador_e_da_maquina() {
    assert_eq!(usuario_de(&Some("USINA".to_string()), &Some("a.lopes".to_string())), "USINA\\a.lopes");
    assert_eq!(usuario_de(&Some(String::new()), &Some("a.lopes".to_string())), "a.lopes");
    assert_eq!(usuario_de(&None, &None), "desconhecido");
    assert_eq!(maquina_de(&None, &Some(String::new()), &Some(" estacao7\n".to_string())), "estacao7");
    assert_eq!(maquina_de(&Some("LOG-PC07".to_string()), &None, &None), "LOG-PC07");
    assert_eq!(maquina_de(&None, &None, &None), "desconhecida");
}

#[test]
fn analisar_entende_o_relogio_dos_testes() {
    assert!(analisar("2026-09-20 08:30").is_ok());
}

#[test]
fn lock_e_banco_ficam_na_mesma_pasta_de_dados() {
    let c = config_desenvolvimento("config.toml");
    let sep = std::path::MAIN_SEPARATOR;
    assert_eq!(c.banco(), format!("dados-dev{sep}dados{sep}controle.db"));
    assert_eq!(c.lock(), format!("dados-dev{sep}dados{sep}controle.lock"));
}

#[test]
fn raiz_com_unidade_ainda_recebe_a_pasta_de_dados() {
    let mut c = config_desenvolvimento("config.toml");
    c.raiz = "C:\\Frota".to_string();
    let sep = std::path::MAIN_SEPARATOR;
    assert_eq!(c.lock(), format!("C:\\Frota{sep}dados{sep}controle.lock"));
    assert_eq!(c.banco(), format!("C:\\Frota{sep}dados{sep}controle.db"));
}
