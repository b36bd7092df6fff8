use controle_veiculos::cadastro::{
    decidir_atualizacao_motorista, decidir_criacao_motorista, decidir_criacao_veiculo,
    decidir_fusao_motoristas, decidir_fusao_veiculos, decidir_inativacao_motorista,
    decidir_inativacao_veiculo, disponibilidade, padrao_busca_motoristas, padrao_busca_veiculos,
    possiveis_duplicatas_motoristas, possiveis_duplicatas_veiculos, PedidoMotorista, PedidoVeiculo,
};
use controle_veiculos::erro::{traduzir_falha, FalhaBanco};
use controle_veiculos::modelo::{Motorista, Veiculo};
use controle_veiculos::nome::{frota_norm, nome_norm};

fn motorista(id: i64, nome: &str) -> Motorista {
    Motorista {
        id,
        nome: nome.to_string(),
        nome_norm: nome_norm(nome),
        matricula: None,
        setor: None,
        ativo: true,
        criado_em: "2026-09-01 08:00".to_string(),
    }
}

fn veiculo(id: i64, frota: &str) -> Veiculo {
    Veiculo {
        id,
        frota: frota_norm(frota),
        placa: None,
        modelo: None,
        marca: None,
        ano: None,
        tipo: None,
        hodometro_atual: None,
        ativo: true,
        observacao: None,
        criado_em: "2026-09-01 08:00".to_string(),
    }
}

fn base() -> Vec<Motorista> {
    vec![motorista(1, "Angelo Junior"), motorista(2, "Anjelo Junior")]
}

#[test]
fn fundir_com_viagem_aberta_e_recusado() {
    let erro = decidir_fusao_motoristas(1, 2, true, true, false, true).expect_err("deve recusar");
    assert_eq!(erro.codigo, "VALIDACAO");
}

#[test]
fn nome_repetido_apos_normalizar_e_recusado_pelo_unique() {
    assert_eq!(nome_norm("ANGELO  JUNIOR"), nome_norm("Angelo Junior"));
    let erro = traduzir_falha(
        FalhaBanco::Restricao,
        Some("UNIQUE constraint failed: motoristas.nome_norm".to_string()),
        "UNIQUE constraint failed: motoristas.nome_norm".to_string(),
    );
    assert_eq!(erro.codigo, "DUPLICADO");
}

#[test]
fn possiveis_duplicatas_encontra_o_par_parecido() {
    let todos = base();
    let pares = possiveis_duplicatas_motoristas(&todos);
    assert_eq!(pares.len(), 1);
    assert_eq!(pares[0].a.nome, "Angelo Junior");
    assert_eq!(pares[0].b.nome, "Anjelo Junior");
    assert_eq!(pares[0].distancia, 1);
}

// ------------------------------------------------------------- próprios ---

#[test]
fn duplicatas_listam_cada_par_uma_vez_em_ordem() {
    let todos = vec![
        motorista(1, "Ana Lima"),
        motorista(2, "Ana Lina"),
        motorista(3, "Paulo Rocha"),
        motorista(4, "Ana Lisa"),
    ];
    let pares = possiveis_duplicatas_motoristas(&todos);
    let ids: Vec<(i64, i64, u32)> = pares.iter().map(|p| (p.a.id, p.b.id, p.distancia)).collect();
    assert_eq!(ids, vec![(1, 2, 1), (1, 4, 1), (2, 4, 1)]);

    let frotas = vec![veiculo(1, "907015"), veiculo(2, "907018"), veiculo(3, "907099")];
    let pares = possiveis_duplicatas_veiculos(&frotas);
    assert_eq!(pares.len(), 1);
    assert_eq!((pares[0].a.id, pares[0].b.id), (1, 2));
}

#[test]
fn cadastro_sem_confirmacao_devolve_semelhante_sem_gravar() {
    let pedido = PedidoMotorista {
        nome: "  Angelo  Junio ".to_string(),
        matricula: Some(" 40122 ".to_string()),
        setor: Some("".to_string()),
    };
    let erro = decidir_criacao_motorista(&pedido, false, &base()).expect_err("parecido");
    assert_eq!(erro.codigo, "SEMELHANTE");
    assert_eq!(erro.mensagem, "Já existe Angelo Junior, Anjelo Junior. É a mesma pessoa?");
    assert_eq!(erro.detalhe.as_deref(), Some("IDS:1,2"));

    let campos = decidir_criacao_motorista(&pedido, true, &base()).expect("confirmado");
    assert_eq!(campos.nome, "Angelo  Junio");
    assert_eq!(campos.nome_norm, "ANGELO JUNIO");
    assert_eq!(campos.matricula.as_deref(), Some("40122"));
    assert_eq!(campos.setor, None);
}

#[test]
fn cadastro_de_nome_curto_e_recusado_antes_de_procurar_parecido() {
    let pedido = PedidoMotorista { nome: "Jo".to_string(), matricula: None, setor: None };
    let erro = decidir_criacao_motorista(&pedido, false, &base()).expect_err("curto");
    assert_eq!(erro.detalhe.as_deref(), Some("CAMPO:nome"));
}

#[test]
fn veiculo_parecido_e_placa_em_maiusculas() {
    let cadastrados = vec![veiculo(7, "907018")];
    let pedido = PedidoVeiculo {
        frota: "907 218".to_string(),
        placa: Some(" abc1d23 ".to_string()),
        modelo: Some("Strada".to_string()),
        marca: None,
        ano: Some(2022),
        tipo: Some(" ".to_string()),
        hodometro_atual: Some(1_000),
        observacao: None,
    };
    let erro = decidir_criacao_veiculo(&pedido, false, &cadastrados).expect_err("parecida");
    assert_eq!(erro.mensagem, "Já existe a frota 907018. É o mesmo veículo?");
    assert_eq!(erro.detalhe.as_deref(), Some("IDS:7"));
    let campos = decidir_criacao_veiculo(&pedido, true, &cadastrados).expect("confirmado");
    assert_eq!(campos.frota, "907218");
    assert_eq!(campos.placa.as_deref(), Some("ABC1D23"));
    assert_eq!(campos.tipo, None);

    let invalida = PedidoVeiculo { frota: "AB-1".to_string(), ..pedido };
    let erro = decidir_criacao_veiculo(&invalida, true, &cadastrados).expect_err("inválida");
    assert_eq!(erro.detalhe.as_deref(), Some("CAMPO:frota"));
}

#[test]
fn atualizar_inativar_e_fundir_conferem_existencia_e_viagem() {
    let pedido = PedidoMotorista { nome: "Maria Lima".to_string(), matricula: None, setor: None };
    let erro = decidir_atualizacao_motorista(&pedido, false).expect_err("não existe");
    assert_eq!(erro.mensagem, "Condutor não encontrado.");
    assert!(decidir_atualizacao_motorista(&pedido, true).is_ok());

    let erro = decidir_inativacao_motorista(true, true).expect_err("em viagem");
    assert_eq!(erro.mensagem, "Este condutor está em viagem. Encerre a viagem antes de inativar.");
    let erro = decidir_inativacao_veiculo(true, true).expect_err("em viagem");
    assert_eq!(erro.mensagem, "Este veículo está em viagem. Encerre a viagem antes de inativar.");
    assert!(decidir_inativacao_veiculo(true, false).is_ok());

    let erro = decidir_fusao_veiculos(1, 2, true, false, false, false).expect_err("sem o removido");
    assert_eq!(erro.mensagem, "Veículo não encontrado.");
    assert!(decidir_fusao_veiculos(1, 2, true, true, false, false).is_ok());
}

#[test]
fn busca_usa_o_termo_normalizado() {
    assert_eq!(padrao_busca_motoristas(" josé "), Some("%JOSE%".to_string()));
    assert_eq!(padrao_busca_motoristas("   "), None);
    assert_eq!(padrao_busca_veiculos("907 0"), Some("%9070%".to_string()));
}

#[test]
fn veiculo_com_viagem_aberta_aparece_ocupado() {
    let d = disponibilidade(
        veiculo(1, "907015"),
        Some("Angelo Junior".to_string()),
        Some("2026-09-20 07:40".to_string()),
        None,
    );
    assert!(!d.disponivel);
    let livre = disponibilidade(veiculo(2, "907018"), None, None, None);
    assert!(livre.disponivel);
}
