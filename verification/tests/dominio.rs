use controle_veiculos::nome::{frota_norm, nome_norm};
use controle_veiculos::semelhanca::{distancia, frotas_semelhantes, nomes_semelhantes};
use controle_veiculos::validacao::{
    validar_exclusao, validar_frota, validar_fusao, validar_nome, validar_turno,
};

#[test]
fn jose_carlos_colide_com_jose_carlos() {
    assert_eq!(nome_norm("José  Carlos "), nome_norm("JOSE CARLOS"));
    assert_eq!(nome_norm("José  Carlos "), "JOSE CARLOS");
}

#[test]
fn cedilha_e_til_somem() {
    assert_eq!(nome_norm("Conceição Assunção"), "CONCEICAO ASSUNCAO");
}

#[test]
fn frota_perde_espaco_interno() {
    assert_eq!(frota_norm("907 015"), "907015");
    assert_eq!(frota_norm(" ab 1234 "), "AB1234");
}

#[test]
fn nome_vazio_normaliza_para_vazio() {
    assert_eq!(nome_norm("   "), "");
}

#[test]
fn angelo_junior_alerta_contra_anjelo_junior() {
    let a = nome_norm("ANGELO JUNIOR");
    let b = nome_norm("ANJELO JUNIOR");
    assert!(nomes_semelhantes(&a, &b));
}

#[test]
fn nome_identico_nao_e_semelhante_e_sim_duplicata() {
    let a = nome_norm("José Carlos");
    let b = nome_norm("JOSE  CARLOS");
    assert!(!nomes_semelhantes(&a, &b));
}

#[test]
fn nomes_distintos_nao_alertam() {
    let a = nome_norm("ANGELO JUNIOR");
    let b = nome_norm("MARIA DAS GRACAS");
    assert!(!nomes_semelhantes(&a, &b));
}

#[test]
fn frota_907218_alerta_contra_907018() {
    let a = frota_norm("907218");
    let b = frota_norm("907018");
    assert!(frotas_semelhantes(&a, &b));
}

#[test]
fn frota_com_dois_digitos_de_diferenca_nao_alerta() {
    assert!(!frotas_semelhantes(&frota_norm("907218"), &frota_norm("907011")));
}

#[test]
fn frota_curta_e_frota_com_simbolo_sao_recusadas() {
    assert!(validar_frota(&frota_norm("907")).is_err());
    assert!(validar_frota(&frota_norm("907015123")).is_err());
    assert!(validar_frota(&frota_norm("AB-1234")).is_err());
    assert!(validar_frota(&frota_norm("907015")).is_ok());
}

#[test]
fn nome_com_duas_letras_e_recusado() {
    assert!(validar_nome("Jo").is_err());
    assert!(validar_nome("Ana").is_ok());
}

#[test]
fn motivo_de_exclusao_vazio_ou_curto_e_recusado() {
    assert!(validar_exclusao(false, "").is_err());
    assert!(validar_exclusao(false, "  x ").is_err());
    assert!(validar_exclusao(false, "erro de digitação").is_ok());
}

#[test]
fn fusao_do_mesmo_id_ou_com_viagem_aberta_e_recusada() {
    assert!(validar_fusao(1, 1, false, false).is_err());
    assert!(validar_fusao(1, 2, true, false).is_err());
    assert!(validar_fusao(1, 2, false, true).is_err());
    assert!(validar_fusao(1, 2, false, false).is_ok());
}

#[test]
fn turno_fora_de_abc_e_recusado() {
    assert!(validar_turno("D").is_err());
    assert!(validar_turno("A").is_ok());
}

// ------------------------------------------------------------- próprios ---

#[test]
fn distancia_conta_edicoes_de_char_e_nao_de_byte() {
    assert_eq!(distancia("ANGELO", "ANJELO"), 1);
    assert_eq!(distancia("ção", "cao"), 2);
    assert_eq!(distancia("", "abc"), 3);
}

#[test]
fn semelhanca_e_simetrica_em_valores_concretos() {
    let a = nome_norm("Angelo Junior");
    let b = nome_norm("Anjelo Junior");
    assert_eq!(nomes_semelhantes(&a, &b), nomes_semelhantes(&b, &a));
    assert!(!nomes_semelhantes(&a, &a));
}

#[test]
fn normalizar_duas_vezes_nao_muda_nada() {
    let uma = nome_norm("  maria   das  graças ");
    assert_eq!(nome_norm(&uma), uma);
    assert!(!uma.contains("  "));
    assert!(!uma.starts_with(' ') && !uma.ends_with(' '));
}

#[test]
fn frota_normalizada_nao_tem_espaco() {
    assert!(!frota_norm(" 9 0 7 0 1 5 ").contains(' '));
}

#[test]
fn erros_de_validacao_trazem_o_campo() {
    let e = validar_turno("D").expect_err("recusa");
    assert_eq!(e.codigo, "VALIDACAO");
    assert_eq!(e.mensagem, "Turno deve ser A, B ou C.");
    assert_eq!(e.detalhe.as_deref(), Some("CAMPO:turno"));
    let e = validar_nome("Jo").expect_err("recusa");
    assert_eq!(e.detalhe.as_deref(), Some("CAMPO:nome"));
    let e = validar_exclusao(true, "motivo bom").expect_err("recusa");
    assert_eq!(e.mensagem, "Esta viagem já foi excluída.");
    assert_eq!(e.detalhe, None);
    let e = validar_fusao(3, 3, false, false).expect_err("recusa");
    assert_eq!(e.mensagem, "Selecione dois cadastros diferentes para fundir.");
}
