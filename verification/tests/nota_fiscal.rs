use finledger::erro::DomainError;
use finledger::fiscal::nota_fiscal::NotaFiscal;
use finledger::fiscal::tributacao::imposto::ImpostoItem;
use finledger::fiscal::value_objects::{ItemNF, ModeloNF, StatusNFe, TotaisNF};

fn novo_id() -> u128 {
    uuid::Uuid::new_v4().as_u128()
}

fn novo_item(ncm: &str, cfop: &str, quantidade: u32, valor_unitario_centavos: i64) -> Result<ItemNF, DomainError> {
    ItemNF::novo(
        novo_id(),
        "SKU-001".into(),
        "Produto".into(),
        ncm.into(),
        cfop.into(),
        quantidade,
        valor_unitario_centavos,
        ImpostoItem::default(),
    )
}

#[test]
fn item_quantidade_zero_rejeitado() {
    assert!(matches!(novo_item("84716053", "5102", 0, 1000), Err(DomainError::Validation(_))));
}

#[test]
fn item_valor_negativo_rejeitado() {
    assert!(matches!(novo_item("84716053", "5102", 1, -1), Err(DomainError::Validation(_))));
}

#[test]
fn item_cfop_vazio_rejeitado() {
    assert!(matches!(novo_item("84716053", "   ", 1, 1000), Err(DomainError::Validation(_))));
}

#[test]
fn item_ncm_malformado_rejeitado() {
    assert!(matches!(novo_item("123", "5102", 1, 1000), Err(DomainError::Validation(_))));
}

#[test]
fn item_valido_calcula_total() {
    let item = novo_item("84716053", "5102", 3, 2500).expect("item válido");
    assert_eq!(item.total_centavos(), 7500);
    assert_eq!(item.ncm(), "84716053");
}

#[test]
fn item_ncm_com_pontuacao_guarda_so_os_digitos() {
    let item = novo_item("8471.60.53", "5102", 1, 100).expect("item válido");
    assert_eq!(item.ncm(), "84716053");
    assert_eq!(item.cfop(), "5102");
    match novo_item("123", "5102", 1, 1000) {
        Err(e) => assert_eq!(e.mensagem(), "NCM deve ter exatamente 8 dígitos"),
        Ok(_) => panic!("NCM inválido"),
    }
}

#[test]
fn totais_de_nf_sem_itens_sao_zero() {
    let totais = TotaisNF::calcular(&[]);
    assert_eq!(totais.produtos_centavos, 0);
    assert_eq!(totais.total_centavos, 0);
    assert_eq!(totais.cbs_centavos, 0);
}

#[test]
fn totais_somam_itens_e_descontam() {
    let a = novo_item("84716053", "5102", 2, 5000).expect("a");
    let b = novo_item("84716053", "5102", 1, 2500).expect("b");
    let t = TotaisNF::calcular_com_desconto(&[a, b], 500);
    assert_eq!(t.produtos_centavos, 12_500);
    assert_eq!(t.desconto_centavos, 500);
    assert_eq!(t.total_centavos, 12_000);
}

fn item_nf() -> ItemNF {
    ItemNF::novo(
        novo_id(),
        "SKU-001".into(),
        "Mouse sem fio".into(),
        "84716053".into(),
        ModeloNF::NFCe.cfop_padrao().into(),
        2,
        5000,
        ImpostoItem::calcular_legado_simples(10_000),
    )
    .expect("item válido")
}

fn nf_gerada() -> NotaFiscal {
    NotaFiscal::gerar(novo_id(), None, ModeloNF::NFCe, "001".into(), 1, vec![item_nf()], 0, false)
        .expect("deve gerar NF válida")
}

#[test]
fn gerar_sem_itens_retorna_erro() {
    let err = NotaFiscal::gerar(novo_id(), None, ModeloNF::NFCe, "001".into(), 1, vec![], 0, false);
    assert!(matches!(err, Err(DomainError::Validation(_))));
}

#[test]
fn gerar_com_desconto_destaca_e_reduz_o_total() {
    let nf = NotaFiscal::gerar(novo_id(), None, ModeloNF::NFCe, "001".into(), 1, vec![item_nf()], 1_500, false)
        .expect("NF com desconto");
    assert_eq!(nf.totais.produtos_centavos, 10_000);
    assert_eq!(nf.totais.desconto_centavos, 1_500);
    assert_eq!(nf.totais.total_centavos, 8_500);
}

#[test]
fn gerar_com_desconto_acima_dos_produtos_retorna_erro() {
    let err = NotaFiscal::gerar(novo_id(), None, ModeloNF::NFCe, "001".into(), 1, vec![item_nf()], 10_001, false);
    assert!(matches!(err, Err(DomainError::Validation(_))));
}

#[test]
fn gerar_com_item_inicia_status_gerada() {
    let nf = nf_gerada();
    assert_eq!(nf.status, StatusNFe::Gerada);
    assert!(nf.chave.is_none());
    assert_eq!(nf.totais.total_centavos, 10_000);
}

#[test]
fn transmitir_muda_status_para_transmitida() {
    let mut nf = nf_gerada();
    nf.transmitir().expect("deve transmitir");
    assert_eq!(nf.status, StatusNFe::Transmitida);
}

#[test]
fn transmitir_ja_transmitida_retorna_erro() {
    let mut nf = nf_gerada();
    nf.transmitir().expect("transmissão 1");
    assert!(matches!(nf.transmitir(), Err(DomainError::BusinessRule(_))));
}

#[test]
fn autorizar_apos_transmitida_registra_chave() {
    let mut nf = nf_gerada();
    nf.transmitir().expect("transmitir");
    nf.autorizar("44digits_key".into(), "protocolo123".into()).expect("autorizar");
    assert_eq!(nf.status, StatusNFe::Autorizada);
    assert_eq!(nf.chave.as_deref(), Some("44digits_key"));
}

#[test]
fn autorizar_sem_transmitir_retorna_erro() {
    let mut nf = nf_gerada();
    assert!(matches!(nf.autorizar("chave".into(), "proto".into()), Err(DomainError::BusinessRule(_))));
}

#[test]
fn cancelar_nf_autorizada_muda_status() {
    let mut nf = nf_gerada();
    nf.transmitir().expect("transmitir");
    nf.autorizar("chave".into(), "proto".into()).expect("autorizar");
    nf.cancelar("CANC001".into()).expect("cancelar");
    assert_eq!(nf.status, StatusNFe::Cancelada);
}

#[test]
fn cancelar_nf_nao_autorizada_retorna_erro() {
    let mut nf = nf_gerada();
    assert!(matches!(nf.cancelar("CANC001".into()), Err(DomainError::BusinessRule(_))));
}

#[test]
fn retransmitir_nf_rejeitada_volta_para_transmitida() {
    let mut nf = nf_gerada();
    nf.transmitir().expect("transmitir");
    nf.rejeitar("539".into(), "duplicidade".into()).expect("rejeitar");
    nf.retransmitir().expect("retransmitir NF rejeitada");
    assert_eq!(nf.status, StatusNFe::Transmitida);
    nf.autorizar("chave".into(), "proto".into()).expect("autorizar após retransmissão");
    assert_eq!(nf.status, StatusNFe::Autorizada);
}

#[test]
fn retransmitir_nf_presa_em_transmitida_e_permitido() {
    let mut nf = nf_gerada();
    nf.transmitir().expect("transmitir");
    nf.retransmitir().expect("retransmitir NF transmitida");
    assert_eq!(nf.status, StatusNFe::Transmitida);
}

#[test]
fn retransmitir_nf_autorizada_ou_cancelada_retorna_erro() {
    let mut nf = nf_gerada();
    nf.transmitir().expect("transmitir");
    nf.autorizar("chave".into(), "proto".into()).expect("autorizar");
    assert!(matches!(nf.retransmitir(), Err(DomainError::BusinessRule(_))));
    nf.cancelar("CANC001".into()).expect("cancelar");
    assert!(matches!(nf.retransmitir(), Err(DomainError::BusinessRule(_))));
}

#[test]
fn solicitar_cancelamento_de_nf_transmitida_marca_pendente() {
    let mut nf = nf_gerada();
    nf.transmitir().expect("transmitir");
    nf.solicitar_cancelamento("devolução".into())
        .expect("NF presa em transmitida aceita cancelamento pendente");
    assert!(nf.cancelamento_pendente);
}

#[test]
fn rejeitar_nf_transmitida_muda_status() {
    let mut nf = nf_gerada();
    nf.transmitir().expect("transmitir");
    nf.rejeitar("999".into(), "dados inválidos".into()).expect("rejeitar");
    assert_eq!(nf.status, StatusNFe::Rejeitada);
}

#[test]
fn cancelada_nao_aceita_mais_transicoes() {
    let mut nf = nf_gerada();
    nf.transmitir().expect("transmitir");
    nf.autorizar("chave".into(), "proto".into()).expect("autorizar");
    nf.cancelar("CANC001".into()).expect("cancelar");
    assert!(nf.transmitir().is_err());
    assert!(nf.autorizar("c".into(), "p".into()).is_err());
    assert!(nf.rejeitar("1".into(), "m".into()).is_err());
    assert!(nf.cancelar("CANC002".into()).is_err());
    assert!(nf.solicitar_cancelamento("m".into()).is_err());
    assert_eq!(nf.status, StatusNFe::Cancelada);
    assert_eq!(nf.pending_events().len(), 4);
}

#[test]
fn cancelamento_pendente_duplicado_e_recusado() {
    let mut nf = nf_gerada();
    nf.transmitir().expect("transmitir");
    nf.solicitar_cancelamento("a".into()).expect("primeiro");
    match nf.solicitar_cancelamento("b".into()) {
        Err(e) => assert_eq!(e.mensagem(), "Cancelamento já está pendente para esta nota"),
        Ok(_) => panic!("pendência duplicada"),
    }
}

#[test]
fn nota_gerada_e_consistente_e_totais_adulterados_nao() {
    let nf = nf_gerada();
    assert!(nf.consistente());

    let mut adulterada = nf_gerada();
    adulterada.totais.icms_centavos += 1;
    assert!(!adulterada.consistente());

    let mut total_errado = nf_gerada();
    total_errado.totais.total_centavos -= 1;
    assert!(!total_errado.consistente());

    let mut autorizada_sem_chave = nf_gerada();
    autorizada_sem_chave.status = StatusNFe::Autorizada;
    assert!(!autorizada_sem_chave.consistente());
}

#[test]
fn nota_com_soma_acima_de_i64_nao_e_consistente() {
    let item = novo_item("84716053", "5102", 4, i64::MAX / 2).expect("item válido");
    let mut nf = nf_gerada();
    nf.itens = vec![item];
    assert!(!nf.consistente());
}
