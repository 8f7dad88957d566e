use finledger::erro::{AppError, DomainError};
use finledger::fiscal::aliquotas::{classe_info_de, preencher_aliquota, resolver_aliquotas};
use finledger::fiscal::emissao::{
    cancelar_nf, devolucao_sem_efeito_fiscal, enriquecer_item, flag_ativa, ids_da_venda, montar_xml,
    modelo_para_cliente, numero_da_serie, protocolo_cancelamento, ratear_desconto, reagir_devolucao,
    retransmitir_com_resposta, retransmitir_na_sefaz, serie_texto, transmitir_para_sefaz,
    aplicar_resposta_sefaz, tributos_obrigatorios_ausentes, ReacaoDevolucao, SERIE_PADRAO,
};
use finledger::fiscal::nota_fiscal::{NotaFiscal, NotaFiscalEvent};
use finledger::fiscal::sefaz::{resposta_ficticia, SefazError, SefazResponse, StubSefazClient};
use finledger::compartilhado::tempo::Data;
use finledger::fiscal::tributacao::aliquota::Aliquota;
use finledger::fiscal::tributacao::classe_tributaria::{ClasseTributaria, ClasseTributariaInfo};
use finledger::fiscal::tributacao::fase_transicao::FaseTransicao;
use finledger::fiscal::tributacao::imposto::ImpostoItem;
use finledger::fiscal::tributacao::motor::{AliquotasItem, ContextoFiscal};
use finledger::fiscal::tributacao::perfil_fiscal::{PerfilFiscal, RegimeTributario};
use finledger::fiscal::value_objects::{ItemNF, ModeloNF, StatusNFe};
use finledger::vendas::ItemVendaSnapshot;

fn item_venda(preco: i64, quantidade: u32) -> ItemVendaSnapshot {
    ItemVendaSnapshot {
        produto_id: uuid::Uuid::new_v4().to_string(),
        sku: "SKU".into(),
        descricao: "Produto".into(),
        quantidade,
        preco_unitario_centavos: preco,
    }
}

#[test]
fn rateio_proporcional_com_sobra_no_ultimo() {
    let itens = vec![item_venda(1000, 1), item_venda(1000, 1), item_venda(1000, 1)];
    let r = ratear_desconto(&itens, 100);
    assert_eq!(r, vec![33, 33, 34]);
    assert_eq!(r.iter().sum::<i64>(), 100);
}

#[test]
fn rateio_pesa_pelo_subtotal() {
    let itens = vec![item_venda(3000, 1), item_venda(500, 2)];
    let r = ratear_desconto(&itens, 400);
    assert_eq!(r, vec![300, 100]);
}

#[test]
fn rateio_sem_desconto_ou_sem_total_e_zero() {
    let itens = vec![item_venda(1000, 1), item_venda(500, 2)];
    assert_eq!(ratear_desconto(&itens, 0), vec![0, 0]);
    assert_eq!(ratear_desconto(&itens, -5), vec![0, 0]);
    let gratis = vec![item_venda(0, 3)];
    assert_eq!(ratear_desconto(&gratis, 10), vec![0]);
    assert!(ratear_desconto(&[], 10).is_empty());
}

#[test]
fn serie_com_tres_digitos() {
    assert_eq!(serie_texto(SERIE_PADRAO), "001");
    assert_eq!(serie_texto(123), "123");
    assert_eq!(serie_texto(1234), "1234");
    assert_eq!(serie_texto(-1), "-01");
}

#[test]
fn numero_da_serie_cabe_em_u32() {
    assert_eq!(numero_da_serie(1, 42).expect("número"), 42);
    match numero_da_serie(1, 4_294_967_296) {
        Err(DomainError::BusinessRule(m)) => assert_eq!(m, "Numeração da série 1 esgotada (4294967296)"),
        _ => panic!("série esgotada"),
    }
    assert!(matches!(numero_da_serie(1, -1), Err(DomainError::BusinessRule(_))));
}

#[test]
fn modelo_pelo_cliente() {
    assert_eq!(modelo_para_cliente(Some(7)), ModeloNF::NFe);
    assert_eq!(modelo_para_cliente(None), ModeloNF::NFCe);
}

#[test]
fn flag_de_integracao() {
    assert!(flag_ativa(Some("true")));
    assert!(flag_ativa(Some("TRUE")));
    assert!(flag_ativa(Some("1")));
    assert!(!flag_ativa(Some("sim")));
    assert!(!flag_ativa(Some("")));
    assert!(!flag_ativa(None));
}

fn ctx_2026() -> ContextoFiscal {
    ContextoFiscal {
        fase: FaseTransicao::de_data(Data::from_ymd_opt(2026, 6, 15).expect("data")),
        perfil: PerfilFiscal::padrao_legado(),
    }
}

fn bps(v: i32) -> Option<Aliquota> {
    Some(Aliquota::try_from(v).expect("bps"))
}

#[test]
fn item_enriquecido_tributa_a_base_liquida() {
    let item = item_venda(5000, 2);
    let al = AliquotasItem { icms: bps(1800), cbs: bps(90), ..Default::default() };
    let nf = enriquecer_item(
        &ctx_2026(),
        &item,
        1000,
        "8471.60.53".into(),
        &ClasseTributariaInfo::integral(),
        &al,
        "SP",
        Some("RJ"),
        &ModeloNF::NFe,
    )
    .expect("item");
    assert_eq!(nf.ncm(), "84716053");
    assert_eq!(nf.cfop(), "6102");
    assert_eq!(nf.quantidade(), 2);
    assert_eq!(nf.valor_unitario_centavos(), 5000);
    // base = 10.000 − 1.000 = 9.000
    assert_eq!(nf.imposto().icms_centavos, 1_620);
    assert_eq!(nf.imposto().cbs_centavos, 81);
    assert_eq!(nf.produto_id, uuid::Uuid::parse_str(&item.produto_id).expect("uuid").as_u128());
}

#[test]
fn item_com_produto_ilegivel_e_falha_de_infraestrutura() {
    let mut item = item_venda(5000, 1);
    item.produto_id = "nao-e-uuid".into();
    let r = enriquecer_item(
        &ctx_2026(),
        &item,
        0,
        "84716053".into(),
        &ClasseTributariaInfo::integral(),
        &AliquotasItem::default(),
        "SP",
        None,
        &ModeloNF::NFCe,
    );
    assert!(matches!(r, Err(AppError::Infrastructure(_))));
}

#[test]
fn item_com_ncm_ruim_e_erro_de_dominio() {
    let item = item_venda(5000, 1);
    let r = enriquecer_item(
        &ctx_2026(),
        &item,
        0,
        "123".into(),
        &ClasseTributariaInfo::integral(),
        &AliquotasItem::default(),
        "SP",
        None,
        &ModeloNF::NFCe,
    );
    assert!(matches!(r, Err(AppError::Domain(DomainError::Validation(_)))));
}

#[test]
fn tributos_obrigatorios_sem_aliquota() {
    let mut ctx = ctx_2026();
    assert_eq!(tributos_obrigatorios_ausentes(&ctx, &AliquotasItem::default()), vec!["cbs", "ibs_uf", "ibs_mun"]);
    ctx.perfil.regime = RegimeTributario::LucroReal;
    assert_eq!(
        tributos_obrigatorios_ausentes(&ctx, &AliquotasItem::default()),
        vec!["icms", "cbs", "ibs_uf", "ibs_mun"]
    );
    let completo = AliquotasItem { icms: bps(1800), cbs: bps(90), ibs_uf: bps(5), ibs_mun: bps(5), ..Default::default() };
    assert!(tributos_obrigatorios_ausentes(&ctx, &completo).is_empty());
}

fn nf_gerada() -> NotaFiscal {
    let item = ItemNF::novo(
        uuid::Uuid::new_v4().as_u128(),
        "SKU".into(),
        "Produto".into(),
        "84716053".into(),
        "5102".into(),
        1,
        1000,
        ImpostoItem::default(),
    )
    .expect("item");
    NotaFiscal::gerar(uuid::Uuid::new_v4().as_u128(), None, ModeloNF::NFCe, "001".into(), 1, vec![item], 0, false)
        .expect("nf")
}

#[test]
fn resposta_da_sefaz_autoriza_rejeita_ou_espera() {
    let mut nf = nf_gerada();
    nf.transmitir().expect("transmitir");
    let mut espera = nf.clone();
    aplicar_resposta_sefaz(&mut espera, Err(SefazError::Indisponivel("timeout".into()))).expect("espera");
    assert_eq!(espera.status, StatusNFe::Transmitida);

    let mut rejeitada = nf.clone();
    aplicar_resposta_sefaz(
        &mut rejeitada,
        Err(SefazError::Rejeicao { codigo: "539".into(), motivo: "duplicidade".into() }),
    )
    .expect("rejeição");
    assert_eq!(rejeitada.status, StatusNFe::Rejeitada);

    aplicar_resposta_sefaz(&mut nf, Ok(SefazResponse { chave: "c".into(), protocolo: "p".into() }))
        .expect("autorização");
    assert_eq!(nf.status, StatusNFe::Autorizada);
    assert_eq!(nf.protocolo.as_deref(), Some("p"));
}

#[test]
fn transmissao_pelo_stub_autoriza() {
    let mut nf = nf_gerada();
    transmitir_para_sefaz(&mut nf, &StubSefazClient).expect("transmitir");
    assert_eq!(nf.status, StatusNFe::Autorizada);
    let chave = nf.chave.clone().expect("chave");
    assert_eq!(chave.len(), 44);
    assert!(chave.starts_with("35250100000000000001550010"));
    assert!(transmitir_para_sefaz(&mut nf, &StubSefazClient).is_err());
}

#[test]
fn retransmissao_indisponivel_e_infraestrutura() {
    let mut nf = nf_gerada();
    nf.transmitir().expect("transmitir");
    let r = retransmitir_com_resposta(&mut nf, Err(SefazError::Indisponivel("fora do ar".into())));
    match r {
        Err(AppError::Infrastructure(m)) => assert_eq!(m, "fora do ar"),
        _ => panic!("indisponível"),
    }
    assert_eq!(nf.status, StatusNFe::Transmitida);
    retransmitir_com_resposta(&mut nf, Err(SefazError::Rejeicao { codigo: "1".into(), motivo: "m".into() }))
        .expect("rejeição");
    assert_eq!(nf.status, StatusNFe::Rejeitada);
    retransmitir_na_sefaz(&mut nf, &StubSefazClient).expect("retransmitir");
    assert_eq!(nf.status, StatusNFe::Autorizada);
    assert!(matches!(
        retransmitir_na_sefaz(&mut nf, &StubSefazClient),
        Err(AppError::Domain(DomainError::BusinessRule(_)))
    ));
}

#[test]
fn xml_da_nota_traz_o_id() {
    let id = 0x67e55044_10b1_426f_9247_bb680e5fe0c8u128;
    assert_eq!(montar_xml(id), "<NF>67e55044-10b1-426f-9247-bb680e5fe0c8</NF>");
}

#[test]
fn protocolo_de_cancelamento_novo() {
    let p = protocolo_cancelamento();
    assert!(p.starts_with("CANC"));
    assert_eq!(p.len(), 36);
    assert!(p[4..].chars().all(|c| c.is_ascii_hexdigit() && !c.is_ascii_uppercase()));
    assert_ne!(protocolo_cancelamento(), p);
}

#[test]
fn cancelar_nf_autorizada_com_protocolo_novo() {
    let mut nf = nf_gerada();
    assert!(cancelar_nf(&mut nf).is_err());
    nf.transmitir().expect("transmitir");
    nf.autorizar("c".into(), "p".into()).expect("autorizar");
    cancelar_nf(&mut nf).expect("cancelar");
    assert_eq!(nf.status, StatusNFe::Cancelada);
    match nf.pending_events().last() {
        Some(NotaFiscalEvent::NotaFiscalCancelada { protocolo_cancelamento, .. }) => {
            assert!(protocolo_cancelamento.starts_with("CANC"))
        }
        _ => panic!("evento de cancelamento"),
    }
}

#[test]
fn devolucao_sobre_nf_rejeitada_nao_faz_nada() {
    assert!(devolucao_sem_efeito_fiscal("rejeitada"));
    assert!(!devolucao_sem_efeito_fiscal("autorizada"));
    let mut nf = nf_gerada();
    let r = reagir_devolucao(&mut nf, "rejeitada", true, false, true, "m").expect("sem efeito");
    assert_eq!(r, ReacaoDevolucao::SemEfeitoFiscal);
    assert_eq!(nf.status, StatusNFe::Gerada);
}

#[test]
fn devolucao_sobre_nf_transmitida_marca_pendente() {
    let mut nf = nf_gerada();
    nf.transmitir().expect("transmitir");
    let r = reagir_devolucao(&mut nf, "transmitida", true, true, false, "cliente desistiu").expect("pendente");
    assert_eq!(r, ReacaoDevolucao::CancelamentoSolicitado);
    assert!(nf.cancelamento_pendente);
    match nf.pending_events().last() {
        Some(NotaFiscalEvent::CancelamentoNfSolicitado { motivo, .. }) => {
            assert_eq!(motivo, "Devolução de itens: cliente desistiu")
        }
        _ => panic!("evento"),
    }
    let de_novo = reagir_devolucao(&mut nf, "transmitida", true, true, false, "outra").expect("já pendente");
    assert_eq!(de_novo, ReacaoDevolucao::CancelamentoJaPendente);
}

#[test]
fn devolucao_parcial_com_integracao_cancela_e_pede_reemissao() {
    let mut nf = nf_gerada();
    nf.transmitir().expect("transmitir");
    nf.autorizar("c".into(), "p".into()).expect("autorizar");
    let r = reagir_devolucao(&mut nf, "autorizada", true, false, true, "m").expect("cancelar");
    assert_eq!(r, ReacaoDevolucao::Cancelada { reemitir: true });
    assert_eq!(nf.status, StatusNFe::Cancelada);
}

#[test]
fn devolucao_sem_integracao_fica_pendente() {
    let mut nf = nf_gerada();
    nf.transmitir().expect("transmitir");
    nf.autorizar("c".into(), "p".into()).expect("autorizar");
    let r = reagir_devolucao(&mut nf, "autorizada", false, true, false, "m").expect("pendente");
    assert_eq!(r, ReacaoDevolucao::CancelamentoSolicitado);
    assert_eq!(nf.status, StatusNFe::Autorizada);
    assert!(nf.cancelamento_pendente);
}

#[test]
fn ids_do_evento_de_venda() {
    let v = "67e55044-10b1-426f-9247-bb680e5fe0c8";
    let (venda, cliente) = ids_da_venda(v, Some("lixo")).expect("venda legível");
    assert_eq!(venda, 0x67e55044_10b1_426f_9247_bb680e5fe0c8u128);
    assert_eq!(cliente, None);
    assert!(ids_da_venda("x", None).is_none());
}

#[test]
fn resposta_ficticia_tem_chave_de_44_digitos() {
    let r = resposta_ficticia(1_234_567_890_123);
    assert_eq!(r.chave, "35250100000000000001550010567890123000000287");
    assert_eq!(r.protocolo, "001234567890123");
}

#[test]
fn aliquotas_primeira_linha_vence_e_tenant_antes() {
    let tenant = vec![("icms".to_string(), 1700)];
    let referencia = vec![("icms".to_string(), 1800), ("cbs".to_string(), 90), ("cbs".to_string(), 100), ("xyz".to_string(), 5)];
    let al = resolver_aliquotas(&tenant, &referencia).expect("alíquotas");
    assert_eq!(al.icms.expect("icms").bps(), 1700);
    assert_eq!(al.cbs.expect("cbs").bps(), 90);
    assert!(al.pis.is_none());
}

#[test]
fn aliquota_fora_da_faixa_rejeita_a_resolucao() {
    let tenant = vec![];
    let referencia = vec![("icms".to_string(), 1800), ("pis".to_string(), 30_000)];
    match resolver_aliquotas(&tenant, &referencia) {
        Err(e) => assert_eq!(e.mensagem(), "Alíquota em bps fora da faixa 0..=20000: 30000"),
        Ok(_) => panic!("faixa"),
    }
    let mut al = AliquotasItem::default();
    assert!(preencher_aliquota(&mut al, "desconhecido", -1).is_err());
    preencher_aliquota(&mut al, "is", 2500).expect("is");
    assert_eq!(al.is_seletivo.expect("is").bps(), 2500);
}

#[test]
fn classe_desconhecida_e_integral() {
    let c = ClasseTributaria::try_from("200003".to_string()).expect("classe");
    let info = classe_info_de(Some(c.clone()), Some(("200".to_string(), 6000)));
    assert_eq!(info.cst_ibs_cbs, "200");
    assert_eq!(info.reducao_bps, 6000);
    assert_eq!(info.classe.as_str(), "200003");
    let desconhecida = classe_info_de(Some(c), None);
    assert_eq!(desconhecida.classe.as_str(), "000001");
    assert_eq!(classe_info_de(None, None).reducao_bps, 0);
}
