use finledger::compartilhado::dinheiro::Dinheiro;
use finledger::compartilhado::tempo::Instante;
use finledger::erro::DomainError;
use finledger::financeiro::conta_pagar::{ContaPagar, StatusContaPagar};
use finledger::financeiro::conta_receber::{ContaReceber, StatusContaReceber};
use finledger::financeiro::eventos::FinanceiroEvent;
use finledger::financeiro::planejamento::{
    conta_da_parcela, conta_do_recebimento, conta_pagar_id_do_recebimento, conta_pagar_id_reembolso,
    conta_receber_id_da_venda, estornar_por_devolucao_total, motivo_abatimento_devolucao,
    nome_do_reembolso_parcial, nome_do_reembolso_total, planejar_abatimentos, planejar_parcelas,
    reembolso_cliente,
};
use finledger::vendas::FormaPagamento;

fn novo_id() -> u128 {
    uuid::Uuid::new_v4().as_u128()
}

fn conta_pagar(valor: i64) -> ContaPagar {
    ContaPagar::criar(novo_id(), novo_id(), Dinheiro::from_centavos(valor), Instante { micros: 0 })
}

#[test]
fn pagamento_parcial_muda_status() {
    let mut c = conta_pagar(10_000);
    c.registrar_pagamento(Dinheiro::from_centavos(3_000)).expect("pagamento");
    assert_eq!(c.status, StatusContaPagar::Parcial);
}

#[test]
fn conta_pagar_pagamento_total_liquida_conta() {
    let mut c = conta_pagar(10_000);
    c.registrar_pagamento(Dinheiro::from_centavos(10_000)).expect("pagamento");
    assert_eq!(c.status, StatusContaPagar::Liquidada);
}

#[test]
fn conta_pagar_pagamento_excede_saldo_retorna_erro() {
    let mut c = conta_pagar(5_000);
    assert!(matches!(
        c.registrar_pagamento(Dinheiro::from_centavos(6_000)),
        Err(DomainError::BusinessRule(_))
    ));
}

#[test]
fn conta_pagar_mensagens_e_eventos() {
    let mut c = conta_pagar(5_000);
    match c.registrar_pagamento(Dinheiro::from_centavos(6_000)) {
        Err(e) => assert_eq!(e.mensagem(), "Pagamento (R$ 60,00) excede o saldo (R$ 50,00) "),
        Ok(_) => panic!("excede"),
    }
    assert!(matches!(c.registrar_pagamento(Dinheiro::from_centavos(0)), Err(DomainError::Validation(_))));
    c.registrar_pagamento(Dinheiro::from_centavos(5_000)).expect("quitar");
    assert_eq!(c.saldo_devedor().centavos(), 0);
    assert!(matches!(
        c.eventos[1],
        FinanceiroEvent::PagamentoEfetuado { valor_centavos: 5_000, valor_pago_total_centavos: 5_000, .. }
    ));
    assert!(matches!(c.eventos[2], FinanceiroEvent::ContaPagarLiquidada { .. }));
    match c.registrar_pagamento(Dinheiro::from_centavos(1)) {
        Err(e) => assert_eq!(e.mensagem(), "Conta já está liquidada"),
        Ok(_) => panic!("liquidada"),
    }
}

fn conta(valor: i64) -> ContaReceber {
    ContaReceber::criar(novo_id(), None, Dinheiro::from_centavos(valor), Instante { micros: 0 })
}

#[test]
fn pagamento_parcial_muda_status_para_parcial() {
    let mut c = conta(10_000);
    c.registrar_pagamento(Dinheiro::from_centavos(4_000)).expect("pagamento");
    assert_eq!(c.status, StatusContaReceber::Parcial);
    assert_eq!(c.saldo_devedor().centavos(), 6_000);
}

#[test]
fn conta_receber_pagamento_total_liquida_conta() {
    let mut c = conta(10_000);
    c.registrar_pagamento(Dinheiro::from_centavos(10_000)).expect("pagamento");
    assert_eq!(c.status, StatusContaReceber::Liquidada);
}

#[test]
fn pagamento_apos_liquidada_retorna_erro() {
    let mut c = conta(5_000);
    c.registrar_pagamento(Dinheiro::from_centavos(5_000)).expect("liquidar");
    assert!(matches!(c.registrar_pagamento(Dinheiro::from_centavos(100)), Err(DomainError::BusinessRule(_))));
}

#[test]
fn conta_receber_pagamento_excede_saldo_retorna_erro() {
    let mut c = conta(5_000);
    assert!(matches!(c.registrar_pagamento(Dinheiro::from_centavos(6_000)), Err(DomainError::BusinessRule(_))));
}

#[test]
fn abatimento_reduz_saldo_e_preserva_valor_original() {
    let mut c = conta(10_000);
    c.abater(Dinheiro::from_centavos(3_000), "devolução parcial".into()).expect("abater");
    assert_eq!(c.valor_original.centavos(), 10_000);
    assert_eq!(c.valor_abatido.centavos(), 3_000);
    assert_eq!(c.saldo_devedor().centavos(), 7_000);
    assert_eq!(c.status, StatusContaReceber::Pendente);
}

#[test]
fn abatimento_que_zera_saldo_liquida_conta() {
    let mut c = conta(10_000);
    c.registrar_pagamento(Dinheiro::from_centavos(4_000)).expect("pagamento");
    c.abater(Dinheiro::from_centavos(6_000), "devolução parcial".into()).expect("abater");
    assert_eq!(c.status, StatusContaReceber::Liquidada);
    assert_eq!(c.saldo_devedor().centavos(), 0);
}

#[test]
fn abatimento_maior_que_saldo_retorna_erro() {
    let mut c = conta(5_000);
    c.registrar_pagamento(Dinheiro::from_centavos(2_000)).expect("pagamento");
    assert!(matches!(c.abater(Dinheiro::from_centavos(3_100), "x".into()), Err(DomainError::BusinessRule(_))));
}

#[test]
fn pagamento_respeita_saldo_apos_abatimento() {
    let mut c = conta(10_000);
    c.abater(Dinheiro::from_centavos(4_000), "x".into()).expect("abater");
    assert!(matches!(c.registrar_pagamento(Dinheiro::from_centavos(7_000)), Err(DomainError::BusinessRule(_))));
    c.registrar_pagamento(Dinheiro::from_centavos(6_000)).expect("quitar saldo restante");
    assert_eq!(c.status, StatusContaReceber::Liquidada);
}

#[test]
fn estorno_manual_com_recebimento_retorna_erro() {
    let mut c = conta(10_000);
    c.registrar_pagamento(Dinheiro::from_centavos(1_000)).expect("pagamento");
    assert!(matches!(c.estornar_manual("engano".into()), Err(DomainError::BusinessRule(_))));
    c.estornar("devolução total".into()).expect("estornar");
    assert_eq!(c.status, StatusContaReceber::Estornada);
}

#[test]
fn estorno_manual_sem_recebimento_estorna() {
    let mut c = conta(10_000);
    c.estornar_manual("lançamento errado".into()).expect("estornar");
    assert_eq!(c.status, StatusContaReceber::Estornada);
}

#[test]
fn mensagens_da_conta_a_receber() {
    let mut c = conta(5_000);
    match c.registrar_pagamento(Dinheiro::from_centavos(6_000)) {
        Err(e) => assert_eq!(e.mensagem(), "Pagamento (R$ 60,00) excede o saldo devedor (R$ 50,00)"),
        Ok(_) => panic!("excede"),
    }
    match c.abater(Dinheiro::from_centavos(5_001), "x".into()) {
        Err(e) => assert_eq!(e.mensagem(), "Abatimento (R$ 50,01) excede o saldo em aberto (R$ 50,00)"),
        Ok(_) => panic!("excede"),
    }
    assert!(matches!(c.abater(Dinheiro::from_centavos(0), "x".into()), Err(DomainError::Validation(_))));
    c.registrar_pagamento(Dinheiro::from_centavos(1_050)).expect("pagamento");
    match c.estornar_manual("x".into()) {
        Err(e) => assert_eq!(
            e.mensagem(),
            "Conta já tem R$ 10,50 recebidos — use abatimento do saldo em aberto e/ou reembolso ao cliente em vez de estorno"
        ),
        Ok(_) => panic!("recebido"),
    }
}

#[test]
fn conta_estornada_e_terminal() {
    let mut c = conta(5_000);
    c.estornar("x".into()).expect("estornar");
    assert!(matches!(c.estornar("y".into()), Err(DomainError::BusinessRule(_))));
    match c.registrar_pagamento(Dinheiro::from_centavos(1)) {
        Err(e) => assert_eq!(e.mensagem(), "Conta já está encerrada"),
        Ok(_) => panic!("encerrada"),
    }
    assert!(c.abater(Dinheiro::from_centavos(1), "x".into()).is_err());
    assert_eq!(c.eventos.len(), 2);
}

#[test]
fn conta_a_prazo_vence_no_futuro() {
    let c = ContaReceber::criar_a_prazo(novo_id(), None, Dinheiro::from_centavos(100), 30).expect("prazo");
    // Depois de 2020-09-13 (1,6 × 10¹⁵ µs desde a época).
    assert!(c.vencimento.micros > 1_600_000_000_000_000);
    assert!(ContaReceber::criar_a_prazo(novo_id(), None, Dinheiro::from_centavos(100), i64::MAX).is_none());
}

#[test]
fn ids_deterministicos_do_financeiro() {
    let venda = 0x67e55044_10b1_426f_9247_bb680e5fe0c8u128;
    let ns = uuid::Uuid::new_v5(&uuid::Uuid::NAMESPACE_URL, b"https://finledger.com.br/financeiro");
    let esperado = uuid::Uuid::new_v5(&ns, b"conta-receber:67e55044-10b1-426f-9247-bb680e5fe0c8:2").as_u128();
    assert_eq!(conta_receber_id_da_venda(venda, 2), esperado);
    assert_ne!(conta_receber_id_da_venda(venda, 1), conta_receber_id_da_venda(venda, 2));
    let cp = uuid::Uuid::new_v5(&ns, b"conta-pagar:67e55044-10b1-426f-9247-bb680e5fe0c8:r-9").as_u128();
    assert_eq!(conta_pagar_id_do_recebimento(venda, "r-9"), cp);
    assert_eq!(
        conta_pagar_id_reembolso("reembolso:x"),
        uuid::Uuid::new_v5(&ns, b"reembolso:x").as_u128()
    );
    assert_eq!(nome_do_reembolso_total(venda), "reembolso:67e55044-10b1-426f-9247-bb680e5fe0c8");
    assert_eq!(
        nome_do_reembolso_parcial(venda, Instante { micros: -5 }),
        "reembolso-parcial:67e55044-10b1-426f-9247-bb680e5fe0c8:-5"
    );
}

#[test]
fn parcelas_do_cartao_somam_o_total() {
    let venda = novo_id();
    let t0 = Instante { micros: 0 };
    let p = planejar_parcelas(venda, 10_000, &FormaPagamento::CartaoCredito { parcelas: 3 }, t0);
    assert_eq!(p.len(), 3);
    assert_eq!(p[0].valor.centavos(), 3_333);
    assert_eq!(p[1].valor.centavos(), 3_333);
    assert_eq!(p[2].valor.centavos(), 3_334);
    assert_eq!(p.iter().map(|x| x.valor.centavos()).sum::<i64>(), 10_000);
    assert_eq!(p[2].vencimento.micros, 90 * 86_400_000_000);
    assert_eq!(p[2].indice, 2);
    assert!(!p[0].liquidar_imediatamente);
    let texto = uuid::Uuid::from_u128(venda).to_string();
    assert_eq!(p[1].descricao.as_deref(), Some(format!("Parcela 2/3 — venda {texto}").as_str()));
}

#[test]
fn parcela_a_vista_ou_a_prazo() {
    let t0 = Instante { micros: 1_000 };
    let avista = planejar_parcelas(novo_id(), 500, &FormaPagamento::Pix, t0);
    assert_eq!(avista.len(), 1);
    assert!(avista[0].liquidar_imediatamente);
    assert_eq!(avista[0].vencimento.micros, 1_000);
    let credito_1x = planejar_parcelas(novo_id(), 500, &FormaPagamento::CartaoCredito { parcelas: 1 }, t0);
    assert!(credito_1x[0].liquidar_imediatamente);
    let prazo = planejar_parcelas(novo_id(), 500, &FormaPagamento::Prazo { dias: 10 }, t0);
    assert!(!prazo[0].liquidar_imediatamente);
    assert_eq!(prazo[0].vencimento.micros, 1_000 + 10 * 86_400_000_000);
}

#[test]
fn parcela_a_vista_nasce_liquidada() {
    let venda = novo_id();
    let p = planejar_parcelas(venda, 500, &FormaPagamento::Dinheiro, Instante { micros: 0 });
    let c = conta_da_parcela(venda, None, p[0].clone());
    assert_eq!(c.status, StatusContaReceber::Liquidada);
    assert_eq!(c.id, conta_receber_id_da_venda(venda, 0));
    let q = planejar_parcelas(venda, 500, &FormaPagamento::Prazo { dias: 30 }, Instante { micros: 0 });
    let d = conta_da_parcela(venda, Some(7), q[0].clone());
    assert_eq!(d.status, StatusContaReceber::Pendente);
    assert_eq!(d.cliente_id, Some(7));
}

#[test]
fn devolucao_parcial_abate_em_ordem_e_sobra_vira_reembolso() {
    let (a, restante) = planejar_abatimentos(&vec![3_000, 0, 2_000], 4_000);
    assert_eq!(a, vec![3_000, 0, 1_000]);
    assert_eq!(restante, 0);
    let (b, sobra) = planejar_abatimentos(&vec![1_000, -5, 500], 2_000);
    assert_eq!(b, vec![1_000, 0, 500]);
    assert_eq!(sobra, 500);
    let (c, nada) = planejar_abatimentos(&vec![1_000], 0);
    assert_eq!(c, vec![0]);
    assert_eq!(nada, 0);
    assert_eq!(motivo_abatimento_devolucao("avaria"), "Devolução parcial: avaria");
}

#[test]
fn devolucao_total_estorna_e_devolve_o_recebido() {
    let mut c = conta(10_000);
    c.registrar_pagamento(Dinheiro::from_centavos(2_500)).expect("pagamento");
    let recebido = estornar_por_devolucao_total(&mut c, "cliente").expect("estorno");
    assert_eq!(recebido, 2_500);
    assert_eq!(c.status, StatusContaReceber::Estornada);
    assert!(matches!(c.eventos.last(), Some(FinanceiroEvent::ContaReceberEstornada { motivo, .. }) if motivo == "Devolução total: cliente"));
    assert!(estornar_por_devolucao_total(&mut c, "de novo").is_err());
}

#[test]
fn reembolso_ao_cliente_sem_cliente_usa_uuid_nulo() {
    let venda = 0x67e55044_10b1_426f_9247_bb680e5fe0c8u128;
    let c = reembolso_cliente(9, venda, None, Dinheiro::from_centavos(700), false, Instante { micros: 3 });
    assert_eq!(c.id, 9);
    assert_eq!(c.fornecedor_id, 0);
    assert_eq!(c.pedido_id, venda);
    assert_eq!(c.valor_original.centavos(), 700);
    match &c.eventos[0] {
        FinanceiroEvent::ContaPagarRegistrada { descricao, .. } => assert_eq!(
            descricao.as_deref(),
            Some("Reembolso ao cliente — devolução parcial da venda 67e55044-10b1-426f-9247-bb680e5fe0c8")
        ),
        _ => panic!("registro"),
    }
}

#[test]
fn conta_a_pagar_do_recebimento() {
    let c = conta_do_recebimento(1, "rec", 2, 9_000, 28, Instante { micros: 0 });
    assert_eq!(c.id, conta_pagar_id_do_recebimento(1, "rec"));
    assert_eq!(c.vencimento.micros, 28 * 86_400_000_000);
    assert_eq!(c.status, StatusContaPagar::Pendente);
}

#[test]
fn dinheiro_formatado() {
    assert_eq!(Dinheiro::from_centavos(6_000).formatar(), "R$ 60,00");
    assert_eq!(Dinheiro::from_centavos(5).formatar(), "R$ 0,05");
    assert_eq!(Dinheiro::from_centavos(-123_456).formatar(), "-R$ 1234,56");
}
