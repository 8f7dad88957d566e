use finledger::compartilhado::dinheiro::Dinheiro;
use finledger::erro::{AppError, DomainError};
use finledger::estoque::disponibilidade::{disponibilidade_de, Disponibilidade};
use finledger::estoque::item_estoque::{EstoqueEvent, ItemEstoque};
use finledger::estoque::movimentos::{
    carregar_ou_criar, exigir_estoque, motivo_reentrada, planejar_entradas_recebimento,
    quantidades_dos_itens,
};
use finledger::vendas::{ItemRecebido, ItemVendaSnapshot};

fn novo_id() -> u128 {
    uuid::Uuid::new_v4().as_u128()
}

#[test]
fn controlada_com_saldo_suficiente_permite() {
    assert!(Disponibilidade::Controlada(10).validar(0, 5).is_ok());
}

#[test]
fn controlada_com_saldo_insuficiente_bloqueia() {
    assert!(matches!(Disponibilidade::Controlada(3).validar(0, 5), Err(DomainError::BusinessRule(_))));
}

#[test]
fn controlada_soma_o_que_ja_esta_no_documento() {
    assert!(matches!(Disponibilidade::Controlada(3).validar(2, 2), Err(DomainError::BusinessRule(_))));
}

#[test]
fn nao_controlada_sempre_permite() {
    assert!(Disponibilidade::NaoControlada.validar(0, 1_000_000).is_ok());
}

#[test]
fn sem_checagem_sempre_permite() {
    assert!(Disponibilidade::SemChecagem.validar(0, 1_000_000).is_ok());
}

#[test]
fn indisponivel_informa_saldo_e_total() {
    match Disponibilidade::Controlada(3).validar(2, 2) {
        Err(e) => assert_eq!(e.mensagem(), "Estoque insuficiente para este produto: disponível 3, solicitado 4"),
        Ok(_) => panic!("insuficiente"),
    }
    assert!(Disponibilidade::Controlada(4).validar(2, 2).is_ok());
    // A soma satura: nunca passa do saldo por estouro.
    assert!(Disponibilidade::Controlada(10).validar(u32::MAX, 1).is_err());
}

#[test]
fn disponibilidade_pelo_cadastro_e_projecao() {
    assert_eq!(disponibilidade_de(true, Some(true), Some(5)), Disponibilidade::SemChecagem);
    assert_eq!(disponibilidade_de(false, Some(false), Some(5)), Disponibilidade::NaoControlada);
    assert_eq!(disponibilidade_de(false, None, Some(5)), Disponibilidade::Controlada(5));
    assert_eq!(disponibilidade_de(false, Some(true), None), Disponibilidade::Controlada(0));
    assert_eq!(disponibilidade_de(false, Some(true), Some(-3)), Disponibilidade::Controlada(0));
}

#[test]
fn entrada_incrementa_saldo() {
    let mut item = ItemEstoque::criar(novo_id(), 5);
    item.registrar_entrada(10, Dinheiro::from_centavos(2000), "compra".into(), Some("NF-123".into()))
        .expect("entrada");
    assert_eq!(item.saldo_disponivel(), 10);
}

#[test]
fn entrada_quantidade_zero_retorna_erro() {
    let mut item = ItemEstoque::criar(novo_id(), 0);
    assert!(matches!(
        item.registrar_entrada(0, Dinheiro::from_centavos(1000), "x".into(), None),
        Err(DomainError::Validation(_))
    ));
}

#[test]
fn baixar_decrementa_saldo() {
    let mut item = ItemEstoque::criar(novo_id(), 0);
    item.registrar_entrada(10, Dinheiro::from_centavos(100), "e".into(), None).expect("entrada");
    item.baixar(3, "venda".into(), None).expect("baixar");
    assert_eq!(item.saldo_disponivel(), 7);
}

#[test]
fn baixar_saldo_insuficiente_retorna_erro() {
    let mut item = ItemEstoque::criar(novo_id(), 0);
    item.registrar_entrada(5, Dinheiro::from_centavos(100), "e".into(), None).expect("entrada");
    assert!(matches!(item.baixar(10, "venda".into(), None), Err(DomainError::BusinessRule(_))));
}

#[test]
fn ajuste_sem_justificativa_retorna_erro() {
    let mut item = ItemEstoque::criar(novo_id(), 0);
    assert!(matches!(item.ajustar(20, "   ".into()), Err(DomainError::Validation(_))));
}

#[test]
fn entrada_com_custo_negativo_retorna_erro() {
    let mut item = ItemEstoque::criar(novo_id(), 0);
    match item.registrar_entrada(1, Dinheiro::from_centavos(-1), "x".into(), None) {
        Err(DomainError::Validation(m)) => assert_eq!(m, "Custo unitário não pode ser negativo"),
        _ => panic!("custo negativo"),
    }
    assert_eq!(item.saldo_disponivel(), 0);
}

#[test]
fn entrada_satura_no_maior_u32() {
    let mut item = ItemEstoque::reconstituir(novo_id(), 3, u32::MAX - 1, 0);
    item.registrar_entrada(10, Dinheiro::from_centavos(1), "x".into(), None).expect("entrada");
    assert_eq!(item.saldo_disponivel(), u32::MAX);
}

#[test]
fn entrada_e_baixa_da_mesma_quantidade_se_anulam() {
    let mut item = ItemEstoque::reconstituir(novo_id(), 0, 40, 0);
    item.registrar_entrada(7, Dinheiro::from_centavos(1), "x".into(), None).expect("entrada");
    item.baixar(7, "venda".into(), None).expect("baixa");
    assert_eq!(item.saldo_disponivel(), 40);
}

#[test]
fn baixa_que_atinge_o_minimo_alerta() {
    let mut item = ItemEstoque::reconstituir(novo_id(), 0, 10, 5);
    item.baixar(4, "venda".into(), Some("v1".into())).expect("baixa");
    assert_eq!(item.pending_events().len(), 1);
    item.baixar(1, "venda".into(), None).expect("baixa");
    assert_eq!(item.pending_events().len(), 3);
    assert!(matches!(
        item.pending_events()[2],
        EstoqueEvent::EstoqueMinimoPadraoAtingido { saldo_atual: 5, estoque_minimo: 5, .. }
    ));
    match item.baixar(6, "venda".into(), None) {
        Err(e) => assert_eq!(e.mensagem(), "Estoque insuficiente: saldo 5, solicitado 6"),
        Ok(_) => panic!("insuficiente"),
    }
}

#[test]
fn minimo_igual_ao_atual_e_recusado() {
    let mut item = ItemEstoque::criar(novo_id(), 5);
    assert!(matches!(item.definir_estoque_minimo(5), Err(DomainError::BusinessRule(_))));
    item.definir_estoque_minimo(8).expect("mínimo");
    assert_eq!(item.estoque_minimo(), 8);
}

#[test]
fn ajuste_registra_quantidade_anterior() {
    let mut item = ItemEstoque::reconstituir(novo_id(), 0, 12, 0);
    item.ajustar(20, "inventário".into()).expect("ajuste");
    assert_eq!(item.saldo_disponivel(), 20);
    assert!(matches!(
        item.pending_events()[0],
        EstoqueEvent::AjusteEstoque { quantidade_anterior: 12, quantidade_nova: 20, .. }
    ));
}

#[test]
fn recebimento_gera_entradas_dos_produtos_legiveis() {
    let p = uuid::Uuid::new_v4();
    let itens = vec![
        ItemRecebido { produto_id: p.to_string(), quantidade: 3, custo_unitario_centavos: 250 },
        ItemRecebido { produto_id: "x".into(), quantidade: 9, custo_unitario_centavos: 1 },
    ];
    let e = planejar_entradas_recebimento(&itens);
    assert_eq!(e.len(), 1);
    assert_eq!(e[0].produto_id, p.as_u128());
    assert_eq!(e[0].quantidade, 3);
    assert_eq!(e[0].custo_unitario_centavos, 250);
}

#[test]
fn venda_gera_baixas_dos_produtos_legiveis() {
    let p = uuid::Uuid::new_v4();
    let itens = vec![
        ItemVendaSnapshot { produto_id: "?".into(), sku: "s".into(), descricao: "d".into(), quantidade: 1, preco_unitario_centavos: 1 },
        ItemVendaSnapshot { produto_id: p.to_string(), sku: "s".into(), descricao: "d".into(), quantidade: 2, preco_unitario_centavos: 1 },
    ];
    assert_eq!(quantidades_dos_itens(&itens), vec![(p.as_u128(), 2)]);
    assert_eq!(motivo_reentrada("v-1"), "Devolução da venda v-1");
}

#[test]
fn estoque_inexistente_na_baixa() {
    let id = 0x67e55044_10b1_426f_9247_bb680e5fe0c8u128;
    match exigir_estoque(None, id) {
        Err(AppError::Domain(DomainError::NotFound(m))) => {
            assert_eq!(m, "Estoque do produto 67e55044-10b1-426f-9247-bb680e5fe0c8 não encontrado")
        }
        _ => panic!("não encontrado"),
    }
    let novo = carregar_ou_criar(None, id);
    assert_eq!(novo.produto_id(), id);
    assert_eq!(novo.saldo_disponivel(), 0);
}
