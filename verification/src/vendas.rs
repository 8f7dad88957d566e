//! Dados que os contextos de vendas e compras publicam e que estoque,
//! financeiro e fiscal consomem.

use vstd::prelude::*;

use crate::compartilhado::tempo::Instante;

verus! {

/// Item de uma venda como congelado no evento.
#[derive(Debug, Clone)]
pub struct ItemVendaSnapshot {
    pub produto_id: String,
    pub sku: String,
    pub descricao: String,
    pub quantidade: u32,
    pub preco_unitario_centavos: i64,
}

/// Forma de pagamento da venda.
#[derive(Debug, Clone, Copy, PartialEq, Eq, Structural)]
pub enum FormaPagamento {
    Dinheiro,
    Pix,
    CartaoDebito,
    CartaoCredito { parcelas: u8 },
    Prazo { dias: u16 },
}

/// Eventos de venda consumidos pelos outros contextos.
#[derive(Debug, Clone)]
pub enum VendaEvent {
    VendaConfirmada {
        venda_id: String,
        cliente_id: Option<String>,
        itens: Vec<ItemVendaSnapshot>,
        total_centavos: i64,
        forma_pagamento: FormaPagamento,
        occurred_at: Instante,
    },
    ItensDevolvidos {
        venda_id: String,
        cliente_id: Option<String>,
        itens_devolvidos: Vec<ItemVendaSnapshot>,
        itens_restantes: Vec<ItemVendaSnapshot>,
        total_devolvido_centavos: i64,
        devolucao_total: bool,
        motivo: String,
        occurred_at: Instante,
    },
}

/// Item recebido de um pedido de compra.
#[derive(Debug, Clone)]
pub struct ItemRecebido {
    pub produto_id: String,
    pub quantidade: u32,
    pub custo_unitario_centavos: i64,
}

/// Eventos de compras consumidos pelos outros contextos.
#[derive(Debug, Clone)]
pub enum ComprasEvent {
    MercadoriaRecebida {
        pedido_id: String,
        recebimento_id: String,
        fornecedor_id: String,
        itens: Vec<ItemRecebido>,
        total_centavos: i64,
        prazo_pagamento_dias: u16,
        occurred_at: Instante,
    },
}

} // verus!
