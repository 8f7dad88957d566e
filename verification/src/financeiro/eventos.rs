//! Eventos do financeiro (contas a receber e a pagar).

use vstd::prelude::*;

use crate::compartilhado::tempo::Instante;

verus! {

/// Eventos das contas a receber e a pagar; ids como o inteiro de 128 bits do
/// UUID.
#[derive(Debug, Clone)]
pub enum FinanceiroEvent {
    ContaReceberRegistrada {
        conta_id: u128,
        venda_id: u128,
        cliente_id: Option<u128>,
        valor_centavos: i64,
        vencimento: Instante,
        /// Rótulo humano opcional (ex.: "Parcela 2/3 — venda X").
        descricao: Option<String>,
        occurred_at: Instante,
    },
    PagamentoRecebido {
        conta_id: u128,
        valor_centavos: i64,
        /// Total recebido acumulado após este pagamento.
        valor_recebido_total_centavos: i64,
        occurred_at: Instante,
    },
    /// Redução do valor em aberto da conta (devolução parcial, desconto
    /// negociado); o valor original fica intacto.
    AbatimentoContaReceberRegistrado {
        conta_id: u128,
        valor_centavos: i64,
        /// Total abatido acumulado após este abatimento.
        valor_abatido_total_centavos: i64,
        motivo: String,
        occurred_at: Instante,
    },
    ContaReceberLiquidada { conta_id: u128, occurred_at: Instante },
    ContaReceberEstornada { conta_id: u128, motivo: String, occurred_at: Instante },
    ContaPagarRegistrada {
        conta_id: u128,
        pedido_id: u128,
        fornecedor_id: u128,
        valor_centavos: i64,
        vencimento: Instante,
        /// Em conta de reembolso, deixa explícito que o credor é o cliente.
        descricao: Option<String>,
        occurred_at: Instante,
    },
    PagamentoEfetuado {
        conta_id: u128,
        valor_centavos: i64,
        /// Total pago acumulado após este pagamento.
        valor_pago_total_centavos: i64,
        occurred_at: Instante,
    },
    ContaPagarLiquidada { conta_id: u128, occurred_at: Instante },
}

} // verus!
