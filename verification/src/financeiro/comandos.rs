//! Comandos e consultas do financeiro.

use vstd::prelude::*;

verus! {

/// Pagamento de uma conta a pagar.
#[derive(Debug, Clone, Copy)]
pub struct EfetuarPagamento {
    pub conta_id: u128,
    pub valor_centavos: i64,
}

/// Estorno de uma conta a receber.
#[derive(Debug, Clone)]
pub struct EstornarContaReceber {
    pub conta_id: u128,
    pub motivo: String,
}

/// Abatimento de parte (ou todo) o saldo em aberto de uma conta a receber.
#[derive(Debug, Clone)]
pub struct RegistrarAbatimentoContaReceber {
    pub conta_id: u128,
    pub valor_centavos: i64,
    pub motivo: String,
}

#[derive(Debug, Clone)]
pub struct ContaPagarResult {
    pub conta_id: u128,
    pub pedido_id: u128,
    pub fornecedor_id: u128,
    pub valor_original: i64,
    pub valor_pago: i64,
    pub descricao: Option<String>,
    pub status: String,
}

/// Página de contas a pagar; sem limite e deslocamento, as primeiras 200 por
/// vencimento.
#[derive(Debug, Clone, Copy)]
pub struct ListarContasPagar {
    pub limite: Option<i64>,
    pub offset: Option<i64>,
}

#[derive(Debug, Clone, Copy)]
pub struct BuscarContaPagar {
    pub conta_id: u128,
}

#[derive(Debug, Clone)]
pub struct ContaReceberResult {
    pub conta_id: u128,
    pub venda_id: u128,
    pub cliente_id: Option<u128>,
    pub valor_original: i64,
    pub valor_recebido: i64,
    pub valor_abatido: i64,
    pub descricao: Option<String>,
    pub status: String,
}

/// Página de contas a receber; sem limite e deslocamento, as primeiras 200
/// por vencimento.
#[derive(Debug, Clone, Copy)]
pub struct ListarContasReceber {
    pub limite: Option<i64>,
    pub offset: Option<i64>,
}

#[derive(Debug, Clone, Copy)]
pub struct BuscarContaReceber {
    pub conta_id: u128,
}

} // verus!
