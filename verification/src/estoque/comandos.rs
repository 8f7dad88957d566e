//! Comandos e consultas do estoque.

use vstd::prelude::*;

verus! {

/// Ajuste de inventário para uma quantidade absoluta, com justificativa.
#[derive(Debug, Clone)]
pub struct AjustarEstoque {
    pub produto_id: u128,
    pub quantidade_nova: u32,
    pub justificativa: String,
}

/// Baixa de estoque disparada pela confirmação de venda.
#[derive(Debug, Clone)]
pub struct BaixarEstoque {
    pub produto_id: u128,
    pub quantidade: u32,
    pub referencia_id: Option<String>,
}

#[derive(Debug, Clone, Copy)]
pub struct DefinirEstoqueMinimo {
    pub produto_id: u128,
    pub estoque_minimo: u32,
}

#[derive(Debug, Clone)]
pub struct RegistrarEntradaEstoque {
    pub produto_id: u128,
    pub quantidade: u32,
    pub custo_unitario_centavos: i64,
    pub motivo: String,
    /// Nota fiscal do fornecedor de onde veio a entrada, quando houver.
    pub nota_fiscal: Option<String>,
}

/// Saldo projetado de um produto.
#[derive(Debug, Clone, Copy)]
pub struct SaldoResult {
    pub produto_id: u128,
    pub quantidade: i32,
    pub custo_medio: i64,
    pub estoque_minimo: i32,
}

#[derive(Debug, Clone, Copy)]
pub struct BuscarSaldo {
    pub produto_id: u128,
}

#[derive(Debug, Clone, Copy)]
pub struct ListarSaldos;

} // verus!
