//! Comandos e consultas de fornecedores.

use vstd::prelude::*;

verus! {

#[derive(Debug, Clone)]
pub struct CadastrarFornecedor {
    pub razao_social: String,
    pub cnpj: String,
    pub telefone: Option<String>,
    pub email: Option<String>,
    pub prazo_pagamento_dias: u16,
}

#[derive(Debug, Clone)]
pub struct AtualizarFornecedor {
    pub fornecedor_id: u128,
    pub razao_social: String,
    pub telefone: Option<String>,
    pub email: Option<String>,
    pub prazo_pagamento_dias: u16,
}

#[derive(Debug, Clone, Copy)]
pub struct ReativarFornecedor {
    pub fornecedor_id: u128,
}

#[derive(Debug, Clone)]
pub struct FornecedorResult {
    pub fornecedor_id: u128,
    pub razao_social: String,
    pub cnpj: String,
    pub telefone: Option<String>,
    pub email: Option<String>,
    pub prazo_pagamento_dias: i32,
    pub ativo: bool,
}

#[derive(Debug, Clone, Copy)]
pub struct ListarFornecedores;

#[derive(Debug, Clone, Copy)]
pub struct BuscarFornecedor {
    pub fornecedor_id: u128,
}

} // verus!
