//! Núcleo de domínio do ERP: estoque, financeiro, fiscal (motor tributário da
//! reforma EC 132/2023 + LC 214/2025) e fornecedores, com contratos verificados.

pub mod compartilhado;
pub mod erro;

pub mod fiscal;
pub mod vendas;
pub mod estoque;
pub mod financeiro;
pub mod fornecedores;
