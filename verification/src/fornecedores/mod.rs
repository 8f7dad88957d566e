pub mod fornecedor;
pub mod comandos;
