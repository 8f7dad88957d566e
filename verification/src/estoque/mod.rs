pub mod disponibilidade;
pub mod item_estoque;
pub mod movimentos;
pub mod comandos;
