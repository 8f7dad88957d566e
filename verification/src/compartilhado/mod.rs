pub mod dinheiro;
pub mod texto;
pub mod tempo;
pub mod ids;
pub mod documentos;
pub mod paginacao;
