pub mod aliquota;
pub mod classe_tributaria;
pub mod fase_transicao;
pub mod perfil_fiscal;
pub mod imposto;
pub mod motor;

pub use crate::compartilhado::tempo::hoje_brasil;
