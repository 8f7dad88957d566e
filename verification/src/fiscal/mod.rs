pub mod tributacao;
pub mod value_objects;
pub mod cfop;
pub mod sefaz;
pub mod nota_fiscal;
pub mod emissao;
pub mod aliquotas;
pub mod comandos;
