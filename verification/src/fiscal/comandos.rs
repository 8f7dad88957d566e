//! Comandos e consultas do fiscal.

use vstd::prelude::*;

verus! {

/// Cancela uma NF autorizada (dentro de 24h da autorização).
#[derive(Debug, Clone)]
pub struct CancelarNotaFiscal {
    pub nf_id: u128,
    pub motivo: String,
}

/// Retransmite uma NF presa (gerada, transmitida ou rejeitada).
#[derive(Debug, Clone, Copy)]
pub struct RetransmitirNotaFiscal {
    pub nf_id: u128,
}

#[derive(Debug, Clone)]
pub struct NotaFiscalResult {
    pub nf_id: u128,
    pub venda_id: u128,
    pub cliente_id: Option<u128>,
    pub modelo: String,
    pub serie: String,
    pub numero: i32,
    pub chave: Option<String>,
    pub status: String,
    /// Total da nota (produtos − desconto).
    pub total_centavos: i64,
    pub desconto_centavos: i64,
    pub cancelamento_pendente: bool,
    pub icms_centavos: i64,
    pub pis_centavos: i64,
    pub cofins_centavos: i64,
    pub iss_centavos: i64,
    pub cbs_centavos: i64,
    pub ibs_uf_centavos: i64,
    pub ibs_mun_centavos: i64,
    pub is_centavos: i64,
}

#[derive(Debug, Clone, Copy)]
pub struct ListarNotasFiscais;

#[derive(Debug, Clone, Copy)]
pub struct BuscarNotaFiscal {
    pub nf_id: u128,
}

/// Classe tributária de referência (cClassTrib) para o catálogo.
#[derive(Debug, Clone)]
pub struct ClasseTributariaResult {
    pub c_class_trib: String,
    pub descricao: String,
    pub cst_ibs_cbs: String,
    pub reducao_bps: i32,
}

#[derive(Debug, Clone, Copy)]
pub struct ListarClassesTributarias;

/// Alíquota efetiva (bps) que é custo do vendedor para um produto, na fase
/// vigente e no perfil fiscal do tenant.
#[derive(Debug, Clone, Copy)]
pub struct AliquotaEfetivaProduto {
    pub produto_id: u128,
    pub imposto_efetivo_bps: i32,
}

#[derive(Debug, Clone, Copy)]
pub struct ListarAliquotaEfetivaProdutos;

} // verus!
