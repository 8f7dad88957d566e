//! Movimentações de estoque que os eventos de compras e vendas disparam, e o
//! carregamento do registro de estoque de um produto.

use vstd::prelude::*;

use crate::compartilhado::ids::{ler_id, texto_id, uuid_hifenado, uuid_lido};
use crate::erro::{AppError, DomainError};
use crate::estoque::item_estoque::ItemEstoque;
use crate::vendas::{ItemRecebido, ItemVendaSnapshot};

verus! {

/// Entrada de estoque a registrar para um produto.
#[derive(Debug, Clone, Copy, PartialEq, Eq, Structural)]
pub struct EntradaPlanejada {
    pub produto_id: u128,
    pub quantidade: u32,
    pub custo_unitario_centavos: i64,
}

/// Entradas de um recebimento de mercadoria: uma por item cujo produto é um
/// UUID legível, na ordem dos itens (os demais são ignorados).
pub open spec fn entradas_do_recebimento(itens: Seq<ItemRecebido>) -> Seq<EntradaPlanejada>
    decreases itens.len(),
{
    if itens.len() == 0 {
        Seq::empty()
    } else {
        let anteriores = entradas_do_recebimento(itens.drop_last());
        let item = itens.last();
        match uuid_lido(item.produto_id@) {
            Some(id) => anteriores.push(
                EntradaPlanejada {
                    produto_id: id,
                    quantidade: item.quantidade,
                    custo_unitario_centavos: item.custo_unitario_centavos,
                },
            ),
            None => anteriores,
        }
    }
}

/// Motivo das entradas de um recebimento.
pub open spec fn motivo_recebimento() -> Seq<char> {
    "Recebimento de mercadoria"@
}

/// As entradas que um recebimento de mercadoria dispara.
pub fn planejar_entradas_recebimento(itens: &Vec<ItemRecebido>) -> (r: Vec<EntradaPlanejada>)
    ensures
        r@ == entradas_do_recebimento(itens@),
{
    let mut r: Vec<EntradaPlanejada> = Vec::new();
    let mut i: usize = 0;
    while i < itens.len()
        invariant
            0 <= i <= itens@.len(),
            r@ == entradas_do_recebimento(itens@.take(i as int)),
        decreases itens@.len() - i,
    {
        let item = &itens[i];
        proof {
            assert(itens@.take(i + 1).drop_last() =~= itens@.take(i as int));
        }
        match ler_id(item.produto_id.as_str()) {
            Some(id) => {
                r.push(
                    EntradaPlanejada {
                        produto_id: id,
                        quantidade: item.quantidade,
                        custo_unitario_centavos: item.custo_unitario_centavos,
                    },
                );
            },
            None => {},
        }
        i = i + 1;
    }
    proof {
        assert(itens@.take(itens@.len() as int) =~= itens@);
    }
    r
}

/// Produto e quantidade de cada item vendido (ou devolvido) cujo produto é um
/// UUID legível, na ordem dos itens.
pub open spec fn quantidades_por_produto(itens: Seq<ItemVendaSnapshot>) -> Seq<(u128, u32)>
    decreases itens.len(),
{
    if itens.len() == 0 {
        Seq::empty()
    } else {
        let anteriores = quantidades_por_produto(itens.drop_last());
        let item = itens.last();
        match uuid_lido(item.produto_id@) {
            Some(id) => anteriores.push((id, item.quantidade)),
            None => anteriores,
        }
    }
}

/// Baixas de uma venda confirmada, ou reentradas de uma devolução: produto e
/// quantidade de cada item com produto legível.
pub fn quantidades_dos_itens(itens: &Vec<ItemVendaSnapshot>) -> (r: Vec<(u128, u32)>)
    ensures
        r@ == quantidades_por_produto(itens@),
{
    let mut r: Vec<(u128, u32)> = Vec::new();
    let mut i: usize = 0;
    while i < itens.len()
        invariant
            0 <= i <= itens@.len(),
            r@ == quantidades_por_produto(itens@.take(i as int)),
        decreases itens@.len() - i,
    {
        let item = &itens[i];
        proof {
            assert(itens@.take(i + 1).drop_last() =~= itens@.take(i as int));
        }
        match ler_id(item.produto_id.as_str()) {
            Some(id) => {
                r.push((id, item.quantidade));
            },
            None => {},
        }
        i = i + 1;
    }
    proof {
        assert(itens@.take(itens@.len() as int) =~= itens@);
    }
    r
}

/// Motivo da reentrada de itens devolvidos.
pub open spec fn motivo_devolucao_venda(venda_id: Seq<char>) -> Seq<char> {
    "Devolução da venda "@ + venda_id
}

/// O motivo registrado na reentrada de itens devolvidos de uma venda.
pub fn motivo_reentrada(venda_id: &str) -> (m: String)
    ensures
        m@ == motivo_devolucao_venda(venda_id@),
{
    let mut m = String::from_str("Devolução da venda ");
    m.append(venda_id);
    m
}

/// O registro de estoque do produto: o persistido, ou um novo com saldo e
/// mínimo zerados.
pub fn carregar_ou_criar(encontrado: Option<ItemEstoque>, produto_id: u128) -> (item: ItemEstoque)
    ensures
        encontrado matches Some(e) ==> item == e,
        encontrado is None ==> {
            &&& item.spec_produto_id() == produto_id
            &&& item.spec_saldo() == 0
            &&& item.spec_estoque_minimo() == 0
            &&& item.spec_version() == 0
            &&& item.spec_eventos().len() == 0
        },
{
    match encontrado {
        Some(e) => e,
        None => ItemEstoque::criar(produto_id, 0),
    }
}

/// Mensagem da baixa sobre produto sem registro de estoque.
pub open spec fn msg_estoque_nao_encontrado(produto_id: u128) -> Seq<char> {
    "Estoque do produto "@ + uuid_hifenado(produto_id) + " não encontrado"@
}

/// A baixa exige o registro de estoque do produto.
pub fn exigir_estoque(encontrado: Option<ItemEstoque>, produto_id: u128) -> (r: Result<ItemEstoque, AppError>)
    ensures
        encontrado matches Some(e) ==> r == Ok::<ItemEstoque, AppError>(e),
        encontrado is None ==> (r matches Err(AppError::Domain(DomainError::NotFound(m))) && m@
            == msg_estoque_nao_encontrado(produto_id)),
{
    match encontrado {
        Some(e) => Ok(e),
        None => {
            let mut m = String::from_str("Estoque do produto ");
            let t = texto_id(produto_id);
            m.append(t.as_str());
            m.append(" não encontrado");
            Err(AppError::Domain(DomainError::NotFound(m)))
        },
    }
}

} // verus!
