use vstd::prelude::*;

use crate::compartilhado::documentos::Ncm;
use crate::compartilhado::texto::{em_branco, esta_em_branco, so_digitos};
use crate::erro::{DomainError, DomainResult};
pub use crate::fiscal::tributacao::imposto::ImpostoItem;

verus! {

#[derive(Debug, Clone, Copy, PartialEq, Eq, Structural)]
pub enum ModeloNF {
    /// modelo 55 — pessoa jurídica
    NFe,
    /// modelo 65 — consumidor final
    NFCe,
}

impl ModeloNF {
    pub fn codigo(&self) -> (c: &'static str)
        ensures
            c@ == (match self {
                ModeloNF::NFe => "55"@,
                ModeloNF::NFCe => "65"@,
            }),
    {
        match self {
            ModeloNF::NFe => "55",
            ModeloNF::NFCe => "65",
        }
    }

    /// 5102 = venda de mercadoria adquirida de terceiros, mesma UF.
    pub fn cfop_padrao(&self) -> (c: &'static str)
        ensures
            c@ == "5102"@,
    {
        "5102"
    }
}

#[derive(Debug, Clone, Copy, PartialEq, Eq, Structural)]
pub enum StatusNFe {
    Gerada,
    Transmitida,
    Autorizada,
    Rejeitada,
    Cancelada,
}

/// Nome do status (o `Debug` da variante).
pub open spec fn nome_status(s: StatusNFe) -> Seq<char> {
    match s {
        StatusNFe::Gerada => "Gerada"@,
        StatusNFe::Transmitida => "Transmitida"@,
        StatusNFe::Autorizada => "Autorizada"@,
        StatusNFe::Rejeitada => "Rejeitada"@,
        StatusNFe::Cancelada => "Cancelada"@,
    }
}

impl StatusNFe {
    pub fn nome(&self) -> (s: &'static str)
        ensures
            s@ == nome_status(*self),
    {
        match self {
            StatusNFe::Gerada => "Gerada",
            StatusNFe::Transmitida => "Transmitida",
            StatusNFe::Autorizada => "Autorizada",
            StatusNFe::Rejeitada => "Rejeitada",
            StatusNFe::Cancelada => "Cancelada",
        }
    }
}

/// Finalidade da NF-e (`finNFe`): normal (1) ou devolução/retorno (4).
#[derive(Debug, Clone, Copy, PartialEq, Eq, Structural)]
pub enum FinalidadeNFe {
    Normal,
    Devolucao,
}

impl Default for FinalidadeNFe {
    fn default() -> (f: FinalidadeNFe)
        ensures
            f == FinalidadeNFe::Normal,
    {
        FinalidadeNFe::Normal
    }
}

impl FinalidadeNFe {
    pub fn codigo(&self) -> (c: &'static str)
        ensures
            c@ == (match self {
                FinalidadeNFe::Normal => "1"@,
                FinalidadeNFe::Devolucao => "4"@,
            }),
    {
        match self {
            FinalidadeNFe::Normal => "1",
            FinalidadeNFe::Devolucao => "4",
        }
    }
}

/// Sentido da operação (`tpNF`): saída (1, venda) ou entrada (0, devolução).
#[derive(Debug, Clone, Copy, PartialEq, Eq, Structural)]
pub enum TipoNF {
    Saida,
    Entrada,
}

impl Default for TipoNF {
    fn default() -> (t: TipoNF)
        ensures
            t == TipoNF::Saida,
    {
        TipoNF::Saida
    }
}

impl TipoNF {
    pub fn codigo(&self) -> (c: &'static str)
        ensures
            c@ == (match self {
                TipoNF::Saida => "1"@,
                TipoNF::Entrada => "0"@,
            }),
    {
        match self {
            TipoNF::Saida => "1",
            TipoNF::Entrada => "0",
        }
    }
}

/// CSOSN "tributada pelo Simples Nacional sem permissão de crédito".
pub const CSOSN_TRIBUTADA_SEM_ST: &'static str = "102";
/// CST do ICMS "tributada integralmente".
pub const CST_ICMS_TRIBUTADA_INTEGRAL: &'static str = "00";

/// Item de NF: NCM, CFOP, quantidade e valor só se obtêm via `ItemNF::novo`,
/// que valida cada um.
#[derive(Debug)]
pub struct ItemNF {
    pub produto_id: u128,
    pub sku: String,
    pub descricao: String,
    ncm: String,
    cfop: String,
    quantidade: u32,
    valor_unitario_centavos: i64,
    pub imposto: ImpostoItem,
}

impl Clone for ItemNF {
    fn clone(&self) -> (c: ItemNF)
        ensures
            c == *self,
    {
        proof {
            use_type_invariant(self);
        }
        ItemNF {
            produto_id: self.produto_id,
            sku: self.sku.clone(),
            descricao: self.descricao.clone(),
            ncm: self.ncm.clone(),
            cfop: self.cfop.clone(),
            quantidade: self.quantidade,
            valor_unitario_centavos: self.valor_unitario_centavos,
            imposto: self.imposto.clone(),
        }
    }
}

/// Cópia dos itens, item a item.
pub fn clonar_itens(v: &Vec<ItemNF>) -> (c: Vec<ItemNF>)
    ensures
        c@ == v@,
{
    let mut c: Vec<ItemNF> = Vec::new();
    let mut i: usize = 0;
    while i < v.len()
        invariant
            0 <= i <= v@.len(),
            c@ == v@.subrange(0, i as int),
        decreases v@.len() - i,
    {
        c.push(v[i].clone());
        i = i + 1;
        proof {
            assert(c@ =~= v@.subrange(0, i as int));
        }
    }
    proof {
        assert(v@.subrange(0, v@.len() as int) =~= v@);
    }
    c
}

/// Subtotal de um item: valor unitário × quantidade.
pub open spec fn total_item(i: ItemNF) -> int {
    i.spec_valor_unitario() * i.spec_quantidade()
}

impl ItemNF {
    pub closed spec fn spec_produto_id(self) -> u128 {
        self.produto_id
    }

    pub closed spec fn spec_sku(self) -> Seq<char> {
        self.sku@
    }

    pub closed spec fn spec_descricao(self) -> Seq<char> {
        self.descricao@
    }

    pub closed spec fn spec_imposto(self) -> ImpostoItem {
        self.imposto
    }

    pub fn imposto(&self) -> (i: &ImpostoItem)
        ensures
            *i == self.spec_imposto(),
    {
        &self.imposto
    }

    pub closed spec fn spec_ncm(self) -> Seq<char> {
        self.ncm@
    }

    pub closed spec fn spec_cfop(self) -> Seq<char> {
        self.cfop@
    }

    pub closed spec fn spec_quantidade(self) -> int {
        self.quantidade as int
    }

    pub closed spec fn spec_valor_unitario(self) -> int {
        self.valor_unitario_centavos as int
    }

    #[verifier::type_invariant]
    closed spec fn valido(self) -> bool {
        &&& self.quantidade > 0
        &&& self.valor_unitario_centavos >= 0
        &&& !em_branco(self.cfop@)
        &&& self.ncm@.len() == 8
    }

    /// Valida quantidade positiva, valor não negativo, CFOP não vazio e NCM de
    /// 8 algarismos, nesta ordem.
    pub fn novo(
        produto_id: u128,
        sku: String,
        descricao: String,
        ncm: String,
        cfop: String,
        quantidade: u32,
        valor_unitario_centavos: i64,
        imposto: ImpostoItem,
    ) -> (r: DomainResult<ItemNF>)
        ensures
            quantidade == 0 ==> (r matches Err(DomainError::Validation(m))
                && m@ == "Quantidade deve ser maior que zero"@),
            quantidade > 0 && valor_unitario_centavos < 0 ==> (r matches Err(DomainError::Validation(m))
                && m@ == "Valor unitário não pode ser negativo"@),
            quantidade > 0 && valor_unitario_centavos >= 0 && em_branco(cfop@) ==> (r matches Err(
                DomainError::Validation(m),
            ) && m@ == "CFOP não pode ser vazio"@),
            quantidade > 0 && valor_unitario_centavos >= 0 && !em_branco(cfop@)
                && so_digitos(ncm@).len() != 8 ==> (r matches Err(DomainError::Validation(m))
                && m@ == "NCM deve ter exatamente 8 dígitos"@),
            r matches Ok(item) ==> {
                &&& quantidade > 0 && valor_unitario_centavos >= 0 && !em_branco(cfop@)
                &&& so_digitos(ncm@).len() == 8
                &&& item.spec_produto_id() == produto_id
                &&& item.spec_sku() == sku@
                &&& item.spec_descricao() == descricao@
                &&& item.spec_ncm() == so_digitos(ncm@)
                &&& item.spec_cfop() == cfop@
                &&& item.spec_quantidade() == quantidade
                &&& item.spec_valor_unitario() == valor_unitario_centavos
                &&& item.spec_imposto() == imposto
            },
            (quantidade > 0 && valor_unitario_centavos >= 0 && !em_branco(cfop@) && so_digitos(
                ncm@,
            ).len() == 8) ==> r is Ok,
    {
        if quantidade == 0 {
            return Err(DomainError::Validation(String::from_str("Quantidade deve ser maior que zero")));
        }
        if valor_unitario_centavos < 0 {
            return Err(DomainError::Validation(String::from_str("Valor unitário não pode ser negativo")));
        }
        if esta_em_branco(cfop.as_str()) {
            return Err(DomainError::Validation(String::from_str("CFOP não pode ser vazio")));
        }
        let ncm = Ncm::de_texto(ncm)?;
        Ok(ItemNF {
            produto_id,
            sku,
            descricao,
            ncm: ncm.into_string(),
            cfop,
            quantidade,
            valor_unitario_centavos,
            imposto,
        })
    }

    pub fn ncm(&self) -> (s: &str)
        ensures
            s@ == self.spec_ncm(),
    {
        self.ncm.as_str()
    }

    pub fn cfop(&self) -> (s: &str)
        ensures
            s@ == self.spec_cfop(),
    {
        self.cfop.as_str()
    }

    pub fn quantidade(&self) -> (q: u32)
        ensures
            q == self.spec_quantidade(),
            q > 0,
    {
        proof {
            use_type_invariant(self);
        }
        self.quantidade
    }

    pub fn valor_unitario_centavos(&self) -> (v: i64)
        ensures
            v == self.spec_valor_unitario(),
            v >= 0,
    {
        proof {
            use_type_invariant(self);
        }
        self.valor_unitario_centavos
    }

    /// Valor unitário × quantidade.
    pub fn total_centavos(&self) -> (t: i64)
        requires
            total_item(*self) <= i64::MAX,
        ensures
            t == total_item(*self),
    {
        let v = self.valor_unitario_centavos();
        let q = self.quantidade();
        v * (q as i64)
    }
}

/// Parcela `c` de um item para os totais: 0 = subtotal, 1..=8 = ICMS, PIS,
/// COFINS, ISS, CBS, IBS UF, IBS municipal, IS.
pub open spec fn valor_campo(i: ItemNF, c: int) -> int {
    if c == 0 {
        total_item(i)
    } else if c == 1 {
        i.spec_imposto().icms_centavos as int
    } else if c == 2 {
        i.spec_imposto().pis_centavos as int
    } else if c == 3 {
        i.spec_imposto().cofins_centavos as int
    } else if c == 4 {
        i.spec_imposto().iss_centavos as int
    } else if c == 5 {
        i.spec_imposto().cbs_centavos as int
    } else if c == 6 {
        i.spec_imposto().ibs_uf_centavos as int
    } else if c == 7 {
        i.spec_imposto().ibs_mun_centavos as int
    } else {
        i.spec_imposto().is_centavos as int
    }
}

/// Soma da parcela `c` sobre os itens.
pub open spec fn soma_campo(itens: Seq<ItemNF>, c: int) -> int
    decreases itens.len(),
{
    if itens.len() == 0 {
        0
    } else {
        soma_campo(itens.drop_last(), c) + valor_campo(itens.last(), c)
    }
}

/// Nenhuma soma parcial dos totais estoura `i64` (a soma do Rust não estoura).
pub open spec fn totais_sem_estouro(itens: Seq<ItemNF>, desconto_centavos: int) -> bool {
    &&& forall|k: int, c: int|
        0 <= k <= itens.len() && 0 <= c <= 8 ==> i64::MIN <= #[trigger] soma_campo(itens.take(k), c)
            <= i64::MAX
    &&& forall|k: int| 0 <= k < itens.len() ==> total_item(#[trigger] itens[k]) <= i64::MAX
    &&& i64::MIN <= soma_campo(itens, 0) - desconto_centavos <= i64::MAX
}

/// Parcela `c` de um item, executável.
fn campo_exec(item: &ItemNF, c: usize, total: i64) -> (v: i64)
    requires
        c <= 8,
        total == total_item(*item),
    ensures
        v == valor_campo(*item, c as int),
{
    let i = item.imposto();
    if c == 0 {
        total
    } else if c == 1 {
        i.icms_centavos
    } else if c == 2 {
        i.pis_centavos
    } else if c == 3 {
        i.cofins_centavos
    } else if c == 4 {
        i.iss_centavos
    } else if c == 5 {
        i.cbs_centavos
    } else if c == 6 {
        i.ibs_uf_centavos
    } else if c == 7 {
        i.ibs_mun_centavos
    } else {
        i.is_centavos
    }
}

/// Decide se os totais da nota cabem em `i64` (a condição de
/// `TotaisNF::calcular_com_desconto` e de `NotaFiscal::gerar`).
pub fn totais_cabem(itens: &[ItemNF], desconto_centavos: i64) -> (b: bool)
    ensures
        b == totais_sem_estouro(itens@, desconto_centavos as int),
{
    let n = itens.len();
    let mut s: Vec<i64> = Vec::new();
    let mut c0: usize = 0;
    while c0 < 9
        invariant
            0 <= c0 <= 9,
            s@.len() == c0,
            forall|c: int| 0 <= c < c0 ==> s@[c] == 0,
        decreases 9 - c0,
    {
        s.push(0);
        c0 = c0 + 1;
    }
    proof {
        assert forall|c: int| 0 <= c <= 8 implies s@[c] == soma_campo(itens@.take(0), c) by {
            assert(itens@.take(0).len() == 0);
        }
    }
    let mut k: usize = 0;
    while k < n
        invariant
            n == itens@.len(),
            0 <= k <= n,
            s@.len() == 9,
            forall|c: int| 0 <= c <= 8 ==> s@[c] == soma_campo(itens@.take(k as int), c),
            forall|j: int, c: int|
                0 <= j <= k && 0 <= c <= 8 ==> i64::MIN <= #[trigger] soma_campo(itens@.take(j), c)
                    <= i64::MAX,
            forall|j: int| 0 <= j < k ==> total_item(#[trigger] itens@[j]) <= i64::MAX,
        decreases n - k,
    {
        let item = &itens[k];
        let v = item.valor_unitario_centavos();
        let q = item.quantidade();
        let total = match v.checked_mul(q as i64) {
            Some(t) => t,
            None => {
                proof {
                    assert(total_item(itens@[k as int]) > i64::MAX);
                }
                return false;
            },
        };
        let ghost antes = s@;
        let mut c: usize = 0;
        while c < 9
            invariant
                n == itens@.len(),
                0 <= k < n,
                0 <= c <= 9,
                *item == itens@[k as int],
                total == total_item(*item),
                s@.len() == 9,
                forall|j: int| 0 <= j <= 8 ==> antes[j] == soma_campo(itens@.take(k as int), j),
                forall|j: int| 0 <= j < c ==> s@[j] == soma_campo(itens@.take(k + 1), j),
                forall|j: int| c <= j <= 8 ==> s@[j] == antes[j],
                forall|j: int| 0 <= j < c ==> i64::MIN <= #[trigger] soma_campo(itens@.take(k + 1), j)
                    <= i64::MAX,
            decreases 9 - c,
        {
            proof {
                lema_soma_passo(itens@, k as int, c as int);
            }
            let atual = s[c];
            let parcela = campo_exec(item, c, total);
            proof {
                assert(atual == s@[c as int]);
                assert(atual == antes[c as int]);
                assert(atual == soma_campo(itens@.take(k as int), c as int));
            }
            match atual.checked_add(parcela) {
                Some(novo) => {
                    let ghost s_antes = s@;
                    s.set(c, novo);
                    proof {
                        assert forall|j: int| c < j <= 8 implies s@[j] == antes[j] by {
                            assert(s@[j] == s_antes[j]);
                        }
                        assert forall|j: int| 0 <= j < c implies s@[j] == s_antes[j] by {}
                    }
                },
                None => {
                    proof {
                        assert(!(i64::MIN <= soma_campo(itens@.take(k + 1), c as int) <= i64::MAX));
                    }
                    return false;
                },
            }
            c = c + 1;
        }
        proof {
            assert forall|j: int, c2: int|
                0 <= j <= k + 1 && 0 <= c2 <= 8 implies i64::MIN <= #[trigger] soma_campo(itens@.take(j), c2)
                <= i64::MAX by {
                if j == k + 1 {
                    assert(i64::MIN <= soma_campo(itens@.take(k + 1), c2) <= i64::MAX);
                }
            }
        }
        k = k + 1;
    }
    proof {
        assert(itens@.take(n as int) =~= itens@);
    }
    let produtos = s[0];
    produtos.checked_sub(desconto_centavos).is_some()
}

#[derive(Debug, Clone, Copy)]
pub struct TotaisNF {
    pub produtos_centavos: i64,
    pub icms_centavos: i64,
    pub pis_centavos: i64,
    pub cofins_centavos: i64,
    pub iss_centavos: i64,
    pub cbs_centavos: i64,
    pub ibs_uf_centavos: i64,
    pub ibs_mun_centavos: i64,
    pub is_centavos: i64,
    /// Desconto global da venda destacado na NF.
    pub desconto_centavos: i64,
    /// Total da nota: produtos − desconto.
    pub total_centavos: i64,
}

/// Os totais são as somas dos itens e o total é produtos − desconto.
pub open spec fn totais_de(itens: Seq<ItemNF>, desconto_centavos: int, t: TotaisNF) -> bool {
    &&& t.produtos_centavos == soma_campo(itens, 0)
    &&& t.icms_centavos == soma_campo(itens, 1)
    &&& t.pis_centavos == soma_campo(itens, 2)
    &&& t.cofins_centavos == soma_campo(itens, 3)
    &&& t.iss_centavos == soma_campo(itens, 4)
    &&& t.cbs_centavos == soma_campo(itens, 5)
    &&& t.ibs_uf_centavos == soma_campo(itens, 6)
    &&& t.ibs_mun_centavos == soma_campo(itens, 7)
    &&& t.is_centavos == soma_campo(itens, 8)
    &&& t.desconto_centavos == desconto_centavos
    &&& t.total_centavos == soma_campo(itens, 0) - desconto_centavos
}

proof fn lema_soma_passo(itens: Seq<ItemNF>, k: int, c: int)
    requires
        0 <= k < itens.len(),
    ensures
        soma_campo(itens.take(k + 1), c) == soma_campo(itens.take(k), c) + valor_campo(itens[k], c),
{
    assert(itens.take(k + 1).drop_last() =~= itens.take(k));
}

/// Parcela de imposto `c` (1..=8) de um item, executável.
fn parcela_imposto(item: &ItemNF, c: usize) -> (v: i64)
    requires
        1 <= c <= 8,
    ensures
        v == valor_campo(*item, c as int),
{
    let i = item.imposto();
    if c == 1 {
        i.icms_centavos
    } else if c == 2 {
        i.pis_centavos
    } else if c == 3 {
        i.cofins_centavos
    } else if c == 4 {
        i.iss_centavos
    } else if c == 5 {
        i.cbs_centavos
    } else if c == 6 {
        i.ibs_uf_centavos
    } else if c == 7 {
        i.ibs_mun_centavos
    } else {
        i.is_centavos
    }
}

/// Soma exata da parcela de imposto `c` (1..=8) sobre os itens; em `i128`
/// nenhuma soma parcial estoura.
fn soma_imposto(itens: &[ItemNF], c: usize) -> (s: i128)
    requires
        1 <= c <= 8,
    ensures
        s == soma_campo(itens@, c as int),
{
    let mut s: i128 = 0;
    let mut k: usize = 0;
    proof {
        assert(itens@.take(0).len() == 0);
    }
    while k < itens.len()
        invariant
            1 <= c <= 8,
            0 <= k <= itens@.len(),
            s == soma_campo(itens@.take(k as int), c as int),
            -(k as int) * 0x8000_0000_0000_0000 <= s <= (k as int) * 0x7fff_ffff_ffff_ffff,
        decreases itens@.len() - k,
    {
        let v = parcela_imposto(&itens[k], c);
        proof {
            lema_soma_passo(itens@, k as int, c as int);
            assert((k as int) + 1 <= usize::MAX);
        }
        s = s + v as i128;
        k = k + 1;
    }
    proof {
        assert(itens@.take(itens@.len() as int) =~= itens@);
    }
    s
}

/// Com subtotais de item nunca negativos, o subtotal de um prefixo não passa
/// do subtotal de todos os itens.
proof fn lema_subtotal_prefixo(s: Seq<ItemNF>, k: int)
    requires
        0 <= k <= s.len(),
        forall|j: int| 0 <= j < s.len() ==> total_item(#[trigger] s[j]) >= 0,
    ensures
        soma_campo(s.take(k), 0) <= soma_campo(s, 0),
    decreases s.len(),
{
    if k == s.len() {
        assert(s.take(k) =~= s);
    } else {
        let d = s.drop_last();
        assert forall|j: int| 0 <= j < d.len() implies total_item(#[trigger] d[j]) >= 0 by {
            assert(d[j] == s[j]);
        }
        lema_subtotal_prefixo(d, k);
        assert(d.take(k) =~= s.take(k));
        assert(total_item(s[s.len() - 1]) >= 0);
    }
}

/// Subtotal de todos os itens, ou `None` quando ele passa de `i64::MAX`.
fn soma_subtotais(itens: &[ItemNF]) -> (r: Option<i128>)
    ensures
        r matches Some(s) ==> s == soma_campo(itens@, 0),
        r is None ==> soma_campo(itens@, 0) > i64::MAX,
{
    let mut k: usize = 0;
    while k < itens.len()
        invariant
            0 <= k <= itens@.len(),
            forall|j: int| 0 <= j < k ==> total_item(#[trigger] itens@[j]) >= 0,
        decreases itens@.len() - k,
    {
        let q = itens[k].quantidade();
        let v = itens[k].valor_unitario_centavos();
        proof {
            assert(v * q >= 0) by (nonlinear_arith)
                requires
                    v >= 0,
                    q > 0,
            ;
        }
        k = k + 1;
    }
    let mut s: i128 = 0;
    let mut k: usize = 0;
    proof {
        assert(itens@.take(0).len() == 0);
    }
    while k < itens.len()
        invariant
            0 <= k <= itens@.len(),
            forall|j: int| 0 <= j < itens@.len() ==> total_item(#[trigger] itens@[j]) >= 0,
            s == soma_campo(itens@.take(k as int), 0),
            0 <= s <= i64::MAX,
        decreases itens@.len() - k,
    {
        let q = itens[k].quantidade();
        let v = itens[k].valor_unitario_centavos();
        proof {
            assert(v * q <= 0x7fff_ffff_ffff_ffff * 0xffff_ffff) by (nonlinear_arith)
                requires
                    0 <= v <= 0x7fff_ffff_ffff_ffff,
                    0 < q <= 0xffff_ffff,
            ;
            lema_soma_passo(itens@, k as int, 0);
        }
        let t: i128 = v as i128 * q as i128;
        s = s + t;
        if s > 0x7fff_ffff_ffff_ffff {
            proof {
                lema_subtotal_prefixo(itens@, k + 1);
            }
            return None;
        }
        k = k + 1;
    }
    proof {
        assert(itens@.take(itens@.len() as int) =~= itens@);
    }
    Some(s)
}

/// Decide se `t` são os totais dos itens com o desconto que `t` destaca (as
/// somas em `i128` não estouram, qualquer que seja a nota).
pub(crate) fn totais_conferem(itens: &[ItemNF], t: &TotaisNF) -> (b: bool)
    ensures
        b == totais_de(itens@, t.desconto_centavos as int, *t),
{
    let p = match soma_subtotais(itens) {
        Some(p) => p,
        None => {
            return false;
        },
    };
    if p != t.produtos_centavos as i128 || p - t.desconto_centavos as i128 != t.total_centavos as i128 {
        return false;
    }
    soma_imposto(itens, 1) == t.icms_centavos as i128 && soma_imposto(itens, 2) == t.pis_centavos as i128
        && soma_imposto(itens, 3) == t.cofins_centavos as i128 && soma_imposto(itens, 4)
        == t.iss_centavos as i128 && soma_imposto(itens, 5) == t.cbs_centavos as i128 && soma_imposto(
        itens,
        6,
    ) == t.ibs_uf_centavos as i128 && soma_imposto(itens, 7) == t.ibs_mun_centavos as i128
        && soma_imposto(itens, 8) == t.is_centavos as i128
}

impl TotaisNF {
    pub fn calcular(itens: &[ItemNF]) -> (t: TotaisNF)
        requires
            totais_sem_estouro(itens@, 0),
        ensures
            totais_de(itens@, 0, t),
    {
        Self::calcular_com_desconto(itens, 0)
    }

    pub fn calcular_com_desconto(itens: &[ItemNF], desconto_centavos: i64) -> (t: TotaisNF)
        requires
            totais_sem_estouro(itens@, desconto_centavos as int),
        ensures
            totais_de(itens@, desconto_centavos as int, t),
    {
        let mut s: [i64; 9] = [0; 9];
        let mut k: usize = 0;
        proof {
            assert forall|c: int| 0 <= c <= 8 implies soma_campo(itens@.take(0), c) == 0 by {
                assert(itens@.take(0).len() == 0);
            }
        }
        while k < itens.len()
            invariant
                totais_sem_estouro(itens@, desconto_centavos as int),
                0 <= k <= itens@.len(),
                forall|c: int| 0 <= c <= 8 ==> s@[c] == soma_campo(itens@.take(k as int), c),
            decreases itens@.len() - k,
        {
            let item = &itens[k];
            proof {
                assert forall|c: int| 0 <= c <= 8 implies soma_campo(itens@.take(k + 1), c) == soma_campo(itens@.take(k as int), c) + valor_campo(itens@[k as int], c) by {
                    lema_soma_passo(itens@, k as int, c);
                }
                assert(total_item(itens@[k as int]) <= i64::MAX);
                assert(i64::MIN <= soma_campo(itens@.take(k + 1), 0) <= i64::MAX);
                assert(i64::MIN <= soma_campo(itens@.take(k + 1), 1) <= i64::MAX);
                assert(i64::MIN <= soma_campo(itens@.take(k + 1), 2) <= i64::MAX);
                assert(i64::MIN <= soma_campo(itens@.take(k + 1), 3) <= i64::MAX);
                assert(i64::MIN <= soma_campo(itens@.take(k + 1), 4) <= i64::MAX);
                assert(i64::MIN <= soma_campo(itens@.take(k + 1), 5) <= i64::MAX);
                assert(i64::MIN <= soma_campo(itens@.take(k + 1), 6) <= i64::MAX);
                assert(i64::MIN <= soma_campo(itens@.take(k + 1), 7) <= i64::MAX);
                assert(i64::MIN <= soma_campo(itens@.take(k + 1), 8) <= i64::MAX);
            }
            s[0] = s[0] + item.total_centavos();
            s[1] = s[1] + item.imposto().icms_centavos;
            s[2] = s[2] + item.imposto().pis_centavos;
            s[3] = s[3] + item.imposto().cofins_centavos;
            s[4] = s[4] + item.imposto().iss_centavos;
            s[5] = s[5] + item.imposto().cbs_centavos;
            s[6] = s[6] + item.imposto().ibs_uf_centavos;
            s[7] = s[7] + item.imposto().ibs_mun_centavos;
            s[8] = s[8] + item.imposto().is_centavos;
            k = k + 1;
        }
        proof {
            assert(itens@.take(itens@.len() as int) =~= itens@);
        }
        TotaisNF {
            produtos_centavos: s[0],
            icms_centavos: s[1],
            pis_centavos: s[2],
            cofins_centavos: s[3],
            iss_centavos: s[4],
            cbs_centavos: s[5],
            ibs_uf_centavos: s[6],
            ibs_mun_centavos: s[7],
            is_centavos: s[8],
            desconto_centavos,
            total_centavos: s[0] - desconto_centavos,
        }
    }
}

/// Soma de `f` sobre os itens.
pub open spec fn soma_itens(itens: Seq<ItemNF>, f: spec_fn(ItemNF) -> int) -> int
    decreases itens.len(),
{
    if itens.len() == 0 {
        0
    } else {
        soma_itens(itens.drop_last(), f) + f(itens.last())
    }
}

proof fn lema_soma_campo_por_funcao(itens: Seq<ItemNF>, c: int, f: spec_fn(ItemNF) -> int)
    requires
        forall|i: ItemNF| #[trigger] valor_campo(i, c) == f(i),
    ensures
        soma_campo(itens, c) == soma_itens(itens, f),
    decreases itens.len(),
{
    if itens.len() > 0 {
        lema_soma_campo_por_funcao(itens.drop_last(), c, f);
        assert(valor_campo(itens.last(), c) == f(itens.last()));
    }
}

/// Os totais da nota são, campo a campo, as somas do mesmo campo nos itens:
/// produtos = Σ valor unitário × quantidade, ICMS = Σ ICMS, …, IBS municipal
/// = Σ IBS municipal, IS = Σ IS; e o total é produtos − desconto.
pub proof fn lema_totais_somam_os_itens(itens: Seq<ItemNF>, desconto: int, t: TotaisNF)
    requires
        totais_de(itens, desconto, t),
    ensures
        t.produtos_centavos == soma_itens(itens, |i: ItemNF| i.spec_valor_unitario() * i.spec_quantidade()),
        t.icms_centavos == soma_itens(itens, |i: ItemNF| i.spec_imposto().icms_centavos as int),
        t.pis_centavos == soma_itens(itens, |i: ItemNF| i.spec_imposto().pis_centavos as int),
        t.cofins_centavos == soma_itens(itens, |i: ItemNF| i.spec_imposto().cofins_centavos as int),
        t.iss_centavos == soma_itens(itens, |i: ItemNF| i.spec_imposto().iss_centavos as int),
        t.cbs_centavos == soma_itens(itens, |i: ItemNF| i.spec_imposto().cbs_centavos as int),
        t.ibs_uf_centavos == soma_itens(itens, |i: ItemNF| i.spec_imposto().ibs_uf_centavos as int),
        t.ibs_mun_centavos == soma_itens(itens, |i: ItemNF| i.spec_imposto().ibs_mun_centavos as int),
        t.is_centavos == soma_itens(itens, |i: ItemNF| i.spec_imposto().is_centavos as int),
        t.desconto_centavos == desconto,
        t.total_centavos == t.produtos_centavos - desconto,
{
    lema_soma_campo_por_funcao(itens, 0, |i: ItemNF| i.spec_valor_unitario() * i.spec_quantidade());
    lema_soma_campo_por_funcao(itens, 1, |i: ItemNF| i.spec_imposto().icms_centavos as int);
    lema_soma_campo_por_funcao(itens, 2, |i: ItemNF| i.spec_imposto().pis_centavos as int);
    lema_soma_campo_por_funcao(itens, 3, |i: ItemNF| i.spec_imposto().cofins_centavos as int);
    lema_soma_campo_por_funcao(itens, 4, |i: ItemNF| i.spec_imposto().iss_centavos as int);
    lema_soma_campo_por_funcao(itens, 5, |i: ItemNF| i.spec_imposto().cbs_centavos as int);
    lema_soma_campo_por_funcao(itens, 6, |i: ItemNF| i.spec_imposto().ibs_uf_centavos as int);
    lema_soma_campo_por_funcao(itens, 7, |i: ItemNF| i.spec_imposto().ibs_mun_centavos as int);
    lema_soma_campo_por_funcao(itens, 8, |i: ItemNF| i.spec_imposto().is_centavos as int);
}

} // verus!
