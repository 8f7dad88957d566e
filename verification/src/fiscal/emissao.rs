//! Regras da emissão de NF a partir de uma venda: rateio do desconto, item
//! tributado, numeração da série, reação à resposta da SEFAZ e à devolução.

use vstd::prelude::*;

use crate::compartilhado::texto::{
    decimal_com_sinal, decimal_com_zeros, escrever_decimal_com_sinal, escrever_decimal_com_zeros,
    texto_de, textos_iguais,
};
use crate::compartilhado::ids::{
    descrever_erro_uuid, ler_id, ler_uuid, novo_id, texto_id, texto_id_simples, uuid_hifenado, uuid_lido,
    uuid_simples,
};
use crate::compartilhado::texto::so_digitos;
use crate::erro::{AppError, DomainError, DomainResult};
use crate::fiscal::cfop::{
    cfop_de, iguais_ignorando_caixa, iguais_sem_caixa, interestadual, lema_cfop_quatro_algarismos,
    resolver_cfop, TipoOperacao,
};
use crate::fiscal::tributacao::classe_tributaria::ClasseTributariaInfo;
use crate::fiscal::tributacao::fase_transicao::{cobra_legado, destaca_ibs_cbs};
use crate::fiscal::tributacao::imposto::{cabe_i64, div_trunc};
use crate::fiscal::tributacao::motor::{
    entrada_valida, imposto_calculado, AliquotasItem, ContextoFiscal, MotorTributario,
};
use crate::fiscal::tributacao::perfil_fiscal::RegimeTributario;
use crate::fiscal::nota_fiscal::{
    mesmos_dados, nf_consistente, pode_autorizar, pode_cancelar, pode_rejeitar, pode_retransmitir,
    pode_transmitir, ultimo_evento,
    NotaFiscal, NotaFiscalEvent,
};
use crate::fiscal::sefaz::{SefazClient, SefazError, SefazResponse};
use crate::fiscal::value_objects::{nome_status, ItemNF, ModeloNF, StatusNFe};
use crate::vendas::ItemVendaSnapshot;

verus! {

/// Série única de emissão enquanto não há gestão de séries.
pub const SERIE_PADRAO: i32 = 1;

/// Texto da série com três dígitos (`{:03}`): `1` → `"001"`; negativos levam
/// o sinal dentro da largura.
pub open spec fn serie_formatada(serie: int) -> Seq<char> {
    if serie < 0 {
        seq!['-'] + decimal_com_zeros((-serie) as nat, 2)
    } else {
        decimal_com_zeros(serie as nat, 3)
    }
}

/// A série formatada com três dígitos.
pub fn serie_texto(serie: i32) -> (s: String)
    ensures
        s@ == serie_formatada(serie as int),
{
    let mut cs: Vec<char> = Vec::new();
    if serie < 0 {
        cs.push('-');
        let m: i64 = -(serie as i64);
        escrever_decimal_com_zeros(m as u128, 2, &mut cs);
    } else {
        escrever_decimal_com_zeros(serie as u128, 3, &mut cs);
    }
    proof {
        if serie < 0 {
            assert(cs@ =~= seq!['-'] + decimal_com_zeros((-serie) as nat, 2));
        }
    }
    texto_de(&cs)
}

/// Modelo da nota: NF-e quando há cliente identificado, NFC-e para consumidor
/// final anônimo.
pub fn modelo_para_cliente(cliente_id: Option<u128>) -> (m: ModeloNF)
    ensures
        cliente_id is Some ==> m == ModeloNF::NFe,
        cliente_id is None ==> m == ModeloNF::NFCe,
{
    if cliente_id.is_some() {
        ModeloNF::NFe
    } else {
        ModeloNF::NFCe
    }
}

/// Mensagem de série esgotada.
pub open spec fn msg_serie_esgotada(serie: int, proximo: int) -> Seq<char> {
    "Numeração da série "@ + decimal_com_sinal(serie) + " esgotada ("@ + decimal_com_sinal(proximo)
        + ")"@
}

/// Número da NF a partir do contador da série: precisa caber em `u32`.
pub fn numero_da_serie(serie: i32, proximo: i64) -> (r: DomainResult<u32>)
    ensures
        0 <= proximo <= u32::MAX ==> r == Ok::<u32, DomainError>(proximo as u32),
        !(0 <= proximo <= u32::MAX) ==> (r matches Err(DomainError::BusinessRule(m)) && m@
            == msg_serie_esgotada(serie as int, proximo as int)),
{
    if 0 <= proximo && proximo <= 0xffff_ffff {
        return Ok(proximo as u32);
    }
    let mut cs: Vec<char> = Vec::new();
    escrever_decimal_com_sinal(serie as i64, &mut cs);
    let mut ps: Vec<char> = Vec::new();
    escrever_decimal_com_sinal(proximo, &mut ps);
    let mut m = String::from_str("Numeração da série ");
    let s = texto_de(&cs);
    m.append(s.as_str());
    m.append(" esgotada (");
    let p = texto_de(&ps);
    m.append(p.as_str());
    m.append(")");
    Err(DomainError::BusinessRule(m))
}

/// Uma chave de configuração liga um recurso quando vale `true` (qualquer
/// caixa) ou `1`; ausente, fica desligado.
pub open spec fn chave_ligada(valor: Option<Seq<char>>) -> bool {
    match valor {
        Some(v) => iguais_sem_caixa(v, "true"@) || v == "1"@,
        None => false,
    }
}

/// Interpreta o valor de uma chave de configuração liga/desliga.
pub fn flag_ativa(valor: Option<&str>) -> (b: bool)
    ensures
        b == chave_ligada(
            match valor {
                Some(v) => Some(v@),
                None => None,
            },
        ),
{
    match valor {
        Some(v) => {
            let t = iguais_ignorando_caixa(v, "true");
            let um = textos_iguais(v, "1");
            t || um
        },
        None => false,
    }
}

// ---------------------------------------------------------------------------
// Rateio do desconto global da venda entre os itens
// ---------------------------------------------------------------------------

/// Subtotal de um item vendido: preço unitário × quantidade.
pub open spec fn subtotal_venda(i: ItemVendaSnapshot) -> int {
    i.preco_unitario_centavos * i.quantidade
}

/// Soma dos subtotais dos itens.
pub open spec fn total_bruto(s: Seq<ItemVendaSnapshot>) -> int
    decreases s.len(),
{
    if s.len() == 0 {
        0
    } else {
        total_bruto(s.drop_last()) + subtotal_venda(s.last())
    }
}

/// Quota proporcional do `k`-ésimo item (divisão truncada, como a do Rust).
pub open spec fn quota_proporcional(s: Seq<ItemVendaSnapshot>, desconto: int, k: int) -> int {
    div_trunc(desconto * subtotal_venda(s[k]), total_bruto(s))
}

/// Soma das quotas proporcionais dos `k` primeiros itens.
pub open spec fn soma_quotas(s: Seq<ItemVendaSnapshot>, desconto: int, k: int) -> int
    decreases k,
{
    if k <= 0 {
        0
    } else {
        soma_quotas(s, desconto, k - 1) + quota_proporcional(s, desconto, k - 1)
    }
}

/// O desconto é rateado (há desconto positivo e total bruto positivo).
pub open spec fn desconto_rateavel(s: Seq<ItemVendaSnapshot>, desconto: int) -> bool {
    desconto > 0 && total_bruto(s) > 0
}

/// Rateio do desconto: zeros sem desconto rateável; senão a quota
/// proporcional de cada item, e a sobra de arredondamento no último.
pub open spec fn rateio(s: Seq<ItemVendaSnapshot>, desconto: int) -> Seq<int> {
    if !desconto_rateavel(s, desconto) {
        Seq::new(s.len(), |k: int| 0int)
    } else {
        Seq::new(
            s.len(),
            |k: int|
                if k == s.len() - 1 {
                    desconto - soma_quotas(s, desconto, k)
                } else {
                    quota_proporcional(s, desconto, k)
                },
        )
    }
}

/// Todas as contas do rateio cabem em `i64`: subtotais, somas parciais do
/// total, quotas e somas parciais das quotas.
pub open spec fn rateio_sem_estouro(s: Seq<ItemVendaSnapshot>, desconto: int) -> bool {
    &&& forall|k: int| 0 <= k < s.len() ==> cabe_i64(#[trigger] subtotal_venda(s[k]))
    &&& forall|k: int| 0 <= k <= s.len() ==> cabe_i64(#[trigger] total_bruto(s.take(k)))
    &&& desconto_rateavel(s, desconto) ==> {
        &&& forall|k: int| 0 <= k < s.len() - 1 ==> cabe_i64(#[trigger] quota_proporcional(s, desconto, k))
        &&& forall|k: int| 0 <= k < s.len() ==> cabe_i64(#[trigger] soma_quotas(s, desconto, k))
        &&& s.len() > 0 ==> cabe_i64(desconto - soma_quotas(s, desconto, s.len() - 1))
    }
}

/// Soma de uma sequência de inteiros.
pub open spec fn soma(v: Seq<int>) -> int
    decreases v.len(),
{
    if v.len() == 0 {
        0
    } else {
        soma(v.drop_last()) + v.last()
    }
}

/// Os valores de um vetor de `i64` como inteiros.
pub open spec fn como_inteiros(v: Seq<i64>) -> Seq<int> {
    Seq::new(v.len(), |k: int| v[k] as int)
}

proof fn lema_total_prefixo(s: Seq<ItemVendaSnapshot>, k: int)
    requires
        0 <= k < s.len(),
    ensures
        total_bruto(s.take(k + 1)) == total_bruto(s.take(k)) + subtotal_venda(s[k]),
{
    assert(s.take(k + 1).drop_last() =~= s.take(k));
}

/// Subtotal de um item, sem estouro sob o rateio sem estouro.
fn subtotal_exec(item: &ItemVendaSnapshot) -> (v: i64)
    requires
        cabe_i64(subtotal_venda(*item)),
    ensures
        v == subtotal_venda(*item),
{
    item.preco_unitario_centavos * item.quantidade as i64
}

/// Rateia o desconto global da venda entre os itens, proporcional ao subtotal
/// de cada um (aritmética inteira; a sobra de arredondamento vai para o último
/// item). Sem desconto positivo ou sem total positivo devolve zeros.
pub fn ratear_desconto(itens: &[ItemVendaSnapshot], desconto_centavos: i64) -> (r: Vec<i64>)
    requires
        rateio_sem_estouro(itens@, desconto_centavos as int),
    ensures
        como_inteiros(r@) == rateio(itens@, desconto_centavos as int),
{
    let ghost s = itens@;
    let ghost d = desconto_centavos as int;
    let n = itens.len();
    let mut total: i64 = 0;
    let mut i: usize = 0;
    while i < n
        invariant
            n == s.len(),
            s == itens@,
            0 <= i <= n,
            total == total_bruto(s.take(i as int)),
            rateio_sem_estouro(s, d),
        decreases n - i,
    {
        proof {
            lema_total_prefixo(s, i as int);
            assert(cabe_i64(total_bruto(s.take(i + 1))));
        }
        let sub = subtotal_exec(&itens[i]);
        total = total + sub;
        i = i + 1;
    }
    proof {
        assert(s.take(n as int) =~= s);
    }
    let mut rateado: Vec<i64> = Vec::new();
    if desconto_centavos <= 0 || total <= 0 {
        let mut j: usize = 0;
        while j < n
            invariant
                n == s.len(),
                0 <= j <= n,
                rateado@.len() == j,
                forall|k: int| 0 <= k < j ==> rateado@[k] == 0,
            decreases n - j,
        {
            rateado.push(0);
            j = j + 1;
        }
        proof {
            assert(como_inteiros(rateado@) =~= rateio(s, d));
        }
        return rateado;
    }
    let mut acumulado: i64 = 0;
    let mut idx: usize = 0;
    while idx < n
        invariant
            n == s.len(),
            s == itens@,
            d == desconto_centavos,
            total == total_bruto(s),
            desconto_rateavel(s, d),
            rateio_sem_estouro(s, d),
            0 <= idx <= n,
            rateado@.len() == idx,
            idx < n ==> acumulado == soma_quotas(s, d, idx as int),
            forall|k: int| 0 <= k < idx ==> rateado@[k] == rateio(s, d)[k],
        decreases n - idx,
    {
        let quota: i64 = if idx + 1 == n {
            desconto_centavos - acumulado
        } else {
            proof {
                assert(cabe_i64(quota_proporcional(s, d, idx as int)));
            }
            let sub = subtotal_exec(&itens[idx]);
            proof {
                assert(-0x8000_0000_0000_0000 * 0x8000_0000_0000_0000 <= desconto_centavos * sub
                    <= 0x8000_0000_0000_0000 * 0x8000_0000_0000_0000) by (nonlinear_arith)
                    requires
                        i64::MIN <= desconto_centavos <= i64::MAX,
                        i64::MIN <= sub <= i64::MAX,
                ;
            }
            ((desconto_centavos as i128 * sub as i128) / total as i128) as i64
        };
        proof {
            if idx + 1 < n {
                assert(cabe_i64(soma_quotas(s, d, idx + 1)));
            }
        }
        acumulado = if idx + 1 == n { desconto_centavos } else { acumulado + quota };
        rateado.push(quota);
        idx = idx + 1;
    }
    proof {
        assert(como_inteiros(rateado@) =~= rateio(s, d));
    }
    rateado
}

/// Decide se o rateio do desconto cabe em `i64` (a condição de
/// `ratear_desconto`).
pub fn rateio_cabe(itens: &[ItemVendaSnapshot], desconto_centavos: i64) -> (b: bool)
    ensures
        b == rateio_sem_estouro(itens@, desconto_centavos as int),
{
    let ghost s = itens@;
    let ghost d = desconto_centavos as int;
    let n = itens.len();
    let mut total: i64 = 0;
    let mut i: usize = 0;
    proof {
        assert(s.take(0) =~= Seq::<ItemVendaSnapshot>::empty());
    }
    while i < n
        invariant
            n == s.len(),
            s == itens@,
            0 <= i <= n,
            total == total_bruto(s.take(i as int)),
            forall|k: int| 0 <= k < i ==> cabe_i64(#[trigger] subtotal_venda(s[k])),
            forall|k: int| 0 <= k <= i ==> cabe_i64(#[trigger] total_bruto(s.take(k))),
        decreases n - i,
    {
        proof {
            lema_total_prefixo(s, i as int);
        }
        let item = &itens[i];
        let sub = match item.preco_unitario_centavos.checked_mul(item.quantidade as i64) {
            Some(v) => v,
            None => {
                return false;
            },
        };
        total = match total.checked_add(sub) {
            Some(v) => v,
            None => {
                return false;
            },
        };
        i = i + 1;
    }
    proof {
        assert(s.take(n as int) =~= s);
    }
    if desconto_centavos <= 0 || total <= 0 {
        return true;
    }
    let mut acumulado: i64 = 0;
    let mut k: usize = 0;
    while k + 1 < n
        invariant
            n == s.len(),
            s == itens@,
            d == desconto_centavos,
            total == total_bruto(s),
            desconto_rateavel(s, d),
            forall|j: int| 0 <= j < n ==> cabe_i64(#[trigger] subtotal_venda(s[j])),
            0 <= k <= n,
            k + 1 <= n || n == 0,
            acumulado == soma_quotas(s, d, k as int),
            forall|j: int| 0 <= j < k ==> cabe_i64(#[trigger] quota_proporcional(s, d, j)),
            forall|j: int| 0 <= j <= k ==> cabe_i64(#[trigger] soma_quotas(s, d, j)),
        decreases n - k,
    {
        let sub = subtotal_exec(&itens[k]);
        proof {
            assert(-0x8000_0000_0000_0000 * 0x8000_0000_0000_0000 <= desconto_centavos * sub
                <= 0x8000_0000_0000_0000 * 0x8000_0000_0000_0000) by (nonlinear_arith)
                requires
                    i64::MIN <= desconto_centavos <= i64::MAX,
                    i64::MIN <= sub <= i64::MAX,
            ;
        }
        let q: i128 = (desconto_centavos as i128 * sub as i128) / total as i128;
        proof {
            assert(q == quota_proporcional(s, d, k as int));
        }
        if q < -0x8000_0000_0000_0000 || q > 0x7fff_ffff_ffff_ffff {
            proof {
                assert(!cabe_i64(quota_proporcional(s, d, k as int)));
                assert(0 <= k < s.len() - 1);
            }
            return false;
        }
        let quota = q as i64;
        acumulado = match acumulado.checked_add(quota) {
            Some(v) => v,
            None => {
                proof {
                    assert(!cabe_i64(soma_quotas(s, d, k + 1)));
                    assert(0 <= k + 1 < s.len());
                }
                return false;
            },
        };
        k = k + 1;
    }
    if n == 0 {
        return true;
    }
    let ultima = desconto_centavos.checked_sub(acumulado);
    ultima.is_some()
}

proof fn lema_soma_prefixo_rateio(s: Seq<ItemVendaSnapshot>, desconto: int, k: int)
    requires
        desconto_rateavel(s, desconto),
        0 <= k < s.len(),
    ensures
        soma(rateio(s, desconto).take(k)) == soma_quotas(s, desconto, k),
    decreases k,
{
    if k > 0 {
        lema_soma_prefixo_rateio(s, desconto, k - 1);
        assert(rateio(s, desconto).take(k).drop_last() =~= rateio(s, desconto).take(k - 1));
    } else {
        assert(rateio(s, desconto).take(0) =~= Seq::<int>::empty());
    }
}

proof fn lema_soma_zeros(n: nat)
    ensures
        soma(Seq::new(n, |k: int| 0int)) == 0,
    decreases n,
{
    if n > 0 {
        lema_soma_zeros((n - 1) as nat);
        assert(Seq::new(n, |k: int| 0int).drop_last() =~= Seq::new((n - 1) as nat, |k: int| 0int));
    }
}

/// O rateio distribui exatamente o desconto: com desconto rateável e ao menos
/// um item, a soma das quotas é o desconto; sem ele, nada é rateado.
pub proof fn lema_rateio_fecha(s: Seq<ItemVendaSnapshot>, desconto: int)
    ensures
        rateio(s, desconto).len() == s.len(),
        desconto_rateavel(s, desconto) && s.len() > 0 ==> soma(rateio(s, desconto)) == desconto,
        !desconto_rateavel(s, desconto) ==> soma(rateio(s, desconto)) == 0,
{
    if !desconto_rateavel(s, desconto) {
        lema_soma_zeros(s.len());
    } else if s.len() > 0 {
        let r = rateio(s, desconto);
        let n = s.len() as int;
        lema_soma_prefixo_rateio(s, desconto, n - 1);
        assert(r.drop_last() =~= r.take(n - 1));
    }
}

// ---------------------------------------------------------------------------
// Item tributado
// ---------------------------------------------------------------------------

/// Base tributável de um item: subtotal menos a quota rateada do desconto.
pub open spec fn base_do_item(item: ItemVendaSnapshot, desconto_item: int) -> int {
    subtotal_venda(item) - desconto_item
}

/// UF do destinatário como texto de especificação.
pub open spec fn uf_opcional(uf: Option<&str>) -> Option<Seq<char>> {
    match uf {
        Some(d) => Some(d@),
        None => None,
    }
}

/// O item de NF que `enriquecer_item` produz de um item vendido.
pub open spec fn item_enriquecido(
    ctx: ContextoFiscal,
    item: ItemVendaSnapshot,
    desconto_item: int,
    ncm: Seq<char>,
    classe: ClasseTributariaInfo,
    aliquotas: AliquotasItem,
    uf_emitente: Seq<char>,
    uf_destinatario: Option<Seq<char>>,
    produto_id: u128,
    nf: ItemNF,
) -> bool {
    &&& nf.spec_produto_id() == produto_id
    &&& nf.spec_sku() == item.sku@
    &&& nf.spec_descricao() == item.descricao@
    &&& nf.spec_ncm() == so_digitos(ncm)
    &&& nf.spec_cfop() == cfop_de(
        TipoOperacao::Venda,
        interestadual(uf_emitente, uf_destinatario),
        false,
    )
    &&& nf.spec_quantidade() == item.quantidade
    &&& nf.spec_valor_unitario() == item.preco_unitario_centavos
    &&& imposto_calculado(ctx, aliquotas, classe, base_do_item(item, desconto_item), nf.spec_imposto())
}

/// Decide se o item pode ser enriquecido sem estouro (a condição de
/// `enriquecer_item`).
pub fn item_calculavel(
    ctx: &ContextoFiscal,
    item: &ItemVendaSnapshot,
    desconto_item: i64,
    classe: &ClasseTributariaInfo,
) -> (b: bool)
    ensures
        b == (cabe_i64(subtotal_venda(*item)) && cabe_i64(base_do_item(*item, desconto_item as int))
            && entrada_valida(*ctx, *classe, base_do_item(*item, desconto_item as int))),
{
    let subtotal = match item.preco_unitario_centavos.checked_mul(item.quantidade as i64) {
        Some(v) => v,
        None => {
            return false;
        },
    };
    let base = match subtotal.checked_sub(desconto_item) {
        Some(v) => v,
        None => {
            return false;
        },
    };
    MotorTributario::entrada_aceita(ctx, classe, base)
}

/// Enriquece um item vendido com os impostos do motor sobre a base (subtotal
/// menos a quota do desconto) e o CFOP de venda pela UF do destinatário. O
/// identificador do produto precisa ser um UUID; a validação do item de NF
/// (quantidade, valor, NCM) vem em seguida.
pub fn enriquecer_item(
    ctx: &ContextoFiscal,
    item: &ItemVendaSnapshot,
    desconto_item: i64,
    ncm: String,
    classe: &ClasseTributariaInfo,
    aliquotas: &AliquotasItem,
    uf_emitente: &str,
    uf_destinatario: Option<&str>,
    modelo: &ModeloNF,
) -> (r: Result<ItemNF, AppError>)
    requires
        cabe_i64(subtotal_venda(*item)),
        cabe_i64(base_do_item(*item, desconto_item as int)),
        entrada_valida(*ctx, *classe, base_do_item(*item, desconto_item as int)),
    ensures
        uuid_lido(item.produto_id@) is None ==> r matches Err(AppError::Infrastructure(_)),
        uuid_lido(item.produto_id@) is Some ==> {
            &&& item.quantidade == 0 ==> (r matches Err(AppError::Domain(DomainError::Validation(m)))
                && m@ == "Quantidade deve ser maior que zero"@)
            &&& item.quantidade > 0 && item.preco_unitario_centavos < 0 ==> (r matches Err(
                AppError::Domain(DomainError::Validation(m)),
            ) && m@ == "Valor unitário não pode ser negativo"@)
            &&& item.quantidade > 0 && item.preco_unitario_centavos >= 0 && so_digitos(ncm@).len()
                != 8 ==> (r matches Err(AppError::Domain(DomainError::Validation(m))) && m@
                == "NCM deve ter exatamente 8 dígitos"@)
            &&& item.quantidade > 0 && item.preco_unitario_centavos >= 0 && so_digitos(ncm@).len()
                == 8 ==> (r matches Ok(nf) && item_enriquecido(
                *ctx,
                *item,
                desconto_item as int,
                ncm@,
                *classe,
                *aliquotas,
                uf_emitente@,
                uf_opcional(uf_destinatario),
                uuid_lido(item.produto_id@)->0,
                nf,
            ))
        },
{
    let produto_id = match ler_uuid(item.produto_id.as_str()) {
        Ok(v) => v,
        Err(e) => {
            return Err(AppError::infra(descrever_erro_uuid(&e)));
        },
    };
    let subtotal = item.preco_unitario_centavos * item.quantidade as i64;
    let base = subtotal - desconto_item;
    let imposto = MotorTributario::calcular_item(ctx, aliquotas, classe, base);
    let cfop = resolver_cfop(TipoOperacao::Venda, uf_emitente, uf_destinatario, modelo, false);
    proof {
        lema_cfop_quatro_algarismos(
            TipoOperacao::Venda,
            interestadual(uf_emitente@, uf_opcional(uf_destinatario)),
            false,
        );
    }
    let cfop_texto = String::from_str(cfop);
    match ItemNF::novo(
        produto_id,
        item.sku.clone(),
        item.descricao.clone(),
        ncm,
        cfop_texto,
        item.quantidade,
        item.preco_unitario_centavos,
        imposto,
    ) {
        Ok(nf) => Ok(nf),
        Err(e) => Err(AppError::de_dominio(e)),
    }
}

/// Tributos obrigatórios na fase que ficaram sem alíquota vigente (sairiam
/// zerados): ICMS nas fases com legado para os regimes normais; CBS, IBS UF e
/// IBS municipal nas fases que os destacam.
pub open spec fn tributos_ausentes(ctx: ContextoFiscal, al: AliquotasItem) -> Seq<Seq<char>> {
    let regime_normal = ctx.perfil.regime == RegimeTributario::LucroPresumido || ctx.perfil.regime
        == RegimeTributario::LucroReal;
    let icms: Seq<Seq<char>> = if cobra_legado(ctx.fase) && regime_normal && al.icms is None {
        seq!["icms"@]
    } else {
        seq![]
    };
    let cbs: Seq<Seq<char>> = if destaca_ibs_cbs(ctx.fase) && al.cbs is None {
        seq!["cbs"@]
    } else {
        seq![]
    };
    let ibs_uf: Seq<Seq<char>> = if destaca_ibs_cbs(ctx.fase) && al.ibs_uf is None {
        seq!["ibs_uf"@]
    } else {
        seq![]
    };
    let ibs_mun: Seq<Seq<char>> = if destaca_ibs_cbs(ctx.fase) && al.ibs_mun is None {
        seq!["ibs_mun"@]
    } else {
        seq![]
    };
    icms + cbs + ibs_uf + ibs_mun
}

/// Os textos de uma lista de nomes estáticos.
pub open spec fn nomes(v: Seq<&'static str>) -> Seq<Seq<char>> {
    Seq::new(v.len(), |i: int| v[i]@)
}

/// Tributos obrigatórios sem linha vigente, na ordem ICMS, CBS, IBS UF, IBS
/// municipal — um zero silencioso que merece aviso.
pub fn tributos_obrigatorios_ausentes(ctx: &ContextoFiscal, aliquotas: &AliquotasItem) -> (v: Vec<
    &'static str,
>)
    ensures
        nomes(v@) == tributos_ausentes(*ctx, *aliquotas),
{
    let mut v: Vec<&'static str> = Vec::new();
    let regime_normal = ctx.perfil.regime == RegimeTributario::LucroPresumido || ctx.perfil.regime
        == RegimeTributario::LucroReal;
    if ctx.fase.cobra_legado_estadual() && regime_normal && aliquotas.icms.is_none() {
        v.push("icms");
    }
    let ghost v1 = v@;
    if ctx.fase.destaca_ibs_cbs() {
        if aliquotas.cbs.is_none() {
            v.push("cbs");
        }
    }
    let ghost v2 = v@;
    if ctx.fase.destaca_ibs_cbs() {
        if aliquotas.ibs_uf.is_none() {
            v.push("ibs_uf");
        }
    }
    let ghost v3 = v@;
    if ctx.fase.destaca_ibs_cbs() {
        if aliquotas.ibs_mun.is_none() {
            v.push("ibs_mun");
        }
    }
    proof {
        assert(nomes(v@) =~= tributos_ausentes(*ctx, *aliquotas));
    }
    v
}

// ---------------------------------------------------------------------------
// Transmissão, retransmissão e cancelamento na SEFAZ
// ---------------------------------------------------------------------------

/// Eventos de `b` são os de `a` seguidos de exatamente `n` novos.
pub open spec fn eventos_acrescidos(a: NotaFiscal, b: NotaFiscal, n: int) -> bool {
    &&& b.eventos@.len() == a.eventos@.len() + n
    &&& b.eventos@.subrange(0, a.eventos@.len() as int) == a.eventos@
}

/// `b` é `a` autorizada com a chave e o protocolo dados (evento registrado).
pub open spec fn autorizada_com(a: NotaFiscal, b: NotaFiscal, chave: String, protocolo: String) -> bool {
    &&& b.status == StatusNFe::Autorizada
    &&& b.chave == Some(chave)
    &&& b.protocolo == Some(protocolo)
    &&& b.cancelamento_pendente == a.cancelamento_pendente
    &&& ultimo_evento(b) matches NotaFiscalEvent::NotaFiscalAutorizada {
        nf_id,
        chave: c,
        protocolo: p,
        ..
    } && nf_id == a.id && c == chave && p == protocolo
}

/// `b` é `a` rejeitada com o código e o motivo dados (evento registrado).
pub open spec fn rejeitada_com(a: NotaFiscal, b: NotaFiscal, codigo: String, motivo: String) -> bool {
    &&& b.status == StatusNFe::Rejeitada
    &&& b.chave == a.chave
    &&& b.protocolo == a.protocolo
    &&& b.cancelamento_pendente == a.cancelamento_pendente
    &&& ultimo_evento(b) matches NotaFiscalEvent::NotaFiscalRejeitada {
        nf_id,
        codigo: c,
        motivo: m,
        ..
    } && nf_id == a.id && c == codigo && m == motivo
}

/// O que a resposta da SEFAZ faz com uma nota: autorização registra chave e
/// protocolo, rejeição registra código e motivo, indisponibilidade não muda
/// nada (a nota fica transmitida, à espera de retransmissão).
pub open spec fn resposta_aplicada(
    a: NotaFiscal,
    b: NotaFiscal,
    resposta: Result<SefazResponse, SefazError>,
    r: DomainResult<()>,
) -> bool {
    match resposta {
        Ok(resp) => if pode_autorizar(a.status) {
            &&& r is Ok
            &&& eventos_acrescidos(a, b, 1)
            &&& autorizada_com(a, b, resp.chave, resp.protocolo)
        } else {
            &&& r matches Err(DomainError::BusinessRule(m))
            &&& m@ == "Apenas NF transmitida pode ser autorizada"@
            &&& b == a
        },
        Err(SefazError::Rejeicao { codigo, motivo }) => if pode_rejeitar(a.status) {
            &&& r is Ok
            &&& eventos_acrescidos(a, b, 1)
            &&& rejeitada_com(a, b, codigo, motivo)
        } else {
            &&& r matches Err(DomainError::BusinessRule(m))
            &&& m@ == "Apenas NF transmitida pode ser rejeitada"@
            &&& b == a
        },
        Err(SefazError::Indisponivel(_)) => r is Ok && b == a,
    }
}

proof fn lema_um_evento(a: NotaFiscal, b: NotaFiscal)
    requires
        b.eventos@.drop_last() == a.eventos@,
        b.eventos@.len() == a.eventos@.len() + 1,
    ensures
        eventos_acrescidos(a, b, 1),
{
    assert(b.eventos@.subrange(0, a.eventos@.len() as int) =~= b.eventos@.drop_last());
}

/// Aplica à nota a resposta da SEFAZ a uma transmissão.
pub fn aplicar_resposta_sefaz(nf: &mut NotaFiscal, resposta: Result<SefazResponse, SefazError>) -> (r:
    DomainResult<()>)
    requires
        nf_consistente(*old(nf)),
    ensures
        nf_consistente(*final(nf)),
        mesmos_dados(*old(nf), *final(nf)),
        resposta_aplicada(*old(nf), *final(nf), resposta, r),
{
    match resposta {
        Ok(resp) => {
            let r = nf.autorizar(resp.chave, resp.protocolo);
            proof {
                if r is Ok {
                    lema_um_evento(*old(nf), *nf);
                }
            }
            r
        },
        Err(SefazError::Rejeicao { codigo, motivo }) => {
            let r = nf.rejeitar(codigo, motivo);
            proof {
                if r is Ok {
                    lema_um_evento(*old(nf), *nf);
                }
            }
            r
        },
        Err(SefazError::Indisponivel(_)) => Ok(()),
    }
}

/// Documento enviado à SEFAZ para a nota `id`.
pub open spec fn xml_da_nf(id: u128) -> Seq<char> {
    "<NF>"@ + uuid_hifenado(id) + "</NF>"@
}

/// Monta o documento da nota para transmissão.
pub fn montar_xml(id: u128) -> (s: String)
    ensures
        s@ == xml_da_nf(id),
{
    let mut s = String::from_str("<NF>");
    let t = texto_id(id);
    s.append(t.as_str());
    s.append("</NF>");
    s
}

/// Gerada → Transmitida e envio à SEFAZ; a resposta, qualquer que seja, é
/// aplicada à nota: autorizada, rejeitada ou (SEFAZ indisponível) ainda
/// transmitida.
pub fn transmitir_para_sefaz<S: SefazClient>(nf: &mut NotaFiscal, sefaz: &S) -> (r: DomainResult<()>)
    requires
        nf_consistente(*old(nf)),
    ensures
        nf_consistente(*final(nf)),
        mesmos_dados(*old(nf), *final(nf)),
        !pode_transmitir(old(nf).status) ==> (r matches Err(DomainError::BusinessRule(m)) && m@
            == "Apenas NF com status Gerada pode ser transmitida"@ && *final(nf) == *old(nf)),
        pode_transmitir(old(nf).status) ==> {
            &&& r is Ok
            &&& final(nf).eventos@.len() > old(nf).eventos@.len()
            &&& final(nf).eventos@.subrange(0, old(nf).eventos@.len() as int) == old(nf).eventos@
            &&& final(nf).eventos@[old(nf).eventos@.len() as int] matches NotaFiscalEvent::NotaFiscalTransmitida {
                nf_id,
                ..
            } && nf_id == old(nf).id
            &&& final(nf).status == StatusNFe::Transmitida ==> final(nf).eventos@.len()
                == old(nf).eventos@.len() + 1
            &&& final(nf).status == StatusNFe::Autorizada ==> final(nf).eventos@.len()
                == old(nf).eventos@.len() + 2
            &&& final(nf).status == StatusNFe::Autorizada ==> (ultimo_evento(*final(nf)) matches NotaFiscalEvent::NotaFiscalAutorizada {
                nf_id,
                chave,
                protocolo,
                ..
            } && nf_id == old(nf).id && final(nf).chave == Some(chave) && final(nf).protocolo == Some(
                protocolo,
            ))
            &&& final(nf).status == StatusNFe::Rejeitada ==> final(nf).eventos@.len()
                == old(nf).eventos@.len() + 2
            &&& final(nf).status == StatusNFe::Rejeitada ==> (ultimo_evento(*final(nf)) matches NotaFiscalEvent::NotaFiscalRejeitada {
                nf_id,
                ..
            } && nf_id == old(nf).id)
            &&& final(nf).status == StatusNFe::Transmitida || final(nf).status == StatusNFe::Autorizada
                || final(nf).status == StatusNFe::Rejeitada
            &&& final(nf).cancelamento_pendente == old(nf).cancelamento_pendente
        },
{
    let r = nf.transmitir();
    if r.is_err() {
        return r;
    }
    let ghost meio = *nf;
    proof {
        lema_um_evento(*old(nf), meio);
    }
    let xml = montar_xml(nf.id());
    let resposta = sefaz.transmitir(xml);
    let r2 = aplicar_resposta_sefaz(nf, resposta);
    proof {
        assert(final(nf).eventos@.subrange(0, old(nf).eventos@.len() as int) =~= old(nf).eventos@) by {
            if nf.eventos@.len() > meio.eventos@.len() {
                assert(nf.eventos@.subrange(0, old(nf).eventos@.len() as int) =~= meio.eventos@.subrange(
                    0,
                    old(nf).eventos@.len() as int,
                ));
            }
        }
        assert(nf.eventos@[old(nf).eventos@.len() as int] == meio.eventos@[old(nf).eventos@.len() as int]);
    }
    r2
}

/// `b` é `a` retransmitida (evento com o status de origem) e em seguida
/// autorizada ou rejeitada conforme a resposta.
pub open spec fn retransmitida_de(a: NotaFiscal, b: NotaFiscal) -> bool {
    &&& eventos_acrescidos(a, b, 2)
    &&& b.eventos@[a.eventos@.len() as int] matches NotaFiscalEvent::NotaFiscalRetransmitida {
        nf_id,
        status_anterior,
        ..
    } && nf_id == a.id && status_anterior@ == nome_status(a.status)
}

/// Retransmissão de uma NF presa, dada a resposta da SEFAZ: indisponível é
/// falha de infraestrutura e nada muda; autorização ou rejeição retransmitem
/// a nota e registram a resposta.
pub open spec fn retransmissao_aplicada(
    a: NotaFiscal,
    b: NotaFiscal,
    resposta: Result<SefazResponse, SefazError>,
    r: Result<(), AppError>,
) -> bool {
    match resposta {
        Err(SefazError::Indisponivel(msg)) => r == Err::<(), AppError>(AppError::Infrastructure(msg))
            && b == a,
        _ => if !pode_retransmitir(a.status) {
            &&& r matches Err(AppError::Domain(DomainError::BusinessRule(m)))
            &&& m@ == "Apenas NF gerada, transmitida ou rejeitada pode ser retransmitida"@
            &&& b == a
        } else {
            &&& r is Ok
            &&& retransmitida_de(a, b)
            &&& match resposta {
                Ok(resp) => autorizada_com(a, b, resp.chave, resp.protocolo),
                Err(SefazError::Rejeicao { codigo, motivo }) => rejeitada_com(a, b, codigo, motivo),
                Err(SefazError::Indisponivel(_)) => false,
            }
        },
    }
}

proof fn lema_dois_eventos(a: NotaFiscal, m: NotaFiscal, b: NotaFiscal)
    requires
        m.eventos@.drop_last() == a.eventos@,
        m.eventos@.len() == a.eventos@.len() + 1,
        b.eventos@.drop_last() == m.eventos@,
        b.eventos@.len() == m.eventos@.len() + 1,
    ensures
        eventos_acrescidos(a, b, 2),
        b.eventos@[a.eventos@.len() as int] == m.eventos@.last(),
{
    assert(b.eventos@.subrange(0, a.eventos@.len() as int) =~= a.eventos@);
}

/// Aplica à nota presa a resposta da SEFAZ a uma retransmissão.
pub fn retransmitir_com_resposta(nf: &mut NotaFiscal, resposta: Result<SefazResponse, SefazError>) -> (r:
    Result<(), AppError>)
    requires
        nf_consistente(*old(nf)),
    ensures
        nf_consistente(*final(nf)),
        mesmos_dados(*old(nf), *final(nf)),
        retransmissao_aplicada(*old(nf), *final(nf), resposta, r),
{
    match resposta {
        Ok(resp) => {
            match nf.retransmitir() {
                Ok(()) => {},
                Err(e) => {
                    return Err(AppError::de_dominio(e));
                },
            }
            let ghost meio = *nf;
            let r = nf.autorizar(resp.chave, resp.protocolo);
            proof {
                assert(r is Ok);
                lema_dois_eventos(*old(nf), meio, *nf);
            }
            Ok(())
        },
        Err(SefazError::Rejeicao { codigo, motivo }) => {
            match nf.retransmitir() {
                Ok(()) => {},
                Err(e) => {
                    return Err(AppError::de_dominio(e));
                },
            }
            let ghost meio = *nf;
            let r = nf.rejeitar(codigo, motivo);
            proof {
                assert(r is Ok);
                lema_dois_eventos(*old(nf), meio, *nf);
            }
            Ok(())
        },
        Err(SefazError::Indisponivel(msg)) => Err(AppError::infra(msg)),
    }
}

/// Retransmite uma NF presa (Gerada, Transmitida ou Rejeitada): envia o
/// documento e aplica a resposta, qualquer que seja.
pub fn retransmitir_na_sefaz<S: SefazClient>(nf: &mut NotaFiscal, sefaz: &S) -> (r: Result<(), AppError>)
    requires
        nf_consistente(*old(nf)),
    ensures
        nf_consistente(*final(nf)),
        mesmos_dados(*old(nf), *final(nf)),
        !pode_retransmitir(old(nf).status) ==> r is Err && *final(nf) == *old(nf),
        r is Err ==> *final(nf) == *old(nf),
        r matches Err(e) ==> (e is Infrastructure || (!pode_retransmitir(old(nf).status) && (e matches AppError::Domain(
            DomainError::BusinessRule(m),
        ) && m@ == "Apenas NF gerada, transmitida ou rejeitada pode ser retransmitida"@))),
        r is Ok ==> retransmitida_de(*old(nf), *final(nf)) && (final(nf).status == StatusNFe::Autorizada
            || final(nf).status == StatusNFe::Rejeitada),
{
    let xml = montar_xml(nf.id());
    let resposta = sefaz.transmitir(xml);
    retransmitir_com_resposta(nf, resposta)
}

/// Protocolo de cancelamento: `CANC` seguido dos 32 dígitos hexadecimais de um
/// identificador aleatório.
pub open spec fn protocolo_de_cancelamento(p: Seq<char>) -> bool {
    exists|id: u128| id != 0 && p == "CANC"@ + uuid_simples(id)
}

/// Novo protocolo de cancelamento.
pub fn protocolo_cancelamento() -> (s: String)
    ensures
        protocolo_de_cancelamento(s@),
{
    let id = novo_id();
    let mut s = String::from_str("CANC");
    let t = texto_id_simples(id);
    s.append(t.as_str());
    proof {
        assert(s@ == "CANC"@ + uuid_simples(id));
    }
    s
}

/// Cancela uma NF autorizada com um protocolo de cancelamento novo.
pub fn cancelar_nf(nf: &mut NotaFiscal) -> (r: DomainResult<()>)
    requires
        nf_consistente(*old(nf)),
    ensures
        nf_consistente(*final(nf)),
        mesmos_dados(*old(nf), *final(nf)),
        !pode_cancelar(old(nf).status) ==> (r matches Err(DomainError::BusinessRule(m)) && m@
            == "Apenas NF autorizada pode ser cancelada"@ && *final(nf) == *old(nf)),
        pode_cancelar(old(nf).status) ==> {
            &&& r is Ok
            &&& final(nf).status == StatusNFe::Cancelada
            &&& !final(nf).cancelamento_pendente
            &&& final(nf).chave == old(nf).chave
            &&& final(nf).protocolo == old(nf).protocolo
            &&& eventos_acrescidos(*old(nf), *final(nf), 1)
            &&& ultimo_evento(*final(nf)) matches NotaFiscalEvent::NotaFiscalCancelada {
                nf_id,
                protocolo_cancelamento,
                ..
            } && nf_id == old(nf).id && protocolo_de_cancelamento(protocolo_cancelamento@)
        },
{
    let proto = protocolo_cancelamento();
    let r = nf.cancelar(proto);
    proof {
        if r is Ok {
            lema_um_evento(*old(nf), *nf);
        }
    }
    r
}

// ---------------------------------------------------------------------------
// Reação fiscal à devolução de itens
// ---------------------------------------------------------------------------

/// O que a devolução fez com a nota da venda.
#[derive(Debug, Clone, Copy, PartialEq, Eq, Structural)]
pub enum ReacaoDevolucao {
    /// Nota rejeitada: nunca produziu efeito fiscal, nada a cancelar.
    SemEfeitoFiscal,
    /// A nota já estava marcada; a devolução adicional não muda nada.
    CancelamentoJaPendente,
    /// Cancelamento marcado como pendente (integração SEFAZ inativa ou nota
    /// presa em transmitida).
    CancelamentoSolicitado,
    /// Nota cancelada na SEFAZ; `reemitir` pede nova NF com os itens restantes.
    Cancelada { reemitir: bool },
}

/// Situação da nota na projeção que só registra a devolução.
pub open spec fn sem_efeito_fiscal(status: Seq<char>) -> bool {
    status == "rejeitada"@
}

/// NF rejeitada nunca produziu efeito fiscal: a devolução não a toca.
pub fn devolucao_sem_efeito_fiscal(status: &str) -> (b: bool)
    ensures
        b == sem_efeito_fiscal(status@),
{
    textos_iguais(status, "rejeitada")
}

/// Motivo do cancelamento pendente por devolução.
pub open spec fn motivo_devolucao(motivo: Seq<char>) -> Seq<char> {
    "Devolução de itens: "@ + motivo
}

/// Cancelamento solicitado (pendente) com o motivo dado.
pub open spec fn cancelamento_solicitado(a: NotaFiscal, b: NotaFiscal, motivo: Seq<char>) -> bool {
    &&& b.status == a.status
    &&& b.cancelamento_pendente
    &&& eventos_acrescidos(a, b, 1)
    &&& ultimo_evento(b) matches NotaFiscalEvent::CancelamentoNfSolicitado { nf_id, motivo: m, .. }
        && nf_id == a.id && m@ == motivo_devolucao(motivo)
}

/// Marca cancelamento pendente, a menos que já esteja marcado.
pub open spec fn marca_pendente(
    a: NotaFiscal,
    b: NotaFiscal,
    motivo: Seq<char>,
    r: DomainResult<ReacaoDevolucao>,
) -> bool {
    if a.cancelamento_pendente {
        r == Ok::<ReacaoDevolucao, DomainError>(ReacaoDevolucao::CancelamentoJaPendente) && b == a
    } else if a.status == StatusNFe::Autorizada || a.status == StatusNFe::Transmitida {
        r == Ok::<ReacaoDevolucao, DomainError>(ReacaoDevolucao::CancelamentoSolicitado)
            && cancelamento_solicitado(a, b, motivo)
    } else {
        &&& r matches Err(DomainError::BusinessRule(m))
        &&& m@ == "Apenas NF autorizada ou transmitida pode ter cancelamento solicitado"@
        &&& b == a
    }
}

/// Reação fiscal a uma devolução de itens, dada a situação da nota na
/// projeção (`autorizada`, `transmitida` ou `rejeitada`):
/// - rejeitada: sem efeito fiscal;
/// - presa em transmitida: cancelamento pendente (a SEFAZ pode tê-la
///   autorizado sem a resposta chegar);
/// - autorizada com a integração ativa: cancela e, em devolução parcial com
///   itens restantes, pede reemissão;
/// - autorizada com a integração inativa: cancelamento pendente.
pub open spec fn devolucao_aplicada(
    a: NotaFiscal,
    b: NotaFiscal,
    status: Seq<char>,
    integracao_ativa: bool,
    devolucao_total: bool,
    ha_itens_restantes: bool,
    motivo: Seq<char>,
    r: DomainResult<ReacaoDevolucao>,
) -> bool {
    if sem_efeito_fiscal(status) {
        r == Ok::<ReacaoDevolucao, DomainError>(ReacaoDevolucao::SemEfeitoFiscal) && b == a
    } else if status == "transmitida"@ || !integracao_ativa {
        marca_pendente(a, b, motivo, r)
    } else if pode_cancelar(a.status) {
        &&& r == Ok::<ReacaoDevolucao, DomainError>(
            ReacaoDevolucao::Cancelada { reemitir: !devolucao_total && ha_itens_restantes },
        )
        &&& b.status == StatusNFe::Cancelada
        &&& !b.cancelamento_pendente
        &&& eventos_acrescidos(a, b, 1)
        &&& ultimo_evento(b) matches NotaFiscalEvent::NotaFiscalCancelada {
            nf_id,
            protocolo_cancelamento,
            ..
        } && nf_id == a.id && protocolo_de_cancelamento(protocolo_cancelamento@)
    } else {
        &&& r matches Err(DomainError::BusinessRule(m))
        &&& m@ == "Apenas NF autorizada pode ser cancelada"@
        &&& b == a
    }
}

fn solicitar_por_devolucao(nf: &mut NotaFiscal, motivo: &str) -> (r: DomainResult<ReacaoDevolucao>)
    requires
        nf_consistente(*old(nf)),
    ensures
        nf_consistente(*final(nf)),
        mesmos_dados(*old(nf), *final(nf)),
        marca_pendente(*old(nf), *final(nf), motivo@, r),
{
    if nf.cancelamento_pendente {
        return Ok(ReacaoDevolucao::CancelamentoJaPendente);
    }
    let mut m = String::from_str("Devolução de itens: ");
    m.append(motivo);
    match nf.solicitar_cancelamento(m) {
        Ok(()) => {
            proof {
                lema_um_evento(*old(nf), *nf);
            }
            Ok(ReacaoDevolucao::CancelamentoSolicitado)
        },
        Err(e) => Err(e),
    }
}

/// Aplica à nota da venda a reação fiscal à devolução.
pub fn reagir_devolucao(
    nf: &mut NotaFiscal,
    status: &str,
    integracao_ativa: bool,
    devolucao_total: bool,
    ha_itens_restantes: bool,
    motivo: &str,
) -> (r: DomainResult<ReacaoDevolucao>)
    requires
        nf_consistente(*old(nf)),
    ensures
        nf_consistente(*final(nf)),
        mesmos_dados(*old(nf), *final(nf)),
        devolucao_aplicada(
            *old(nf),
            *final(nf),
            status@,
            integracao_ativa,
            devolucao_total,
            ha_itens_restantes,
            motivo@,
            r,
        ),
{
    if devolucao_sem_efeito_fiscal(status) {
        return Ok(ReacaoDevolucao::SemEfeitoFiscal);
    }
    if textos_iguais(status, "transmitida") || !integracao_ativa {
        return solicitar_por_devolucao(nf, motivo);
    }
    match cancelar_nf(nf) {
        Ok(()) => Ok(ReacaoDevolucao::Cancelada { reemitir: !devolucao_total && ha_itens_restantes }),
        Err(e) => Err(e),
    }
}

// ---------------------------------------------------------------------------
// Identificadores que chegam nos eventos de venda
// ---------------------------------------------------------------------------

/// O cliente de um evento: o UUID lido do texto, se houver texto e ele for um
/// UUID; do contrário, venda a consumidor anônimo.
pub open spec fn cliente_lido(cliente_id: Option<Seq<char>>) -> Option<u128> {
    match cliente_id {
        Some(t) => uuid_lido(t),
        None => None,
    }
}

/// Identificadores de venda e cliente de um evento: sem venda legível o evento
/// é ignorado; cliente ilegível vale como anônimo.
pub fn ids_da_venda(venda_id: &str, cliente_id: Option<&str>) -> (r: Option<(u128, Option<u128>)>)
    ensures
        uuid_lido(venda_id@) is None ==> r is None,
        uuid_lido(venda_id@) matches Some(v) ==> r == Some((v, cliente_lido(uf_opcional(cliente_id)))),
{
    let venda = match ler_id(venda_id) {
        Some(v) => v,
        None => {
            return None;
        },
    };
    let cliente = match cliente_id {
        Some(t) => ler_id(t),
        None => None,
    };
    Some((venda, cliente))
}

} // verus!
