//! Contas do financeiro derivadas dos eventos de vendas e compras: ids
//! determinísticos, parcelas da venda, abatimentos da devolução parcial e
//! reembolsos ao cliente.

use vstd::prelude::*;

use crate::compartilhado::dinheiro::Dinheiro;
use crate::compartilhado::ids::{id_v5, texto_id, uuid_hifenado, uuid_v5, NAMESPACE_URL};
use crate::compartilhado::tempo::{mais_dias_spec, Instante};
use crate::compartilhado::texto::{
    decimal, decimal_com_sinal, escrever_decimal, escrever_decimal_com_sinal, texto_de,
};
use crate::erro::DomainResult;
use crate::financeiro::conta_pagar::{cp_registrada, cp_valida, ContaPagar};
use crate::financeiro::conta_receber::{
    cr_registrada, cr_valida, mesma_conta, ContaReceber, StatusContaReceber,
};
use crate::fiscal::tributacao::imposto::div_trunc;
use crate::vendas::FormaPagamento;

verus! {

// ---------------------------------------------------------------------------
// Ids determinísticos (UUID v5): a reentrega do mesmo evento converge para a
// mesma conta em vez de duplicá-la.
// ---------------------------------------------------------------------------

/// Namespace fixo do financeiro: UUID v5 da URL do projeto.
pub open spec fn ns_financeiro() -> u128 {
    uuid_v5(NAMESPACE_URL, "https://finledger.com.br/financeiro"@)
}

fn ns_financeiro_exec() -> (ns: u128)
    ensures
        ns == ns_financeiro(),
{
    id_v5(NAMESPACE_URL, "https://finledger.com.br/financeiro")
}

/// Nome da conta a receber da parcela `parcela` de uma venda.
pub open spec fn nome_conta_receber(venda_id: u128, parcela: u32) -> Seq<char> {
    "conta-receber:"@ + uuid_hifenado(venda_id) + ":"@ + decimal(parcela as nat)
}

/// Id determinístico da conta a receber criada por uma venda confirmada (uma
/// por parcela).
pub fn conta_receber_id_da_venda(venda_id: u128, parcela: u32) -> (id: u128)
    ensures
        id == uuid_v5(ns_financeiro(), nome_conta_receber(venda_id, parcela)),
{
    let mut nome = String::from_str("conta-receber:");
    let v = texto_id(venda_id);
    nome.append(v.as_str());
    nome.append(":");
    let mut cs: Vec<char> = Vec::new();
    escrever_decimal(parcela as u128, &mut cs);
    let p = texto_de(&cs);
    nome.append(p.as_str());
    id_v5(ns_financeiro_exec(), nome.as_str())
}

/// Nome da conta a pagar de um recebimento de mercadoria.
pub open spec fn nome_conta_pagar(pedido_id: u128, recebimento_id: Seq<char>) -> Seq<char> {
    "conta-pagar:"@ + uuid_hifenado(pedido_id) + ":"@ + recebimento_id
}

/// Id determinístico da conta a pagar criada por um recebimento.
pub fn conta_pagar_id_do_recebimento(pedido_id: u128, recebimento_id: &str) -> (id: u128)
    ensures
        id == uuid_v5(ns_financeiro(), nome_conta_pagar(pedido_id, recebimento_id@)),
{
    let mut nome = String::from_str("conta-pagar:");
    let p = texto_id(pedido_id);
    nome.append(p.as_str());
    nome.append(":");
    nome.append(recebimento_id);
    id_v5(ns_financeiro_exec(), nome.as_str())
}

/// Id determinístico de uma conta a pagar de reembolso; `nome` identifica a
/// origem.
pub fn conta_pagar_id_reembolso(nome: &str) -> (id: u128)
    ensures
        id == uuid_v5(ns_financeiro(), nome@),
{
    id_v5(ns_financeiro_exec(), nome)
}

/// Origem do reembolso de uma conta estornada na devolução total.
pub open spec fn nome_reembolso_total(conta_id: u128) -> Seq<char> {
    "reembolso:"@ + uuid_hifenado(conta_id)
}

pub fn nome_do_reembolso_total(conta_id: u128) -> (s: String)
    ensures
        s@ == nome_reembolso_total(conta_id),
{
    let mut s = String::from_str("reembolso:");
    let t = texto_id(conta_id);
    s.append(t.as_str());
    s
}

/// Origem do reembolso de uma devolução parcial: a venda e o instante do
/// evento (devoluções sucessivas da mesma venda não colidem; o mesmo evento
/// reprocessado sim).
pub open spec fn nome_reembolso_parcial(venda_id: u128, occurred_at: Instante) -> Seq<char> {
    "reembolso-parcial:"@ + uuid_hifenado(venda_id) + ":"@ + decimal_com_sinal(occurred_at.micros as int)
}

pub fn nome_do_reembolso_parcial(venda_id: u128, occurred_at: Instante) -> (s: String)
    ensures
        s@ == nome_reembolso_parcial(venda_id, occurred_at),
{
    let mut s = String::from_str("reembolso-parcial:");
    let t = texto_id(venda_id);
    s.append(t.as_str());
    s.append(":");
    let mut cs: Vec<char> = Vec::new();
    escrever_decimal_com_sinal(occurred_at.micros, &mut cs);
    let m = texto_de(&cs);
    s.append(m.as_str());
    s
}

// ---------------------------------------------------------------------------
// Parcelas de uma venda confirmada
// ---------------------------------------------------------------------------

/// Plano de uma conta a receber derivada de uma venda confirmada.
#[derive(Debug, Clone)]
pub struct ParcelaReceber {
    /// Índice estável da parcela (entra no id determinístico).
    pub indice: u32,
    pub valor: Dinheiro,
    pub vencimento: Instante,
    pub descricao: Option<String>,
    /// Pagamento à vista: a conta já nasce recebida.
    pub liquidar_imediatamente: bool,
}

/// Venda no cartão de crédito em mais de uma parcela.
pub open spec fn parcelado(forma: FormaPagamento) -> bool {
    forma matches FormaPagamento::CartaoCredito { parcelas } && parcelas > 1
}

/// Valor da parcela `i` de `n`: o total dividido (truncado) por `n`, com a
/// sobra de arredondamento na última.
pub open spec fn valor_parcela(total: int, n: int, i: int) -> int {
    if i == n - 1 {
        total - div_trunc(total, n) * (n - 1)
    } else {
        div_trunc(total, n)
    }
}

/// Descrição da parcela `i` (base zero) de `n` de uma venda.
pub open spec fn descricao_parcela(venda_id: u128, i: int, n: int) -> Seq<char> {
    "Parcela "@ + decimal((i + 1) as nat) + "/"@ + decimal(n as nat) + " — venda "@ + uuid_hifenado(
        venda_id,
    )
}

/// Os vencimentos do plano cabem na faixa de instantes.
pub open spec fn vencimentos_representaveis(forma: FormaPagamento, agora: Instante) -> bool {
    match forma {
        FormaPagamento::Prazo { dias } => mais_dias_spec(agora, dias as int) <= i64::MAX,
        FormaPagamento::CartaoCredito { parcelas } => parcelas > 1 ==> mais_dias_spec(
            agora,
            30 * parcelas,
        ) <= i64::MAX,
        _ => true,
    }
}

/// Decide se os vencimentos do plano cabem na faixa de instantes (a
/// condição de `planejar_parcelas`).
pub fn vencimentos_cabem(forma: &FormaPagamento, agora: Instante) -> (b: bool)
    ensures
        b == vencimentos_representaveis(*forma, agora),
{
    match forma {
        FormaPagamento::Prazo { dias } => {
            proof {
                assert(i64::MIN <= mais_dias_spec(agora, *dias as int)) by (nonlinear_arith)
                    requires
                        *dias >= 0,
                        agora.micros >= i64::MIN,
                ;
            }
            agora.cabe_mais_dias(*dias as i64)
        },
        FormaPagamento::CartaoCredito { parcelas } => {
            if *parcelas > 1 {
                proof {
                    assert(i64::MIN <= mais_dias_spec(agora, 30 * *parcelas)) by (nonlinear_arith)
                        requires
                            *parcelas >= 0,
                            agora.micros >= i64::MIN,
                    ;
                }
                agora.cabe_mais_dias(30 * (*parcelas as i64))
            } else {
                true
            }
        },
        _ => true,
    }
}

/// O plano de parcelas de uma forma de pagamento: a prazo, uma conta com
/// vencimento futuro; crédito parcelado, `n` contas mensais; à vista
/// (dinheiro, Pix, débito, crédito em uma vez), uma conta já recebida.
pub open spec fn plano_de_parcelas(
    venda_id: u128,
    total: int,
    forma: FormaPagamento,
    agora: Instante,
    r: Seq<ParcelaReceber>,
) -> bool {
    match forma {
        FormaPagamento::Prazo { dias } => {
            &&& r.len() == 1
            &&& r[0].indice == 0
            &&& r[0].valor.0 == total
            &&& r[0].vencimento.micros == mais_dias_spec(agora, dias as int)
            &&& r[0].descricao is None
            &&& !r[0].liquidar_imediatamente
        },
        FormaPagamento::CartaoCredito { parcelas } if parcelas > 1 => {
            &&& r.len() == parcelas
            &&& forall|i: int|
                0 <= i < parcelas ==> {
                    &&& (#[trigger] r[i]).indice == i
                    &&& r[i].valor.0 == valor_parcela(total, parcelas as int, i)
                    &&& r[i].vencimento.micros == mais_dias_spec(agora, 30 * (i + 1))
                    &&& r[i].descricao matches Some(d) && d@ == descricao_parcela(
                        venda_id,
                        i,
                        parcelas as int,
                    )
                    &&& !r[i].liquidar_imediatamente
                }
        },
        _ => {
            &&& r.len() == 1
            &&& r[0].indice == 0
            &&& r[0].valor.0 == total
            &&& r[0].vencimento == agora
            &&& r[0].descricao is None
            &&& r[0].liquidar_imediatamente
        },
    }
}

/// Soma dos valores de um plano.
pub open spec fn soma_parcelas(r: Seq<ParcelaReceber>) -> int
    decreases r.len(),
{
    if r.len() == 0 {
        0
    } else {
        soma_parcelas(r.drop_last()) + r.last().valor.0
    }
}

proof fn lema_divisao_parcelas(total: int, n: int)
    requires
        2 <= n <= 255,
        i64::MIN <= total <= i64::MAX,
    ensures
        i64::MIN <= div_trunc(total, n) * (n - 1) <= i64::MAX,
        i64::MIN <= total - div_trunc(total, n) * (n - 1) <= i64::MAX,
{
    let b = div_trunc(total, n);
    if total >= 0 {
        assert(0 <= b * n <= total) by (nonlinear_arith)
            requires
                b == total / n,
                total >= 0,
                n >= 2,
        ;
        assert(0 <= b * (n - 1) <= b * n) by (nonlinear_arith)
            requires
                b >= 0,
                n >= 2,
        ;
    } else {
        let q = (-total) / n;
        assert(0 <= q * n <= -total) by (nonlinear_arith)
            requires
                q == (-total) / n,
                -total > 0,
                n >= 2,
        ;
        assert(0 <= q * (n - 1) <= q * n) by (nonlinear_arith)
            requires
                q >= 0,
                n >= 2,
        ;
        assert(b * (n - 1) == -(q * (n - 1))) by (nonlinear_arith)
            requires
                b == -q,
        ;
    }
}

/// Uma parcela de crédito parcelado.
fn parcela_cartao(venda_id: u128, total: i64, n: u8, i: u8, agora: Instante) -> (p: ParcelaReceber)
    requires
        n > 1,
        i < n,
        mais_dias_spec(agora, 30 * n) <= i64::MAX,
    ensures
        p.indice == i,
        p.valor.0 == valor_parcela(total as int, n as int, i as int),
        p.vencimento.micros == mais_dias_spec(agora, 30 * (i + 1)),
        p.descricao matches Some(d) && d@ == descricao_parcela(venda_id, i as int, n as int),
        !p.liquidar_imediatamente,
{
    proof {
        lema_divisao_parcelas(total as int, n as int);
    }
    let nn: i64 = n as i64;
    let base: i64 = total / nn;
    let valor: i64 = if i == n - 1 {
        total - base * (nn - 1)
    } else {
        base
    };
    let dias: i64 = 30 * (i as i64 + 1);
    proof {
        assert(mais_dias_spec(agora, dias as int) <= mais_dias_spec(agora, 30 * n)) by (nonlinear_arith)
            requires
                dias <= 30 * n,
        ;
        assert(i64::MIN <= mais_dias_spec(agora, dias as int)) by (nonlinear_arith)
            requires
                dias >= 0,
                agora.micros >= i64::MIN,
        ;
    }
    let vencimento = agora.mais_dias(dias);
    let mut cs: Vec<char> = Vec::new();
    escrever_decimal((i as u128) + 1, &mut cs);
    let mut ns: Vec<char> = Vec::new();
    escrever_decimal(n as u128, &mut ns);
    let mut d = String::from_str("Parcela ");
    let a = texto_de(&cs);
    d.append(a.as_str());
    d.append("/");
    let b = texto_de(&ns);
    d.append(b.as_str());
    d.append(" — venda ");
    let v = texto_id(venda_id);
    d.append(v.as_str());
    ParcelaReceber { indice: i as u32, valor: Dinheiro::from_centavos(valor), vencimento, descricao: Some(d), liquidar_imediatamente: false }
}

/// O plano de parcelas do financeiro para a forma de pagamento da venda.
pub fn planejar_parcelas(venda_id: u128, total_centavos: i64, forma: &FormaPagamento, agora: Instante) -> (r:
    Vec<ParcelaReceber>)
    requires
        vencimentos_representaveis(*forma, agora),
    ensures
        plano_de_parcelas(venda_id, total_centavos as int, *forma, agora, r@),
{
    let mut r: Vec<ParcelaReceber> = Vec::new();
    match forma {
        FormaPagamento::Prazo { dias } => {
            proof {
                assert(i64::MIN <= mais_dias_spec(agora, *dias as int)) by (nonlinear_arith)
                    requires
                        *dias >= 0,
                        agora.micros >= i64::MIN,
                ;
            }
            r.push(
                ParcelaReceber {
                    indice: 0,
                    valor: Dinheiro::from_centavos(total_centavos),
                    vencimento: agora.mais_dias(*dias as i64),
                    descricao: None,
                    liquidar_imediatamente: false,
                },
            );
        },
        FormaPagamento::CartaoCredito { parcelas } => {
            let n = *parcelas;
            if n > 1 {
                let mut i: u8 = 0;
                while i < n
                    invariant
                        n > 1,
                        *forma == (FormaPagamento::CartaoCredito { parcelas: n }),
                        mais_dias_spec(agora, 30 * n) <= i64::MAX,
                        0 <= i <= n,
                        r@.len() == i,
                        forall|k: int|
                            0 <= k < i ==> {
                                &&& (#[trigger] r@[k]).indice == k
                                &&& r@[k].valor.0 == valor_parcela(total_centavos as int, n as int, k)
                                &&& r@[k].vencimento.micros == mais_dias_spec(agora, 30 * (k + 1))
                                &&& r@[k].descricao matches Some(d) && d@ == descricao_parcela(
                                    venda_id,
                                    k,
                                    n as int,
                                )
                                &&& !r@[k].liquidar_imediatamente
                            },
                    decreases n - i,
                {
                    let p = parcela_cartao(venda_id, total_centavos, n, i, agora);
                    r.push(p);
                    i = i + 1;
                }
            } else {
                r.push(
                    ParcelaReceber {
                        indice: 0,
                        valor: Dinheiro::from_centavos(total_centavos),
                        vencimento: agora,
                        descricao: None,
                        liquidar_imediatamente: true,
                    },
                );
            }
        },
        _ => {
            r.push(
                ParcelaReceber {
                    indice: 0,
                    valor: Dinheiro::from_centavos(total_centavos),
                    vencimento: agora,
                    descricao: None,
                    liquidar_imediatamente: true,
                },
            );
        },
    }
    r
}

proof fn lema_soma_prefixo_parcelas(r: Seq<ParcelaReceber>, total: int, n: int, k: int)
    requires
        n >= 2,
        r.len() == n,
        0 <= k <= n - 1,
        forall|i: int| 0 <= i < n ==> (#[trigger] r[i]).valor.0 == valor_parcela(total, n, i),
    ensures
        soma_parcelas(r.take(k)) == div_trunc(total, n) * k,
    decreases k,
{
    if k > 0 {
        lema_soma_prefixo_parcelas(r, total, n, k - 1);
        assert(r.take(k).drop_last() =~= r.take(k - 1));
        assert(div_trunc(total, n) * (k - 1) + div_trunc(total, n) == div_trunc(total, n) * k) by (nonlinear_arith);
    } else {
        assert(r.take(0) =~= Seq::<ParcelaReceber>::empty());
    }
}

/// As parcelas de qualquer forma de pagamento somam exatamente o total da
/// venda (a sobra do arredondamento fica na última).
pub proof fn lema_parcelas_somam_o_total(
    venda_id: u128,
    total: int,
    forma: FormaPagamento,
    agora: Instante,
    r: Seq<ParcelaReceber>,
)
    requires
        plano_de_parcelas(venda_id, total, forma, agora, r),
    ensures
        soma_parcelas(r) == total,
{
    if parcelado(forma) {
        let n = r.len() as int;
        assert forall|i: int| 0 <= i < n implies (#[trigger] r[i]).valor.0 == valor_parcela(total, n, i) by {
            if let FormaPagamento::CartaoCredito { parcelas } = forma {
                assert(n == parcelas);
            }
        }
        lema_soma_prefixo_parcelas(r, total, n, n - 1);
        assert(r.drop_last() =~= r.take(n - 1));
        assert(r.last() == r[n - 1]);
        assert(r.last().valor.0 == total - div_trunc(total, n) * (n - 1));
        assert(soma_parcelas(r.drop_last()) == div_trunc(total, n) * (n - 1));
        assert(soma_parcelas(r) == soma_parcelas(r.drop_last()) + r.last().valor.0);
    } else {
        assert(r.len() == 1);
        assert(r.drop_last() =~= Seq::<ParcelaReceber>::empty());
        assert(soma_parcelas(Seq::<ParcelaReceber>::empty()) == 0);
        assert(r.last() == r[0]);
        assert(r[0].valor.0 == total);
        assert(soma_parcelas(r) == soma_parcelas(r.drop_last()) + r.last().valor.0);
    }
}

/// A conta a receber de uma parcela, com id determinístico; parcela à vista
/// de valor positivo já nasce recebida (liquidada).
pub fn conta_da_parcela(venda_id: u128, cliente_id: Option<u128>, parcela: ParcelaReceber) -> (c:
    ContaReceber)
    ensures
        cr_valida(c),
        c.id == uuid_v5(ns_financeiro(), nome_conta_receber(venda_id, parcela.indice)),
        c.venda_id == venda_id,
        c.cliente_id == cliente_id,
        c.valor_original == parcela.valor,
        c.vencimento == parcela.vencimento,
        c.descricao == parcela.descricao,
        c.valor_abatido.0 == 0,
        parcela.liquidar_imediatamente && parcela.valor.0 > 0 ==> {
            &&& c.status == StatusContaReceber::Liquidada
            &&& c.valor_recebido == parcela.valor
            &&& c.eventos@.len() == 3
        },
        !(parcela.liquidar_imediatamente && parcela.valor.0 > 0) ==> cr_registrada(
            c,
            c.id,
            venda_id,
            cliente_id,
            parcela.valor.0 as int,
            parcela.vencimento,
            parcela.descricao,
        ),
{
    let id = conta_receber_id_da_venda(venda_id, parcela.indice);
    let valor = parcela.valor;
    let liquidar = parcela.liquidar_imediatamente;
    let mut conta = ContaReceber::criar_com_id(
        id,
        venda_id,
        cliente_id,
        valor,
        parcela.vencimento,
        parcela.descricao,
    );
    if liquidar && valor.centavos() > 0 {
        let r = conta.registrar_pagamento(valor);
        proof {
            assert(r is Ok);
        }
    }
    conta
}

/// A conta a pagar de um recebimento de mercadoria: id determinístico,
/// vencimento no prazo de pagamento do pedido.
pub fn conta_do_recebimento(
    pedido_id: u128,
    recebimento_id: &str,
    fornecedor_id: u128,
    total_centavos: i64,
    prazo_pagamento_dias: u16,
    agora: Instante,
) -> (c: ContaPagar)
    requires
        mais_dias_spec(agora, prazo_pagamento_dias as int) <= i64::MAX,
    ensures
        cp_valida(c),
        cp_registrada(
            c,
            uuid_v5(ns_financeiro(), nome_conta_pagar(pedido_id, recebimento_id@)),
            pedido_id,
            fornecedor_id,
            total_centavos as int,
            Instante { micros: mais_dias_spec(agora, prazo_pagamento_dias as int) as i64 },
            None,
        ),
{
    let id = conta_pagar_id_do_recebimento(pedido_id, recebimento_id);
    proof {
        assert(i64::MIN <= mais_dias_spec(agora, prazo_pagamento_dias as int)) by (nonlinear_arith)
            requires
                prazo_pagamento_dias >= 0,
                agora.micros >= i64::MIN,
        ;
    }
    let vencimento = agora.mais_dias(prazo_pagamento_dias as i64);
    ContaPagar::criar_com_id(
        id,
        pedido_id,
        fornecedor_id,
        Dinheiro::from_centavos(total_centavos),
        vencimento,
        None,
    )
}

// ---------------------------------------------------------------------------
// Devolução de itens: abatimento, estorno e reembolso ao cliente
// ---------------------------------------------------------------------------

/// Abatimento de uma conta, dado o que resta a abater: nada quando não resta
/// valor ou a conta não tem saldo; senão o menor entre saldo e restante.
pub open spec fn abatimento(saldo: int, restante: int) -> int {
    if restante <= 0 || saldo <= 0 {
        0
    } else if saldo < restante {
        saldo
    } else {
        restante
    }
}

/// Plano da devolução parcial sobre os saldos das contas da venda, em ordem
/// de vencimento: o abatimento de cada conta e o que sobra sem saldo para
/// abater (a parte já recebida, a reembolsar).
pub open spec fn plano_abatimentos(saldos: Seq<i64>, valor: int) -> (Seq<int>, int)
    decreases saldos.len(),
{
    if saldos.len() == 0 {
        (Seq::empty(), valor)
    } else {
        let (anteriores, restante) = plano_abatimentos(saldos.drop_last(), valor);
        let a = abatimento(saldos.last() as int, restante);
        (anteriores.push(a), restante - a)
    }
}

/// Soma de uma sequência de inteiros.
pub open spec fn soma_valores(v: Seq<int>) -> int
    decreases v.len(),
{
    if v.len() == 0 {
        0
    } else {
        soma_valores(v.drop_last()) + v.last()
    }
}

/// Abatimentos da devolução parcial, conta a conta, e o valor restante.
pub fn planejar_abatimentos(saldos: &Vec<i64>, valor_devolvido: i64) -> (r: (Vec<i64>, i64))
    ensures
        Seq::new(r.0@.len(), |i: int| r.0@[i] as int) == plano_abatimentos(saldos@, valor_devolvido as int).0,
        r.1 == plano_abatimentos(saldos@, valor_devolvido as int).1,
{
    let mut abatimentos: Vec<i64> = Vec::new();
    let mut restante: i64 = valor_devolvido;
    let mut i: usize = 0;
    while i < saldos.len()
        invariant
            0 <= i <= saldos@.len(),
            Seq::new(abatimentos@.len(), |k: int| abatimentos@[k] as int) == plano_abatimentos(
                saldos@.take(i as int),
                valor_devolvido as int,
            ).0,
            restante == plano_abatimentos(saldos@.take(i as int), valor_devolvido as int).1,
            restante <= valor_devolvido || restante <= 0,
        decreases saldos@.len() - i,
    {
        proof {
            assert(saldos@.take(i + 1).drop_last() =~= saldos@.take(i as int));
            lema_restante_nao_cresce(saldos@.take(i as int), valor_devolvido as int);
        }
        let saldo = saldos[i];
        let a: i64 = if restante <= 0 || saldo <= 0 {
            0
        } else if saldo < restante {
            saldo
        } else {
            restante
        };
        abatimentos.push(a);
        restante = restante - a;
        i = i + 1;
        proof {
            assert(Seq::new(abatimentos@.len(), |k: int| abatimentos@[k] as int) =~= plano_abatimentos(
                saldos@.take(i as int),
                valor_devolvido as int,
            ).0);
            lema_restante_nao_cresce(saldos@.take(i as int), valor_devolvido as int);
        }
    }
    proof {
        assert(saldos@.take(saldos@.len() as int) =~= saldos@);
    }
    (abatimentos, restante)
}

proof fn lema_restante_nao_cresce(saldos: Seq<i64>, valor: int)
    ensures
        plano_abatimentos(saldos, valor).1 <= valor || plano_abatimentos(saldos, valor).1 <= 0,
        plano_abatimentos(saldos, valor).1 >= 0 || plano_abatimentos(saldos, valor).1 == valor,
        plano_abatimentos(saldos, valor).0.len() == saldos.len(),
    decreases saldos.len(),
{
    if saldos.len() > 0 {
        lema_restante_nao_cresce(saldos.drop_last(), valor);
    }
}

/// A devolução parcial se distribui sem perda: abatimentos mais restante dão
/// o valor devolvido; cada abatimento fica entre zero e o saldo da conta; e
/// se algo resta, toda conta com saldo foi abatida por inteiro.
pub proof fn lema_devolucao_parcial_distribui(saldos: Seq<i64>, valor: int)
    ensures
        ({
            let (abat, restante) = plano_abatimentos(saldos, valor);
            &&& abat.len() == saldos.len()
            &&& soma_valores(abat) + restante == valor
            &&& forall|i: int|
                0 <= i < saldos.len() ==> 0 <= #[trigger] abat[i] && (saldos[i] > 0 ==> abat[i]
                    <= saldos[i]) && (saldos[i] <= 0 ==> abat[i] == 0)
            &&& restante > 0 ==> forall|i: int|
                0 <= i < saldos.len() && saldos[i] > 0 ==> #[trigger] abat[i] == saldos[i]
        }),
    decreases saldos.len(),
{
    lema_restante_nao_cresce(saldos, valor);
    if saldos.len() > 0 {
        let anterior = saldos.drop_last();
        lema_devolucao_parcial_distribui(anterior, valor);
        lema_restante_nao_cresce(anterior, valor);
        let (abat0, rest0) = plano_abatimentos(anterior, valor);
        let (abat, restante) = plano_abatimentos(saldos, valor);
        assert(abat.drop_last() =~= abat0);
        assert forall|i: int| 0 <= i < saldos.len() implies 0 <= #[trigger] abat[i] && (saldos[i] > 0
            ==> abat[i] <= saldos[i]) && (saldos[i] <= 0 ==> abat[i] == 0) by {
            if i < saldos.len() - 1 {
                assert(abat[i] == abat0[i]);
                assert(saldos[i] == anterior[i]);
            }
        }
        if restante > 0 {
            assert forall|i: int| 0 <= i < saldos.len() && saldos[i] > 0 implies #[trigger] abat[i]
                == saldos[i] by {
                if i < saldos.len() - 1 {
                    assert(abat[i] == abat0[i]);
                    assert(saldos[i] == anterior[i]);
                }
            }
        }
    }
}

/// Motivo do estorno por devolução total.
pub open spec fn motivo_devolucao_total(motivo: Seq<char>) -> Seq<char> {
    "Devolução total: "@ + motivo
}

/// Motivo do abatimento por devolução parcial.
pub open spec fn motivo_devolucao_parcial(motivo: Seq<char>) -> Seq<char> {
    "Devolução parcial: "@ + motivo
}

/// O motivo do abatimento por devolução parcial.
pub fn motivo_abatimento_devolucao(motivo: &str) -> (m: String)
    ensures
        m@ == motivo_devolucao_parcial(motivo@),
{
    let mut m = String::from_str("Devolução parcial: ");
    m.append(motivo);
    m
}

/// Estorna uma conta da venda desfeita (devolução total), qualquer que seja
/// seu status, e devolve o valor já recebido, a reembolsar ao cliente.
pub fn estornar_por_devolucao_total(conta: &mut ContaReceber, motivo: &str) -> (r: DomainResult<i64>)
    requires
        cr_valida(*old(conta)),
    ensures
        cr_valida(*final(conta)),
        mesma_conta(*old(conta), *final(conta)),
        final(conta).valor_recebido == old(conta).valor_recebido,
        final(conta).valor_abatido == old(conta).valor_abatido,
        old(conta).status == StatusContaReceber::Estornada ==> r is Err && *final(conta) == *old(conta),
        old(conta).status != StatusContaReceber::Estornada ==> {
            &&& r == Ok::<i64, crate::erro::DomainError>(old(conta).valor_recebido.0)
            &&& final(conta).status == StatusContaReceber::Estornada
            &&& final(conta).eventos@.drop_last() == old(conta).eventos@
            &&& final(conta).eventos@.last() matches crate::financeiro::eventos::FinanceiroEvent::ContaReceberEstornada {
                conta_id,
                motivo: m,
                ..
            } && conta_id == old(conta).id && m@ == motivo_devolucao_total(motivo@)
        },
{
    let recebido = conta.valor_recebido.centavos();
    let mut m = String::from_str("Devolução total: ");
    m.append(motivo);
    match conta.estornar(m) {
        Ok(()) => Ok(recebido),
        Err(e) => Err(e),
    }
}

/// Descrição da conta de reembolso ao cliente.
pub open spec fn descricao_reembolso(total: bool, venda_id: u128) -> Seq<char> {
    (if total {
        "Reembolso ao cliente — devolução total da venda "@
    } else {
        "Reembolso ao cliente — devolução parcial da venda "@
    }) + uuid_hifenado(venda_id)
}

/// Credor do reembolso: o cliente, ou o UUID nulo em venda sem cliente.
pub open spec fn credor_do_reembolso(cliente_id: Option<u128>) -> u128 {
    match cliente_id {
        Some(cl) => cl,
        None => 0,
    }
}

/// Conta a pagar de reembolso ao cliente: a venda devolvida no lugar do
/// pedido, o cliente (nulo em venda de balcão) no lugar do fornecedor,
/// vencimento imediato e a descrição que deixa o credor claro.
pub fn reembolso_cliente(
    id: u128,
    venda_id: u128,
    cliente_id: Option<u128>,
    valor: Dinheiro,
    devolucao_total: bool,
    agora: Instante,
) -> (c: ContaPagar)
    ensures
        cp_valida(c),
        exists|d: String|
            d@ == descricao_reembolso(devolucao_total, venda_id) && #[trigger] cp_registrada(
                c,
                id,
                venda_id,
                credor_do_reembolso(cliente_id),
                valor.0 as int,
                agora,
                Some(d),
            ),
{
    let mut d = if devolucao_total {
        String::from_str("Reembolso ao cliente — devolução total da venda ")
    } else {
        String::from_str("Reembolso ao cliente — devolução parcial da venda ")
    };
    let v = texto_id(venda_id);
    d.append(v.as_str());
    let credor = match cliente_id {
        Some(cl) => cl,
        None => 0,
    };
    let ghost dg = d;
    let c = ContaPagar::criar_com_id(id, venda_id, credor, valor, agora, Some(d));
    proof {
        assert(dg@ == descricao_reembolso(devolucao_total, venda_id));
        assert(credor == credor_do_reembolso(cliente_id));
        assert(cp_registrada(c, id, venda_id, credor, valor.0 as int, agora, Some(dg)));
    }
    c
}

} // verus!
