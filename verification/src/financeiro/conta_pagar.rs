//! Conta a pagar: a fornecedor (recebimento de mercadoria) ou de reembolso
//! ao cliente.

use vstd::prelude::*;

use crate::compartilhado::dinheiro::{dinheiro_texto, Dinheiro};
use crate::compartilhado::ids::novo_id;
use crate::compartilhado::tempo::{agora, Instante};
use crate::erro::{DomainError, DomainResult};
use crate::financeiro::eventos::FinanceiroEvent;

verus! {

#[derive(Debug, Clone, Copy, PartialEq, Eq, Structural)]
pub enum StatusContaPagar {
    Pendente,
    Parcial,
    Liquidada,
}

#[derive(Debug, Clone)]
pub struct ContaPagar {
    pub id: u128,
    pub version: u64,
    /// Eventos ainda não publicados.
    pub eventos: Vec<FinanceiroEvent>,
    pub pedido_id: u128,
    pub fornecedor_id: u128,
    pub valor_original: Dinheiro,
    pub valor_pago: Dinheiro,
    pub vencimento: Instante,
    pub status: StatusContaPagar,
}

/// Saldo a pagar: original − pago.
pub open spec fn saldo_cp(c: ContaPagar) -> int {
    c.valor_original.0 - c.valor_pago.0
}

/// Invariante da conta a pagar: o pago nunca é negativo nem passa do
/// original; pendente não tem pagamento, parcial tem parte dele e liquidada
/// está paga por inteiro.
pub open spec fn cp_valida(c: ContaPagar) -> bool {
    &&& c.valor_pago.0 >= 0
    &&& c.valor_pago.0 > 0 ==> c.valor_pago.0 <= c.valor_original.0
    &&& c.status == StatusContaPagar::Pendente ==> c.valor_pago.0 == 0
    &&& c.status == StatusContaPagar::Parcial ==> 0 < c.valor_pago.0 < c.valor_original.0
    &&& c.status == StatusContaPagar::Liquidada ==> c.valor_pago.0 == c.valor_original.0
}

/// Mensagem de pagamento acima do saldo (a mensagem termina em espaço).
pub open spec fn msg_pagamento_excede_cp(valor: int, saldo: int) -> Seq<char> {
    "Pagamento ("@ + dinheiro_texto(valor) + ") excede o saldo ("@ + dinheiro_texto(saldo) + ") "@
}

/// Conta recém-registrada: pendente, nada pago, um único evento de registro.
pub open spec fn cp_registrada(
    c: ContaPagar,
    id: u128,
    pedido_id: u128,
    fornecedor_id: u128,
    valor: int,
    vencimento: Instante,
    descricao: Option<String>,
) -> bool {
    &&& c.id == id
    &&& c.version == 0
    &&& c.pedido_id == pedido_id
    &&& c.fornecedor_id == fornecedor_id
    &&& c.valor_original.0 == valor
    &&& c.valor_pago.0 == 0
    &&& c.vencimento == vencimento
    &&& c.status == StatusContaPagar::Pendente
    &&& c.eventos@.len() == 1
    &&& c.eventos@[0] matches FinanceiroEvent::ContaPagarRegistrada {
        conta_id,
        pedido_id: p,
        fornecedor_id: f,
        valor_centavos,
        vencimento: v,
        descricao: d,
        ..
    } && conta_id == id && p == pedido_id && f == fornecedor_id && valor_centavos == valor && v
        == vencimento && d == descricao
}

impl ContaPagar {
    /// Cria a conta com id aleatório e sem descrição.
    pub fn criar(pedido_id: u128, fornecedor_id: u128, valor: Dinheiro, vencimento: Instante) -> (c:
        ContaPagar)
        ensures
            cp_valida(c),
            cp_registrada(c, c.id, pedido_id, fornecedor_id, valor.0 as int, vencimento, None),
    {
        let id = novo_id();
        ContaPagar::criar_com_id(id, pedido_id, fornecedor_id, valor, vencimento, None)
    }

    /// Cria a conta com o id dado (ids determinísticos tornam idempotente a
    /// reentrega de um evento).
    pub fn criar_com_id(
        id: u128,
        pedido_id: u128,
        fornecedor_id: u128,
        valor: Dinheiro,
        vencimento: Instante,
        descricao: Option<String>,
    ) -> (c: ContaPagar)
        ensures
            cp_valida(c),
            cp_registrada(c, id, pedido_id, fornecedor_id, valor.0 as int, vencimento, descricao),
    {
        let now = agora();
        let mut eventos: Vec<FinanceiroEvent> = Vec::new();
        eventos.push(
            FinanceiroEvent::ContaPagarRegistrada {
                conta_id: id,
                pedido_id,
                fornecedor_id,
                valor_centavos: valor.centavos(),
                vencimento,
                descricao,
                occurred_at: now,
            },
        );
        ContaPagar {
            id,
            version: 0,
            eventos,
            pedido_id,
            fornecedor_id,
            valor_original: valor,
            valor_pago: Dinheiro::zero(),
            vencimento,
            status: StatusContaPagar::Pendente,
        }
    }

    /// Registra um pagamento: conta não liquidada, valor positivo e até o
    /// saldo. Pagamento que quita o saldo liquida a conta.
    pub fn registrar_pagamento(&mut self, valor: Dinheiro) -> (r: DomainResult<()>)
        requires
            cp_valida(*old(self)),
        ensures
            cp_valida(*final(self)),
            final(self).id == old(self).id,
            final(self).version == old(self).version,
            final(self).pedido_id == old(self).pedido_id,
            final(self).fornecedor_id == old(self).fornecedor_id,
            final(self).valor_original == old(self).valor_original,
            final(self).vencimento == old(self).vencimento,
            old(self).status == StatusContaPagar::Liquidada ==> (r matches Err(
                DomainError::BusinessRule(m),
            ) && m@ == "Conta já está liquidada"@ && *final(self) == *old(self)),
            old(self).status != StatusContaPagar::Liquidada && valor.0 <= 0 ==> (r matches Err(
                DomainError::Validation(m),
            ) && m@ == "Valor do pagamento deve ser positivo"@ && *final(self) == *old(self)),
            old(self).status != StatusContaPagar::Liquidada && 0 < valor.0 && valor.0 > saldo_cp(
                *old(self),
            ) ==> (r matches Err(DomainError::BusinessRule(m)) && m@ == msg_pagamento_excede_cp(
                valor.0 as int,
                saldo_cp(*old(self)),
            ) && *final(self) == *old(self)),
            old(self).status != StatusContaPagar::Liquidada && 0 < valor.0 <= saldo_cp(*old(self))
                ==> {
                let n = old(self).eventos@.len() as int;
                let quitou = final(self).valor_pago.0 == old(self).valor_original.0;
                &&& r is Ok
                &&& final(self).valor_pago.0 == old(self).valor_pago.0 + valor.0
                &&& final(self).status == if quitou {
                    StatusContaPagar::Liquidada
                } else {
                    StatusContaPagar::Parcial
                }
                &&& final(self).eventos@.len() == n + if quitou { 2int } else { 1int }
                &&& final(self).eventos@.subrange(0, n) == old(self).eventos@
                &&& final(self).eventos@[n] matches FinanceiroEvent::PagamentoEfetuado {
                    conta_id,
                    valor_centavos,
                    valor_pago_total_centavos,
                    ..
                } && conta_id == old(self).id && valor_centavos == valor.0 && valor_pago_total_centavos
                    == final(self).valor_pago.0
                &&& quitou ==> (final(self).eventos@[n + 1] matches FinanceiroEvent::ContaPagarLiquidada {
                    conta_id,
                    ..
                } && conta_id == old(self).id)
            },
    {
        if self.status == StatusContaPagar::Liquidada {
            return Err(DomainError::BusinessRule(String::from_str("Conta já está liquidada")));
        }
        if valor.centavos() <= 0 {
            return Err(DomainError::Validation(String::from_str("Valor do pagamento deve ser positivo")));
        }
        let saldo = self.valor_original.centavos() - self.valor_pago.centavos();
        if valor.centavos() > saldo {
            let mut m = String::from_str("Pagamento (");
            let v = valor.formatar();
            m.append(v.as_str());
            m.append(") excede o saldo (");
            let s = Dinheiro::from_centavos(saldo).formatar();
            m.append(s.as_str());
            m.append(") ");
            return Err(DomainError::BusinessRule(m));
        }
        self.valor_pago = Dinheiro::from_centavos(self.valor_pago.centavos() + valor.centavos());
        let now = agora();
        self.eventos.push(
            FinanceiroEvent::PagamentoEfetuado {
                conta_id: self.id,
                valor_centavos: valor.centavos(),
                valor_pago_total_centavos: self.valor_pago.centavos(),
                occurred_at: now,
            },
        );
        let ghost apos_pagamento = self.eventos@;
        if self.valor_pago.centavos() == self.valor_original.centavos() {
            self.status = StatusContaPagar::Liquidada;
            let now2 = agora();
            self.eventos.push(FinanceiroEvent::ContaPagarLiquidada { conta_id: self.id, occurred_at: now2 });
        } else {
            self.status = StatusContaPagar::Parcial;
        }
        proof {
            assert(self.eventos@.subrange(0, old(self).eventos@.len() as int) =~= old(self).eventos@);
            assert(self.eventos@[old(self).eventos@.len() as int] == apos_pagamento.last());
        }
        Ok(())
    }

    /// Decide se a conta (por exemplo, restaurada do armazenamento) satisfaz o
    /// invariante exigido pelas operações.
    pub fn valida(&self) -> (b: bool)
        ensures
            b == cp_valida(*self),
    {
        let pago = self.valor_pago.centavos();
        let original = self.valor_original.centavos();
        if pago < 0 || (pago > 0 && pago > original) {
            return false;
        }
        match self.status {
            StatusContaPagar::Pendente => pago == 0,
            StatusContaPagar::Parcial => 0 < pago && pago < original,
            StatusContaPagar::Liquidada => pago == original,
        }
    }

    /// Saldo a pagar.
    pub fn saldo_devedor(&self) -> (d: Dinheiro)
        requires
            cp_valida(*self),
        ensures
            d.0 == saldo_cp(*self),
    {
        Dinheiro::from_centavos(self.valor_original.centavos() - self.valor_pago.centavos())
    }
}

/// Uma conta liquidada está paga por inteiro: o saldo a pagar é zero.
pub proof fn lema_liquidada_quitada(c: ContaPagar)
    requires
        cp_valida(c),
        c.status == StatusContaPagar::Liquidada,
    ensures
        saldo_cp(c) == 0,
{
}

} // verus!
