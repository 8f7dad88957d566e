//! Conta a receber de uma venda: recebimentos, abatimentos e estorno.

use vstd::prelude::*;

use crate::compartilhado::dinheiro::{dinheiro_texto, Dinheiro};
use crate::compartilhado::ids::novo_id;
use crate::compartilhado::tempo::{agora, mais_dias_spec, Instante, MICROS_MAXIMO_RELOGIO, MICROS_POR_DIA};
use crate::erro::{DomainError, DomainResult};
use crate::financeiro::eventos::FinanceiroEvent;

verus! {

#[derive(Debug, Clone, Copy, PartialEq, Eq, Structural)]
pub enum StatusContaReceber {
    Pendente,
    Parcial,
    Liquidada,
    Estornada,
}

#[derive(Debug, Clone)]
pub struct ContaReceber {
    pub id: u128,
    pub version: u64,
    /// Eventos ainda não publicados.
    pub eventos: Vec<FinanceiroEvent>,
    pub venda_id: u128,
    pub cliente_id: Option<u128>,
    pub valor_original: Dinheiro,
    pub valor_recebido: Dinheiro,
    /// Total abatido do valor da conta (devolução parcial, desconto negociado).
    pub valor_abatido: Dinheiro,
    /// Rótulo humano (ex.: "Parcela 2/3 — venda X").
    pub descricao: Option<String>,
    pub vencimento: Instante,
    pub status: StatusContaReceber,
}

/// Saldo em aberto: original − abatido − recebido.
pub open spec fn saldo_cr(c: ContaReceber) -> int {
    c.valor_original.0 - c.valor_abatido.0 - c.valor_recebido.0
}

/// O vencimento `dias` dias após a leitura `t` do relógio (em
/// microssegundos) cabe na faixa de instantes.
pub open spec fn vencimento_cabe(t: int, dias: int) -> bool {
    i64::MIN <= t + dias * MICROS_POR_DIA <= i64::MAX
}

/// Conta encerrada: liquidada ou estornada.
pub open spec fn encerrada(s: StatusContaReceber) -> bool {
    s == StatusContaReceber::Liquidada || s == StatusContaReceber::Estornada
}

/// Invariante da conta a receber: recebido e abatido nunca negativos e, uma
/// vez movimentada, o saldo nunca negativo; pendente não tem recebimento,
/// parcial tem recebimento e saldo, liquidada tem saldo zero.
pub open spec fn cr_valida(c: ContaReceber) -> bool {
    &&& c.valor_recebido.0 >= 0
    &&& c.valor_abatido.0 >= 0
    &&& c.valor_recebido.0 + c.valor_abatido.0 > 0 ==> saldo_cr(c) >= 0
    &&& c.status == StatusContaReceber::Pendente ==> c.valor_recebido.0 == 0
    &&& c.status == StatusContaReceber::Parcial ==> c.valor_recebido.0 > 0 && saldo_cr(c) > 0
    &&& c.status == StatusContaReceber::Liquidada ==> saldo_cr(c) == 0
}

/// Tudo da conta exceto valores movimentados, status e eventos.
pub open spec fn mesma_conta(a: ContaReceber, b: ContaReceber) -> bool {
    &&& a.id == b.id
    &&& a.version == b.version
    &&& a.venda_id == b.venda_id
    &&& a.cliente_id == b.cliente_id
    &&& a.valor_original == b.valor_original
    &&& a.descricao == b.descricao
    &&& a.vencimento == b.vencimento
}

pub open spec fn msg_pagamento_excede_cr(valor: int, saldo: int) -> Seq<char> {
    "Pagamento ("@ + dinheiro_texto(valor) + ") excede o saldo devedor ("@ + dinheiro_texto(saldo)
        + ")"@
}

pub open spec fn msg_abatimento_excede(valor: int, saldo: int) -> Seq<char> {
    "Abatimento ("@ + dinheiro_texto(valor) + ") excede o saldo em aberto ("@ + dinheiro_texto(saldo)
        + ")"@
}

pub open spec fn msg_estorno_com_recebimento(recebido: int) -> Seq<char> {
    "Conta já tem "@ + dinheiro_texto(recebido)
        + " recebidos — use abatimento do saldo em aberto e/ou reembolso ao cliente em vez de estorno"@
}

/// Conta recém-registrada: pendente, sem movimento, um único evento.
pub open spec fn cr_registrada(
    c: ContaReceber,
    id: u128,
    venda_id: u128,
    cliente_id: Option<u128>,
    valor: int,
    vencimento: Instante,
    descricao: Option<String>,
) -> bool {
    &&& c.id == id
    &&& c.version == 0
    &&& c.venda_id == venda_id
    &&& c.cliente_id == cliente_id
    &&& c.valor_original.0 == valor
    &&& c.valor_recebido.0 == 0
    &&& c.valor_abatido.0 == 0
    &&& c.descricao == descricao
    &&& c.vencimento == vencimento
    &&& c.status == StatusContaReceber::Pendente
    &&& c.eventos@.len() == 1
    &&& c.eventos@[0] matches FinanceiroEvent::ContaReceberRegistrada {
        conta_id,
        venda_id: v,
        cliente_id: cl,
        valor_centavos,
        vencimento: vc,
        descricao: d,
        ..
    } && conta_id == id && v == venda_id && cl == cliente_id && valor_centavos == valor && vc
        == vencimento && d == descricao
}

/// Eventos de `b` são os de `a` seguidos de `n` novos.
pub open spec fn eventos_cr_acrescidos(a: ContaReceber, b: ContaReceber, n: int) -> bool {
    &&& b.eventos@.len() == a.eventos@.len() + n
    &&& b.eventos@.subrange(0, a.eventos@.len() as int) == a.eventos@
}

/// Após um movimento (recebimento ou abatimento) que zera o saldo, a conta
/// liquida e registra o evento de liquidação logo após o do movimento.
pub open spec fn liquidacao_registrada(a: ContaReceber, b: ContaReceber) -> bool {
    &&& b.status == StatusContaReceber::Liquidada
    &&& eventos_cr_acrescidos(a, b, 2)
    &&& b.eventos@.last() matches FinanceiroEvent::ContaReceberLiquidada { conta_id, .. } && conta_id
        == a.id
}

impl ContaReceber {
    /// Cria a conta com id aleatório.
    pub fn criar(venda_id: u128, cliente_id: Option<u128>, valor: Dinheiro, vencimento: Instante) -> (c:
        ContaReceber)
        ensures
            cr_valida(c),
            cr_registrada(c, c.id, venda_id, cliente_id, valor.0 as int, vencimento, None),
    {
        let id = novo_id();
        ContaReceber::criar_com_id(id, venda_id, cliente_id, valor, vencimento, None)
    }

    /// Cria a conta com vencimento daqui a `dias_prazo` dias; `None` quando o
    /// vencimento sairia da faixa representável de instantes. Com prazo cujo
    /// deslocamento cabe ao lado de qualquer leitura do relógio, a conta é
    /// sempre criada.
    pub fn criar_a_prazo(venda_id: u128, cliente_id: Option<u128>, valor: Dinheiro, dias_prazo: i64) -> (r:
        Option<ContaReceber>)
        ensures
            i64::MIN <= dias_prazo * MICROS_POR_DIA <= i64::MAX - MICROS_MAXIMO_RELOGIO ==> r is Some,
            r matches Some(c) ==> {
                &&& cr_valida(c)
                &&& cr_registrada(c, c.id, venda_id, cliente_id, valor.0 as int, c.vencimento, None)
                &&& 0 <= c.vencimento.micros - dias_prazo * MICROS_POR_DIA <= MICROS_MAXIMO_RELOGIO
            },
            r is None ==> exists|t: int|
                0 <= t <= MICROS_MAXIMO_RELOGIO && !vencimento_cabe(t, dias_prazo as int),
    {
        let now = agora();
        let delta: i128 = dias_prazo as i128 * 86_400_000_000;
        let alvo: i128 = now.micros as i128 + delta;
        if alvo < -0x8000_0000_0000_0000 || alvo > 0x7fff_ffff_ffff_ffff {
            proof {
                assert(!vencimento_cabe(now.micros as int, dias_prazo as int));
            }
            return None;
        }
        let vencimento = now.mais_dias(dias_prazo);
        Some(ContaReceber::criar(venda_id, cliente_id, valor, vencimento))
    }

    /// Cria a conta com o id dado (ids determinísticos tornam idempotente a
    /// reentrega de um evento).
    pub fn criar_com_id(
        id: u128,
        venda_id: u128,
        cliente_id: Option<u128>,
        valor: Dinheiro,
        vencimento: Instante,
        descricao: Option<String>,
    ) -> (c: ContaReceber)
        ensures
            cr_valida(c),
            cr_registrada(c, id, venda_id, cliente_id, valor.0 as int, vencimento, descricao),
    {
        let now = agora();
        let mut eventos: Vec<FinanceiroEvent> = Vec::new();
        let d = match &descricao {
            Some(t) => Some(t.clone()),
            None => None,
        };
        eventos.push(
            FinanceiroEvent::ContaReceberRegistrada {
                conta_id: id,
                venda_id,
                cliente_id,
                valor_centavos: valor.centavos(),
                vencimento,
                descricao: d,
                occurred_at: now,
            },
        );
        ContaReceber {
            id,
            version: 0,
            eventos,
            venda_id,
            cliente_id,
            valor_original: valor,
            valor_recebido: Dinheiro::zero(),
            valor_abatido: Dinheiro::zero(),
            descricao,
            vencimento,
            status: StatusContaReceber::Pendente,
        }
    }

    fn liquidar(&mut self)
        requires
            saldo_cr(*old(self)) == 0,
        ensures
            final(self).status == StatusContaReceber::Liquidada,
            final(self).eventos@.drop_last() == old(self).eventos@,
            final(self).eventos@.len() == old(self).eventos@.len() + 1,
            final(self).eventos@.last() matches FinanceiroEvent::ContaReceberLiquidada { conta_id, .. }
                && conta_id == old(self).id,
            mesma_conta(*old(self), *final(self)),
            final(self).valor_recebido == old(self).valor_recebido,
            final(self).valor_abatido == old(self).valor_abatido,
    {
        self.status = StatusContaReceber::Liquidada;
        let now = agora();
        self.eventos.push(FinanceiroEvent::ContaReceberLiquidada { conta_id: self.id, occurred_at: now });
        proof {
            assert(self.eventos@.drop_last() =~= old(self).eventos@);
        }
    }

    /// Registra um recebimento: conta não encerrada, valor positivo e até o
    /// saldo. Quitando o saldo a conta liquida; senão fica parcial.
    pub fn registrar_pagamento(&mut self, valor: Dinheiro) -> (r: DomainResult<()>)
        requires
            cr_valida(*old(self)),
        ensures
            cr_valida(*final(self)),
            mesma_conta(*old(self), *final(self)),
            final(self).valor_abatido == old(self).valor_abatido,
            encerrada(old(self).status) ==> (r matches Err(DomainError::BusinessRule(m)) && m@
                == "Conta já está encerrada"@ && *final(self) == *old(self)),
            !encerrada(old(self).status) && valor.0 <= 0 ==> (r matches Err(DomainError::Validation(m))
                && m@ == "Valor do pagamento deve ser positivo"@ && *final(self) == *old(self)),
            !encerrada(old(self).status) && 0 < valor.0 && valor.0 > saldo_cr(*old(self)) ==> (r matches Err(
                DomainError::BusinessRule(m),
            ) && m@ == msg_pagamento_excede_cr(valor.0 as int, saldo_cr(*old(self)))
                && *final(self) == *old(self)),
            !encerrada(old(self).status) && 0 < valor.0 <= saldo_cr(*old(self)) ==> {
                let n = old(self).eventos@.len() as int;
                &&& r is Ok
                &&& final(self).valor_recebido.0 == old(self).valor_recebido.0 + valor.0
                &&& final(self).eventos@.subrange(0, n) == old(self).eventos@
                &&& final(self).eventos@[n] matches FinanceiroEvent::PagamentoRecebido {
                    conta_id,
                    valor_centavos,
                    valor_recebido_total_centavos,
                    ..
                } && conta_id == old(self).id && valor_centavos == valor.0
                    && valor_recebido_total_centavos == final(self).valor_recebido.0
                &&& saldo_cr(*final(self)) == 0 ==> liquidacao_registrada(*old(self), *final(self))
                &&& saldo_cr(*final(self)) != 0 ==> (final(self).status == StatusContaReceber::Parcial
                    && eventos_cr_acrescidos(*old(self), *final(self), 1))
            },
    {
        if self.status == StatusContaReceber::Liquidada || self.status == StatusContaReceber::Estornada {
            return Err(DomainError::BusinessRule(String::from_str("Conta já está encerrada")));
        }
        if valor.centavos() <= 0 {
            return Err(DomainError::Validation(String::from_str("Valor do pagamento deve ser positivo")));
        }
        let saldo = self.saldo_devedor().centavos();
        if valor.centavos() > saldo {
            let mut m = String::from_str("Pagamento (");
            let v = valor.formatar();
            m.append(v.as_str());
            m.append(") excede o saldo devedor (");
            let s = Dinheiro::from_centavos(saldo).formatar();
            m.append(s.as_str());
            m.append(")");
            return Err(DomainError::BusinessRule(m));
        }
        self.valor_recebido = Dinheiro::from_centavos(self.valor_recebido.centavos() + valor.centavos());
        let now = agora();
        self.eventos.push(
            FinanceiroEvent::PagamentoRecebido {
                conta_id: self.id,
                valor_centavos: valor.centavos(),
                valor_recebido_total_centavos: self.valor_recebido.centavos(),
                occurred_at: now,
            },
        );
        let ghost apos = self.eventos@;
        proof {
            assert(apos.drop_last() =~= old(self).eventos@);
        }
        if saldo - valor.centavos() == 0 {
            self.liquidar();
        } else {
            self.status = StatusContaReceber::Parcial;
        }
        proof {
            assert(self.eventos@.subrange(0, old(self).eventos@.len() as int) =~= old(self).eventos@);
            assert(self.eventos@[old(self).eventos@.len() as int] == apos.last());
        }
        Ok(())
    }

    /// Abate parte (ou todo) o saldo em aberto (devolução parcial, desconto
    /// negociado), mantendo o valor original. Zerando o saldo a conta liquida
    /// (quitação comercial); com recebimento anterior fica parcial.
    pub fn abater(&mut self, valor: Dinheiro, motivo: String) -> (r: DomainResult<()>)
        requires
            cr_valida(*old(self)),
        ensures
            cr_valida(*final(self)),
            mesma_conta(*old(self), *final(self)),
            final(self).valor_recebido == old(self).valor_recebido,
            encerrada(old(self).status) ==> (r matches Err(DomainError::BusinessRule(m)) && m@
                == "Conta já está encerrada"@ && *final(self) == *old(self)),
            !encerrada(old(self).status) && valor.0 <= 0 ==> (r matches Err(DomainError::Validation(m))
                && m@ == "Valor do abatimento deve ser positivo"@ && *final(self) == *old(self)),
            !encerrada(old(self).status) && 0 < valor.0 && valor.0 > saldo_cr(*old(self)) ==> (r matches Err(
                DomainError::BusinessRule(m),
            ) && m@ == msg_abatimento_excede(valor.0 as int, saldo_cr(*old(self)))
                && *final(self) == *old(self)),
            !encerrada(old(self).status) && 0 < valor.0 <= saldo_cr(*old(self)) ==> {
                let n = old(self).eventos@.len() as int;
                &&& r is Ok
                &&& final(self).valor_abatido.0 == old(self).valor_abatido.0 + valor.0
                &&& final(self).eventos@.subrange(0, n) == old(self).eventos@
                &&& final(self).eventos@[n] matches FinanceiroEvent::AbatimentoContaReceberRegistrado {
                    conta_id,
                    valor_centavos,
                    valor_abatido_total_centavos,
                    motivo: m,
                    ..
                } && conta_id == old(self).id && valor_centavos == valor.0
                    && valor_abatido_total_centavos == final(self).valor_abatido.0 && m == motivo
                &&& saldo_cr(*final(self)) == 0 ==> liquidacao_registrada(*old(self), *final(self))
                &&& saldo_cr(*final(self)) != 0 ==> {
                    &&& eventos_cr_acrescidos(*old(self), *final(self), 1)
                    &&& final(self).status == if old(self).valor_recebido.0 > 0 {
                        StatusContaReceber::Parcial
                    } else {
                        old(self).status
                    }
                }
            },
    {
        if self.status == StatusContaReceber::Liquidada || self.status == StatusContaReceber::Estornada {
            return Err(DomainError::BusinessRule(String::from_str("Conta já está encerrada")));
        }
        if valor.centavos() <= 0 {
            return Err(DomainError::Validation(String::from_str("Valor do abatimento deve ser positivo")));
        }
        let saldo = self.saldo_devedor().centavos();
        if valor.centavos() > saldo {
            let mut m = String::from_str("Abatimento (");
            let v = valor.formatar();
            m.append(v.as_str());
            m.append(") excede o saldo em aberto (");
            let s = Dinheiro::from_centavos(saldo).formatar();
            m.append(s.as_str());
            m.append(")");
            return Err(DomainError::BusinessRule(m));
        }
        self.valor_abatido = Dinheiro::from_centavos(self.valor_abatido.centavos() + valor.centavos());
        let now = agora();
        self.eventos.push(
            FinanceiroEvent::AbatimentoContaReceberRegistrado {
                conta_id: self.id,
                valor_centavos: valor.centavos(),
                valor_abatido_total_centavos: self.valor_abatido.centavos(),
                motivo,
                occurred_at: now,
            },
        );
        let ghost apos = self.eventos@;
        proof {
            assert(apos.drop_last() =~= old(self).eventos@);
        }
        if saldo - valor.centavos() == 0 {
            self.liquidar();
        } else if self.valor_recebido.centavos() > 0 {
            self.status = StatusContaReceber::Parcial;
        }
        proof {
            assert(self.eventos@.subrange(0, old(self).eventos@.len() as int) =~= old(self).eventos@);
            assert(self.eventos@[old(self).eventos@.len() as int] == apos.last());
        }
        Ok(())
    }

    /// Estorno dos fluxos automáticos (devolução total): cancela a conta
    /// mesmo com recebimento — o reembolso do recebido é tratado à parte.
    pub fn estornar(&mut self, motivo: String) -> (r: DomainResult<()>)
        requires
            cr_valida(*old(self)),
        ensures
            cr_valida(*final(self)),
            mesma_conta(*old(self), *final(self)),
            final(self).valor_recebido == old(self).valor_recebido,
            final(self).valor_abatido == old(self).valor_abatido,
            old(self).status == StatusContaReceber::Estornada ==> (r matches Err(
                DomainError::BusinessRule(m),
            ) && m@ == "Conta já estornada"@ && *final(self) == *old(self)),
            old(self).status != StatusContaReceber::Estornada ==> {
                &&& r is Ok
                &&& final(self).status == StatusContaReceber::Estornada
                &&& final(self).eventos@.drop_last() == old(self).eventos@
                &&& final(self).eventos@.len() == old(self).eventos@.len() + 1
                &&& final(self).eventos@.last() matches FinanceiroEvent::ContaReceberEstornada {
                    conta_id,
                    motivo: m,
                    ..
                } && conta_id == old(self).id && m == motivo
            },
    {
        if self.status == StatusContaReceber::Estornada {
            return Err(DomainError::BusinessRule(String::from_str("Conta já estornada")));
        }
        self.status = StatusContaReceber::Estornada;
        let now = agora();
        self.eventos.push(FinanceiroEvent::ContaReceberEstornada { conta_id: self.id, motivo, occurred_at: now });
        proof {
            assert(self.eventos@.drop_last() =~= old(self).eventos@);
        }
        Ok(())
    }

    /// Estorno manual: bloqueado quando já houve recebimento (estornar
    /// apagaria o recebido do caixa) — nesse caso abatimento e/ou reembolso.
    pub fn estornar_manual(&mut self, motivo: String) -> (r: DomainResult<()>)
        requires
            cr_valida(*old(self)),
        ensures
            cr_valida(*final(self)),
            mesma_conta(*old(self), *final(self)),
            final(self).valor_recebido == old(self).valor_recebido,
            final(self).valor_abatido == old(self).valor_abatido,
            old(self).valor_recebido.0 > 0 ==> (r matches Err(DomainError::BusinessRule(m)) && m@
                == msg_estorno_com_recebimento(old(self).valor_recebido.0 as int) && *final(self)
                == *old(self)),
            old(self).valor_recebido.0 == 0 && old(self).status == StatusContaReceber::Estornada ==> (
            r matches Err(DomainError::BusinessRule(m)) && m@ == "Conta já estornada"@ && *final(self)
                == *old(self)),
            old(self).valor_recebido.0 == 0 && old(self).status != StatusContaReceber::Estornada ==> {
                &&& r is Ok
                &&& final(self).status == StatusContaReceber::Estornada
                &&& final(self).eventos@.drop_last() == old(self).eventos@
                &&& final(self).eventos@.len() == old(self).eventos@.len() + 1
                &&& final(self).eventos@.last() matches FinanceiroEvent::ContaReceberEstornada {
                    conta_id,
                    motivo: m,
                    ..
                } && conta_id == old(self).id && m == motivo
            },
    {
        if self.valor_recebido.centavos() > 0 {
            let mut m = String::from_str("Conta já tem ");
            let v = self.valor_recebido.formatar();
            m.append(v.as_str());
            m.append(
                " recebidos — use abatimento do saldo em aberto e/ou reembolso ao cliente em vez de estorno",
            );
            return Err(DomainError::BusinessRule(m));
        }
        self.estornar(motivo)
    }

    /// Decide se a conta (por exemplo, restaurada do armazenamento) satisfaz o
    /// invariante exigido pelas operações.
    pub fn valida(&self) -> (b: bool)
        ensures
            b == cr_valida(*self),
    {
        let recebido = self.valor_recebido.centavos();
        let abatido = self.valor_abatido.centavos();
        if recebido < 0 || abatido < 0 {
            return false;
        }
        let saldo: i128 = self.valor_original.centavos() as i128 - abatido as i128 - recebido as i128;
        if recebido as i128 + abatido as i128 > 0 && saldo < 0 {
            return false;
        }
        match self.status {
            StatusContaReceber::Pendente => recebido == 0,
            StatusContaReceber::Parcial => recebido > 0 && saldo > 0,
            StatusContaReceber::Liquidada => saldo == 0,
            StatusContaReceber::Estornada => true,
        }
    }

    /// Saldo em aberto: original − abatido − recebido.
    pub fn saldo_devedor(&self) -> (d: Dinheiro)
        requires
            cr_valida(*self),
        ensures
            d.0 == saldo_cr(*self),
    {
        Dinheiro::from_centavos(
            self.valor_original.centavos() - self.valor_abatido.centavos() - self.valor_recebido.centavos(),
        )
    }
}

/// Recebido, abatido e saldo somam sempre o valor original; numa conta
/// movimentada nenhuma das três parcelas é negativa.
pub proof fn lema_partes_do_valor(c: ContaReceber)
    requires
        cr_valida(c),
    ensures
        c.valor_recebido.0 + c.valor_abatido.0 + saldo_cr(c) == c.valor_original.0,
        c.valor_recebido.0 + c.valor_abatido.0 > 0 ==> 0 <= saldo_cr(c) && c.valor_recebido.0
            + c.valor_abatido.0 <= c.valor_original.0,
{
}

} // verus!
