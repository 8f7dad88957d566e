//! Saldo de estoque de um produto e suas movimentações.

use vstd::prelude::*;

use crate::compartilhado::dinheiro::Dinheiro;
use crate::compartilhado::documentos::Quantidade;
use crate::compartilhado::tempo::{agora, Instante};
use crate::compartilhado::texto::{decimal, em_branco, escrever_decimal, esta_em_branco, texto_de};
use crate::erro::{DomainError, DomainResult};

verus! {

/// Eventos do estoque de um produto (o agregado é identificado pelo produto).
#[derive(Debug, Clone)]
pub enum EstoqueEvent {
    EstoqueEntrada {
        item_id: u128,
        produto_id: u128,
        quantidade: u32,
        custo_unitario_centavos: i64,
        motivo: String,
        nota_fiscal: Option<String>,
        occurred_at: Instante,
    },
    EstoqueSaida {
        item_id: u128,
        produto_id: u128,
        quantidade: u32,
        motivo: String,
        referencia_id: Option<String>,
        occurred_at: Instante,
    },
    AjusteEstoque {
        item_id: u128,
        quantidade_anterior: u32,
        quantidade_nova: u32,
        justificativa: String,
        occurred_at: Instante,
    },
    EstoqueMinimoDefinido {
        item_id: u128,
        produto_id: u128,
        estoque_minimo: u32,
        occurred_at: Instante,
    },
    EstoqueMinimoPadraoAtingido {
        item_id: u128,
        produto_id: u128,
        saldo_atual: u32,
        estoque_minimo: u32,
        occurred_at: Instante,
    },
}

/// Estoque de um produto: um registro por produto, identificado por ele.
/// Saldo e mínimo só mudam pelas operações, que emitem o evento
/// correspondente.
#[derive(Debug, Clone)]
pub struct ItemEstoque {
    version: u64,
    eventos: Vec<EstoqueEvent>,
    produto_id: u128,
    saldo: u32,
    estoque_minimo: u32,
}

/// Saldo após uma entrada: soma saturada no maior `u32`.
pub open spec fn saldo_apos_entrada(saldo: int, quantidade: int) -> int {
    if saldo + quantidade > u32::MAX {
        u32::MAX as int
    } else {
        saldo + quantidade
    }
}

/// Mensagem de estoque insuficiente para uma baixa.
pub open spec fn msg_estoque_insuficiente(saldo: int, solicitado: int) -> Seq<char> {
    "Estoque insuficiente: saldo "@ + decimal(saldo as nat) + ", solicitado "@ + decimal(
        solicitado as nat,
    )
}

/// A baixa deixa o saldo no mínimo configurado ou abaixo dele.
pub open spec fn atinge_minimo(saldo_final: int, estoque_minimo: int) -> bool {
    saldo_final <= estoque_minimo && estoque_minimo > 0
}

impl ItemEstoque {
    pub closed spec fn spec_id(self) -> u128 {
        self.produto_id
    }

    pub closed spec fn spec_version(self) -> u64 {
        self.version
    }

    pub closed spec fn spec_eventos(self) -> Seq<EstoqueEvent> {
        self.eventos@
    }

    pub closed spec fn spec_produto_id(self) -> u128 {
        self.produto_id
    }

    pub closed spec fn spec_saldo(self) -> int {
        self.saldo as int
    }

    pub closed spec fn spec_estoque_minimo(self) -> int {
        self.estoque_minimo as int
    }

    /// Cria o registro de estoque para um produto com saldo zero.
    pub fn criar(produto_id: u128, estoque_minimo: u32) -> (item: ItemEstoque)
        ensures
            item.spec_id() == produto_id,
            item.spec_produto_id() == produto_id,
            item.spec_version() == 0,
            item.spec_eventos().len() == 0,
            item.spec_saldo() == 0,
            item.spec_estoque_minimo() == estoque_minimo,
    {
        ItemEstoque {
            version: 0,
            eventos: Vec::new(),
            produto_id,
            saldo: 0,
            estoque_minimo,
        }
    }

    /// Reconstitui um registro persistido (sem eventos pendentes).
    pub fn reconstituir(produto_id: u128, version: u64, saldo: u32, estoque_minimo: u32) -> (item: ItemEstoque)
        ensures
            item.spec_id() == produto_id,
            item.spec_produto_id() == produto_id,
            item.spec_version() == version,
            item.spec_eventos().len() == 0,
            item.spec_saldo() == saldo,
            item.spec_estoque_minimo() == estoque_minimo,
    {
        ItemEstoque { version, eventos: Vec::new(), produto_id, saldo, estoque_minimo }
    }

    pub fn id(&self) -> (id: u128)
        ensures
            id == self.spec_id(),
            id == self.spec_produto_id(),
    {
        self.produto_id
    }

    pub fn produto_id(&self) -> (id: u128)
        ensures
            id == self.spec_produto_id(),
    {
        self.produto_id
    }

    pub fn version(&self) -> (v: u64)
        ensures
            v == self.spec_version(),
    {
        self.version
    }

    pub fn estoque_minimo(&self) -> (m: u32)
        ensures
            m == self.spec_estoque_minimo(),
    {
        self.estoque_minimo
    }

    /// Eventos ainda não publicados.
    pub fn pending_events(&self) -> (e: &Vec<EstoqueEvent>)
        ensures
            e@ == self.spec_eventos(),
    {
        &self.eventos
    }

    /// Entrada de mercadoria: quantidade positiva e custo não negativo; o
    /// saldo sobe (saturando no maior `u32`).
    pub fn registrar_entrada(
        &mut self,
        quantidade: u32,
        custo_unitario: Dinheiro,
        motivo: String,
        nota_fiscal: Option<String>,
    ) -> (r: DomainResult<()>)
        ensures
            final(self).spec_id() == old(self).spec_id(),
            final(self).spec_produto_id() == old(self).spec_produto_id(),
            final(self).spec_version() == old(self).spec_version(),
            final(self).spec_estoque_minimo() == old(self).spec_estoque_minimo(),
            quantidade == 0 ==> (r matches Err(DomainError::Validation(m)) && m@
                == "Quantidade deve ser maior que zero"@ && *final(self) == *old(self)),
            quantidade > 0 && custo_unitario.0 < 0 ==> (r matches Err(DomainError::Validation(m)) && m@
                == "Custo unitário não pode ser negativo"@ && *final(self) == *old(self)),
            quantidade > 0 && custo_unitario.0 >= 0 ==> {
                &&& r is Ok
                &&& final(self).spec_saldo() == saldo_apos_entrada(old(self).spec_saldo(), quantidade as int)
                &&& final(self).spec_eventos().drop_last() == old(self).spec_eventos()
                &&& final(self).spec_eventos().len() == old(self).spec_eventos().len() + 1
                &&& final(self).spec_eventos().last() matches EstoqueEvent::EstoqueEntrada {
                    item_id,
                    produto_id,
                    quantidade: q,
                    custo_unitario_centavos,
                    motivo: m,
                    nota_fiscal: nf,
                    ..
                } && item_id == old(self).spec_id() && produto_id == old(self).spec_produto_id() && q
                    == quantidade && custo_unitario_centavos == custo_unitario.0 && m == motivo && nf
                    == nota_fiscal
            },
    {
        let q = match Quantidade::de_valor(quantidade) {
            Ok(q) => q,
            Err(e) => {
                return Err(e);
            },
        };
        if custo_unitario.centavos() < 0 {
            return Err(DomainError::Validation(String::from_str("Custo unitário não pode ser negativo")));
        }
        let qtd = q.get();
        self.saldo = self.saldo.saturating_add(qtd);
        let now = agora();
        self.eventos.push(
            EstoqueEvent::EstoqueEntrada {
                item_id: self.produto_id,
                produto_id: self.produto_id,
                quantidade: qtd,
                custo_unitario_centavos: custo_unitario.centavos(),
                motivo,
                nota_fiscal,
                occurred_at: now,
            },
        );
        proof {
            assert(self.eventos@.drop_last() =~= old(self).eventos@);
        }
        Ok(())
    }

    /// Baixa direta do estoque (confirmação de venda): quantidade positiva e
    /// até o saldo. Se o saldo restante chega ao mínimo configurado (positivo),
    /// registra também o alerta de estoque mínimo.
    pub fn baixar(&mut self, quantidade: u32, motivo: String, referencia_id: Option<String>) -> (r:
        DomainResult<()>)
        ensures
            final(self).spec_id() == old(self).spec_id(),
            final(self).spec_produto_id() == old(self).spec_produto_id(),
            final(self).spec_version() == old(self).spec_version(),
            final(self).spec_estoque_minimo() == old(self).spec_estoque_minimo(),
            quantidade == 0 ==> (r matches Err(DomainError::Validation(m)) && m@
                == "Quantidade deve ser maior que zero"@ && *final(self) == *old(self)),
            quantidade > 0 && old(self).spec_saldo() < quantidade ==> (r matches Err(
                DomainError::BusinessRule(m),
            ) && m@ == msg_estoque_insuficiente(old(self).spec_saldo(), quantidade as int)
                && *final(self) == *old(self)),
            0 < quantidade <= old(self).spec_saldo() ==> {
                let n = old(self).spec_eventos().len() as int;
                let alerta = atinge_minimo(
                    final(self).spec_saldo(),
                    old(self).spec_estoque_minimo(),
                );
                &&& r is Ok
                &&& final(self).spec_saldo() == old(self).spec_saldo() - quantidade
                &&& final(self).spec_eventos().len() == n + if alerta { 2int } else { 1int }
                &&& final(self).spec_eventos().subrange(0, n as int) == old(self).spec_eventos()
                &&& final(self).spec_eventos()[n as int] matches EstoqueEvent::EstoqueSaida {
                    item_id,
                    produto_id,
                    quantidade: q,
                    motivo: m,
                    referencia_id: rf,
                    ..
                } && item_id == old(self).spec_id() && produto_id == old(self).spec_produto_id() && q
                    == quantidade && m == motivo && rf == referencia_id
                &&& alerta ==> (final(self).spec_eventos()[n + 1int] matches EstoqueEvent::EstoqueMinimoPadraoAtingido {
                    item_id,
                    produto_id,
                    saldo_atual,
                    estoque_minimo,
                    ..
                } && item_id == old(self).spec_id() && produto_id == old(self).spec_produto_id()
                    && saldo_atual == final(self).spec_saldo() && estoque_minimo
                    == old(self).spec_estoque_minimo())
            },
    {
        let q = match Quantidade::de_valor(quantidade) {
            Ok(q) => q,
            Err(e) => {
                return Err(e);
            },
        };
        let qtd = q.get();
        if self.saldo < qtd {
            let mut cs: Vec<char> = Vec::new();
            escrever_decimal(self.saldo as u128, &mut cs);
            let mut qs: Vec<char> = Vec::new();
            escrever_decimal(qtd as u128, &mut qs);
            let mut m = String::from_str("Estoque insuficiente: saldo ");
            let s = texto_de(&cs);
            m.append(s.as_str());
            m.append(", solicitado ");
            let t = texto_de(&qs);
            m.append(t.as_str());
            return Err(DomainError::BusinessRule(m));
        }
        self.saldo = self.saldo - qtd;
        let now = agora();
        self.eventos.push(
            EstoqueEvent::EstoqueSaida {
                item_id: self.produto_id,
                produto_id: self.produto_id,
                quantidade: qtd,
                motivo,
                referencia_id,
                occurred_at: now,
            },
        );
        let ghost apos_saida = self.eventos@;
        if self.saldo <= self.estoque_minimo && self.estoque_minimo > 0 {
            let now2 = agora();
            self.eventos.push(
                EstoqueEvent::EstoqueMinimoPadraoAtingido {
                    item_id: self.produto_id,
                    produto_id: self.produto_id,
                    saldo_atual: self.saldo,
                    estoque_minimo: self.estoque_minimo,
                    occurred_at: now2,
                },
            );
        }
        proof {
            assert(self.eventos@.subrange(0, old(self).eventos@.len() as int) =~= old(self).eventos@);
            assert(self.eventos@[old(self).eventos@.len() as int] == apos_saida.last());
        }
        Ok(())
    }

    /// Ajuste de inventário para uma quantidade absoluta; exige justificativa.
    pub fn ajustar(&mut self, quantidade_nova: u32, justificativa: String) -> (r: DomainResult<()>)
        ensures
            final(self).spec_id() == old(self).spec_id(),
            final(self).spec_produto_id() == old(self).spec_produto_id(),
            final(self).spec_version() == old(self).spec_version(),
            final(self).spec_estoque_minimo() == old(self).spec_estoque_minimo(),
            em_branco(justificativa@) ==> (r matches Err(DomainError::Validation(m)) && m@
                == "Justificativa é obrigatória para ajuste de estoque"@ && *final(self) == *old(self)),
            !em_branco(justificativa@) ==> {
                &&& r is Ok
                &&& final(self).spec_saldo() == quantidade_nova
                &&& final(self).spec_eventos().drop_last() == old(self).spec_eventos()
                &&& final(self).spec_eventos().len() == old(self).spec_eventos().len() + 1
                &&& final(self).spec_eventos().last() matches EstoqueEvent::AjusteEstoque {
                    item_id,
                    quantidade_anterior,
                    quantidade_nova: nova,
                    justificativa: j,
                    ..
                } && item_id == old(self).spec_id() && quantidade_anterior == old(self).spec_saldo()
                    && nova == quantidade_nova && j == justificativa
            },
    {
        if esta_em_branco(justificativa.as_str()) {
            return Err(DomainError::Validation(String::from_str(
                "Justificativa é obrigatória para ajuste de estoque",
            )));
        }
        let anterior = self.saldo;
        self.saldo = quantidade_nova;
        let now = agora();
        self.eventos.push(
            EstoqueEvent::AjusteEstoque {
                item_id: self.produto_id,
                quantidade_anterior: anterior,
                quantidade_nova,
                justificativa,
                occurred_at: now,
            },
        );
        proof {
            assert(self.eventos@.drop_last() =~= old(self).eventos@);
        }
        Ok(())
    }

    /// Define o estoque mínimo (alerta de reposição); recusa o valor atual.
    pub fn definir_estoque_minimo(&mut self, estoque_minimo: u32) -> (r: DomainResult<()>)
        ensures
            final(self).spec_id() == old(self).spec_id(),
            final(self).spec_produto_id() == old(self).spec_produto_id(),
            final(self).spec_version() == old(self).spec_version(),
            final(self).spec_saldo() == old(self).spec_saldo(),
            estoque_minimo == old(self).spec_estoque_minimo() ==> (r matches Err(
                DomainError::BusinessRule(m),
            ) && m@ == "Estoque mínimo informado é igual ao atual"@ && *final(self) == *old(self)),
            estoque_minimo != old(self).spec_estoque_minimo() ==> {
                &&& r is Ok
                &&& final(self).spec_estoque_minimo() == estoque_minimo
                &&& final(self).spec_eventos().drop_last() == old(self).spec_eventos()
                &&& final(self).spec_eventos().len() == old(self).spec_eventos().len() + 1
                &&& final(self).spec_eventos().last() matches EstoqueEvent::EstoqueMinimoDefinido {
                    item_id,
                    produto_id,
                    estoque_minimo: m,
                    ..
                } && item_id == old(self).spec_id() && produto_id == old(self).spec_produto_id() && m
                    == estoque_minimo
            },
    {
        if estoque_minimo == self.estoque_minimo {
            return Err(DomainError::BusinessRule(String::from_str(
                "Estoque mínimo informado é igual ao atual",
            )));
        }
        self.estoque_minimo = estoque_minimo;
        let now = agora();
        self.eventos.push(
            EstoqueEvent::EstoqueMinimoDefinido {
                item_id: self.produto_id,
                produto_id: self.produto_id,
                estoque_minimo,
                occurred_at: now,
            },
        );
        proof {
            assert(self.eventos@.drop_last() =~= old(self).eventos@);
        }
        Ok(())
    }

    pub fn saldo_disponivel(&self) -> (s: u32)
        ensures
            s == self.spec_saldo(),
    {
        self.saldo
    }
}

/// Uma entrada seguida da baixa da mesma quantidade devolve o saldo ao valor
/// anterior, sempre que a entrada não saturou.
pub proof fn lema_entrada_e_baixa_se_anulam(saldo: int, quantidade: int)
    requires
        0 <= saldo,
        0 < quantidade,
        saldo + quantidade <= u32::MAX,
    ensures
        quantidade <= saldo_apos_entrada(saldo, quantidade),
        saldo_apos_entrada(saldo, quantidade) - quantidade == saldo,
{
}

} // verus!
