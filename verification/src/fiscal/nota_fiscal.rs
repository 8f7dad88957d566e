use vstd::prelude::*;

use crate::compartilhado::ids::novo_id;
use crate::compartilhado::tempo::{agora, Instante};
use crate::erro::{DomainError, DomainResult};
use crate::fiscal::value_objects::{
    clonar_itens, nome_status, soma_campo, totais_conferem, totais_de, totais_sem_estouro, ItemNF, ModeloNF,
    StatusNFe, TotaisNF,
};

verus! {

/// Eventos da nota fiscal (ids como o inteiro de 128 bits do UUID).
#[derive(Debug, Clone)]
pub enum NotaFiscalEvent {
    NotaFiscalGerada {
        nf_id: u128,
        venda_id: u128,
        cliente_id: Option<u128>,
        modelo: ModeloNF,
        serie: String,
        numero: u32,
        itens: Vec<ItemNF>,
        totais: TotaisNF,
        /// IBS/CBS destacados são meramente informativos para o emitente.
        ibs_cbs_informativo: bool,
        occurred_at: Instante,
    },
    NotaFiscalTransmitida { nf_id: u128, occurred_at: Instante },
    /// Nova tentativa de transmissão de NF presa; `status_anterior` documenta
    /// de onde a nota saiu.
    NotaFiscalRetransmitida { nf_id: u128, status_anterior: String, occurred_at: Instante },
    NotaFiscalAutorizada { nf_id: u128, chave: String, protocolo: String, occurred_at: Instante },
    NotaFiscalRejeitada { nf_id: u128, codigo: String, motivo: String, occurred_at: Instante },
    NotaFiscalCancelada { nf_id: u128, protocolo_cancelamento: String, occurred_at: Instante },
    /// Cancelamento PENDENTE: a integração com a SEFAZ ainda não está ativa.
    CancelamentoNfSolicitado { nf_id: u128, motivo: String, occurred_at: Instante },
}

/// Nota fiscal eletrônica (NF-e / NFC-e) e seu ciclo de vida na SEFAZ.
#[derive(Debug, Clone)]
pub struct NotaFiscal {
    pub id: u128,
    pub version: u64,
    /// Eventos ainda não publicados.
    pub eventos: Vec<NotaFiscalEvent>,
    pub venda_id: u128,
    pub cliente_id: Option<u128>,
    pub modelo: ModeloNF,
    pub serie: String,
    pub numero: u32,
    pub chave: Option<String>,
    pub protocolo: Option<String>,
    pub status: StatusNFe,
    pub itens: Vec<ItemNF>,
    pub totais: TotaisNF,
    pub gerada_em: Instante,
    /// Cancelamento aguardando a integração SEFAZ entrar em operação.
    pub cancelamento_pendente: bool,
}

/// Estados em que a nota tem chave e protocolo da SEFAZ.
pub open spec fn status_autorizado(s: StatusNFe) -> bool {
    s == StatusNFe::Autorizada || s == StatusNFe::Cancelada
}

/// Invariante da nota: itens e totais coerentes, desconto entre zero e os
/// produtos, chave/protocolo presentes exatamente nos estados autorizados e
/// cancelamento pendente só em nota já transmitida e não cancelada.
pub open spec fn nf_consistente(nf: NotaFiscal) -> bool {
    &&& nf.itens@.len() > 0
    &&& totais_de(nf.itens@, nf.totais.desconto_centavos as int, nf.totais)
    &&& 0 <= nf.totais.desconto_centavos <= nf.totais.produtos_centavos
    &&& nf.chave is Some <==> status_autorizado(nf.status)
    &&& nf.protocolo is Some <==> status_autorizado(nf.status)
    &&& nf.cancelamento_pendente ==> (nf.status != StatusNFe::Gerada && nf.status
        != StatusNFe::Cancelada)
}

/// Tudo da nota exceto status, chave, protocolo, pendência e eventos.
pub open spec fn mesmos_dados(a: NotaFiscal, b: NotaFiscal) -> bool {
    &&& a.id == b.id
    &&& a.version == b.version
    &&& a.venda_id == b.venda_id
    &&& a.cliente_id == b.cliente_id
    &&& a.modelo == b.modelo
    &&& a.serie == b.serie
    &&& a.numero == b.numero
    &&& a.itens == b.itens
    &&& a.totais == b.totais
    &&& a.gerada_em == b.gerada_em
}

/// Transições permitidas do ciclo de vida.
pub open spec fn pode_transmitir(s: StatusNFe) -> bool {
    s == StatusNFe::Gerada
}

pub open spec fn pode_retransmitir(s: StatusNFe) -> bool {
    s == StatusNFe::Gerada || s == StatusNFe::Transmitida || s == StatusNFe::Rejeitada
}

pub open spec fn pode_autorizar(s: StatusNFe) -> bool {
    s == StatusNFe::Transmitida
}

pub open spec fn pode_rejeitar(s: StatusNFe) -> bool {
    s == StatusNFe::Transmitida
}

pub open spec fn pode_cancelar(s: StatusNFe) -> bool {
    s == StatusNFe::Autorizada
}

pub open spec fn pode_solicitar_cancelamento(s: StatusNFe, pendente: bool) -> bool {
    (s == StatusNFe::Autorizada || s == StatusNFe::Transmitida) && !pendente
}

/// O último evento registrado.
pub open spec fn ultimo_evento(nf: NotaFiscal) -> NotaFiscalEvent {
    nf.eventos@.last()
}

impl NotaFiscal {
    pub fn id(&self) -> (id: u128)
        ensures
            id == self.id,
    {
        self.id
    }

    /// Decide se a nota (por exemplo, restaurada do armazenamento) satisfaz o
    /// invariante exigido pelas transições.
    pub fn consistente(&self) -> (b: bool)
        ensures
            b == nf_consistente(*self),
    {
        if self.itens.len() == 0 {
            return false;
        }
        if !totais_conferem(self.itens.as_slice(), &self.totais) {
            return false;
        }
        let desconto = self.totais.desconto_centavos;
        if !(0 <= desconto && desconto <= self.totais.produtos_centavos) {
            return false;
        }
        let autorizado = self.status == StatusNFe::Autorizada || self.status == StatusNFe::Cancelada;
        if self.chave.is_some() != autorizado || self.protocolo.is_some() != autorizado {
            return false;
        }
        if self.cancelamento_pendente && (self.status == StatusNFe::Gerada || self.status
            == StatusNFe::Cancelada) {
            return false;
        }
        true
    }

    /// Eventos pendentes de publicação.
    pub fn pending_events(&self) -> (e: &Vec<NotaFiscalEvent>)
        ensures
            e == self.eventos,
    {
        &self.eventos
    }

    /// Gera a nota a partir dos itens já tributados: exige ao menos um item e
    /// desconto entre zero e o total dos produtos; nasce `Gerada`, sem chave.
    pub fn gerar(
        venda_id: u128,
        cliente_id: Option<u128>,
        modelo: ModeloNF,
        serie: String,
        numero: u32,
        itens: Vec<ItemNF>,
        desconto_centavos: i64,
        ibs_cbs_informativo: bool,
    ) -> (r: DomainResult<NotaFiscal>)
        requires
            itens@.len() > 0 ==> totais_sem_estouro(itens@, desconto_centavos as int),
        ensures
            itens@.len() == 0 ==> (r matches Err(DomainError::Validation(m))
                && m@ == "NF deve ter ao menos um item"@),
            itens@.len() > 0 && (desconto_centavos < 0 || desconto_centavos > soma_campo(itens@, 0))
                ==> (r matches Err(DomainError::Validation(m))
                && m@ == "Desconto da NF deve ser entre zero e o total dos produtos"@),
            itens@.len() > 0 && 0 <= desconto_centavos <= soma_campo(itens@, 0) ==> r is Ok,
            r matches Ok(nf) ==> {
                &&& nf_consistente(nf)
                &&& nf.id != 0
                &&& nf.version == 0
                &&& nf.venda_id == venda_id
                &&& nf.cliente_id == cliente_id
                &&& nf.modelo == modelo
                &&& nf.serie == serie
                &&& nf.numero == numero
                &&& nf.itens == itens
                &&& totais_de(itens@, desconto_centavos as int, nf.totais)
                &&& nf.chave is None
                &&& nf.protocolo is None
                &&& nf.status == StatusNFe::Gerada
                &&& !nf.cancelamento_pendente
                &&& nf.eventos@.len() == 1
                &&& nf.eventos@[0] matches NotaFiscalEvent::NotaFiscalGerada {
                    nf_id: e_id,
                    venda_id: e_venda,
                    cliente_id: e_cliente,
                    modelo: e_modelo,
                    serie: e_serie,
                    numero: e_numero,
                    itens: e_itens,
                    totais: e_totais,
                    ibs_cbs_informativo: e_info,
                    occurred_at: e_em,
                } && e_id == nf.id && e_venda == venda_id && e_cliente == cliente_id && e_modelo
                    == modelo && e_serie == serie && e_numero == numero && e_itens@ == itens@
                    && e_totais == nf.totais && e_info == ibs_cbs_informativo && e_em
                    == nf.gerada_em
            },
    {
        if itens.len() == 0 {
            return Err(DomainError::Validation(String::from_str("NF deve ter ao menos um item")));
        }
        let totais = TotaisNF::calcular_com_desconto(itens.as_slice(), desconto_centavos);
        if desconto_centavos < 0 || desconto_centavos > totais.produtos_centavos {
            return Err(DomainError::Validation(String::from_str(
                "Desconto da NF deve ser entre zero e o total dos produtos",
            )));
        }
        let id = novo_id();
        let now = agora();
        let mut eventos: Vec<NotaFiscalEvent> = Vec::new();
        eventos.push(NotaFiscalEvent::NotaFiscalGerada {
            nf_id: id,
            venda_id,
            cliente_id,
            modelo,
            serie: serie.clone(),
            numero,
            itens: clonar_itens(&itens),
            totais,
            ibs_cbs_informativo,
            occurred_at: now,
        });
        Ok(NotaFiscal {
            id,
            version: 0,
            eventos,
            venda_id,
            cliente_id,
            modelo,
            serie,
            numero,
            chave: None,
            protocolo: None,
            status: StatusNFe::Gerada,
            itens,
            totais,
            gerada_em: now,
            cancelamento_pendente: false,
        })
    }

    /// Gerada → Transmitida.
    pub fn transmitir(&mut self) -> (r: DomainResult<()>)
        requires
            nf_consistente(*old(self)),
        ensures
            nf_consistente(*final(self)),
            mesmos_dados(*old(self), *final(self)),
            !pode_transmitir(old(self).status) ==> (r matches Err(DomainError::BusinessRule(m))
                && m@ == "Apenas NF com status Gerada pode ser transmitida"@
                && *final(self) == *old(self)),
            pode_transmitir(old(self).status) ==> {
                &&& r is Ok
                &&& final(self).status == StatusNFe::Transmitida
                &&& final(self).chave == old(self).chave
                &&& final(self).protocolo == old(self).protocolo
                &&& final(self).cancelamento_pendente == old(self).cancelamento_pendente
                &&& final(self).eventos@.drop_last() == old(self).eventos@
                &&& final(self).eventos@.len() == old(self).eventos@.len() + 1
                &&& ultimo_evento(*final(self)) matches NotaFiscalEvent::NotaFiscalTransmitida {
                    nf_id,
                    ..
                } && nf_id == old(self).id
            },
    {
        if self.status != StatusNFe::Gerada {
            return Err(DomainError::BusinessRule(String::from_str(
                "Apenas NF com status Gerada pode ser transmitida",
            )));
        }
        let now = agora();
        self.eventos.push(NotaFiscalEvent::NotaFiscalTransmitida { nf_id: self.id, occurred_at: now });
        self.status = StatusNFe::Transmitida;
        proof {
            assert(self.eventos@.drop_last() =~= old(self).eventos@);
        }
        Ok(())
    }

    /// Nova tentativa de transmissão de uma NF presa (Gerada, Transmitida ou
    /// Rejeitada) → Transmitida.
    pub fn retransmitir(&mut self) -> (r: DomainResult<()>)
        requires
            nf_consistente(*old(self)),
        ensures
            nf_consistente(*final(self)),
            mesmos_dados(*old(self), *final(self)),
            !pode_retransmitir(old(self).status) ==> (r matches Err(DomainError::BusinessRule(m))
                && m@ == "Apenas NF gerada, transmitida ou rejeitada pode ser retransmitida"@
                && *final(self) == *old(self)),
            pode_retransmitir(old(self).status) ==> {
                &&& r is Ok
                &&& final(self).status == StatusNFe::Transmitida
                &&& final(self).chave == old(self).chave
                &&& final(self).protocolo == old(self).protocolo
                &&& final(self).cancelamento_pendente == old(self).cancelamento_pendente
                &&& final(self).eventos@.drop_last() == old(self).eventos@
                &&& final(self).eventos@.len() == old(self).eventos@.len() + 1
                &&& ultimo_evento(*final(self)) matches NotaFiscalEvent::NotaFiscalRetransmitida {
                    nf_id,
                    status_anterior,
                    ..
                } && nf_id == old(self).id && status_anterior@ == nome_status(old(self).status)
            },
    {
        if !(self.status == StatusNFe::Gerada || self.status == StatusNFe::Transmitida
            || self.status == StatusNFe::Rejeitada) {
            return Err(DomainError::BusinessRule(String::from_str(
                "Apenas NF gerada, transmitida ou rejeitada pode ser retransmitida",
            )));
        }
        let now = agora();
        let anterior = String::from_str(self.status.nome());
        self.eventos.push(
            NotaFiscalEvent::NotaFiscalRetransmitida {
                nf_id: self.id,
                status_anterior: anterior,
                occurred_at: now,
            },
        );
        self.status = StatusNFe::Transmitida;
        proof {
            assert(self.eventos@.drop_last() =~= old(self).eventos@);
        }
        Ok(())
    }

    /// Transmitida → Autorizada, registrando chave e protocolo.
    pub fn autorizar(&mut self, chave: String, protocolo: String) -> (r: DomainResult<()>)
        requires
            nf_consistente(*old(self)),
        ensures
            nf_consistente(*final(self)),
            mesmos_dados(*old(self), *final(self)),
            !pode_autorizar(old(self).status) ==> (r matches Err(DomainError::BusinessRule(m))
                && m@ == "Apenas NF transmitida pode ser autorizada"@ && *final(self) == *old(self)),
            pode_autorizar(old(self).status) ==> {
                &&& r is Ok
                &&& final(self).status == StatusNFe::Autorizada
                &&& final(self).chave == Some(chave)
                &&& final(self).protocolo == Some(protocolo)
                &&& final(self).cancelamento_pendente == old(self).cancelamento_pendente
                &&& final(self).eventos@.drop_last() == old(self).eventos@
                &&& final(self).eventos@.len() == old(self).eventos@.len() + 1
                &&& ultimo_evento(*final(self)) matches NotaFiscalEvent::NotaFiscalAutorizada {
                    nf_id,
                    chave: e_chave,
                    protocolo: e_protocolo,
                    ..
                } && nf_id == old(self).id && e_chave == chave && e_protocolo == protocolo
            },
    {
        if self.status != StatusNFe::Transmitida {
            return Err(DomainError::BusinessRule(String::from_str(
                "Apenas NF transmitida pode ser autorizada",
            )));
        }
        let now = agora();
        self.eventos.push(
            NotaFiscalEvent::NotaFiscalAutorizada {
                nf_id: self.id,
                chave: chave.clone(),
                protocolo: protocolo.clone(),
                occurred_at: now,
            },
        );
        self.chave = Some(chave);
        self.protocolo = Some(protocolo);
        self.status = StatusNFe::Autorizada;
        proof {
            assert(self.eventos@.drop_last() =~= old(self).eventos@);
        }
        Ok(())
    }

    /// Transmitida → Rejeitada.
    pub fn rejeitar(&mut self, codigo: String, motivo: String) -> (r: DomainResult<()>)
        requires
            nf_consistente(*old(self)),
        ensures
            nf_consistente(*final(self)),
            mesmos_dados(*old(self), *final(self)),
            !pode_rejeitar(old(self).status) ==> (r matches Err(DomainError::BusinessRule(m))
                && m@ == "Apenas NF transmitida pode ser rejeitada"@ && *final(self) == *old(self)),
            pode_rejeitar(old(self).status) ==> {
                &&& r is Ok
                &&& final(self).status == StatusNFe::Rejeitada
                &&& final(self).chave == old(self).chave
                &&& final(self).protocolo == old(self).protocolo
                &&& final(self).cancelamento_pendente == old(self).cancelamento_pendente
                &&& final(self).eventos@.drop_last() == old(self).eventos@
                &&& final(self).eventos@.len() == old(self).eventos@.len() + 1
                &&& ultimo_evento(*final(self)) matches NotaFiscalEvent::NotaFiscalRejeitada {
                    nf_id,
                    codigo: e_codigo,
                    motivo: e_motivo,
                    ..
                } && nf_id == old(self).id && e_codigo == codigo && e_motivo == motivo
            },
    {
        if self.status != StatusNFe::Transmitida {
            return Err(DomainError::BusinessRule(String::from_str(
                "Apenas NF transmitida pode ser rejeitada",
            )));
        }
        let now = agora();
        self.eventos.push(
            NotaFiscalEvent::NotaFiscalRejeitada { nf_id: self.id, codigo, motivo, occurred_at: now },
        );
        self.status = StatusNFe::Rejeitada;
        proof {
            assert(self.eventos@.drop_last() =~= old(self).eventos@);
        }
        Ok(())
    }

    /// Autorizada → Cancelada; o cancelamento pendente fica resolvido.
    pub fn cancelar(&mut self, protocolo_cancelamento: String) -> (r: DomainResult<()>)
        requires
            nf_consistente(*old(self)),
        ensures
            nf_consistente(*final(self)),
            mesmos_dados(*old(self), *final(self)),
            !pode_cancelar(old(self).status) ==> (r matches Err(DomainError::BusinessRule(m))
                && m@ == "Apenas NF autorizada pode ser cancelada"@ && *final(self) == *old(self)),
            pode_cancelar(old(self).status) ==> {
                &&& r is Ok
                &&& final(self).status == StatusNFe::Cancelada
                &&& final(self).chave == old(self).chave
                &&& final(self).protocolo == old(self).protocolo
                &&& !final(self).cancelamento_pendente
                &&& final(self).eventos@.drop_last() == old(self).eventos@
                &&& final(self).eventos@.len() == old(self).eventos@.len() + 1
                &&& ultimo_evento(*final(self)) matches NotaFiscalEvent::NotaFiscalCancelada {
                    nf_id,
                    protocolo_cancelamento: e_proto,
                    ..
                } && nf_id == old(self).id && e_proto == protocolo_cancelamento
            },
    {
        if self.status != StatusNFe::Autorizada {
            return Err(DomainError::BusinessRule(String::from_str(
                "Apenas NF autorizada pode ser cancelada",
            )));
        }
        let now = agora();
        self.eventos.push(
            NotaFiscalEvent::NotaFiscalCancelada {
                nf_id: self.id,
                protocolo_cancelamento,
                occurred_at: now,
            },
        );
        self.status = StatusNFe::Cancelada;
        self.cancelamento_pendente = false;
        proof {
            assert(self.eventos@.drop_last() =~= old(self).eventos@);
        }
        Ok(())
    }

    /// Marca a nota (Autorizada ou presa em Transmitida) para cancelamento
    /// futuro, quando a integração SEFAZ entrar em operação.
    pub fn solicitar_cancelamento(&mut self, motivo: String) -> (r: DomainResult<()>)
        requires
            nf_consistente(*old(self)),
        ensures
            nf_consistente(*final(self)),
            mesmos_dados(*old(self), *final(self)),
            !(old(self).status == StatusNFe::Autorizada || old(self).status == StatusNFe::Transmitida)
                ==> (r matches Err(DomainError::BusinessRule(m))
                && m@ == "Apenas NF autorizada ou transmitida pode ter cancelamento solicitado"@
                && *final(self) == *old(self)),
            (old(self).status == StatusNFe::Autorizada || old(self).status == StatusNFe::Transmitida)
                && old(self).cancelamento_pendente ==> (r matches Err(DomainError::BusinessRule(m))
                && m@ == "Cancelamento já está pendente para esta nota"@ && *final(self) == *old(self)),
            pode_solicitar_cancelamento(old(self).status, old(self).cancelamento_pendente) ==> {
                &&& r is Ok
                &&& final(self).status == old(self).status
                &&& final(self).chave == old(self).chave
                &&& final(self).protocolo == old(self).protocolo
                &&& final(self).cancelamento_pendente
                &&& final(self).eventos@.drop_last() == old(self).eventos@
                &&& final(self).eventos@.len() == old(self).eventos@.len() + 1
                &&& ultimo_evento(*final(self)) matches NotaFiscalEvent::CancelamentoNfSolicitado {
                    nf_id,
                    motivo: e_motivo,
                    ..
                } && nf_id == old(self).id && e_motivo == motivo
            },
    {
        if !(self.status == StatusNFe::Autorizada || self.status == StatusNFe::Transmitida) {
            return Err(DomainError::BusinessRule(String::from_str(
                "Apenas NF autorizada ou transmitida pode ter cancelamento solicitado",
            )));
        }
        if self.cancelamento_pendente {
            return Err(DomainError::BusinessRule(String::from_str(
                "Cancelamento já está pendente para esta nota",
            )));
        }
        self.cancelamento_pendente = true;
        let now = agora();
        self.eventos.push(
            NotaFiscalEvent::CancelamentoNfSolicitado { nf_id: self.id, motivo, occurred_at: now },
        );
        proof {
            assert(self.eventos@.drop_last() =~= old(self).eventos@);
        }
        Ok(())
    }
}

/// Nota cancelada é terminal: nenhuma operação do ciclo de vida a aceita.
pub proof fn lema_cancelada_e_terminal(pendente: bool)
    ensures
        !pode_transmitir(StatusNFe::Cancelada),
        !pode_retransmitir(StatusNFe::Cancelada),
        !pode_autorizar(StatusNFe::Cancelada),
        !pode_rejeitar(StatusNFe::Cancelada),
        !pode_cancelar(StatusNFe::Cancelada),
        !pode_solicitar_cancelamento(StatusNFe::Cancelada, pendente),
{
}

/// Só se chega a `Autorizada` a partir de `Transmitida`, e só se cancela nota
/// autorizada: toda nota cancelada passou pela SEFAZ.
pub proof fn lema_autorizacao_exige_transmissao(s: StatusNFe)
    ensures
        pode_autorizar(s) ==> s == StatusNFe::Transmitida,
        pode_cancelar(s) ==> s == StatusNFe::Autorizada,
        pode_transmitir(s) ==> pode_retransmitir(s),
{
}

} // verus!
