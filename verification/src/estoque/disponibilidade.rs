//! Disponibilidade de um produto para entrar numa venda ou orçamento.

use vstd::prelude::*;

use crate::compartilhado::texto::{decimal, escrever_decimal, texto_de};
use crate::erro::{DomainError, DomainResult};

verus! {

/// Disponibilidade de um produto para ser adicionado a uma venda/orçamento.
#[derive(Debug, Clone, Copy, PartialEq, Eq, Structural)]
pub enum Disponibilidade {
    /// Produto não controla estoque (serviço, mão de obra) — sempre permite.
    NaoControlada,
    /// Produto controla estoque; saldo atual disponível em unidades.
    Controlada(u32),
    /// Confirmação explícita do vendedor para vender/orçar acima do saldo —
    /// ignora o saldo.
    SemChecagem,
}

/// Total pretendido no documento: o que já está nele mais a adição, somados
/// com saturação no maior `u32`.
pub open spec fn total_pretendido(ja_no_documento: int, adicional: int) -> int {
    if ja_no_documento + adicional > u32::MAX {
        u32::MAX as int
    } else {
        ja_no_documento + adicional
    }
}

/// Mensagem de estoque insuficiente para o documento.
pub open spec fn msg_indisponivel(saldo: int, total: int) -> Seq<char> {
    "Estoque insuficiente para este produto: disponível "@ + decimal(saldo as nat) + ", solicitado "@
        + decimal(total as nat)
}

/// A disponibilidade admite levar o documento a `ja_no_documento +
/// adicional` unidades: só o produto controlado limita, pelo saldo.
pub open spec fn admite(d: Disponibilidade, ja_no_documento: int, adicional: int) -> bool {
    match d {
        Disponibilidade::Controlada(saldo) => total_pretendido(ja_no_documento, adicional) <= saldo,
        _ => true,
    }
}

impl Disponibilidade {
    /// Valida a adição de `quantidade_adicional` unidades a um documento que
    /// já tem `ja_no_documento` unidades do mesmo produto: só o produto
    /// controlado limita, pelo total pretendido contra o saldo.
    pub fn validar(&self, ja_no_documento: u32, quantidade_adicional: u32) -> (r: DomainResult<()>)
        ensures
            match *self {
                Disponibilidade::Controlada(saldo) => {
                    let total = total_pretendido(ja_no_documento as int, quantidade_adicional as int);
                    if total > saldo {
                        r matches Err(DomainError::BusinessRule(m)) && m@ == msg_indisponivel(
                            saldo as int,
                            total,
                        )
                    } else {
                        r is Ok
                    }
                },
                _ => r is Ok,
            },
            r is Ok <==> admite(*self, ja_no_documento as int, quantidade_adicional as int),
    {
        let saldo = match self {
            Disponibilidade::Controlada(s) => *s,
            _ => {
                return Ok(());
            },
        };
        let total = ja_no_documento.saturating_add(quantidade_adicional);
        if total > saldo {
            let mut cs: Vec<char> = Vec::new();
            escrever_decimal(saldo as u128, &mut cs);
            let mut ts: Vec<char> = Vec::new();
            escrever_decimal(total as u128, &mut ts);
            let mut m = String::from_str("Estoque insuficiente para este produto: disponível ");
            let s = texto_de(&cs);
            m.append(s.as_str());
            m.append(", solicitado ");
            let t = texto_de(&ts);
            m.append(t.as_str());
            return Err(DomainError::BusinessRule(m));
        }
        Ok(())
    }
}

/// A disponibilidade resolvida a partir do cadastro e da projeção de saldo:
/// sem checagem quando o chamador a dispensa; não controlada quando o produto
/// diz não controlar estoque (produto desconhecido conta como controlado);
/// senão o saldo projetado, ausente ou negativo contando como zero.
pub open spec fn disponibilidade_resolvida(
    ignorar_checagem: bool,
    controla_estoque: Option<bool>,
    saldo_projetado: Option<i32>,
) -> Disponibilidade {
    if ignorar_checagem {
        Disponibilidade::SemChecagem
    } else if controla_estoque == Some(false) {
        Disponibilidade::NaoControlada
    } else {
        match saldo_projetado {
            Some(s) => if s > 0 {
                Disponibilidade::Controlada(s as u32)
            } else {
                Disponibilidade::Controlada(0)
            },
            None => Disponibilidade::Controlada(0),
        }
    }
}

/// Monta a disponibilidade a partir do que o cadastro e a projeção dizem.
pub fn disponibilidade_de(
    ignorar_checagem: bool,
    controla_estoque: Option<bool>,
    saldo_projetado: Option<i32>,
) -> (d: Disponibilidade)
    ensures
        d == disponibilidade_resolvida(ignorar_checagem, controla_estoque, saldo_projetado),
{
    if ignorar_checagem {
        return Disponibilidade::SemChecagem;
    }
    let controla = match controla_estoque {
        Some(c) => c,
        None => true,
    };
    if !controla {
        return Disponibilidade::NaoControlada;
    }
    let saldo: i32 = match saldo_projetado {
        Some(s) => s,
        None => 0,
    };
    if saldo > 0 {
        Disponibilidade::Controlada(saldo as u32)
    } else {
        Disponibilidade::Controlada(0)
    }
}

/// Um produto que controla estoque (ou que o cadastro não declara como não
/// controlado) e cuja checagem não foi dispensada fica limitado ao saldo
/// projetado, com saldo ausente ou negativo contando como zero: o documento
/// admite um total pretendido exatamente quando ele não passa desse saldo.
/// Dispensada a checagem, ou declarado não controlado, tudo é admitido.
pub proof fn lema_controlado_limita_ao_saldo(
    ignorar_checagem: bool,
    controla_estoque: Option<bool>,
    saldo_projetado: Option<i32>,
    ja_no_documento: u32,
    adicional: u32,
)
    ensures
        ({
            let saldo = match saldo_projetado {
                Some(s) => if s > 0 { s as int } else { 0 },
                None => 0,
            };
            let d = disponibilidade_resolvida(ignorar_checagem, controla_estoque, saldo_projetado);
            &&& !ignorar_checagem && controla_estoque != Some(false) ==> d is Controlada && d->0 == saldo
                && (admite(d, ja_no_documento as int, adicional as int) <==> total_pretendido(
                ja_no_documento as int,
                adicional as int,
            ) <= saldo)
            &&& ignorar_checagem || controla_estoque == Some(false) ==> admite(
                d,
                ja_no_documento as int,
                adicional as int,
            )
        }),
{
}

} // verus!
