//! Cadastro de fornecedores.

use vstd::prelude::*;

use crate::compartilhado::documentos::{
    cnpj_valido, email_valido, Cnpj, Email, NomeNaoVazio, Telefone,
};
use crate::compartilhado::ids::novo_id;
use crate::compartilhado::tempo::{agora, Instante};
use crate::compartilhado::texto::{aparado, so_digitos};
use crate::erro::{DomainError, DomainResult};

verus! {

#[derive(Debug, Clone)]
pub enum FornecedorEvent {
    FornecedorCadastrado {
        fornecedor_id: u128,
        razao_social: String,
        cnpj: String,
        telefone: Option<String>,
        email: Option<String>,
        prazo_pagamento_dias: u16,
        occurred_at: Instante,
    },
    FornecedorAtualizado {
        fornecedor_id: u128,
        razao_social: String,
        telefone: Option<String>,
        email: Option<String>,
        prazo_pagamento_dias: u16,
        occurred_at: Instante,
    },
    FornecedorDesativado { fornecedor_id: u128, occurred_at: Instante },
    FornecedorReativado { fornecedor_id: u128, occurred_at: Instante },
}

#[derive(Debug, Clone)]
pub struct Fornecedor {
    pub id: u128,
    pub version: u64,
    /// Eventos ainda não publicados.
    pub eventos: Vec<FornecedorEvent>,
    pub razao_social: NomeNaoVazio,
    pub cnpj: Cnpj,
    pub telefone: Option<Telefone>,
    pub email: Option<Email>,
    pub prazo_pagamento_dias: u16,
    pub ativo: bool,
}

/// Telefone informado é válido (ou ausente).
pub open spec fn telefone_aceito(t: Option<String>) -> bool {
    match t {
        Some(s) => so_digitos(s@).len() == 10 || so_digitos(s@).len() == 11,
        None => true,
    }
}

/// E-mail informado é válido (ou ausente).
pub open spec fn email_aceito(e: Option<String>) -> bool {
    match e {
        Some(s) => email_valido(aparado(s@)),
        None => true,
    }
}

/// O telefone guardado corresponde ao informado.
pub open spec fn telefone_de(entrada: Option<String>, guardado: Option<Telefone>) -> bool {
    match entrada {
        Some(s) => guardado matches Some(t) && t@ == so_digitos(s@),
        None => guardado is None,
    }
}

/// O e-mail guardado corresponde ao informado.
pub open spec fn email_de(entrada: Option<String>, guardado: Option<Email>) -> bool {
    match entrada {
        Some(s) => guardado matches Some(e) && e@ == aparado(s@),
        None => guardado is None,
    }
}

/// Texto opcional que corresponde a um valor opcional.
pub open spec fn texto_opcional_telefone(t: Option<String>, v: Option<Telefone>) -> bool {
    match v {
        Some(x) => t matches Some(s) && s@ == x@,
        None => t is None,
    }
}

pub open spec fn texto_opcional_email(t: Option<String>, v: Option<Email>) -> bool {
    match v {
        Some(x) => t matches Some(s) && s@ == x@,
        None => t is None,
    }
}

fn validar_telefone(t: Option<String>) -> (r: DomainResult<Option<Telefone>>)
    ensures
        telefone_aceito(t) ==> (r matches Ok(v) && telefone_de(t, v)),
        !telefone_aceito(t) ==> (r matches Err(DomainError::Validation(m)) && m@
            == "Telefone deve ter DDD e 8 ou 9 dígitos"@),
{
    match t {
        Some(s) => match Telefone::de_texto(s) {
            Ok(v) => Ok(Some(v)),
            Err(e) => Err(e),
        },
        None => Ok(None),
    }
}

fn validar_email(e: Option<String>) -> (r: DomainResult<Option<Email>>)
    ensures
        email_aceito(e) ==> (r matches Ok(v) && email_de(e, v)),
        !email_aceito(e) ==> (r matches Err(DomainError::Validation(m)) && m@ == "E-mail inválido"@),
{
    match e {
        Some(s) => match Email::de_texto(s) {
            Ok(v) => Ok(Some(v)),
            Err(x) => Err(x),
        },
        None => Ok(None),
    }
}

fn texto_telefone(t: &Option<Telefone>) -> (r: Option<String>)
    ensures
        texto_opcional_telefone(r, *t),
{
    match t {
        Some(x) => Some(x.to_string()),
        None => None,
    }
}

fn texto_email(e: &Option<Email>) -> (r: Option<String>)
    ensures
        texto_opcional_email(r, *e),
{
    match e {
        Some(x) => Some(x.to_string()),
        None => None,
    }
}

impl Fornecedor {
    /// Eventos pendentes de publicação.
    pub fn pending_events(&self) -> (e: &Vec<FornecedorEvent>)
        ensures
            e == self.eventos,
    {
        &self.eventos
    }

    /// Cadastra o fornecedor ativo. Valida, nesta ordem, razão social não
    /// vazia, CNPJ, telefone e e-mail (os dois últimos quando informados).
    pub fn cadastrar(
        razao_social: String,
        cnpj: String,
        telefone: Option<String>,
        email: Option<String>,
        prazo_pagamento_dias: u16,
    ) -> (r: DomainResult<Fornecedor>)
        ensures
            aparado(razao_social@).len() == 0 ==> (r matches Err(DomainError::Validation(m)) && m@
                == "Nome não pode ser vazio"@),
            aparado(razao_social@).len() > 0 && !cnpj_valido(so_digitos(cnpj@)) ==> (r matches Err(
                DomainError::Validation(m),
            ) && m@ == "CNPJ inválido"@),
            aparado(razao_social@).len() > 0 && cnpj_valido(so_digitos(cnpj@)) && !telefone_aceito(
                telefone,
            ) ==> (r matches Err(DomainError::Validation(m)) && m@
                == "Telefone deve ter DDD e 8 ou 9 dígitos"@),
            aparado(razao_social@).len() > 0 && cnpj_valido(so_digitos(cnpj@)) && telefone_aceito(
                telefone,
            ) && !email_aceito(email) ==> (r matches Err(DomainError::Validation(m)) && m@
                == "E-mail inválido"@),
            aparado(razao_social@).len() > 0 && cnpj_valido(so_digitos(cnpj@)) && telefone_aceito(
                telefone,
            ) && email_aceito(email) ==> r is Ok,
            r matches Ok(f) ==> {
                &&& f.version == 0
                &&& f.ativo
                &&& f.razao_social@ == aparado(razao_social@)
                &&& f.cnpj@ == so_digitos(cnpj@)
                &&& telefone_de(telefone, f.telefone)
                &&& email_de(email, f.email)
                &&& f.prazo_pagamento_dias == prazo_pagamento_dias
                &&& f.eventos@.len() == 1
                &&& f.eventos@[0] matches FornecedorEvent::FornecedorCadastrado {
                    fornecedor_id,
                    razao_social: rs,
                    cnpj: c,
                    telefone: t,
                    email: e,
                    prazo_pagamento_dias: p,
                    ..
                } && fornecedor_id == f.id && rs@ == f.razao_social@ && c@ == f.cnpj@
                    && texto_opcional_telefone(t, f.telefone) && texto_opcional_email(e, f.email) && p
                    == prazo_pagamento_dias
            },
    {
        let razao = match NomeNaoVazio::de_texto(razao_social) {
            Ok(n) => n,
            Err(e) => {
                return Err(e);
            },
        };
        let cnpj = match Cnpj::de_texto(cnpj) {
            Ok(c) => c,
            Err(e) => {
                return Err(e);
            },
        };
        let telefone = match validar_telefone(telefone) {
            Ok(t) => t,
            Err(e) => {
                return Err(e);
            },
        };
        let email = match validar_email(email) {
            Ok(v) => v,
            Err(e) => {
                return Err(e);
            },
        };
        let id = novo_id();
        let now = agora();
        let mut eventos: Vec<FornecedorEvent> = Vec::new();
        eventos.push(
            FornecedorEvent::FornecedorCadastrado {
                fornecedor_id: id,
                razao_social: razao.to_string(),
                cnpj: String::from_str(cnpj.as_str()),
                telefone: texto_telefone(&telefone),
                email: texto_email(&email),
                prazo_pagamento_dias,
                occurred_at: now,
            },
        );
        Ok(Fornecedor {
            id,
            version: 0,
            eventos,
            razao_social: razao,
            cnpj,
            telefone,
            email,
            prazo_pagamento_dias,
            ativo: true,
        })
    }

    /// Atualiza razão social, telefone, e-mail e prazo (CNPJ e situação não
    /// mudam). Valida, nesta ordem, razão social, telefone e e-mail.
    pub fn atualizar(
        &mut self,
        razao_social: String,
        telefone: Option<String>,
        email: Option<String>,
        prazo_pagamento_dias: u16,
    ) -> (r: DomainResult<()>)
        ensures
            final(self).id == old(self).id,
            final(self).version == old(self).version,
            final(self).cnpj == old(self).cnpj,
            final(self).ativo == old(self).ativo,
            aparado(razao_social@).len() == 0 ==> (r matches Err(DomainError::Validation(m)) && m@
                == "Nome não pode ser vazio"@ && *final(self) == *old(self)),
            aparado(razao_social@).len() > 0 && !telefone_aceito(telefone) ==> (r matches Err(
                DomainError::Validation(m),
            ) && m@ == "Telefone deve ter DDD e 8 ou 9 dígitos"@ && *final(self) == *old(self)),
            aparado(razao_social@).len() > 0 && telefone_aceito(telefone) && !email_aceito(email) ==> (
            r matches Err(DomainError::Validation(m)) && m@ == "E-mail inválido"@ && *final(self)
                == *old(self)),
            aparado(razao_social@).len() > 0 && telefone_aceito(telefone) && email_aceito(email) ==> {
                &&& r is Ok
                &&& final(self).razao_social@ == aparado(razao_social@)
                &&& telefone_de(telefone, final(self).telefone)
                &&& email_de(email, final(self).email)
                &&& final(self).prazo_pagamento_dias == prazo_pagamento_dias
                &&& final(self).eventos@.drop_last() == old(self).eventos@
                &&& final(self).eventos@.len() == old(self).eventos@.len() + 1
                &&& final(self).eventos@.last() matches FornecedorEvent::FornecedorAtualizado {
                    fornecedor_id,
                    razao_social: rs,
                    telefone: t,
                    email: e,
                    prazo_pagamento_dias: p,
                    ..
                } && fornecedor_id == old(self).id && rs@ == final(self).razao_social@
                    && texto_opcional_telefone(t, final(self).telefone) && texto_opcional_email(
                    e,
                    final(self).email,
                ) && p == prazo_pagamento_dias
            },
    {
        let razao = match NomeNaoVazio::de_texto(razao_social) {
            Ok(n) => n,
            Err(e) => {
                return Err(e);
            },
        };
        let telefone = match validar_telefone(telefone) {
            Ok(t) => t,
            Err(e) => {
                return Err(e);
            },
        };
        let email = match validar_email(email) {
            Ok(v) => v,
            Err(e) => {
                return Err(e);
            },
        };
        let now = agora();
        self.eventos.push(
            FornecedorEvent::FornecedorAtualizado {
                fornecedor_id: self.id,
                razao_social: razao.to_string(),
                telefone: texto_telefone(&telefone),
                email: texto_email(&email),
                prazo_pagamento_dias,
                occurred_at: now,
            },
        );
        self.razao_social = razao;
        self.telefone = telefone;
        self.email = email;
        self.prazo_pagamento_dias = prazo_pagamento_dias;
        proof {
            assert(self.eventos@.drop_last() =~= old(self).eventos@);
        }
        Ok(())
    }

    /// Ativo → inativo.
    pub fn desativar(&mut self) -> (r: DomainResult<()>)
        ensures
            !old(self).ativo ==> (r matches Err(DomainError::BusinessRule(m)) && m@
                == "Fornecedor já está inativo"@ && *final(self) == *old(self)),
            old(self).ativo ==> {
                &&& r is Ok
                &&& *final(self) == (Fornecedor { ativo: false, eventos: final(self).eventos, ..*old(self) })
                &&& final(self).eventos@ == old(self).eventos@.push(
                    final(self).eventos@.last(),
                )
                &&& final(self).eventos@.last() matches FornecedorEvent::FornecedorDesativado {
                    fornecedor_id,
                    ..
                } && fornecedor_id == old(self).id
            },
    {
        if !self.ativo {
            return Err(DomainError::BusinessRule(String::from_str("Fornecedor já está inativo")));
        }
        self.ativo = false;
        let now = agora();
        self.eventos.push(FornecedorEvent::FornecedorDesativado { fornecedor_id: self.id, occurred_at: now });
        Ok(())
    }

    /// Inativo → ativo.
    pub fn reativar(&mut self) -> (r: DomainResult<()>)
        ensures
            old(self).ativo ==> (r matches Err(DomainError::BusinessRule(m)) && m@
                == "Fornecedor já está ativo"@ && *final(self) == *old(self)),
            !old(self).ativo ==> {
                &&& r is Ok
                &&& *final(self) == (Fornecedor { ativo: true, eventos: final(self).eventos, ..*old(self) })
                &&& final(self).eventos@ == old(self).eventos@.push(
                    final(self).eventos@.last(),
                )
                &&& final(self).eventos@.last() matches FornecedorEvent::FornecedorReativado {
                    fornecedor_id,
                    ..
                } && fornecedor_id == old(self).id
            },
    {
        if self.ativo {
            return Err(DomainError::BusinessRule(String::from_str("Fornecedor já está ativo")));
        }
        self.ativo = true;
        let now = agora();
        self.eventos.push(FornecedorEvent::FornecedorReativado { fornecedor_id: self.id, occurred_at: now });
        Ok(())
    }
}

/// Desativar e em seguida reativar devolve o cadastro ao que era; só os
/// eventos registrados mudam.
pub proof fn lema_desativar_e_reativar(a: Fornecedor, b: Fornecedor, c: Fornecedor)
    requires
        a.ativo,
        b == (Fornecedor { ativo: false, eventos: b.eventos, ..a }),
        c == (Fornecedor { ativo: true, eventos: c.eventos, ..b }),
    ensures
        c == (Fornecedor { eventos: c.eventos, ..a }),
{
}

} // verus!
