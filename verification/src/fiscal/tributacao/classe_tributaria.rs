use vstd::prelude::*;

use crate::compartilhado::texto::{filtrar_digitos, so_digitos, texto_de};
use crate::erro::{DomainError, DomainResult};

verus! {

/// Código de classificação tributária (cClassTrib) da NT 2025.002 — exatamente
/// 6 dígitos numéricos.
#[derive(Debug, Clone, PartialEq, Eq, Hash)]
pub struct ClasseTributaria(String);

impl View for ClasseTributaria {
    type V = Seq<char>;

    closed spec fn view(&self) -> Seq<char> {
        self.0@
    }
}

/// Mensagem de rejeição de uma classe malformada.
pub open spec fn msg_classe_invalida() -> Seq<char> {
    "Classe tributária (cClassTrib) deve ter exatamente 6 dígitos"@
}

impl ClasseTributaria {
    /// Classe padrão (tributação integral) para produtos ainda não classificados.
    pub fn padrao() -> (c: ClasseTributaria)
        ensures
            c@ == "000001"@,
    {
        ClasseTributaria(String::from_str("000001"))
    }

    pub fn as_str(&self) -> (s: &str)
        ensures
            s@ == self@,
    {
        self.0.as_str()
    }

    /// Valida: mantém só os algarismos e exige exatamente 6 deles.
    pub fn de_texto(s: String) -> (r: DomainResult<ClasseTributaria>)
        ensures
            so_digitos(s@).len() == 6 ==> (r matches Ok(c) && c@ == so_digitos(s@)),
            so_digitos(s@).len() != 6 ==> (r matches Err(DomainError::Validation(m))
                && m@ == msg_classe_invalida()),
    {
        let digitos = filtrar_digitos(s.as_str());
        if digitos.len() != 6 {
            return Err(DomainError::Validation(String::from_str(
                "Classe tributária (cClassTrib) deve ter exatamente 6 dígitos",
            )));
        }
        Ok(ClasseTributaria(texto_de(&digitos)))
    }
}

impl TryFrom<String> for ClasseTributaria {
    type Error = DomainError;

    fn try_from(s: String) -> (r: DomainResult<ClasseTributaria>)
        ensures
            so_digitos(s@).len() == 6 ==> (r matches Ok(c) && c@ == so_digitos(s@)),
            so_digitos(s@).len() != 6 ==> (r matches Err(DomainError::Validation(m))
                && m@ == msg_classe_invalida()),
    {
        ClasseTributaria::de_texto(s)
    }
}

impl vstd::std_specs::convert::TryFromSpecImpl<String> for ClasseTributaria {
    /// O resultado exato está no `ensures` de `try_from`.
    open spec fn obeys_try_from_spec() -> bool {
        false
    }

    open spec fn try_from_spec(v: String) -> Result<Self, Self::Error> {
        arbitrary()
    }
}

/// Metadados de uma classe tributária: CST de IBS/CBS e a redução de
/// base/alíquota que ela carrega (ex.: 6000 bps = redução de 60%).
#[derive(Debug, Clone, PartialEq)]
pub struct ClasseTributariaInfo {
    pub classe: ClasseTributaria,
    pub cst_ibs_cbs: String,
    pub reducao_bps: i32,
}

impl ClasseTributariaInfo {
    /// Tributação integral — comportamento para produtos sem classe atribuída.
    pub fn integral() -> (info: ClasseTributariaInfo)
        ensures
            info.classe@ == "000001"@,
            info.cst_ibs_cbs@ == "000"@,
            info.reducao_bps == 0,
    {
        ClasseTributariaInfo {
            classe: ClasseTributaria::padrao(),
            cst_ibs_cbs: String::from_str("000"),
            reducao_bps: 0,
        }
    }
}

} // verus!
