use vstd::prelude::*;

use crate::compartilhado::texto::{
    aparado, aparar, em_maiusculas, eh_digito, filtrar_digitos, maiusculas, so_digitos, texto_de,
    textos_iguais, decimal, escrever_decimal,
};
use crate::erro::{DomainError, DomainResult};
use crate::fiscal::tributacao::aliquota::Aliquota;

verus! {

/// Regime tributário do tenant (art. 146 CF + LC 123/2006 / LC 214/2025).
#[derive(Debug, Clone, Copy, PartialEq, Eq, Structural)]
pub enum RegimeTributario {
    SimplesNacional,
    LucroPresumido,
    LucroReal,
}

/// Valor persistido de cada regime.
pub open spec fn nome_regime(r: RegimeTributario) -> Seq<char> {
    match r {
        RegimeTributario::SimplesNacional => "simples_nacional"@,
        RegimeTributario::LucroPresumido => "lucro_presumido"@,
        RegimeTributario::LucroReal => "lucro_real"@,
    }
}

/// Regime cujo nome persistido é `s`, se houver.
pub open spec fn regime_de_nome(s: Seq<char>) -> Option<RegimeTributario> {
    if s == "simples_nacional"@ {
        Some(RegimeTributario::SimplesNacional)
    } else if s == "lucro_presumido"@ {
        Some(RegimeTributario::LucroPresumido)
    } else if s == "lucro_real"@ {
        Some(RegimeTributario::LucroReal)
    } else {
        None
    }
}

impl RegimeTributario {
    /// Valor persistido em `tenants.regime_tributario`.
    pub fn as_str(&self) -> (s: &'static str)
        ensures
            s@ == nome_regime(*self),
    {
        match self {
            RegimeTributario::SimplesNacional => "simples_nacional",
            RegimeTributario::LucroPresumido => "lucro_presumido",
            RegimeTributario::LucroReal => "lucro_real",
        }
    }

    /// Lê o regime do seu nome persistido.
    pub fn de_nome(s: &str) -> (r: DomainResult<RegimeTributario>)
        ensures
            regime_de_nome(s@) matches Some(g) ==> r matches Ok(x) && x == g,
            regime_de_nome(s@) is None ==> (r matches Err(DomainError::Validation(m))
                && m@ == "Regime tributário inválido: "@ + s@),
    {
        if textos_iguais(s, "simples_nacional") {
            Ok(RegimeTributario::SimplesNacional)
        } else if textos_iguais(s, "lucro_presumido") {
            Ok(RegimeTributario::LucroPresumido)
        } else if textos_iguais(s, "lucro_real") {
            Ok(RegimeTributario::LucroReal)
        } else {
            let mut m = String::from_str("Regime tributário inválido: ");
            m.append(s);
            Err(DomainError::Validation(m))
        }
    }
}

impl<'a> TryFrom<&'a str> for RegimeTributario {
    type Error = DomainError;

    fn try_from(s: &'a str) -> (r: DomainResult<RegimeTributario>)
        ensures
            regime_de_nome(s@) matches Some(g) ==> r matches Ok(x) && x == g,
            regime_de_nome(s@) is None ==> (r matches Err(DomainError::Validation(m))
                && m@ == "Regime tributário inválido: "@ + s@),
    {
        RegimeTributario::de_nome(s)
    }
}

impl<'a> vstd::std_specs::convert::TryFromSpecImpl<&'a str> for RegimeTributario {
    /// O resultado exato está no `ensures` de `try_from`.
    open spec fn obeys_try_from_spec() -> bool {
        false
    }

    open spec fn try_from_spec(v: &'a str) -> Result<Self, Self::Error> {
        arbitrary()
    }
}

/// O nome persistido identifica o regime: ler o nome de volta devolve o mesmo
/// regime.
pub proof fn lema_regime_ida_e_volta(r: RegimeTributario)
    ensures
        regime_de_nome(nome_regime(r)) == Some(r),
{
    reveal_strlit("simples_nacional");
    reveal_strlit("lucro_presumido");
    reveal_strlit("lucro_real");
    assert("simples_nacional"@ != "lucro_presumido"@) by {
        assert("simples_nacional"@[0] != "lucro_presumido"@[0]);
    }
    assert("simples_nacional"@ != "lucro_real"@) by {
        assert("simples_nacional"@[0] != "lucro_real"@[0]);
    }
    assert("lucro_presumido"@ != "lucro_real"@) by {
        assert("lucro_presumido"@[6] != "lucro_real"@[6]);
    }
}

/// Uma das 27 siglas de UF.
pub open spec fn uf_valida(s: Seq<char>) -> bool {
    ||| s == "AC"@
    ||| s == "AL"@
    ||| s == "AP"@
    ||| s == "AM"@
    ||| s == "BA"@
    ||| s == "CE"@
    ||| s == "DF"@
    ||| s == "ES"@
    ||| s == "GO"@
    ||| s == "MA"@
    ||| s == "MT"@
    ||| s == "MS"@
    ||| s == "MG"@
    ||| s == "PA"@
    ||| s == "PB"@
    ||| s == "PR"@
    ||| s == "PE"@
    ||| s == "PI"@
    ||| s == "RJ"@
    ||| s == "RN"@
    ||| s == "RS"@
    ||| s == "RO"@
    ||| s == "RR"@
    ||| s == "SC"@
    ||| s == "SP"@
    ||| s == "SE"@
    ||| s == "TO"@
}

fn eh_sigla_uf(s: &str) -> (b: bool)
    ensures
        b == uf_valida(s@),
{
    textos_iguais(s, "AC")
        || textos_iguais(s, "AL")
        || textos_iguais(s, "AP")
        || textos_iguais(s, "AM")
        || textos_iguais(s, "BA")
        || textos_iguais(s, "CE")
        || textos_iguais(s, "DF")
        || textos_iguais(s, "ES")
        || textos_iguais(s, "GO")
        || textos_iguais(s, "MA")
        || textos_iguais(s, "MT")
        || textos_iguais(s, "MS")
        || textos_iguais(s, "MG")
        || textos_iguais(s, "PA")
        || textos_iguais(s, "PB")
        || textos_iguais(s, "PR")
        || textos_iguais(s, "PE")
        || textos_iguais(s, "PI")
        || textos_iguais(s, "RJ")
        || textos_iguais(s, "RN")
        || textos_iguais(s, "RS")
        || textos_iguais(s, "RO")
        || textos_iguais(s, "RR")
        || textos_iguais(s, "SC")
        || textos_iguais(s, "SP")
        || textos_iguais(s, "SE")
        || textos_iguais(s, "TO")
}

/// Sigla de UF: exatamente 2 letras maiúsculas, dentre as 27 válidas.
#[derive(Debug, PartialEq, Eq)]
pub struct Uf(String);

impl Clone for Uf {
    fn clone(&self) -> (c: Uf)
        ensures
            c@ == self@,
    {
        proof {
            use_type_invariant(self);
        }
        Uf(self.0.clone())
    }
}

impl View for Uf {
    type V = Seq<char>;

    closed spec fn view(&self) -> Seq<char> {
        self.0@
    }
}

impl Uf {
    #[verifier::type_invariant]
    closed spec fn sigla_valida(self) -> bool {
        uf_valida(self.0@)
    }

    pub fn as_str(&self) -> (s: &str)
        ensures
            s@ == self@,
            uf_valida(s@),
    {
        proof {
            use_type_invariant(self);
        }
        self.0.as_str()
    }

    /// Sigla sem espaços nas pontas e em maiúsculas; rejeitada fora das 27 UFs.
    pub fn de_texto(s: String) -> (r: DomainResult<Uf>)
        ensures
            uf_valida(maiusculas(aparado(s@))) ==> (r matches Ok(u) && u@ == maiusculas(aparado(s@))),
            !uf_valida(maiusculas(aparado(s@))) ==> (r matches Err(DomainError::Validation(m))
                && m@ == "UF inválida: "@ + s@),
    {
        let aparada = aparar(s.as_str());
        let sigla = em_maiusculas(aparada.as_str());
        if !eh_sigla_uf(sigla.as_str()) {
            let mut m = String::from_str("UF inválida: ");
            m.append(s.as_str());
            return Err(DomainError::Validation(m));
        }
        Ok(Uf(sigla))
    }
}

impl TryFrom<String> for Uf {
    type Error = DomainError;

    fn try_from(s: String) -> (r: DomainResult<Uf>)
        ensures
            uf_valida(maiusculas(aparado(s@))) ==> (r matches Ok(u) && u@ == maiusculas(aparado(s@))),
            !uf_valida(maiusculas(aparado(s@))) ==> (r matches Err(DomainError::Validation(m))
                && m@ == "UF inválida: "@ + s@),
    {
        Uf::de_texto(s)
    }
}

impl vstd::std_specs::convert::TryFromSpecImpl<String> for Uf {
    /// O resultado exato está no `ensures` de `try_from`.
    open spec fn obeys_try_from_spec() -> bool {
        false
    }

    open spec fn try_from_spec(v: String) -> Result<Self, Self::Error> {
        arbitrary()
    }
}

/// Código IBGE do município: exatamente 7 dígitos numéricos.
#[derive(Debug, Clone, PartialEq, Eq)]
pub struct CodigoMunicipio(String);

impl View for CodigoMunicipio {
    type V = Seq<char>;

    closed spec fn view(&self) -> Seq<char> {
        self.0@
    }
}

/// Mensagem de rejeição de um código de município malformado.
pub open spec fn msg_municipio_invalido() -> Seq<char> {
    "Código IBGE do município deve ter exatamente 7 dígitos"@
}

impl CodigoMunicipio {
    pub fn as_str(&self) -> (s: &str)
        ensures
            s@ == self@,
    {
        self.0.as_str()
    }

    /// Mantém só os algarismos e exige exatamente 7 deles.
    pub fn de_texto(s: String) -> (r: DomainResult<CodigoMunicipio>)
        ensures
            so_digitos(s@).len() == 7 ==> (r matches Ok(c) && c@ == so_digitos(s@)),
            so_digitos(s@).len() != 7 ==> (r matches Err(DomainError::Validation(m))
                && m@ == msg_municipio_invalido()),
    {
        let digitos = filtrar_digitos(s.as_str());
        if digitos.len() != 7 {
            return Err(DomainError::Validation(String::from_str(
                "Código IBGE do município deve ter exatamente 7 dígitos",
            )));
        }
        Ok(CodigoMunicipio(texto_de(&digitos)))
    }
}

impl TryFrom<String> for CodigoMunicipio {
    type Error = DomainError;

    fn try_from(s: String) -> (r: DomainResult<CodigoMunicipio>)
        ensures
            so_digitos(s@).len() == 7 ==> (r matches Ok(c) && c@ == so_digitos(s@)),
            so_digitos(s@).len() != 7 ==> (r matches Err(DomainError::Validation(m))
                && m@ == msg_municipio_invalido()),
    {
        CodigoMunicipio::de_texto(s)
    }
}

impl vstd::std_specs::convert::TryFromSpecImpl<String> for CodigoMunicipio {
    /// O resultado exato está no `ensures` de `try_from`.
    open spec fn obeys_try_from_spec() -> bool {
        false
    }

    open spec fn try_from_spec(v: String) -> Result<Self, Self::Error> {
        arbitrary()
    }
}

/// Código de Regime Tributário da NF-e (campo CRT): 1 = Simples Nacional,
/// 2 = Simples com sublimite excedido, 3 = Regime Normal, 4 = MEI.
#[derive(Debug, Clone, Copy, PartialEq, Eq)]
pub struct Crt(u8);

impl Crt {
    pub closed spec fn spec_valor(self) -> int {
        self.0 as int
    }

    #[verifier::type_invariant]
    closed spec fn na_faixa(self) -> bool {
        1 <= self.0 <= 4
    }

    pub fn valor(&self) -> (v: u8)
        ensures
            v == self.spec_valor(),
            1 <= v <= 4,
    {
        proof {
            use_type_invariant(self);
        }
        self.0
    }

    /// Aceita apenas 1..=4.
    pub fn de_valor(v: u8) -> (r: DomainResult<Crt>)
        ensures
            1 <= v <= 4 ==> (r matches Ok(c) && c.spec_valor() == v),
            !(1 <= v <= 4) ==> (r matches Err(DomainError::Validation(m))
                && m@ == "CRT deve estar entre 1 e 4 (recebido "@ + decimal(v as nat) + ")"@),
    {
        if !(1 <= v && v <= 4) {
            let mut cs: Vec<char> = Vec::new();
            escrever_decimal(v as u128, &mut cs);
            let mut m = String::from_str("CRT deve estar entre 1 e 4 (recebido ");
            let num = texto_de(&cs);
            m.append(num.as_str());
            m.append(")");
            return Err(DomainError::Validation(m));
        }
        Ok(Crt(v))
    }
}

impl TryFrom<u8> for Crt {
    type Error = DomainError;

    fn try_from(v: u8) -> (r: DomainResult<Crt>)
        ensures
            1 <= v <= 4 ==> (r matches Ok(c) && c.spec_valor() == v),
            !(1 <= v <= 4) ==> (r matches Err(DomainError::Validation(m))
                && m@ == "CRT deve estar entre 1 e 4 (recebido "@ + decimal(v as nat) + ")"@),
    {
        Crt::de_valor(v)
    }
}

impl vstd::std_specs::convert::TryFromSpecImpl<u8> for Crt {
    /// O resultado exato está no `ensures` de `try_from`.
    open spec fn obeys_try_from_spec() -> bool {
        false
    }

    open spec fn try_from_spec(v: u8) -> Result<Self, Self::Error> {
        arbitrary()
    }
}

/// Perfil fiscal do tenant — determina como o motor tributário calcula os
/// impostos das notas emitidas por ele.
#[derive(Debug, Clone, PartialEq)]
pub struct PerfilFiscal {
    pub regime: RegimeTributario,
    pub uf: Uf,
    pub codigo_municipio: CodigoMunicipio,
    pub crt: Crt,
    /// Simples Nacional que optou pelo regime regular de IBS/CBS (LC 214/2025,
    /// art. 41); `false` = recolhe por dentro do DAS e IBS/CBS na NF são
    /// informativos.
    pub ibs_cbs_regime_regular: bool,
    /// O tenant configurou o perfil (o fallback `padrao_legado` não).
    pub configurado: bool,
    /// Alíquota efetiva do DAS (anexo/faixa do Simples) sobre o preço.
    pub aliquota_das_bps: Option<Aliquota>,
}

/// IBS/CBS destacados são meramente informativos para o perfil.
pub open spec fn informativo(p: PerfilFiscal) -> bool {
    p.regime == RegimeTributario::SimplesNacional && !p.ibs_cbs_regime_regular
}

/// Simples Nacional configurado sem regime regular: recolhe tudo por dentro do DAS.
pub open spec fn recolhe_por_dentro(p: PerfilFiscal) -> bool {
    p.configurado && informativo(p)
}

impl PerfilFiscal {
    /// Comportamento histórico para tenants sem perfil configurado: Simples
    /// Nacional em São Paulo/SP, CRT 1.
    pub fn padrao_legado() -> (p: PerfilFiscal)
        ensures
            p.regime == RegimeTributario::SimplesNacional,
            p.uf@ == "SP"@,
            p.codigo_municipio@ == "3550308"@,
            p.crt.spec_valor() == 1,
            !p.ibs_cbs_regime_regular,
            !p.configurado,
            p.aliquota_das_bps is None,
    {
        PerfilFiscal {
            regime: RegimeTributario::SimplesNacional,
            uf: Uf(String::from_str("SP")),
            codigo_municipio: CodigoMunicipio(String::from_str("3550308")),
            crt: Crt(1),
            ibs_cbs_regime_regular: false,
            configurado: false,
            aliquota_das_bps: None,
        }
    }

    /// IBS/CBS destacados são meramente informativos? Verdadeiro no Simples
    /// Nacional que NÃO optou pelo regime regular.
    pub fn ibs_cbs_informativo(&self) -> (b: bool)
        ensures
            b == informativo(*self),
    {
        self.regime == RegimeTributario::SimplesNacional && !self.ibs_cbs_regime_regular
    }

    /// Simples Nacional CONFIGURADO sem regime regular: os tributos legados não
    /// vão ao documento (CSOSN 102, recolhimento por dentro do DAS).
    pub fn simples_recolhe_por_dentro(&self) -> (b: bool)
        ensures
            b == recolhe_por_dentro(*self),
    {
        self.configurado && self.ibs_cbs_informativo()
    }
}

} // verus!
