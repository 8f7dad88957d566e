use vstd::prelude::*;

use crate::compartilhado::texto::{decimal_com_sinal, escrever_decimal_com_sinal, texto_de};
use crate::erro::{DomainError, DomainResult};

verus! {

/// Tributos que o motor conhece. Cada variante corresponde a um valor da
/// coluna `ref_aliquotas.tributo`.
#[derive(Debug, Clone, Copy, PartialEq, Eq, Structural, Hash)]
pub enum TributoTipo {
    Icms,
    Iss,
    Pis,
    Cofins,
    Cbs,
    IbsUf,
    IbsMun,
    /// Imposto Seletivo (LC 214/2025) — incide por NCM sobre bens específicos.
    Is,
}

/// Nome persistido de cada tributo.
pub open spec fn nome_tributo(t: TributoTipo) -> Seq<char> {
    match t {
        TributoTipo::Icms => "icms"@,
        TributoTipo::Iss => "iss"@,
        TributoTipo::Pis => "pis"@,
        TributoTipo::Cofins => "cofins"@,
        TributoTipo::Cbs => "cbs"@,
        TributoTipo::IbsUf => "ibs_uf"@,
        TributoTipo::IbsMun => "ibs_mun"@,
        TributoTipo::Is => "is"@,
    }
}

impl TributoTipo {
    pub fn as_str(&self) -> (s: &'static str)
        ensures
            s@ == nome_tributo(*self),
    {
        match self {
            TributoTipo::Icms => "icms",
            TributoTipo::Iss => "iss",
            TributoTipo::Pis => "pis",
            TributoTipo::Cofins => "cofins",
            TributoTipo::Cbs => "cbs",
            TributoTipo::IbsUf => "ibs_uf",
            TributoTipo::IbsMun => "ibs_mun",
            TributoTipo::Is => "is",
        }
    }
}

/// Teto da alíquota em bps (200%): pega erro de unidade sem impedir tributos
/// altos como o IS sobre bens específicos.
pub const TETO_BPS: i32 = 20_000;

/// Divisão half-up SIMÉTRICA: arredonda o valor absoluto e repõe o sinal.
pub open spec fn half_up(numerador: int, divisor: int) -> int {
    let abs = if numerador < 0 { -numerador } else { numerador };
    let q = (abs + divisor / 2) / divisor;
    if numerador < 0 { -q } else { q }
}

/// Alíquota `bps` aplicada a `base` centavos, arredondamento half-up simétrico.
pub open spec fn aplicar_bps(bps: int, base: int) -> int {
    half_up(base * bps, 10_000)
}

/// Fração que resta da alíquota após uma redução em bps, limitada a 0..=10000.
pub open spec fn restante_bps(reducao_bps: int) -> int {
    let r = 10_000 - reducao_bps;
    if r < 0 { 0 } else if r > 10_000 { 10_000 } else { r }
}

/// Alíquota `bps` com redução `reducao_bps`, em um único arredondamento.
pub open spec fn aplicar_reduzida_bps(bps: int, base: int, reducao_bps: int) -> int {
    half_up(base * bps * restante_bps(reducao_bps), 100_000_000)
}

/// `|b| <= lb` e `0 <= x <= lx` limitam o produto a `lb * lx`.
pub proof fn lema_produto_limitado(b: int, x: int, lb: int, lx: int)
    by (nonlinear_arith)
    requires
        -lb <= b <= lb,
        0 <= x <= lx,
    ensures
        -(lb * lx) <= b * x <= lb * lx,
{
}

/// Alíquota em basis points (1 bps = 0,01%), sempre na faixa 0..=20000.
#[derive(Debug, Clone, Copy, PartialEq, Eq)]
pub struct Aliquota(i32);

impl Aliquota {
    /// Valor da alíquota em bps.
    pub closed spec fn valor(self) -> int {
        self.0 as int
    }

    #[verifier::type_invariant]
    closed spec fn na_faixa(self) -> bool {
        0 <= self.0 <= TETO_BPS
    }

    pub fn zero() -> (a: Aliquota)
        ensures
            a.valor() == 0,
    {
        Aliquota(0)
    }

    pub fn bps(&self) -> (v: i32)
        ensures
            v == self.valor(),
            0 <= v <= TETO_BPS,
    {
        proof {
            use_type_invariant(self);
        }
        self.0
    }

    /// Aplica a alíquota sobre uma base em centavos, arredondamento half-up
    /// simétrico (estornos espelham exatamente o documento original).
    /// Resultado fora de `i64` é truncado como no `as i64`.
    pub fn aplicar(&self, base_centavos: i64) -> (v: i64)
        ensures
            v == aplicar_bps(self.valor(), base_centavos as int) as i64,
    {
        let bps = self.bps();
        proof {
            lema_produto_limitado(base_centavos as int, bps as int, 0x8000_0000_0000_0000, TETO_BPS as int);
        }
        Self::half_up(base_centavos as i128 * bps as i128, 10_000)
    }

    /// Aplica a alíquota com uma redução em bps (limitada a 0..=10000) em um
    /// ÚNICO arredondamento half-up sobre o valor final.
    pub fn aplicar_reduzida(&self, base_centavos: i64, reducao_bps: i32) -> (v: i64)
        requires
            10_000 - reducao_bps <= i32::MAX,
        ensures
            v == aplicar_reduzida_bps(self.valor(), base_centavos as int, reducao_bps as int) as i64,
    {
        let bps = self.bps();
        let bruto: i32 = 10_000 - reducao_bps;
        let restante: i32 = if bruto < 0 { 0 } else if bruto > 10_000 { 10_000 } else { bruto };
        let b: i128 = base_centavos as i128;
        proof {
            lema_produto_limitado(b as int, bps as int, 0x8000_0000_0000_0000, TETO_BPS as int);
            lema_produto_limitado(
                b * bps,
                restante as int,
                0x8000_0000_0000_0000 * TETO_BPS,
                10_000,
            );
        }
        let prod = b * (bps as i128) * (restante as i128);
        Self::half_up(prod, 100_000_000)
    }

    /// Divisão half-up simétrica: arredonda o valor absoluto e repõe o sinal.
    fn half_up(numerador: i128, divisor: i128) -> (v: i64)
        requires
            divisor > 0,
            divisor <= 100_000_000,
            -0x1_0000_0000_0000_0000_0000_0000_0000 < numerador < 0x1_0000_0000_0000_0000_0000_0000_0000,
        ensures
            v == half_up(numerador as int, divisor as int) as i64,
    {
        let abs: i128 = if numerador < 0 { -numerador } else { numerador };
        let quociente: i128 = (abs + divisor / 2) / divisor;
        let r: i128 = if numerador < 0 { -quociente } else { quociente };
        r as i64
    }

    /// Constrói a alíquota validando a faixa 0..=20000 bps.
    pub fn de_bps(bps: i32) -> (r: DomainResult<Aliquota>)
        ensures
            (0 <= bps <= TETO_BPS) ==> (r matches Ok(a) && a.valor() == bps),
            !(0 <= bps <= TETO_BPS) ==> (r matches Err(DomainError::Validation(m))
                && m@ == "Alíquota em bps fora da faixa 0..=20000: "@ + decimal_com_sinal(bps as int)),
    {
        if !(0 <= bps && bps <= TETO_BPS) {
            let mut cs: Vec<char> = Vec::new();
            escrever_decimal_com_sinal(bps as i64, &mut cs);
            let mut m = String::from_str("Alíquota em bps fora da faixa 0..=20000: ");
            let num = texto_de(&cs);
            m.append(num.as_str());
            return Err(DomainError::Validation(m));
        }
        Ok(Aliquota(bps))
    }
}

impl TryFrom<i32> for Aliquota {
    type Error = DomainError;

    fn try_from(bps: i32) -> (r: DomainResult<Aliquota>)
        ensures
            (0 <= bps <= TETO_BPS) ==> (r matches Ok(a) && a.valor() == bps),
            !(0 <= bps <= TETO_BPS) ==> (r matches Err(DomainError::Validation(m))
                && m@ == "Alíquota em bps fora da faixa 0..=20000: "@ + decimal_com_sinal(bps as int)),
    {
        Aliquota::de_bps(bps)
    }
}

/// Arredondamento simétrico: estornos e devoluções (base negativa) espelham
/// exatamente o valor do documento original.
pub proof fn lema_aplicar_simetrico(bps: int, base: int)
    ensures
        aplicar_bps(bps, -base) == -aplicar_bps(bps, base),
        aplicar_reduzida_bps(bps, -base, 0) == -aplicar_reduzida_bps(bps, base, 0),
{
    assert((-base) * bps == -(base * bps)) by (nonlinear_arith);
    assert((-base) * bps * 10_000 == -(base * bps * 10_000)) by (nonlinear_arith);
}

/// Base zero não gera imposto.
pub proof fn lema_base_zero(bps: int, reducao_bps: int)
    ensures
        aplicar_bps(bps, 0) == 0,
        aplicar_reduzida_bps(bps, 0, reducao_bps) == 0,
{
    assert(0 * bps == 0);
    assert(0 * bps * restante_bps(reducao_bps) == 0) by (nonlinear_arith);
}

/// Sem redução (ou redução negativa, dado corrompido) a alíquota reduzida é a
/// própria alíquota; redução de 100% ou mais zera o tributo, sem inverter o
/// sinal.
pub proof fn lema_reducao_nos_extremos(bps: int, base: int, reducao_bps: int)
    ensures
        reducao_bps <= 0 ==> aplicar_reduzida_bps(bps, base, reducao_bps) == aplicar_bps(bps, base),
        reducao_bps >= 10_000 ==> aplicar_reduzida_bps(bps, base, reducao_bps) == 0,
{
    let n = base * bps;
    if reducao_bps <= 0 {
        let abs = if n < 0 { -n } else { n };
        assert(n * 10_000 < 0 <==> n < 0) by (nonlinear_arith);
        assert((if n * 10_000 < 0 { -(n * 10_000) } else { n * 10_000 }) == 10_000 * abs) by (nonlinear_arith)
            requires abs == if n < 0 { -n } else { n };
        assert(10_000 * abs + 100_000_000int / 2 == 10_000 * (abs + 5_000));
        vstd::arithmetic::div_mod::lemma_div_multiples_vanish_quotient(10_000, abs + 5_000, 10_000);
        assert(base * bps * restante_bps(reducao_bps) == n * 10_000);
    }
    if reducao_bps >= 10_000 {
        assert(base * bps * restante_bps(reducao_bps) == 0) by (nonlinear_arith)
            requires restante_bps(reducao_bps) == 0;
    }
}

impl vstd::std_specs::convert::TryFromSpecImpl<i32> for Aliquota {
    /// O resultado exato (inclusive a mensagem) está no `ensures` de `try_from`.
    open spec fn obeys_try_from_spec() -> bool {
        false
    }

    open spec fn try_from_spec(v: i32) -> Result<Self, Self::Error> {
        arbitrary()
    }
}

} // verus!
