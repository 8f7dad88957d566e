use vstd::prelude::*;

use crate::compartilhado::tempo::Data;

verus! {

/// Fase da transição da reforma tributária (EC 132/2023, art. 125-133 ADCT),
/// determinada exclusivamente pela data de emissão do documento.
#[derive(Debug, Clone, Copy, PartialEq, Eq, Structural)]
pub enum FaseTransicao {
    /// Antes de 2026: apenas os tributos atuais (ICMS/ISS/PIS/COFINS).
    Legado,
    /// 2026: ano-teste — CBS/IBS destacados de forma informativa.
    Teste2026,
    /// 2027–2028: CBS plena, PIS/COFINS extintos, IBS simbólico.
    Cbs2027_2028,
    /// 2029–2032: ICMS/ISS reduzidos a 90/80/70/60% do valor cheio.
    ReducaoIcmsIss { fator_legado_bps: i32 },
    /// A partir de 2033: apenas CBS/IBS/IS.
    Plena2033,
}

/// Fase vigente no ano civil `ano`.
pub open spec fn fase_do_ano(ano: int) -> FaseTransicao {
    if ano <= 2025 {
        FaseTransicao::Legado
    } else if ano == 2026 {
        FaseTransicao::Teste2026
    } else if ano <= 2028 {
        FaseTransicao::Cbs2027_2028
    } else if ano == 2029 {
        FaseTransicao::ReducaoIcmsIss { fator_legado_bps: 9000 }
    } else if ano == 2030 {
        FaseTransicao::ReducaoIcmsIss { fator_legado_bps: 8000 }
    } else if ano == 2031 {
        FaseTransicao::ReducaoIcmsIss { fator_legado_bps: 7000 }
    } else if ano == 2032 {
        FaseTransicao::ReducaoIcmsIss { fator_legado_bps: 6000 }
    } else {
        FaseTransicao::Plena2033
    }
}

/// Fator (bps de 10000) aplicado sobre o ICMS/ISS cheio.
pub open spec fn fator_legado(f: FaseTransicao) -> int {
    match f {
        FaseTransicao::ReducaoIcmsIss { fator_legado_bps } => fator_legado_bps as int,
        FaseTransicao::Plena2033 => 0,
        _ => 10_000,
    }
}

/// ICMS/ISS ainda incidem nesta fase.
pub open spec fn cobra_legado(f: FaseTransicao) -> bool {
    !(f is Plena2033)
}

/// PIS/COFINS ainda incidem nesta fase.
pub open spec fn cobra_pis_cofins(f: FaseTransicao) -> bool {
    f is Legado || f is Teste2026
}

/// CBS/IBS aparecem no documento nesta fase.
pub open spec fn destaca_ibs_cbs(f: FaseTransicao) -> bool {
    !(f is Legado)
}

/// De 2027 em diante CBS/IBS/IS são "por fora" da base.
pub open spec fn base_por_fora(f: FaseTransicao) -> bool {
    !(f is Legado || f is Teste2026)
}

impl FaseTransicao {
    /// Fase vigente em um ano civil.
    pub fn de_ano(ano: i32) -> (f: FaseTransicao)
        ensures
            f == fase_do_ano(ano as int),
    {
        if ano <= 2025 {
            FaseTransicao::Legado
        } else if ano == 2026 {
            FaseTransicao::Teste2026
        } else if ano <= 2028 {
            FaseTransicao::Cbs2027_2028
        } else if ano == 2029 {
            FaseTransicao::ReducaoIcmsIss { fator_legado_bps: 9000 }
        } else if ano == 2030 {
            FaseTransicao::ReducaoIcmsIss { fator_legado_bps: 8000 }
        } else if ano == 2031 {
            FaseTransicao::ReducaoIcmsIss { fator_legado_bps: 7000 }
        } else if ano == 2032 {
            FaseTransicao::ReducaoIcmsIss { fator_legado_bps: 6000 }
        } else {
            FaseTransicao::Plena2033
        }
    }

    /// Fase vigente na data de emissão: depende só do ano.
    pub fn de_data(data: Data) -> (f: FaseTransicao)
        ensures
            f == fase_do_ano(data.spec_ano()),
    {
        FaseTransicao::de_ano(data.ano())
    }

    /// ICMS/ISS ainda incidem nesta fase? (integral ou reduzido)
    pub fn cobra_legado_estadual(&self) -> (b: bool)
        ensures
            b == cobra_legado(*self),
    {
        !matches!(self, FaseTransicao::Plena2033)
    }

    /// PIS/COFINS ainda incidem nesta fase? (extintos a partir de 2027)
    pub fn cobra_pis_cofins(&self) -> (b: bool)
        ensures
            b == cobra_pis_cofins(*self),
    {
        matches!(self, FaseTransicao::Legado | FaseTransicao::Teste2026)
    }

    /// CBS/IBS aparecem no documento nesta fase?
    pub fn destaca_ibs_cbs(&self) -> (b: bool)
        ensures
            b == destaca_ibs_cbs(*self),
    {
        !matches!(self, FaseTransicao::Legado)
    }

    /// A base de CBS/IBS/IS é extraída "por dentro" do preço bruto? (2027+)
    pub fn base_ibs_cbs_por_fora(&self) -> (b: bool)
        ensures
            b == base_por_fora(*self),
    {
        !matches!(self, FaseTransicao::Legado | FaseTransicao::Teste2026)
    }

    /// Fator (em bps de 10000) aplicado sobre o ICMS/ISS cheio.
    pub fn fator_legado_bps(&self) -> (v: i32)
        ensures
            v == fator_legado(*self),
    {
        match self {
            FaseTransicao::ReducaoIcmsIss { fator_legado_bps } => *fator_legado_bps,
            FaseTransicao::Plena2033 => 0,
            _ => 10_000,
        }
    }
}

/// A transição avança com o tempo: em anos posteriores os tributos legados
/// nunca voltam a ser cobrados com fator maior, PIS/COFINS não reaparecem e o
/// destaque de CBS/IBS, uma vez iniciado, não cessa.
pub proof fn lema_transicao_monotona(a1: int, a2: int)
    requires
        a1 <= a2,
    ensures
        fator_legado(fase_do_ano(a2)) <= fator_legado(fase_do_ano(a1)),
        cobra_pis_cofins(fase_do_ano(a2)) ==> cobra_pis_cofins(fase_do_ano(a1)),
        destaca_ibs_cbs(fase_do_ano(a1)) ==> destaca_ibs_cbs(fase_do_ano(a2)),
        base_por_fora(fase_do_ano(a1)) ==> base_por_fora(fase_do_ano(a2)),
        cobra_legado(fase_do_ano(a2)) ==> cobra_legado(fase_do_ano(a1)),
{
}

} // verus!
