use vstd::prelude::*;

verus! {

/// Divisão inteira do Rust (trunca em direção a zero) para divisor positivo.
pub open spec fn div_trunc(a: int, d: int) -> int {
    if a >= 0 { a / d } else { -((-a) / d) }
}

/// Impostos calculados de um item, congelados no evento de emissão — replays
/// nunca recalculam.
#[derive(Debug)]
pub struct ImpostoItem {
    pub icms_centavos: i64,
    pub pis_centavos: i64,
    pub cofins_centavos: i64,
    pub iss_centavos: i64,
    pub cbs_centavos: i64,
    pub ibs_uf_centavos: i64,
    pub ibs_mun_centavos: i64,
    pub is_centavos: i64,
    /// cClassTrib (NT 2025.002) usado no cálculo.
    pub c_class_trib: Option<String>,
    pub cst_ibs_cbs: Option<String>,
    /// CSOSN (Simples Nacional): "102" quando o perfil é Simples.
    pub csosn: Option<String>,
    /// CST do ICMS (regimes normais): "00" no caso geral sem ST.
    pub cst_icms: Option<String>,
    /// Custo do DAS (Simples configurado) — não destacado na NF.
    pub das_centavos: i64,
}

/// Todos os montantes zerados e nenhuma classificação.
pub open spec fn imposto_vazio(i: ImpostoItem) -> bool {
    &&& i.icms_centavos == 0
    &&& i.pis_centavos == 0
    &&& i.cofins_centavos == 0
    &&& i.iss_centavos == 0
    &&& i.cbs_centavos == 0
    &&& i.ibs_uf_centavos == 0
    &&& i.ibs_mun_centavos == 0
    &&& i.is_centavos == 0
    &&& i.das_centavos == 0
    &&& i.c_class_trib is None
    &&& i.cst_ibs_cbs is None
    &&& i.csosn is None
    &&& i.cst_icms is None
}

impl Clone for ImpostoItem {
    fn clone(&self) -> (c: ImpostoItem)
        ensures
            c == *self,
    {
        ImpostoItem {
            icms_centavos: self.icms_centavos,
            pis_centavos: self.pis_centavos,
            cofins_centavos: self.cofins_centavos,
            iss_centavos: self.iss_centavos,
            cbs_centavos: self.cbs_centavos,
            ibs_uf_centavos: self.ibs_uf_centavos,
            ibs_mun_centavos: self.ibs_mun_centavos,
            is_centavos: self.is_centavos,
            c_class_trib: clonar_opcional(&self.c_class_trib),
            cst_ibs_cbs: clonar_opcional(&self.cst_ibs_cbs),
            csosn: clonar_opcional(&self.csosn),
            cst_icms: clonar_opcional(&self.cst_icms),
            das_centavos: self.das_centavos,
        }
    }
}

impl Default for ImpostoItem {
    fn default() -> (i: ImpostoItem)
        ensures
            imposto_vazio(i),
    {
        ImpostoItem {
            icms_centavos: 0,
            pis_centavos: 0,
            cofins_centavos: 0,
            iss_centavos: 0,
            cbs_centavos: 0,
            ibs_uf_centavos: 0,
            ibs_mun_centavos: 0,
            is_centavos: 0,
            c_class_trib: None,
            cst_ibs_cbs: None,
            csosn: None,
            cst_icms: None,
            das_centavos: 0,
        }
    }
}

/// `bps` de `v` com meio centavo somado e divisão truncada (cálculo legado).
pub open spec fn bps_legado(v: int, bps: int) -> int {
    div_trunc(v * bps + 5_000, 10_000)
}

/// Rateio `num/den` de um montante: meio divisor somado e divisão truncada.
pub open spec fn ratear_valor(v: int, num: int, den: int) -> int {
    div_trunc(v * num + den / 2, den)
}

/// Tributos legados, IS e DAS: sempre custo do vendedor.
pub open spec fn custo_legado_e_seletivo(i: ImpostoItem) -> int {
    i.icms_centavos + i.iss_centavos + i.pis_centavos + i.cofins_centavos + i.is_centavos
        + i.das_centavos
}

/// Custo tributário efetivo do vendedor.
pub open spec fn custo_vendedor(i: ImpostoItem, ibs_cbs_informativo: bool) -> int {
    if ibs_cbs_informativo {
        custo_legado_e_seletivo(i)
    } else {
        custo_legado_e_seletivo(i) + i.cbs_centavos + i.ibs_uf_centavos + i.ibs_mun_centavos
    }
}

pub open spec fn cabe_i64(v: int) -> bool {
    i64::MIN <= v <= i64::MAX
}

/// Nenhuma soma parcial do custo do vendedor estoura `i64`.
pub open spec fn custo_sem_estouro(i: ImpostoItem, ibs_cbs_informativo: bool) -> bool {
    &&& cabe_i64(i.icms_centavos + i.iss_centavos)
    &&& cabe_i64(i.icms_centavos + i.iss_centavos + i.pis_centavos)
    &&& cabe_i64(i.icms_centavos + i.iss_centavos + i.pis_centavos + i.cofins_centavos)
    &&& cabe_i64(i.icms_centavos + i.iss_centavos + i.pis_centavos + i.cofins_centavos + i.is_centavos)
    &&& cabe_i64(custo_legado_e_seletivo(i))
    &&& !ibs_cbs_informativo ==> {
        &&& cabe_i64(custo_legado_e_seletivo(i) + i.cbs_centavos)
        &&& cabe_i64(custo_legado_e_seletivo(i) + i.cbs_centavos + i.ibs_uf_centavos)
        &&& cabe_i64(custo_vendedor(i, false))
    }
}

fn ratear_um(v: i64, num: u32, den: u32) -> (r: i64)
    requires
        den > 0,
    ensures
        r == ratear_valor(v as int, num as int, den as int) as i64,
{
    let n: i128 = num as i128;
    let d: i128 = den as i128;
    proof {
        assert(-0x8000_0000_0000_0000 * 0x1_0000_0000 <= v * num <= 0x8000_0000_0000_0000 * 0x1_0000_0000) by (nonlinear_arith)
            requires
                i64::MIN <= v <= i64::MAX,
                0 <= num <= u32::MAX;
    }
    let x: i128 = v as i128 * n + d / 2;
    (x / d) as i64
}

fn bps_legado_exec(v: i64, bps: i64) -> (r: i64)
    requires
        0 <= bps <= 10_000,
    ensures
        r == bps_legado(v as int, bps as int) as i64,
{
    proof {
        assert(-0x8000_0000_0000_0000 * 10_000 <= v * bps <= 0x8000_0000_0000_0000 * 10_000) by (nonlinear_arith)
            requires
                i64::MIN <= v <= i64::MAX,
                0 <= bps <= 10_000;
    }
    ((v as i128 * bps as i128 + 5_000) / 10_000) as i64
}

impl ImpostoItem {
    /// Cálculo legado (SP Simples Nacional: ICMS 18%, PIS 0,65%, COFINS 3%)
    /// em aritmética inteira, meio centavo arredondado para cima.
    pub fn calcular_legado_simples(valor_total_centavos: i64) -> (i: ImpostoItem)
        ensures
            i.icms_centavos == bps_legado(valor_total_centavos as int, 1800) as i64,
            i.pis_centavos == bps_legado(valor_total_centavos as int, 65) as i64,
            i.cofins_centavos == bps_legado(valor_total_centavos as int, 300) as i64,
            i.iss_centavos == 0,
            i.cbs_centavos == 0,
            i.ibs_uf_centavos == 0,
            i.ibs_mun_centavos == 0,
            i.is_centavos == 0,
            i.das_centavos == 0,
            i.c_class_trib is None,
            i.cst_ibs_cbs is None,
            i.csosn is None,
            i.cst_icms is None,
    {
        let mut i = ImpostoItem::default();
        i.icms_centavos = bps_legado_exec(valor_total_centavos, 1800);
        i.pis_centavos = bps_legado_exec(valor_total_centavos, 65);
        i.cofins_centavos = bps_legado_exec(valor_total_centavos, 300);
        i
    }

    /// Rateia todos os tributos na razão `num/den` (NF-e de devolução espelha
    /// a nota original na razão da quantidade devolvida). `den == 0` → tudo
    /// zero. As classificações são mantidas.
    pub fn ratear(&self, num: u32, den: u32) -> (r: ImpostoItem)
        ensures
            den == 0 ==> imposto_vazio(r),
            den > 0 ==> {
                &&& r.icms_centavos == ratear_valor(self.icms_centavos as int, num as int, den as int) as i64
                &&& r.pis_centavos == ratear_valor(self.pis_centavos as int, num as int, den as int) as i64
                &&& r.cofins_centavos == ratear_valor(self.cofins_centavos as int, num as int, den as int) as i64
                &&& r.iss_centavos == ratear_valor(self.iss_centavos as int, num as int, den as int) as i64
                &&& r.cbs_centavos == ratear_valor(self.cbs_centavos as int, num as int, den as int) as i64
                &&& r.ibs_uf_centavos == ratear_valor(self.ibs_uf_centavos as int, num as int, den as int) as i64
                &&& r.ibs_mun_centavos == ratear_valor(self.ibs_mun_centavos as int, num as int, den as int) as i64
                &&& r.is_centavos == ratear_valor(self.is_centavos as int, num as int, den as int) as i64
                &&& r.das_centavos == ratear_valor(self.das_centavos as int, num as int, den as int) as i64
                &&& r.c_class_trib == self.c_class_trib
                &&& r.cst_ibs_cbs == self.cst_ibs_cbs
                &&& r.csosn == self.csosn
                &&& r.cst_icms == self.cst_icms
            },
    {
        if den == 0 {
            return ImpostoItem::default();
        }
        ImpostoItem {
            icms_centavos: ratear_um(self.icms_centavos, num, den),
            pis_centavos: ratear_um(self.pis_centavos, num, den),
            cofins_centavos: ratear_um(self.cofins_centavos, num, den),
            iss_centavos: ratear_um(self.iss_centavos, num, den),
            cbs_centavos: ratear_um(self.cbs_centavos, num, den),
            ibs_uf_centavos: ratear_um(self.ibs_uf_centavos, num, den),
            ibs_mun_centavos: ratear_um(self.ibs_mun_centavos, num, den),
            is_centavos: ratear_um(self.is_centavos, num, den),
            das_centavos: ratear_um(self.das_centavos, num, den),
            c_class_trib: clonar_opcional(&self.c_class_trib),
            cst_ibs_cbs: clonar_opcional(&self.cst_ibs_cbs),
            csosn: clonar_opcional(&self.csosn),
            cst_icms: clonar_opcional(&self.cst_icms),
        }
    }

    /// Soma dos tributos que são custo efetivo do vendedor: legados, IS e DAS
    /// sempre; IBS/CBS só quando NÃO são informativos.
    pub fn custo_vendedor_centavos(&self, ibs_cbs_informativo: bool) -> (c: i64)
        requires
            custo_sem_estouro(*self, ibs_cbs_informativo),
        ensures
            c == custo_vendedor(*self, ibs_cbs_informativo),
    {
        let legado_e_seletivo = self.icms_centavos + self.iss_centavos + self.pis_centavos
            + self.cofins_centavos + self.is_centavos + self.das_centavos;
        if ibs_cbs_informativo {
            legado_e_seletivo
        } else {
            legado_e_seletivo + self.cbs_centavos + self.ibs_uf_centavos + self.ibs_mun_centavos
        }
    }
}

/// Cópia de um texto opcional.
pub fn clonar_opcional(o: &Option<String>) -> (c: Option<String>)
    ensures
        c == *o,
{
    match o {
        Some(s) => Some(s.clone()),
        None => None,
    }
}

/// Ratear na razão 1 (`num == den`) devolve o próprio montante quando ele não
/// é negativo: a devolução total espelha exatamente a nota original.
pub proof fn lema_ratear_integral(v: int, n: int)
    requires
        v >= 0,
        n > 0,
    ensures
        ratear_valor(v, n, n) == v,
{
    assert(v * n + n / 2 >= 0) by (nonlinear_arith)
        requires v >= 0, n > 0;
    vstd::arithmetic::div_mod::lemma_div_multiples_vanish_fancy(v, n / 2, n);
    assert(n * v == v * n) by (nonlinear_arith);
}

/// O cálculo legado coincide com a alíquota aplicada pelo motor para valores
/// não negativos (mesmo arredondamento half-up).
pub proof fn lema_legado_igual_aliquota(v: int, bps: int)
    requires
        v >= 0,
        bps >= 0,
    ensures
        bps_legado(v, bps) == crate::fiscal::tributacao::aliquota::aplicar_bps(bps, v),
{
    assert(v * bps >= 0) by (nonlinear_arith)
        requires v >= 0, bps >= 0;
}

} // verus!
