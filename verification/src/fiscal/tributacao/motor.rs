use vstd::prelude::*;

use crate::fiscal::tributacao::aliquota::{
    aplicar_bps, aplicar_reduzida_bps, half_up, lema_produto_limitado, restante_bps, Aliquota, TETO_BPS,
};
use crate::fiscal::tributacao::classe_tributaria::ClasseTributariaInfo;
use crate::compartilhado::tempo::Data;
use crate::fiscal::tributacao::fase_transicao::{
    base_por_fora, fase_do_ano, cobra_legado, cobra_pis_cofins, destaca_ibs_cbs, fator_legado, FaseTransicao,
};
use crate::fiscal::tributacao::imposto::{custo_vendedor, div_trunc, ImpostoItem};
use crate::fiscal::tributacao::perfil_fiscal::{
    informativo, recolhe_por_dentro, PerfilFiscal, RegimeTributario,
};

verus! {

/// Alíquotas já resolvidas para um item, na data de emissão e para o perfil do
/// tenant. `None` = nenhuma linha vigente → tributo não incide (0).
#[derive(Debug, Clone, Copy, PartialEq)]
pub struct AliquotasItem {
    pub icms: Option<Aliquota>,
    pub iss: Option<Aliquota>,
    pub pis: Option<Aliquota>,
    pub cofins: Option<Aliquota>,
    pub cbs: Option<Aliquota>,
    pub ibs_uf: Option<Aliquota>,
    pub ibs_mun: Option<Aliquota>,
    pub is_seletivo: Option<Aliquota>,
}

impl Default for AliquotasItem {
    fn default() -> (a: AliquotasItem)
        ensures
            a.icms is None && a.iss is None && a.pis is None && a.cofins is None,
            a.cbs is None && a.ibs_uf is None && a.ibs_mun is None && a.is_seletivo is None,
    {
        AliquotasItem {
            icms: None,
            iss: None,
            pis: None,
            cofins: None,
            cbs: None,
            ibs_uf: None,
            ibs_mun: None,
            is_seletivo: None,
        }
    }
}

/// Contexto fixo de uma emissão: fase da transição e perfil fiscal do tenant.
#[derive(Debug, Clone)]
pub struct ContextoFiscal {
    pub fase: FaseTransicao,
    pub perfil: PerfilFiscal,
}

/// Serviço de domínio puro que aplica as regras da transição sobre alíquotas
/// já resolvidas.
pub struct MotorTributario;

/// Alíquota em bps (ausente = 0).
pub open spec fn bps_de(a: Option<Aliquota>) -> int {
    match a {
        Some(x) => x.valor(),
        None => 0,
    }
}

/// Redução de classe limitada a 0..=10000.
pub open spec fn reducao_limitada(r: int) -> int {
    if r < 0 { 0 } else if r > 10_000 { 10_000 } else { r }
}

/// Soma efetiva de CBS+IBS escalada por 10⁴: Σ bps × (10⁴ − redução).
pub open spec fn t_e4(al: AliquotasItem, red: int) -> int {
    bps_de(al.cbs) * (10_000 - red) + bps_de(al.ibs_uf) * (10_000 - red) + bps_de(al.ibs_mun) * (
    10_000 - red)
}

/// Base extraída "por dentro" do preço bruto:
/// base = preço × 10¹² / ((10⁴ + s) × (10⁸ + t×10⁴)), half-up.
pub open spec fn base_por_dentro(al: AliquotasItem, reducao_bps: int, preco: int) -> int {
    let red = reducao_limitada(reducao_bps);
    let s = bps_de(al.is_seletivo);
    half_up(preco * 1_000_000_000_000, (10_000 + s) * (100_000_000 + t_e4(al, red)))
}

/// Índice (0..=3) do maior dos quatro valores; em empate, o último.
pub open spec fn indice_maior(a: int, b: int, c: int, d: int) -> int {
    let i1 = if b >= a { 1int } else { 0int };
    let m1 = if b >= a { b } else { a };
    let i2 = if c >= m1 { 2int } else { i1 };
    let m2 = if c >= m1 { c } else { m1 };
    if d >= m2 { 3int } else { i2 }
}

/// Maior dos quatro valores.
pub open spec fn maior_de(a: int, b: int, c: int, d: int) -> int {
    let i = indice_maior(a, b, c, d);
    if i == 0 { a } else if i == 1 { b } else if i == 2 { c } else { d }
}

/// Tributos destacados por fora antes do fechamento: (cbs, ibs_uf, ibs_mun, is).
pub open spec fn tributos_por_fora_brutos(al: AliquotasItem, reducao_bps: int, preco: int) -> (
    int,
    int,
    int,
    int,
) {
    let red = reducao_limitada(reducao_bps);
    let base = base_por_dentro(al, reducao_bps, preco);
    let is_v = half_up(base * bps_de(al.is_seletivo), 10_000);
    let bic = base + is_v;
    (
        aplicar_reduzida_bps(bps_de(al.cbs), bic, red),
        aplicar_reduzida_bps(bps_de(al.ibs_uf), bic, red),
        aplicar_reduzida_bps(bps_de(al.ibs_mun), bic, red),
        is_v,
    )
}

/// Resíduo de arredondamento: preço − base − Σ tributos brutos.
pub open spec fn residuo_por_fora(al: AliquotasItem, reducao_bps: int, preco: int) -> int {
    let t = tributos_por_fora_brutos(al, reducao_bps, preco);
    preco - base_por_dentro(al, reducao_bps, preco) - t.3 - t.0 - t.1 - t.2
}

/// Valor absoluto.
pub open spec fn modulo(x: int) -> int {
    if x < 0 { -x } else { x }
}

/// Tributo (0 = CBS, 1 = IBS UF, 2 = IBS municipal, 3 = IS) que recebe o
/// resíduo de arredondamento: o maior em módulo (o último, em empate); se
/// todos os tributos arredondados são zero, o de maior alíquota efetiva `w`.
pub open spec fn indice_residuo_de(
    t0: int,
    t1: int,
    t2: int,
    t3: int,
    w0: int,
    w1: int,
    w2: int,
    w3: int,
) -> int {
    let a0 = modulo(t0);
    let a1 = modulo(t1);
    let a2 = modulo(t2);
    let a3 = modulo(t3);
    if maior_de(a0, a1, a2, a3) > 0 {
        indice_maior(a0, a1, a2, a3)
    } else {
        indice_maior(w0, w1, w2, w3)
    }
}

/// O tributo que recebe o resíduo na extração por fora; as alíquotas
/// efetivas são comparadas escaladas por 10⁴ (bps × fração restante).
pub open spec fn indice_residuo(al: AliquotasItem, reducao_bps: int, preco: int) -> int {
    let red = reducao_limitada(reducao_bps);
    let t = tributos_por_fora_brutos(al, reducao_bps, preco);
    indice_residuo_de(
        t.0,
        t.1,
        t.2,
        t.3,
        bps_de(al.cbs) * (10_000 - red),
        bps_de(al.ibs_uf) * (10_000 - red),
        bps_de(al.ibs_mun) * (10_000 - red),
        bps_de(al.is_seletivo) * 10_000,
    )
}

/// Tributos por fora após o fechamento: o resíduo de arredondamento vai para
/// o tributo de `indice_residuo`, de modo que base + tributos = preço.
pub open spec fn tributos_por_fora(al: AliquotasItem, reducao_bps: int, preco: int) -> (
    int,
    int,
    int,
    int,
) {
    let t = tributos_por_fora_brutos(al, reducao_bps, preco);
    let r = residuo_por_fora(al, reducao_bps, preco);
    let i = indice_residuo(al, reducao_bps, preco);
    (
        t.0 + if i == 0 { r } else { 0 },
        t.1 + if i == 1 { r } else { 0 },
        t.2 + if i == 2 { r } else { 0 },
        t.3 + if i == 3 { r } else { 0 },
    )
}

/// Tributo legado (ICMS/ISS): zerado no Simples por dentro ou após 2032;
/// reduzido pelo fator da fase.
pub open spec fn legado_spec(ctx: ContextoFiscal, a: Option<Aliquota>, base: int) -> int {
    if recolhe_por_dentro(ctx.perfil) || !cobra_legado(ctx.fase) {
        0
    } else {
        aplicar_reduzida_bps(bps_de(a), base, 10_000 - fator_legado(ctx.fase)) as i64 as int
    }
}

/// PIS/COFINS: extintos a partir de 2027 e zerados no Simples por dentro.
pub open spec fn pis_cofins_spec(ctx: ContextoFiscal, a: Option<Aliquota>, base: int) -> int {
    if recolhe_por_dentro(ctx.perfil) || !cobra_pis_cofins(ctx.fase) {
        0
    } else {
        aplicar_bps(bps_de(a), base) as i64 as int
    }
}

/// A base de CBS/IBS/IS é extraída por dentro do preço neste contexto.
pub open spec fn usa_base_por_fora(ctx: ContextoFiscal) -> bool {
    base_por_fora(ctx.fase) && !informativo(ctx.perfil)
}

/// CBS/IBS calculados diretamente sobre o preço (até 2026 ou perfil informativo).
pub open spec fn ibs_cbs_direto(
    ctx: ContextoFiscal,
    a: Option<Aliquota>,
    classe: ClasseTributariaInfo,
    base: int,
) -> int {
    if !destaca_ibs_cbs(ctx.fase) {
        0
    } else {
        aplicar_reduzida_bps(bps_de(a), base, classe.reducao_bps as int) as i64 as int
    }
}

/// Imposto Seletivo calculado diretamente: só a partir de 2027, sem redução de classe.
pub open spec fn is_direto(ctx: ContextoFiscal, a: Option<Aliquota>, base: int) -> int {
    if ctx.fase is Legado || ctx.fase is Teste2026 {
        0
    } else {
        aplicar_bps(bps_de(a), base) as i64 as int
    }
}

/// Custo do DAS (Simples configurado por dentro): alíquota efetiva sobre a base.
pub open spec fn das_spec(ctx: ContextoFiscal, base: int) -> int {
    if recolhe_por_dentro(ctx.perfil) {
        match ctx.perfil.aliquota_das_bps {
            Some(a) => aplicar_bps(a.valor(), base) as i64 as int,
            None => 0,
        }
    } else {
        0
    }
}

/// Condições de entrada do motor: as frações restantes `10⁴ − redução` que o
/// cálculo direto faz em `i32` cabem nesse tipo.
pub open spec fn entrada_valida(ctx: ContextoFiscal, classe: ClasseTributariaInfo, base: int) -> bool {
    &&& (!usa_base_por_fora(ctx) && destaca_ibs_cbs(ctx.fase)) ==> 10_000 - classe.reducao_bps
        <= i32::MAX
    &&& (!recolhe_por_dentro(ctx.perfil) && cobra_legado(ctx.fase)) ==> 10_000 - fator_legado(
        ctx.fase) <= i32::MAX
}

/// O resultado do motor para um item.
pub open spec fn imposto_calculado(
    ctx: ContextoFiscal,
    al: AliquotasItem,
    classe: ClasseTributariaInfo,
    base: int,
    i: ImpostoItem,
) -> bool {
    let simples = ctx.perfil.regime == RegimeTributario::SimplesNacional;
    &&& i.icms_centavos == legado_spec(ctx, al.icms, base)
    &&& i.iss_centavos == legado_spec(ctx, al.iss, base)
    &&& i.pis_centavos == pis_cofins_spec(ctx, al.pis, base)
    &&& i.cofins_centavos == pis_cofins_spec(ctx, al.cofins, base)
    &&& if usa_base_por_fora(ctx) {
        let t = tributos_por_fora(al, classe.reducao_bps as int, base);
        &&& i.cbs_centavos == t.0
        &&& i.ibs_uf_centavos == t.1
        &&& i.ibs_mun_centavos == t.2
        &&& i.is_centavos == t.3
    } else {
        &&& i.cbs_centavos == ibs_cbs_direto(ctx, al.cbs, classe, base)
        &&& i.ibs_uf_centavos == ibs_cbs_direto(ctx, al.ibs_uf, classe, base)
        &&& i.ibs_mun_centavos == ibs_cbs_direto(ctx, al.ibs_mun, classe, base)
        &&& i.is_centavos == is_direto(ctx, al.is_seletivo, base)
    }
    &&& i.das_centavos == das_spec(ctx, base)
    &&& i.c_class_trib matches Some(c) && c@ == classe.classe@
    &&& i.cst_ibs_cbs matches Some(c) && c@ == classe.cst_ibs_cbs@
    &&& if simples {
        i.csosn matches Some(c) && c@ == "102"@ && i.cst_icms is None
    } else {
        i.cst_icms matches Some(c) && c@ == "00"@ && i.csosn is None
    }
}

/// `|n| <= lim × d` limita o arredondamento half-up a `lim`.
pub proof fn lema_half_up_limitado(n: int, d: int, lim: int)
    requires
        d > 0,
        lim >= 0,
        -(lim * d) <= n <= lim * d,
    ensures
        -lim <= half_up(n, d) <= lim,
{
    let abs = if n < 0 { -n } else { n };
    assert(abs <= lim * d);
    assert(abs + d / 2 < (lim + 1) * d) by (nonlinear_arith)
        requires abs <= lim * d, d > 0;
    assert((abs + d / 2) / d <= lim) by (nonlinear_arith)
        requires abs + d / 2 < (lim + 1) * d, d > 0, abs + d / 2 >= 0;
}

/// Um tributo por fora sobre `bic` (|bic| ≤ 3|p|) fica limitado a 6|p|.
proof fn lema_tributo_limitado(bps: int, bic: int, red: int, abs_p: int)
    requires
        0 <= bps <= 20_000,
        0 <= red <= 10_000,
        abs_p >= 0,
        -3 * abs_p <= bic <= 3 * abs_p,
    ensures
        -(6 * abs_p) <= aplicar_reduzida_bps(bps, bic, red) <= 6 * abs_p,
{
    lema_produto_limitado(bic, bps, 3 * abs_p, 20_000);
    lema_produto_limitado(bic * bps, 10_000 - red, 3 * abs_p * 20_000, 10_000);
    assert(3 * abs_p * 20_000 * 10_000 == 6 * abs_p * 100_000_000) by (nonlinear_arith);
    lema_half_up_limitado(bic * bps * (10_000 - red), 100_000_000, 6 * abs_p);
}

fn bps_opcional(a: &Option<Aliquota>) -> (v: i32)
    ensures
        v == bps_de(*a),
        0 <= v <= TETO_BPS,
{
    match a {
        Some(x) => x.bps(),
        None => 0,
    }
}

fn aplicar_opcional(a: &Option<Aliquota>, base: i64) -> (v: i64)
    ensures
        v == aplicar_bps(bps_de(*a), base as int) as i64,
{
    match a {
        Some(x) => x.aplicar(base),
        None => Aliquota::zero().aplicar(base),
    }
}

fn aplicar_reduzida_opcional(a: &Option<Aliquota>, base: i64, reducao: i32) -> (v: i64)
    requires
        10_000 - reducao <= i32::MAX,
    ensures
        v == aplicar_reduzida_bps(bps_de(*a), base as int, reducao as int) as i64,
{
    match a {
        Some(x) => x.aplicar_reduzida(base, reducao),
        None => Aliquota::zero().aplicar_reduzida(base, reducao),
    }
}

fn half_up_i128(numerador: i128, divisor: i128) -> (v: i128)
    requires
        divisor > 0,
        -0x1_0000_0000_0000_0000_0000_0000_0000 < numerador < 0x1_0000_0000_0000_0000_0000_0000_0000,
    ensures
        v == half_up(numerador as int, divisor as int),
{
    let abs: i128 = if numerador < 0 { -numerador } else { numerador };
    proof {
        assert(abs + divisor / 2 <= abs + divisor);
    }
    let q: i128 = (abs + divisor / 2) / divisor;
    if numerador < 0 { -q } else { q }
}

impl MotorTributario {
    /// Calcula os impostos de um item: tributos legados com o fator da fase,
    /// CBS/IBS/IS sobre o preço (até 2026 ou perfil informativo) ou por fora
    /// com base extraída do preço bruto (2027+), DAS do Simples configurado e
    /// as classificações (cClassTrib, CST IBS/CBS, CSOSN ou CST do ICMS).
    pub fn calcular_item(
        ctx: &ContextoFiscal,
        aliquotas: &AliquotasItem,
        classe: &ClasseTributariaInfo,
        base_centavos: i64,
    ) -> (i: ImpostoItem)
        requires
            entrada_valida(*ctx, *classe, base_centavos as int),
        ensures
            imposto_calculado(*ctx, *aliquotas, *classe, base_centavos as int, i),
            usa_base_por_fora(*ctx) ==> base_por_dentro(*aliquotas, classe.reducao_bps as int, base_centavos as int)
                + i.is_centavos + i.cbs_centavos + i.ibs_uf_centavos + i.ibs_mun_centavos == base_centavos,
    {
        let simples_por_dentro = ctx.perfil.simples_recolhe_por_dentro();
        let e_simples = ctx.perfil.regime == RegimeTributario::SimplesNacional;
        let fator_legado = ctx.fase.fator_legado_bps();
        let cobra_legado = ctx.fase.cobra_legado_estadual();
        let cobra_pis_cofins = ctx.fase.cobra_pis_cofins();

        let icms = if simples_por_dentro || !cobra_legado {
            0
        } else {
            aplicar_reduzida_opcional(&aliquotas.icms, base_centavos, 10_000 - fator_legado)
        };
        let iss = if simples_por_dentro || !cobra_legado {
            0
        } else {
            aplicar_reduzida_opcional(&aliquotas.iss, base_centavos, 10_000 - fator_legado)
        };
        let pis = if simples_por_dentro || !cobra_pis_cofins {
            0
        } else {
            aplicar_opcional(&aliquotas.pis, base_centavos)
        };
        let cofins = if simples_por_dentro || !cobra_pis_cofins {
            0
        } else {
            aplicar_opcional(&aliquotas.cofins, base_centavos)
        };

        let (cbs, ibs_uf, ibs_mun, is_seletivo) = if ctx.fase.base_ibs_cbs_por_fora()
            && !ctx.perfil.ibs_cbs_informativo() {
            Self::destacar_por_fora(aliquotas, classe, base_centavos)
        } else {
            let destaca = ctx.fase.destaca_ibs_cbs();
            let cbs = if !destaca {
                0
            } else {
                aplicar_reduzida_opcional(&aliquotas.cbs, base_centavos, classe.reducao_bps)
            };
            let ibs_uf = if !destaca {
                0
            } else {
                aplicar_reduzida_opcional(&aliquotas.ibs_uf, base_centavos, classe.reducao_bps)
            };
            let ibs_mun = if !destaca {
                0
            } else {
                aplicar_reduzida_opcional(&aliquotas.ibs_mun, base_centavos, classe.reducao_bps)
            };
            let is_seletivo = if matches!(ctx.fase, FaseTransicao::Legado | FaseTransicao::Teste2026) {
                0
            } else {
                aplicar_opcional(&aliquotas.is_seletivo, base_centavos)
            };
            (cbs, ibs_uf, ibs_mun, is_seletivo)
        };

        // Custo do DAS: sem alíquota configurada o custo fica 0 (a emissão não
        // falha).
        let das = if simples_por_dentro {
            match &ctx.perfil.aliquota_das_bps {
                Some(a) => a.aplicar(base_centavos),
                None => 0,
            }
        } else {
            0
        };

        ImpostoItem {
            icms_centavos: icms,
            iss_centavos: iss,
            pis_centavos: pis,
            cofins_centavos: cofins,
            cbs_centavos: cbs,
            ibs_uf_centavos: ibs_uf,
            ibs_mun_centavos: ibs_mun,
            is_centavos: is_seletivo,
            c_class_trib: Some(String::from_str(classe.classe.as_str())),
            cst_ibs_cbs: Some(classe.cst_ibs_cbs.clone()),
            csosn: if e_simples { Some(String::from_str("102")) } else { None },
            cst_icms: if !e_simples { Some(String::from_str("00")) } else { None },
            das_centavos: das,
        }
    }

    /// Extrai a base "por dentro" do preço bruto e destaca IS/CBS/IBS sobre ela
    /// (fases 2027+), de modo que base + IS(base) + CBS/IBS(base + IS) = preço
    /// exatamente: o resíduo de arredondamento vai para o maior tributo (ou,
    /// com todos arredondados a zero, para o de maior alíquota efetiva).
    /// Todas as contas são feitas em `i128`; qualquer preço em `i64` é aceito.
    #[verifier::rlimit(60)]
    #[verifier::spinoff_prover]
    pub fn destacar_por_fora(
        aliquotas: &AliquotasItem,
        classe: &ClasseTributariaInfo,
        preco_centavos: i64,
    ) -> (t: (i64, i64, i64, i64))
        ensures
            t.0 == tributos_por_fora(*aliquotas, classe.reducao_bps as int, preco_centavos as int).0,
            t.1 == tributos_por_fora(*aliquotas, classe.reducao_bps as int, preco_centavos as int).1,
            t.2 == tributos_por_fora(*aliquotas, classe.reducao_bps as int, preco_centavos as int).2,
            t.3 == tributos_por_fora(*aliquotas, classe.reducao_bps as int, preco_centavos as int).3,
            base_por_dentro(*aliquotas, classe.reducao_bps as int, preco_centavos as int) + t.3 + t.0
                + t.1 + t.2 == preco_centavos,
    {
        let ghost p = preco_centavos as int;
        let ghost abs_p = if p < 0 { -p } else { p };
        // A redução de classe NÃO se aplica ao IS (LC 214).
        let reducao: i32 = if classe.reducao_bps < 0 {
            0
        } else if classe.reducao_bps > 10_000 {
            10_000
        } else {
            classe.reducao_bps
        };
        proof {
            assert(reducao as int == reducao_limitada(classe.reducao_bps as int));
        }
        let (base, is_seletivo) = extrair_base(aliquotas, reducao, preco_centavos);
        let bic: i128 = base + is_seletivo;
        let resto: i128 = 10_000 - reducao as i128;
        let b_cbs: i128 = bps_opcional(&aliquotas.cbs) as i128;
        let b_uf: i128 = bps_opcional(&aliquotas.ibs_uf) as i128;
        let b_mun: i128 = bps_opcional(&aliquotas.ibs_mun) as i128;
        let b_is: i128 = bps_opcional(&aliquotas.is_seletivo) as i128;
        proof {
            lema_tributo_limitado(b_cbs as int, bic as int, reducao as int, abs_p);
            lema_tributo_limitado(b_uf as int, bic as int, reducao as int, abs_p);
            lema_tributo_limitado(b_mun as int, bic as int, reducao as int, abs_p);
            lema_produto_limitado(bic as int, b_cbs as int, 3 * abs_p, 20_000);
            lema_produto_limitado(bic * b_cbs, resto as int, 3 * abs_p * 20_000, 10_000);
            lema_produto_limitado(bic as int, b_uf as int, 3 * abs_p, 20_000);
            lema_produto_limitado(bic * b_uf, resto as int, 3 * abs_p * 20_000, 10_000);
            lema_produto_limitado(bic as int, b_mun as int, 3 * abs_p, 20_000);
            lema_produto_limitado(bic * b_mun, resto as int, 3 * abs_p * 20_000, 10_000);
            assert(3 * abs_p * 20_000 * 10_000 <= 3 * 0x8000_0000_0000_0000 * 20_000 * 10_000)
                by (nonlinear_arith)
                requires
                    0 <= abs_p <= 0x8000_0000_0000_0000,
            ;
            assert(restante_bps(reducao as int) == resto);
        }
        let cbs = half_up_i128(bic * b_cbs * resto, 100_000_000);
        let ibs_uf = half_up_i128(bic * b_uf * resto, 100_000_000);
        let ibs_mun = half_up_i128(bic * b_mun * resto, 100_000_000);
        let residuo: i128 = preco_centavos as i128 - base - is_seletivo - cbs - ibs_uf - ibs_mun;
        proof {
            lema_produto_limitado(b_cbs as int, resto as int, 20_000, 10_000);
            lema_produto_limitado(b_uf as int, resto as int, 20_000, 10_000);
            lema_produto_limitado(b_mun as int, resto as int, 20_000, 10_000);
        }
        let i = indice_do_residuo(
            cbs,
            ibs_uf,
            ibs_mun,
            is_seletivo,
            b_cbs * resto,
            b_uf * resto,
            b_mun * resto,
            b_is * 10_000,
        );
        let f0: i128 = if i == 0 { cbs + residuo } else { cbs };
        let f1: i128 = if i == 1 { ibs_uf + residuo } else { ibs_uf };
        let f2: i128 = if i == 2 { ibs_mun + residuo } else { ibs_mun };
        let f3: i128 = if i == 3 { is_seletivo + residuo } else { is_seletivo };
        proof {
            let f = tributos_por_fora(*aliquotas, classe.reducao_bps as int, p);
            assert(f.0 == f0 && f.1 == f1 && f.2 == f2 && f.3 == f3);
            lema_por_fora_cabe_em_i64(*aliquotas, classe.reducao_bps as int, p);
        }
        (f0 as i64, f1 as i64, f2 as i64, f3 as i64)
    }
}

/// Base extraída por dentro do preço e o IS sobre ela, em `i128`, limitados
/// pelo preço.
fn extrair_base(aliquotas: &AliquotasItem, reducao: i32, preco_centavos: i64) -> (r: (i128, i128))
    requires
        0 <= reducao <= 10_000,
    ensures
        r.0 == base_por_dentro(*aliquotas, reducao as int, preco_centavos as int),
        r.1 == half_up(r.0 * bps_de(aliquotas.is_seletivo), 10_000),
        -modulo(preco_centavos as int) <= r.0 <= modulo(preco_centavos as int),
        -2 * modulo(preco_centavos as int) <= r.1 <= 2 * modulo(preco_centavos as int),
{
    let ghost p = preco_centavos as int;
    let ghost abs_p = modulo(p);
    let s: i128 = bps_opcional(&aliquotas.is_seletivo) as i128;
    let b_cbs: i128 = bps_opcional(&aliquotas.cbs) as i128;
    let b_uf: i128 = bps_opcional(&aliquotas.ibs_uf) as i128;
    let b_mun: i128 = bps_opcional(&aliquotas.ibs_mun) as i128;
    let resto: i128 = 10_000 - reducao as i128;
    proof {
        lema_produto_limitado(b_cbs as int, resto as int, 20_000, 10_000);
        lema_produto_limitado(b_uf as int, resto as int, 20_000, 10_000);
        lema_produto_limitado(b_mun as int, resto as int, 20_000, 10_000);
        lema_produto_nao_negativo(b_cbs as int, resto as int);
        lema_produto_nao_negativo(b_uf as int, resto as int);
        lema_produto_nao_negativo(b_mun as int, resto as int);
    }
    let t: i128 = b_cbs * resto + b_uf * resto + b_mun * resto;
    proof {
        assert(reducao_limitada(reducao as int) == reducao as int);
        assert(t == t_e4(*aliquotas, reducao as int));
        lema_denominador(s as int, t as int);
        lema_produto_limitado(p, 1_000_000_000_000, abs_p, 1_000_000_000_000);
    }
    let denominador: i128 = (10_000 + s) * (100_000_000 + t);
    let base = half_up_i128(preco_centavos as i128 * 1_000_000_000_000, denominador);
    proof {
        lema_numerador(p, abs_p, denominador as int);
        lema_half_up_limitado(p * 1_000_000_000_000, denominador as int, abs_p);
        lema_produto_limitado(base as int, s as int, abs_p, 20_000);
        lema_half_up_limitado(base * s, 10_000, 2 * abs_p);
    }
    let is_seletivo: i128 = half_up_i128(base * s, 10_000);
    (base, is_seletivo)
}

proof fn lema_produto_nao_negativo(a: int, b: int)
    by (nonlinear_arith)
    requires
        a >= 0,
        b >= 0,
    ensures
        a * b >= 0,
{
}

proof fn lema_denominador(s: int, t: int)
    by (nonlinear_arith)
    requires
        0 <= s <= 20_000,
        0 <= t <= 600_000_000,
    ensures
        1_000_000_000_000 <= (10_000 + s) * (100_000_000 + t) <= 30_000 * 700_000_000,
{
}

proof fn lema_numerador(p: int, abs_p: int, den: int)
    by (nonlinear_arith)
    requires
        den >= 1_000_000_000_000,
        abs_p >= 0,
        -abs_p <= p <= abs_p,
    ensures
        -(abs_p * den) <= p * 1_000_000_000_000 <= abs_p * den,
{
}

/// Índice (0..=3) do maior dos quatro valores; em empate, o último.
fn maior_indice(a: i128, b: i128, c: i128, d: i128) -> (i: u8)
    ensures
        i as int == indice_maior(a as int, b as int, c as int, d as int),
{
    let mut i: u8 = 0;
    let mut m: i128 = a;
    if b >= m {
        i = 1;
        m = b;
    }
    if c >= m {
        i = 2;
        m = c;
    }
    if d >= m {
        i = 3;
    }
    i
}

fn modulo_i128(x: i128) -> (m: i128)
    requires
        x > i128::MIN,
    ensures
        m == modulo(x as int),
{
    if x < 0 { -x } else { x }
}

/// O tributo que recebe o resíduo (`indice_residuo_de`).
fn indice_do_residuo(
    t0: i128,
    t1: i128,
    t2: i128,
    t3: i128,
    w0: i128,
    w1: i128,
    w2: i128,
    w3: i128,
) -> (i: u8)
    requires
        t0 > i128::MIN,
        t1 > i128::MIN,
        t2 > i128::MIN,
        t3 > i128::MIN,
    ensures
        i as int == indice_residuo_de(
            t0 as int,
            t1 as int,
            t2 as int,
            t3 as int,
            w0 as int,
            w1 as int,
            w2 as int,
            w3 as int,
        ),
{
    let a0 = modulo_i128(t0);
    let a1 = modulo_i128(t1);
    let a2 = modulo_i128(t2);
    let a3 = modulo_i128(t3);
    let i = maior_indice(a0, a1, a2, a3);
    let m = if i == 0 {
        a0
    } else if i == 1 {
        a1
    } else if i == 2 {
        a2
    } else {
        a3
    };
    if m > 0 {
        i
    } else {
        maior_indice(w0, w1, w2, w3)
    }
}

/// Para `n ≥ 0` o half-up é o quociente de `n + d/2` por `d`: não negativo e
/// `d·h ≤ n + d/2 < d·h + d`.
proof fn lema_half_up_nao_negativo(n: int, d: int)
    requires
        n >= 0,
        d > 0,
    ensures
        half_up(n, d) >= 0,
        d * half_up(n, d) <= n + d / 2,
        n + d / 2 < d * half_up(n, d) + d,
{
    let x = n + d / 2;
    vstd::arithmetic::div_mod::lemma_fundamental_div_mod(x, d);
    vstd::arithmetic::div_mod::lemma_mod_pos_bound(x, d);
    vstd::arithmetic::div_mod::lemma_div_pos_is_pos(x, d);
}

/// O half-up é ímpar: arredondar `−n` dá o oposto de arredondar `n`.
proof fn lema_half_up_impar(n: int, d: int)
    requires
        d > 0,
    ensures
        half_up(-n, d) == -half_up(n, d),
{
    let m = -n;
    if n > 0 {
        assert(m < 0);
        assert(-m == n);
        assert(half_up(m, d) == -((n + d / 2) / d));
        assert(half_up(n, d) == (n + d / 2) / d);
    } else if n < 0 {
        assert(m > 0);
        assert(half_up(m, d) == (m + d / 2) / d);
        assert(half_up(n, d) == -((m + d / 2) / d));
    } else {
        assert(m == 0);
        assert(half_up(m, d) == half_up(n, d));
        vstd::arithmetic::div_mod::lemma_basic_div(d / 2, d);
        assert(half_up(n, d) == (d / 2) / d);
    }
}

/// A extração por fora é ímpar no preço: o preço oposto dá a base e os
/// tributos opostos (o resíduo vai para o mesmo tributo).
#[verifier::spinoff_prover]
pub proof fn lema_por_fora_impar(al: AliquotasItem, reducao_bps: int, p: int)
    requires
        0 <= bps_de(al.cbs) <= TETO_BPS,
        0 <= bps_de(al.ibs_uf) <= TETO_BPS,
        0 <= bps_de(al.ibs_mun) <= TETO_BPS,
        0 <= bps_de(al.is_seletivo) <= TETO_BPS,
    ensures
        base_por_dentro(al, reducao_bps, -p) == -base_por_dentro(al, reducao_bps, p),
        ({
            let f = tributos_por_fora(al, reducao_bps, p);
            let g = tributos_por_fora(al, reducao_bps, -p);
            g.0 == -f.0 && g.1 == -f.1 && g.2 == -f.2 && g.3 == -f.3
        }),
{
    let red = reducao_limitada(reducao_bps);
    let s = bps_de(al.is_seletivo);
    let den = (10_000 + s) * (100_000_000 + t_e4(al, red));
    lema_produto_nao_negativo(bps_de(al.cbs), 10_000 - red);
    lema_produto_nao_negativo(bps_de(al.ibs_uf), 10_000 - red);
    lema_produto_nao_negativo(bps_de(al.ibs_mun), 10_000 - red);
    lema_produto_limitado(bps_de(al.cbs), 10_000 - red, 20_000, 10_000);
    lema_produto_limitado(bps_de(al.ibs_uf), 10_000 - red, 20_000, 10_000);
    lema_produto_limitado(bps_de(al.ibs_mun), 10_000 - red, 20_000, 10_000);
    lema_denominador(s, t_e4(al, red));
    assert((-p) * 1_000_000_000_000 == -(p * 1_000_000_000_000));
    lema_half_up_impar(p * 1_000_000_000_000, den);
    let b = base_por_dentro(al, reducao_bps, p);
    assert((-b) * s == -(b * s)) by (nonlinear_arith);
    lema_half_up_impar(b * s, 10_000);
    let bic = b + half_up(b * s, 10_000);
    let r = restante_bps(red);
    assert((-bic) * bps_de(al.cbs) * r == -(bic * bps_de(al.cbs) * r)) by (nonlinear_arith);
    assert((-bic) * bps_de(al.ibs_uf) * r == -(bic * bps_de(al.ibs_uf) * r)) by (nonlinear_arith);
    assert((-bic) * bps_de(al.ibs_mun) * r == -(bic * bps_de(al.ibs_mun) * r)) by (nonlinear_arith);
    lema_half_up_impar(bic * bps_de(al.cbs) * r, 100_000_000);
    lema_half_up_impar(bic * bps_de(al.ibs_uf) * r, 100_000_000);
    lema_half_up_impar(bic * bps_de(al.ibs_mun) * r, 100_000_000);
    let t = tributos_por_fora_brutos(al, reducao_bps, p);
    let u = tributos_por_fora_brutos(al, reducao_bps, -p);
    assert(u.0 == -t.0 && u.1 == -t.1 && u.2 == -t.2 && u.3 == -t.3);
    assert(residuo_por_fora(al, reducao_bps, -p) == -residuo_por_fora(al, reducao_bps, p));
    assert(modulo(u.0) == modulo(t.0) && modulo(u.1) == modulo(t.1) && modulo(u.2) == modulo(t.2)
        && modulo(u.3) == modulo(t.3));
    assert(indice_residuo(al, reducao_bps, -p) == indice_residuo(al, reducao_bps, p));
}

/// Para um preço `0 ≤ p ≤ 2⁶³` os tributos por fora (após o fechamento)
/// ficam entre −15 e o maior de `p` e `(6p + 616)/7`.
#[verifier::spinoff_prover]
proof fn lema_por_fora_cabe_positivo(al: AliquotasItem, reducao_bps: int, p: int)
    requires
        0 <= bps_de(al.cbs) <= TETO_BPS,
        0 <= bps_de(al.ibs_uf) <= TETO_BPS,
        0 <= bps_de(al.ibs_mun) <= TETO_BPS,
        0 <= bps_de(al.is_seletivo) <= TETO_BPS,
        0 <= p <= 0x8000_0000_0000_0000,
    ensures
        ({
            let f = tributos_por_fora(al, reducao_bps, p);
            &&& -15 <= f.0 && (f.0 <= p || 7 * f.0 <= 6 * p + 616)
            &&& -15 <= f.1 && (f.1 <= p || 7 * f.1 <= 6 * p + 616)
            &&& -15 <= f.2 && (f.2 <= p || 7 * f.2 <= 6 * p + 616)
            &&& -15 <= f.3 && (f.3 <= p || 7 * f.3 <= 6 * p + 616)
        }),
{
    let red = reducao_limitada(reducao_bps);
    let s = bps_de(al.is_seletivo);
    let r = restante_bps(red);
    assert(r == 10_000 - red);
    let w0 = bps_de(al.cbs) * r;
    let w1 = bps_de(al.ibs_uf) * r;
    let w2 = bps_de(al.ibs_mun) * r;
    lema_produto_limitado(bps_de(al.cbs), r, 20_000, 10_000);
    lema_produto_limitado(bps_de(al.ibs_uf), r, 20_000, 10_000);
    lema_produto_limitado(bps_de(al.ibs_mun), r, 20_000, 10_000);
    lema_produto_nao_negativo(bps_de(al.cbs), r);
    lema_produto_nao_negativo(bps_de(al.ibs_uf), r);
    lema_produto_nao_negativo(bps_de(al.ibs_mun), r);
    let t = t_e4(al, red);
    assert(t == w0 + w1 + w2);
    let den = (10_000 + s) * (100_000_000 + t);
    lema_denominador(s, t);
    let n = p * 1_000_000_000_000;
    let base = base_por_dentro(al, reducao_bps, p);
    lema_half_up_nao_negativo(n, den);
    // D·base ≤ 10¹²·p + D/2 ⇒ (10⁴ + s)·base ≤ 10⁴·p + 105000.
    assert((10_000 + s) * base <= 10_000 * p + 105_000) by (nonlinear_arith)
        requires
            den == (10_000 + s) * (100_000_000 + t),
            den * base <= n + den / 2,
            n == p * 1_000_000_000_000,
            base >= 0,
            0 <= s <= 20_000,
            0 <= t <= 600_000_000,
            den <= 30_000 * 700_000_000,
    ;
    lema_produto_nao_negativo(base, s);
    let is_v = half_up(base * s, 10_000);
    lema_half_up_nao_negativo(base * s, 10_000);
    let bic = base + is_v;
    // (10⁸ + t)·bic ≤ 10⁸·p + 1.4·10⁹.
    assert((100_000_000 + t) * bic <= 100_000_000 * p + 1_400_000_000) by (nonlinear_arith)
        requires
            10_000 * is_v <= base * s + 5_000,
            bic == base + is_v,
            den == (10_000 + s) * (100_000_000 + t),
            den * base <= n + den / 2,
            n == p * 1_000_000_000_000,
            base >= 0,
            0 <= s <= 20_000,
            0 <= t <= 600_000_000,
            den <= 30_000 * 700_000_000,
    ;
    // IS ≤ (6p + 616)/7.
    assert(7 * is_v <= 6 * p + 616) by (nonlinear_arith)
        requires
            10_000 * is_v <= base * s + 5_000,
            (10_000 + s) * base <= 10_000 * p + 105_000,
            base >= 0,
            0 <= s <= 20_000,
    ;
    let t0 = aplicar_reduzida_bps(bps_de(al.cbs), bic, red);
    let t1 = aplicar_reduzida_bps(bps_de(al.ibs_uf), bic, red);
    let t2 = aplicar_reduzida_bps(bps_de(al.ibs_mun), bic, red);
    assert(bic * bps_de(al.cbs) * r == bic * w0) by (nonlinear_arith)
        requires
            w0 == bps_de(al.cbs) * r,
    ;
    assert(bic * bps_de(al.ibs_uf) * r == bic * w1) by (nonlinear_arith)
        requires
            w1 == bps_de(al.ibs_uf) * r,
    ;
    assert(bic * bps_de(al.ibs_mun) * r == bic * w2) by (nonlinear_arith)
        requires
            w2 == bps_de(al.ibs_mun) * r,
    ;
    lema_produto_nao_negativo(bic, w0);
    lema_produto_nao_negativo(bic, w1);
    lema_produto_nao_negativo(bic, w2);
    lema_half_up_nao_negativo(bic * w0, 100_000_000);
    lema_half_up_nao_negativo(bic * w1, 100_000_000);
    lema_half_up_nao_negativo(bic * w2, 100_000_000);
    lema_tributo_cabe(bic, w0, t, p, t0);
    lema_tributo_cabe(bic, w1, t, p, t1);
    lema_tributo_cabe(bic, w2, t, p, t2);
    // base + IS + Σ tributos ≤ p + 15.
    assert(100_000_000 * (t0 + t1 + t2) <= bic * t + 150_000_000) by (nonlinear_arith)
        requires
            100_000_000 * t0 <= bic * w0 + 50_000_000,
            100_000_000 * t1 <= bic * w1 + 50_000_000,
            100_000_000 * t2 <= bic * w2 + 50_000_000,
            t == w0 + w1 + w2,
    ;
    assert(bic + t0 + t1 + t2 <= p + 15) by (nonlinear_arith)
        requires
            100_000_000 * (t0 + t1 + t2) <= bic * t + 150_000_000,
            (100_000_000 + t) * bic <= 100_000_000 * p + 1_400_000_000,
    ;
}

/// Um tributo por fora sobre `bic` com alíquota efetiva `w ≤ t` fica até
/// `(6p + 616)/7`.
proof fn lema_tributo_cabe(bic: int, w: int, t: int, p: int, tj: int)
    requires
        bic >= 0,
        0 <= w <= t,
        0 <= t <= 600_000_000,
        (100_000_000 + t) * bic <= 100_000_000 * p + 1_400_000_000,
        100_000_000 * tj <= bic * w + 50_000_000,
    ensures
        7 * tj <= 6 * p + 616,
{
    assert(bic * w <= bic * t) by (nonlinear_arith)
        requires
            bic >= 0,
            w <= t,
    ;
    assert(7 * (bic * t) <= 6 * ((100_000_000 + t) * bic)) by (nonlinear_arith)
        requires
            bic >= 0,
            t <= 600_000_000,
    ;
}

/// Os tributos por fora sobre qualquer preço em `i64` cabem em `i64`.
proof fn lema_por_fora_cabe_em_i64(al: AliquotasItem, reducao_bps: int, p: int)
    requires
        0 <= bps_de(al.cbs) <= TETO_BPS,
        0 <= bps_de(al.ibs_uf) <= TETO_BPS,
        0 <= bps_de(al.ibs_mun) <= TETO_BPS,
        0 <= bps_de(al.is_seletivo) <= TETO_BPS,
        i64::MIN <= p <= i64::MAX,
    ensures
        ({
            let f = tributos_por_fora(al, reducao_bps, p);
            &&& i64::MIN <= f.0 <= i64::MAX
            &&& i64::MIN <= f.1 <= i64::MAX
            &&& i64::MIN <= f.2 <= i64::MAX
            &&& i64::MIN <= f.3 <= i64::MAX
        }),
{
    if p >= 0 {
        lema_por_fora_cabe_positivo(al, reducao_bps, p);
    } else {
        lema_por_fora_cabe_positivo(al, reducao_bps, -p);
        lema_por_fora_impar(al, reducao_bps, -p);
        assert(-(-p) == p);
    }
}

/// Alíquotas do snapshot e do DAS na faixa 0..=20000 bps.
pub open spec fn aliquotas_na_faixa(ctx: ContextoFiscal, al: AliquotasItem) -> bool {
    &&& 0 <= bps_de(al.icms) <= TETO_BPS
    &&& 0 <= bps_de(al.iss) <= TETO_BPS
    &&& 0 <= bps_de(al.pis) <= TETO_BPS
    &&& 0 <= bps_de(al.cofins) <= TETO_BPS
    &&& 0 <= bps_de(al.cbs) <= TETO_BPS
    &&& 0 <= bps_de(al.ibs_uf) <= TETO_BPS
    &&& 0 <= bps_de(al.ibs_mun) <= TETO_BPS
    &&& 0 <= bps_de(al.is_seletivo) <= TETO_BPS
    &&& 0 <= bps_de(ctx.perfil.aliquota_das_bps) <= TETO_BPS
}

/// Cada tributo do item, em módulo, até `lim`.
pub open spec fn imposto_limitado(i: ImpostoItem, lim: int) -> bool {
    &&& -lim <= i.icms_centavos <= lim
    &&& -lim <= i.iss_centavos <= lim
    &&& -lim <= i.pis_centavos <= lim
    &&& -lim <= i.cofins_centavos <= lim
    &&& -lim <= i.cbs_centavos <= lim
    &&& -lim <= i.ibs_uf_centavos <= lim
    &&& -lim <= i.ibs_mun_centavos <= lim
    &&& -lim <= i.is_centavos <= lim
    &&& -lim <= i.das_centavos <= lim
}

proof fn lema_reduzida_limitada(bps: int, base: int, reducao: int, b: int)
    requires
        0 <= bps <= 20_000,
        b >= 0,
        -b <= base <= b,
    ensures
        -(2 * b) <= aplicar_reduzida_bps(bps, base, reducao) <= 2 * b,
{
    let r = restante_bps(reducao);
    lema_produto_limitado(base, bps, b, 20_000);
    lema_produto_limitado(base * bps, r, b * 20_000, 10_000);
    assert(b * 20_000 * 10_000 == 2 * b * 100_000_000) by (nonlinear_arith);
    lema_half_up_limitado(base * bps * r, 100_000_000, 2 * b);
}

proof fn lema_aplicar_limitado(bps: int, base: int, b: int)
    requires
        0 <= bps <= 20_000,
        b >= 0,
        -b <= base <= b,
    ensures
        -(2 * b) <= aplicar_bps(bps, base) <= 2 * b,
{
    lema_produto_limitado(base, bps, b, 20_000);
    assert(b * 20_000 == 2 * b * 10_000) by (nonlinear_arith);
    lema_half_up_limitado(base * bps, 10_000, 2 * b);
}

/// Os tributos por fora sobre um preço `p` ficam, em módulo, até `28|p|`.
proof fn lema_por_fora_limitado(al: AliquotasItem, reducao_bps: int, p: int, b: int)
    requires
        0 <= bps_de(al.cbs) <= TETO_BPS,
        0 <= bps_de(al.ibs_uf) <= TETO_BPS,
        0 <= bps_de(al.ibs_mun) <= TETO_BPS,
        0 <= bps_de(al.is_seletivo) <= TETO_BPS,
        b >= 0,
        -b <= p <= b,
    ensures
        ({
            let t = tributos_por_fora(al, reducao_bps, p);
            &&& -(28 * b) <= t.0 <= 28 * b
            &&& -(28 * b) <= t.1 <= 28 * b
            &&& -(28 * b) <= t.2 <= 28 * b
            &&& -(28 * b) <= t.3 <= 28 * b
        }),
{
    let red = reducao_limitada(reducao_bps);
    let s = bps_de(al.is_seletivo);
    lema_produto_limitado(bps_de(al.cbs), 10_000 - red, 20_000, 10_000);
    lema_produto_limitado(bps_de(al.ibs_uf), 10_000 - red, 20_000, 10_000);
    lema_produto_limitado(bps_de(al.ibs_mun), 10_000 - red, 20_000, 10_000);
    lema_produto_nao_negativo(bps_de(al.cbs), 10_000 - red);
    lema_produto_nao_negativo(bps_de(al.ibs_uf), 10_000 - red);
    lema_produto_nao_negativo(bps_de(al.ibs_mun), 10_000 - red);
    let t = t_e4(al, red);
    lema_denominador(s, t);
    let den = (10_000 + s) * (100_000_000 + t);
    let abs_p = if p < 0 { -p } else { p };
    lema_numerador(p, abs_p, den);
    lema_half_up_limitado(p * 1_000_000_000_000, den, abs_p);
    let base = base_por_dentro(al, reducao_bps, p);
    lema_produto_limitado(base, s, abs_p, 20_000);
    assert(abs_p * 20_000 == 2 * abs_p * 10_000) by (nonlinear_arith);
    lema_half_up_limitado(base * s, 10_000, 2 * abs_p);
    let bic = base + half_up(base * s, 10_000);
    lema_tributo_limitado(bps_de(al.cbs), bic, red, abs_p);
    lema_tributo_limitado(bps_de(al.ibs_uf), bic, red, abs_p);
    lema_tributo_limitado(bps_de(al.ibs_mun), bic, red, abs_p);
}

/// Com alíquotas na faixa e `|base| <= b`, cada tributo do item calculado
/// pelo motor fica, em módulo, até `28b`.
pub proof fn lema_imposto_limitado(
    ctx: ContextoFiscal,
    al: AliquotasItem,
    classe: ClasseTributariaInfo,
    base: int,
    b: int,
    i: ImpostoItem,
)
    requires
        aliquotas_na_faixa(ctx, al),
        b >= 0,
        28 * b <= i64::MAX,
        -b <= base <= b,
        imposto_calculado(ctx, al, classe, base, i),
    ensures
        imposto_limitado(i, 28 * b),
{
    lema_reduzida_limitada(bps_de(al.icms), base, 10_000 - fator_legado(ctx.fase), b);
    lema_reduzida_limitada(bps_de(al.iss), base, 10_000 - fator_legado(ctx.fase), b);
    lema_aplicar_limitado(bps_de(al.pis), base, b);
    lema_aplicar_limitado(bps_de(al.cofins), base, b);
    lema_reduzida_limitada(bps_de(al.cbs), base, classe.reducao_bps as int, b);
    lema_reduzida_limitada(bps_de(al.ibs_uf), base, classe.reducao_bps as int, b);
    lema_reduzida_limitada(bps_de(al.ibs_mun), base, classe.reducao_bps as int, b);
    lema_aplicar_limitado(bps_de(al.is_seletivo), base, b);
    lema_aplicar_limitado(bps_de(ctx.perfil.aliquota_das_bps), base, b);
    if usa_base_por_fora(ctx) {
        lema_por_fora_limitado(al, classe.reducao_bps as int, base, b);
    }
}

/// Base nominal (R$ 10.000,00) da alíquota efetiva, para boa precisão em bps.
pub const BASE_ALIQUOTA_EFETIVA: i64 = 1_000_000;

/// Alíquota efetiva em bps de um custo sobre a base nominal (divisão truncada).
pub open spec fn bps_efetivo(custo: int) -> int {
    div_trunc(custo * 10_000, BASE_ALIQUOTA_EFETIVA as int)
}

fn confirmar_faixa(ctx: &ContextoFiscal, al: &AliquotasItem)
    ensures
        aliquotas_na_faixa(*ctx, *al),
{
    let _ = bps_opcional(&al.icms);
    let _ = bps_opcional(&al.iss);
    let _ = bps_opcional(&al.pis);
    let _ = bps_opcional(&al.cofins);
    let _ = bps_opcional(&al.cbs);
    let _ = bps_opcional(&al.ibs_uf);
    let _ = bps_opcional(&al.ibs_mun);
    let _ = bps_opcional(&al.is_seletivo);
    let _ = bps_opcional(&ctx.perfil.aliquota_das_bps);
}

impl MotorTributario {
    /// Decide se o motor calcula o item sem estouro: as frações restantes
    /// `10⁴ − redução` do cálculo direto cabem em `i32`.
    pub fn entrada_aceita(ctx: &ContextoFiscal, classe: &ClasseTributariaInfo, base_centavos: i64) -> (b:
        bool)
        ensures
            b == entrada_valida(*ctx, *classe, base_centavos as int),
    {
        let por_fora = ctx.fase.base_ibs_cbs_por_fora() && !ctx.perfil.ibs_cbs_informativo();
        if !por_fora && ctx.fase.destaca_ibs_cbs() && 10_000 - (classe.reducao_bps as i64) > 0x7fff_ffff {
            return false;
        }
        if !ctx.perfil.simples_recolhe_por_dentro() && ctx.fase.cobra_legado_estadual() && 10_000
            - (ctx.fase.fator_legado_bps() as i64) > 0x7fff_ffff {
            return false;
        }
        true
    }
}

impl MotorTributario {
    /// Alíquota efetiva (bps) que é custo do vendedor: o motor aplicado a uma
    /// base nominal alta, custo × 10000 / base. Reusa o mesmo cálculo da
    /// emissão — a precificação consome isto no lugar de um imposto manual.
    #[verifier::rlimit(60)]
    pub fn aliquota_efetiva_bps(
        ctx: &ContextoFiscal,
        aliquotas: &AliquotasItem,
        classe: &ClasseTributariaInfo,
    ) -> (bps: i32)
        requires
            entrada_valida(*ctx, *classe, BASE_ALIQUOTA_EFETIVA as int),
        ensures
            forall|i: ImpostoItem|
                #[trigger] imposto_calculado(*ctx, *aliquotas, *classe, BASE_ALIQUOTA_EFETIVA as int, i)
                    ==> bps == bps_efetivo(custo_vendedor(i, informativo(ctx.perfil))),
    {
        let imposto = MotorTributario::calcular_item(ctx, aliquotas, classe, BASE_ALIQUOTA_EFETIVA);
        confirmar_faixa(ctx, aliquotas);
        let informativo = ctx.perfil.ibs_cbs_informativo();
        proof {
            lema_imposto_limitado(
                *ctx,
                *aliquotas,
                *classe,
                BASE_ALIQUOTA_EFETIVA as int,
                BASE_ALIQUOTA_EFETIVA as int,
                imposto,
            );
        }
        let custo = imposto.custo_vendedor_centavos(informativo);
        proof {
            assert forall|i: ImpostoItem|
                #[trigger] imposto_calculado(*ctx, *aliquotas, *classe, BASE_ALIQUOTA_EFETIVA as int, i)
                    implies custo_vendedor(i, informativo) == custo_vendedor(imposto, informativo) by {}
        }
        (custo * 10_000 / BASE_ALIQUOTA_EFETIVA) as i32
    }
}

/// Contexto da alíquota efetiva na data `hoje`: só para tenant com perfil
/// fiscal configurado. Sem perfil não se assume imposto efetivo (a lista de
/// alíquotas efetivas sai vazia e a precificação usa o imposto manual).
pub fn contexto_aliquota_efetiva(perfil: Option<PerfilFiscal>, hoje: Data) -> (r: Option<ContextoFiscal>)
    ensures
        perfil is None ==> r is None,
        perfil matches Some(p) ==> (r matches Some(c) && c.perfil == p && c.fase == fase_do_ano(
            hoje.spec_ano(),
        )),
{
    match perfil {
        Some(p) => Some(ContextoFiscal { fase: FaseTransicao::de_data(hoje), perfil: p }),
        None => None,
    }
}

/// Os montantes de um item: todos os tributos destacados e o DAS.
pub open spec fn mesmos_montantes(a: ImpostoItem, b: ImpostoItem) -> bool {
    &&& a.icms_centavos == b.icms_centavos
    &&& a.iss_centavos == b.iss_centavos
    &&& a.pis_centavos == b.pis_centavos
    &&& a.cofins_centavos == b.cofins_centavos
    &&& a.cbs_centavos == b.cbs_centavos
    &&& a.ibs_uf_centavos == b.ibs_uf_centavos
    &&& a.ibs_mun_centavos == b.ibs_mun_centavos
    &&& a.is_centavos == b.is_centavos
    &&& a.das_centavos == b.das_centavos
}

/// A opção pelo regime regular de IBS/CBS muda o recolhimento, não os
/// montantes destacados: com o perfil não configurado para o DAS e numa fase
/// que calcula CBS/IBS sobre o preço, ligar ou desligar a opção dá o mesmo
/// imposto.
pub proof fn lema_regime_regular_nao_altera_montantes(
    ctx: ContextoFiscal,
    al: AliquotasItem,
    classe: ClasseTributariaInfo,
    base: int,
    i1: ImpostoItem,
    i2: ImpostoItem,
)
    requires
        !ctx.perfil.configurado,
        !base_por_fora(ctx.fase),
        imposto_calculado(ctx, al, classe, base, i1),
        imposto_calculado(
            ContextoFiscal {
                perfil: PerfilFiscal {
                    ibs_cbs_regime_regular: !ctx.perfil.ibs_cbs_regime_regular,
                    ..ctx.perfil
                },
                ..ctx
            },
            al,
            classe,
            base,
            i2,
        ),
    ensures
        mesmos_montantes(i1, i2),
{
}

/// Fechamento exato da extração por fora: base + IS + CBS + IBS = preço,
/// qualquer que seja o preço e as alíquotas.
pub proof fn lema_fechamento_por_fora(al: AliquotasItem, reducao_bps: int, preco: int)
    ensures
        ({
            let f = tributos_por_fora(al, reducao_bps, preco);
            base_por_dentro(al, reducao_bps, preco) + f.3 + f.0 + f.1 + f.2 == preco
        }),
{
}

/// Com alíquotas efetivas todas nulas a base extraída é o próprio preço.
proof fn lema_base_sem_aliquota_efetiva(al: AliquotasItem, reducao_bps: int, preco: int)
    requires
        bps_de(al.is_seletivo) == 0,
        t_e4(al, reducao_limitada(reducao_bps)) == 0,
    ensures
        base_por_dentro(al, reducao_bps, preco) == preco,
{
    let n = preco * 1_000_000_000_000;
    let abs = if n < 0 { -n } else { n };
    let ap = if preco < 0 { -preco } else { preco };
    assert(abs == ap * 1_000_000_000_000) by (nonlinear_arith)
        requires abs == if n < 0 { -n } else { n }, ap == if preco < 0 { -preco } else { preco }, n == preco * 1_000_000_000_000;
    vstd::arithmetic::div_mod::lemma_div_multiples_vanish_fancy(ap, 500_000_000_000, 1_000_000_000_000);
    assert(1_000_000_000_000 * ap == ap * 1_000_000_000_000) by (nonlinear_arith);
}

/// Na extração por fora, tributo sem alíquota vigente (`None`) não incide:
/// sai zero, e o resíduo de arredondamento nunca vai para ele.
pub proof fn lema_por_fora_sem_aliquota_nao_incide(al: AliquotasItem, reducao_bps: int, preco: int)
    requires
        0 <= bps_de(al.cbs) <= TETO_BPS,
        0 <= bps_de(al.ibs_uf) <= TETO_BPS,
        0 <= bps_de(al.ibs_mun) <= TETO_BPS,
        0 <= bps_de(al.is_seletivo) <= TETO_BPS,
    ensures
        ({
            let f = tributos_por_fora(al, reducao_bps, preco);
            &&& al.cbs is None ==> f.0 == 0
            &&& al.ibs_uf is None ==> f.1 == 0
            &&& al.ibs_mun is None ==> f.2 == 0
            &&& al.is_seletivo is None ==> f.3 == 0
        }),
{
    let red = reducao_limitada(reducao_bps);
    let r = restante_bps(red);
    assert(r == 10_000 - red);
    let base = base_por_dentro(al, reducao_bps, preco);
    let s = bps_de(al.is_seletivo);
    let is_v = half_up(base * s, 10_000);
    let bic = base + is_v;
    let t = tributos_por_fora_brutos(al, reducao_bps, preco);
    let w0 = bps_de(al.cbs) * (10_000 - red);
    let w1 = bps_de(al.ibs_uf) * (10_000 - red);
    let w2 = bps_de(al.ibs_mun) * (10_000 - red);
    let w3 = s * 10_000;
    lema_produto_nao_negativo(bps_de(al.cbs), 10_000 - red);
    lema_produto_nao_negativo(bps_de(al.ibs_uf), 10_000 - red);
    lema_produto_nao_negativo(bps_de(al.ibs_mun), 10_000 - red);
    assert(bic * bps_de(al.cbs) * r == bic * w0) by (nonlinear_arith)
        requires
            w0 == bps_de(al.cbs) * (10_000 - red),
            r == 10_000 - red,
    ;
    assert(bic * bps_de(al.ibs_uf) * r == bic * w1) by (nonlinear_arith)
        requires
            w1 == bps_de(al.ibs_uf) * (10_000 - red),
            r == 10_000 - red,
    ;
    assert(bic * bps_de(al.ibs_mun) * r == bic * w2) by (nonlinear_arith)
        requires
            w2 == bps_de(al.ibs_mun) * (10_000 - red),
            r == 10_000 - red,
    ;
    assert(bic * 0 == 0);
    assert(base * 0 == 0);
    if w0 == 0 && w1 == 0 && w2 == 0 && w3 == 0 {
        assert(t_e4(al, red) == 0);
        lema_base_sem_aliquota_efetiva(al, reducao_bps, preco);
        assert(residuo_por_fora(al, reducao_bps, preco) == 0);
    }
}

/// Sem nenhuma alíquota por fora a base é o próprio preço e nada é destacado.
pub proof fn lema_sem_aliquota_base_e_o_preco(al: AliquotasItem, reducao_bps: int, preco: int)
    requires
        bps_de(al.cbs) == 0,
        bps_de(al.ibs_uf) == 0,
        bps_de(al.ibs_mun) == 0,
        bps_de(al.is_seletivo) == 0,
    ensures
        base_por_dentro(al, reducao_bps, preco) == preco,
        tributos_por_fora(al, reducao_bps, preco) == (0int, 0int, 0int, 0int),
{
    let red = reducao_limitada(reducao_bps);
    assert(t_e4(al, red) == 0);
    let n = preco * 1_000_000_000_000;
    let abs = if n < 0 { -n } else { n };
    let ap = if preco < 0 { -preco } else { preco };
    assert(abs == ap * 1_000_000_000_000) by (nonlinear_arith)
        requires abs == if n < 0 { -n } else { n }, ap == if preco < 0 { -preco } else { preco }, n == preco * 1_000_000_000_000;
    vstd::arithmetic::div_mod::lemma_div_multiples_vanish_fancy(ap, 500_000_000_000, 1_000_000_000_000);
    assert(1_000_000_000_000 * ap == ap * 1_000_000_000_000) by (nonlinear_arith);
    assert(base_por_dentro(al, reducao_bps, preco) == preco);
    let base = preco;
    assert(base * 0 == 0);
    crate::fiscal::tributacao::aliquota::lema_reducao_nos_extremos(0, base, red);
    assert(base * 0 * (10_000 - red) == 0) by (nonlinear_arith);
}

/// Cada tributo calculado diretamente vem só da sua própria alíquota no
/// snapshot, e tributos da mesma família usam a mesma regra:
/// - ICMS, ISS, PIS e COFINS (e CBS/IBS/IS fora da extração por fora) de dois
///   snapshots que concordam naquela alíquota são iguais, quaisquer que sejam
///   as demais alíquotas;
/// - o ISS sobre a alíquota `a` é o ICMS sobre a mesma alíquota `a` (e o
///   COFINS é o PIS, e cada IBS é a CBS, sobre a mesma alíquota);
/// - tributo sem alíquota vigente (`None`) não incide: sai zero.
pub proof fn lema_tributo_vem_da_propria_aliquota(
    ctx: ContextoFiscal,
    al1: AliquotasItem,
    al2: AliquotasItem,
    classe: ClasseTributariaInfo,
    base: int,
    i1: ImpostoItem,
    i2: ImpostoItem,
)
    requires
        imposto_calculado(ctx, al1, classe, base, i1),
        imposto_calculado(ctx, al2, classe, base, i2),
    ensures
        al1.icms == al2.icms ==> i1.icms_centavos == i2.icms_centavos,
        al1.iss == al2.iss ==> i1.iss_centavos == i2.iss_centavos,
        al1.pis == al2.pis ==> i1.pis_centavos == i2.pis_centavos,
        al1.cofins == al2.cofins ==> i1.cofins_centavos == i2.cofins_centavos,
        al2.icms == al1.iss ==> i2.icms_centavos == i1.iss_centavos,
        al2.pis == al1.cofins ==> i2.pis_centavos == i1.cofins_centavos,
        !usa_base_por_fora(ctx) ==> {
            &&& al1.cbs == al2.cbs ==> i1.cbs_centavos == i2.cbs_centavos
            &&& al1.ibs_uf == al2.ibs_uf ==> i1.ibs_uf_centavos == i2.ibs_uf_centavos
            &&& al1.ibs_mun == al2.ibs_mun ==> i1.ibs_mun_centavos == i2.ibs_mun_centavos
            &&& al1.is_seletivo == al2.is_seletivo ==> i1.is_centavos == i2.is_centavos
            &&& al2.cbs == al1.ibs_uf ==> i2.cbs_centavos == i1.ibs_uf_centavos
            &&& al2.cbs == al1.ibs_mun ==> i2.cbs_centavos == i1.ibs_mun_centavos
        },
        al1.icms is None ==> i1.icms_centavos == 0,
        al1.iss is None ==> i1.iss_centavos == 0,
        al1.pis is None ==> i1.pis_centavos == 0,
        al1.cofins is None ==> i1.cofins_centavos == 0,
        !usa_base_por_fora(ctx) ==> {
            &&& al1.cbs is None ==> i1.cbs_centavos == 0
            &&& al1.ibs_uf is None ==> i1.ibs_uf_centavos == 0
            &&& al1.ibs_mun is None ==> i1.ibs_mun_centavos == 0
            &&& al1.is_seletivo is None ==> i1.is_centavos == 0
        },
{
    let r = restante_bps(10_000 - fator_legado(ctx.fase));
    assert(base * 0 * r == 0) by (nonlinear_arith);
    assert(base * 0 == 0);
    let rc = restante_bps(classe.reducao_bps as int);
    assert(base * 0 * rc == 0) by (nonlinear_arith);
}

/// Regras da transição e do regime sobre o item calculado:
/// - PIS/COFINS só existem até 2026; ICMS/ISS deixam de existir em 2033;
/// - CBS/IBS/IS não existem antes de 2026, e o IS só a partir de 2027;
/// - no Simples Nacional configurado sem regime regular de IBS/CBS (tudo
///   recolhido no DAS) ICMS, ISS, PIS e COFINS não são destacados;
/// - o DAS só existe nesse caso, vem da alíquota do DAS do perfil (sem ela é
///   zero) e não depende das alíquotas dos tributos.
pub proof fn lema_fases_e_regime(
    ctx: ContextoFiscal,
    al1: AliquotasItem,
    al2: AliquotasItem,
    classe: ClasseTributariaInfo,
    base: int,
    i1: ImpostoItem,
    i2: ImpostoItem,
)
    requires
        imposto_calculado(ctx, al1, classe, base, i1),
        imposto_calculado(ctx, al2, classe, base, i2),
    ensures
        !(ctx.fase is Legado || ctx.fase is Teste2026) ==> i1.pis_centavos == 0 && i1.cofins_centavos == 0,
        ctx.fase is Plena2033 ==> i1.icms_centavos == 0 && i1.iss_centavos == 0,
        ctx.fase is Legado ==> i1.cbs_centavos == 0 && i1.ibs_uf_centavos == 0 && i1.ibs_mun_centavos
            == 0 && i1.is_centavos == 0,
        ctx.fase is Teste2026 ==> i1.is_centavos == 0,
        ctx.perfil.configurado && ctx.perfil.regime == RegimeTributario::SimplesNacional
            && !ctx.perfil.ibs_cbs_regime_regular ==> i1.icms_centavos == 0 && i1.iss_centavos == 0
            && i1.pis_centavos == 0 && i1.cofins_centavos == 0,
        !(ctx.perfil.configurado && ctx.perfil.regime == RegimeTributario::SimplesNacional
            && !ctx.perfil.ibs_cbs_regime_regular) ==> i1.das_centavos == 0,
        ctx.perfil.aliquota_das_bps is None ==> i1.das_centavos == 0,
        i1.das_centavos == i2.das_centavos,
{
}

} // verus!
