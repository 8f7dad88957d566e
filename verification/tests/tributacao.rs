use finledger::compartilhado::tempo::Data;
use finledger::fiscal::tributacao::aliquota::{Aliquota, TributoTipo};
use finledger::fiscal::tributacao::classe_tributaria::{ClasseTributaria, ClasseTributariaInfo};
use finledger::fiscal::tributacao::fase_transicao::FaseTransicao;
use finledger::fiscal::tributacao::imposto::ImpostoItem;
use finledger::fiscal::tributacao::motor::{
    contexto_aliquota_efetiva, AliquotasItem, ContextoFiscal, MotorTributario,
};
use finledger::fiscal::tributacao::perfil_fiscal::{
    CodigoMunicipio, Crt, PerfilFiscal, RegimeTributario, Uf,
};

// ---------------------------------------------------------------- alíquota

#[test]
fn aplicar_arredonda_half_up() {
    let a = Aliquota::try_from(1800).expect("18%");
    assert_eq!(a.aplicar(10_000), 1_800);
    assert_eq!(Aliquota::try_from(65).expect("bps").aplicar(10_000), 65);
    assert_eq!(Aliquota::try_from(65).expect("bps").aplicar(100), 1);
    assert_eq!(Aliquota::try_from(40).expect("bps").aplicar(100), 0);
}

#[test]
fn aplicar_reduzida_arredonda_uma_unica_vez() {
    let cheia = Aliquota::try_from(1800).expect("18%");
    assert_eq!(cheia.aplicar_reduzida(10_000, 0), 1_800);
    assert_eq!(cheia.aplicar_reduzida(10_000, 6000), 720);
    assert_eq!(cheia.aplicar_reduzida(10_000, 10_000), 0);
    let fina = Aliquota::try_from(7).expect("bps");
    assert_eq!(fina.aplicar_reduzida(10_000, 5_000), 4);
}

#[test]
fn faixa_validada() {
    assert!(Aliquota::try_from(-1).is_err());
    assert!(Aliquota::try_from(20_001).is_err());
    assert!(Aliquota::try_from(0).is_ok());
}

#[test]
fn aplicar_base_zero_e_negativa() {
    let a = Aliquota::try_from(1800).expect("18%");
    assert_eq!(a.aplicar(0), 0);
    assert_eq!(a.aplicar(-10_000), -1_800);
    assert_eq!(Aliquota::try_from(65).expect("bps").aplicar(-100), -1);
}

#[test]
fn aplicar_reduzida_clampa_fora_da_faixa() {
    let cheia = Aliquota::try_from(1800).expect("18%");
    assert_eq!(cheia.aplicar_reduzida(10_000, 15_000), 0);
    assert_eq!(cheia.aplicar_reduzida(10_000, -5_000), 1_800);
}

#[test]
fn faixa_rejeitada_informa_o_valor() {
    match Aliquota::try_from(20_001) {
        Err(e) => assert_eq!(e.mensagem(), "Alíquota em bps fora da faixa 0..=20000: 20001"),
        Ok(_) => panic!("fora da faixa"),
    }
    match Aliquota::try_from(-7) {
        Err(e) => assert_eq!(e.mensagem(), "Alíquota em bps fora da faixa 0..=20000: -7"),
        Ok(_) => panic!("fora da faixa"),
    }
}

#[test]
fn nomes_dos_tributos() {
    assert_eq!(TributoTipo::IbsUf.as_str(), "ibs_uf");
    assert_eq!(TributoTipo::Is.as_str(), "is");
}

// ------------------------------------------------------- classe tributária

#[test]
fn classe_exige_6_digitos() {
    assert!(ClasseTributaria::try_from("000001".to_string()).is_ok());
    assert!(ClasseTributaria::try_from("123".to_string()).is_err());
    assert!(ClasseTributaria::try_from("1234567".to_string()).is_err());
}

#[test]
fn classe_padrao_e_integral() {
    let info = ClasseTributariaInfo::integral();
    assert_eq!(info.classe.as_str(), "000001");
    assert_eq!(info.reducao_bps, 0);
}

// ---------------------------------------------------------------- fases

fn d(ano: i32) -> Data {
    Data::from_ymd_opt(ano, 6, 15).expect("data válida")
}

#[test]
fn fases_por_ano() {
    assert_eq!(FaseTransicao::de_data(d(2025)), FaseTransicao::Legado);
    assert_eq!(FaseTransicao::de_data(d(2026)), FaseTransicao::Teste2026);
    assert_eq!(FaseTransicao::de_data(d(2027)), FaseTransicao::Cbs2027_2028);
    assert_eq!(FaseTransicao::de_data(d(2028)), FaseTransicao::Cbs2027_2028);
    assert_eq!(
        FaseTransicao::de_data(d(2029)),
        FaseTransicao::ReducaoIcmsIss { fator_legado_bps: 9000 }
    );
    assert_eq!(
        FaseTransicao::de_data(d(2032)),
        FaseTransicao::ReducaoIcmsIss { fator_legado_bps: 6000 }
    );
    assert_eq!(FaseTransicao::de_data(d(2033)), FaseTransicao::Plena2033);
    assert_eq!(FaseTransicao::de_data(d(2040)), FaseTransicao::Plena2033);
}

#[test]
fn fronteira_de_virada_de_ano() {
    let ultimo_dia_2026 = Data::from_ymd_opt(2026, 12, 31).expect("data");
    let primeiro_dia_2027 = Data::from_ymd_opt(2027, 1, 1).expect("data");
    assert_eq!(FaseTransicao::de_data(ultimo_dia_2026), FaseTransicao::Teste2026);
    assert_eq!(FaseTransicao::de_data(primeiro_dia_2027), FaseTransicao::Cbs2027_2028);
}

#[test]
fn flags_por_fase() {
    assert!(FaseTransicao::Legado.cobra_pis_cofins());
    assert!(!FaseTransicao::Legado.destaca_ibs_cbs());
    assert!(FaseTransicao::Teste2026.cobra_pis_cofins());
    assert!(FaseTransicao::Teste2026.destaca_ibs_cbs());
    assert!(!FaseTransicao::Cbs2027_2028.cobra_pis_cofins());
    assert!(FaseTransicao::Plena2033.destaca_ibs_cbs());
    assert!(!FaseTransicao::Plena2033.cobra_legado_estadual());
    assert_eq!(FaseTransicao::Plena2033.fator_legado_bps(), 0);
    assert_eq!(FaseTransicao::Teste2026.fator_legado_bps(), 10_000);
}

#[test]
fn data_inexistente_nao_e_construida() {
    assert!(Data::from_ymd_opt(2026, 2, 29).is_none());
    assert!(Data::from_ymd_opt(2028, 2, 29).is_some());
    assert!(Data::from_ymd_opt(2026, 13, 1).is_none());
}

// ---------------------------------------------------------- perfil fiscal

#[test]
fn uf_valida_normaliza_caixa() {
    let uf = Uf::try_from("sp".to_string()).expect("SP é válida");
    assert_eq!(uf.as_str(), "SP");
}

#[test]
fn uf_inexistente_rejeitada() {
    assert!(Uf::try_from("XX".to_string()).is_err());
}

#[test]
fn municipio_exige_7_digitos() {
    assert!(CodigoMunicipio::try_from("3550308".to_string()).is_ok());
    assert!(CodigoMunicipio::try_from("123".to_string()).is_err());
}

#[test]
fn crt_fora_da_faixa_rejeitado() {
    assert!(Crt::try_from(0).is_err());
    assert!(Crt::try_from(5).is_err());
    assert!(Crt::try_from(1).is_ok());
    assert!(Crt::try_from(4).is_ok());
}

#[test]
fn simples_sem_regime_regular_e_informativo() {
    let p = PerfilFiscal::padrao_legado();
    assert!(p.ibs_cbs_informativo());
}

#[test]
fn simples_com_regime_regular_nao_e_informativo() {
    let mut p = PerfilFiscal::padrao_legado();
    p.ibs_cbs_regime_regular = true;
    assert!(!p.ibs_cbs_informativo());
}

#[test]
fn lucro_real_nunca_e_informativo() {
    let mut p = PerfilFiscal::padrao_legado();
    p.regime = RegimeTributario::LucroReal;
    assert!(!p.ibs_cbs_informativo());
}

#[test]
fn regime_round_trip() {
    for r in [
        RegimeTributario::SimplesNacional,
        RegimeTributario::LucroPresumido,
        RegimeTributario::LucroReal,
    ] {
        assert_eq!(RegimeTributario::try_from(r.as_str()).expect("round trip"), r);
    }
}

// ------------------------------------------------------------------ motor

fn bps(v: i32) -> Option<Aliquota> {
    Some(Aliquota::try_from(v).expect("bps"))
}

fn aliquotas_para(ano: i32) -> AliquotasItem {
    match ano {
        ..=2025 => AliquotasItem {
            icms: bps(1800),
            pis: bps(65),
            cofins: bps(300),
            ..Default::default()
        },
        2026 => AliquotasItem {
            icms: bps(1800),
            pis: bps(65),
            cofins: bps(300),
            cbs: bps(90),
            ibs_uf: bps(5),
            ibs_mun: bps(5),
            ..Default::default()
        },
        2027..=2028 => AliquotasItem {
            icms: bps(1800),
            cbs: bps(880),
            ibs_uf: bps(5),
            ibs_mun: bps(5),
            ..Default::default()
        },
        _ => AliquotasItem {
            icms: bps(1800),
            cbs: bps(880),
            ibs_uf: bps(1400),
            ibs_mun: bps(350),
            ..Default::default()
        },
    }
}

fn ctx(ano: i32) -> ContextoFiscal {
    ContextoFiscal {
        fase: FaseTransicao::de_data(Data::from_ymd_opt(ano, 6, 15).expect("data")),
        perfil: PerfilFiscal::padrao_legado(),
    }
}

const BASE: i64 = 100_000;

#[test]
fn tabela_de_fases_classe_integral() {
    let classe = ClasseTributariaInfo::integral();
    let casos: &[(i32, i64, i64, i64, i64, i64, i64)] = &[
        (2025, 18_000, 650, 3_000, 0, 0, 0),
        (2026, 18_000, 650, 3_000, 900, 50, 50),
        (2027, 18_000, 0, 0, 8_800, 50, 50),
        (2028, 18_000, 0, 0, 8_800, 50, 50),
        (2029, 16_200, 0, 0, 8_800, 14_000, 3_500),
        (2030, 14_400, 0, 0, 8_800, 14_000, 3_500),
        (2031, 12_600, 0, 0, 8_800, 14_000, 3_500),
        (2032, 10_800, 0, 0, 8_800, 14_000, 3_500),
        (2033, 0, 0, 0, 8_800, 14_000, 3_500),
    ];
    for &(ano, icms, pis, cofins, cbs, ibs_uf, ibs_mun) in casos {
        let imposto = MotorTributario::calcular_item(&ctx(ano), &aliquotas_para(ano), &classe, BASE);
        assert_eq!(imposto.icms_centavos, icms, "icms {ano}");
        assert_eq!(imposto.pis_centavos, pis, "pis {ano}");
        assert_eq!(imposto.cofins_centavos, cofins, "cofins {ano}");
        assert_eq!(imposto.cbs_centavos, cbs, "cbs {ano}");
        assert_eq!(imposto.ibs_uf_centavos, ibs_uf, "ibs_uf {ano}");
        assert_eq!(imposto.ibs_mun_centavos, ibs_mun, "ibs_mun {ano}");
    }
}

#[test]
fn reducao_de_classe_aplica_so_em_ibs_cbs() {
    let classe = ClasseTributariaInfo {
        classe: ClasseTributaria::try_from("200003".to_string()).expect("classe"),
        cst_ibs_cbs: "200".into(),
        reducao_bps: 6000,
    };
    let imposto = MotorTributario::calcular_item(&ctx(2033), &aliquotas_para(2033), &classe, BASE);
    assert_eq!(imposto.cbs_centavos, 3_520);
    assert_eq!(imposto.ibs_uf_centavos, 5_600);
    assert_eq!(imposto.ibs_mun_centavos, 1_400);
}

#[test]
fn aliquota_zero_da_classe_zera_ibs_cbs() {
    let classe = ClasseTributariaInfo {
        classe: ClasseTributaria::try_from("410001".to_string()).expect("classe"),
        cst_ibs_cbs: "410".into(),
        reducao_bps: 10_000,
    };
    let imposto = MotorTributario::calcular_item(&ctx(2026), &aliquotas_para(2026), &classe, BASE);
    assert_eq!(imposto.cbs_centavos, 0);
    assert_eq!(imposto.ibs_uf_centavos, 0);
    assert_eq!(imposto.icms_centavos, 18_000);
}

#[test]
fn imposto_seletivo_so_a_partir_de_2027_e_sem_reducao_de_classe() {
    let classe = ClasseTributariaInfo {
        classe: ClasseTributaria::try_from("200003".to_string()).expect("classe"),
        cst_ibs_cbs: "200".into(),
        reducao_bps: 6000,
    };
    let mut aliquotas = aliquotas_para(2026);
    aliquotas.is_seletivo = bps(2500);
    let em_2026 = MotorTributario::calcular_item(&ctx(2026), &aliquotas, &classe, BASE);
    assert_eq!(em_2026.is_centavos, 0, "IS não existe no ano-teste");

    let mut aliquotas = aliquotas_para(2027);
    aliquotas.is_seletivo = bps(2500);
    let em_2027 = MotorTributario::calcular_item(&ctx(2027), &aliquotas, &classe, BASE);
    assert_eq!(em_2027.is_centavos, 25_000, "IS integral — redução de classe não se aplica");
}

#[test]
fn simples_regime_regular_nao_altera_montantes() {
    let classe = ClasseTributariaInfo::integral();
    let base = ctx(2026);
    let mut com_opcao = base.clone();
    com_opcao.perfil.ibs_cbs_regime_regular = true;

    let sem = MotorTributario::calcular_item(&base, &aliquotas_para(2026), &classe, BASE);
    let com = MotorTributario::calcular_item(&com_opcao, &aliquotas_para(2026), &classe, BASE);
    assert_eq!(sem.cbs_centavos, com.cbs_centavos);
    assert_eq!(sem.ibs_uf_centavos, com.ibs_uf_centavos);
    assert_eq!(sem.icms_centavos, com.icms_centavos);
    assert_eq!(sem.cbs_centavos, 900);
}

#[test]
fn base_zero_resulta_impostos_zero() {
    let imposto = MotorTributario::calcular_item(
        &ctx(2026),
        &aliquotas_para(2026),
        &ClasseTributariaInfo::integral(),
        0,
    );
    assert_eq!(imposto.icms_centavos, 0);
    assert_eq!(imposto.cbs_centavos, 0);
}

#[test]
fn tributo_sem_linha_vigente_resulta_zero() {
    let imposto = MotorTributario::calcular_item(
        &ctx(2026),
        &AliquotasItem::default(),
        &ClasseTributariaInfo::integral(),
        BASE,
    );
    assert_eq!(imposto.icms_centavos, 0);
    assert_eq!(imposto.cbs_centavos, 0);
}

#[test]
fn classificacao_registrada_no_imposto() {
    let imposto = MotorTributario::calcular_item(
        &ctx(2026),
        &aliquotas_para(2026),
        &ClasseTributariaInfo::integral(),
        BASE,
    );
    assert_eq!(imposto.c_class_trib.as_deref(), Some("000001"));
    assert_eq!(imposto.cst_ibs_cbs.as_deref(), Some("000"));
}

fn ctx_destaca(ano: i32) -> ContextoFiscal {
    let mut c = ctx(ano);
    c.perfil.ibs_cbs_regime_regular = true;
    c
}

#[test]
fn base_por_fora_fecha_exato_com_o_preco() {
    type CasoBaseForaFora = (&'static str, i32, i32, i32, (i64, i64, i64, i64, i64));
    let casos: &[CasoBaseForaFora] = &[
        ("2027 sem IS", 2027, 0, 0, (91_827, 0, 8_081, 46, 46)),
        ("2033 sem IS", 2033, 0, 0, (79_177, 0, 6_968, 11_084, 2_771)),
        ("2033 com IS", 2033, 2500, 0, (63_341, 15_836, 6_967, 11_085, 2_771)),
        ("2033 reduzido", 2033, 0, 6000, (90_481, 0, 3_185, 5_067, 1_267)),
    ];
    for &(nome, ano, is_bps, reducao_bps, (base, is_v, cbs, ibs_uf, ibs_mun)) in casos {
        let classe = ClasseTributariaInfo {
            reducao_bps,
            ..ClasseTributariaInfo::integral()
        };
        let mut aliquotas = aliquotas_para(ano);
        if is_bps > 0 {
            aliquotas.is_seletivo = bps(is_bps);
        }
        let imposto = MotorTributario::calcular_item(&ctx_destaca(ano), &aliquotas, &classe, BASE);
        assert_eq!(imposto.is_centavos, is_v, "IS {nome}");
        assert_eq!(imposto.cbs_centavos, cbs, "CBS {nome}");
        assert_eq!(imposto.ibs_uf_centavos, ibs_uf, "IBS UF {nome}");
        assert_eq!(imposto.ibs_mun_centavos, ibs_mun, "IBS mun {nome}");
        let soma = base
            + imposto.is_centavos
            + imposto.cbs_centavos
            + imposto.ibs_uf_centavos
            + imposto.ibs_mun_centavos;
        assert_eq!(soma, BASE, "base + tributos deve fechar no preço ({nome})");
    }
}

#[test]
fn base_por_fora_nao_afeta_o_icms() {
    let imposto = MotorTributario::calcular_item(
        &ctx_destaca(2027),
        &aliquotas_para(2027),
        &ClasseTributariaInfo::integral(),
        BASE,
    );
    assert_eq!(imposto.icms_centavos, 18_000, "ICMS sobre o preço bruto");
}

#[test]
fn perfil_informativo_nao_extrai_base_por_fora() {
    let imposto = MotorTributario::calcular_item(
        &ctx(2027),
        &aliquotas_para(2027),
        &ClasseTributariaInfo::integral(),
        BASE,
    );
    assert_eq!(imposto.cbs_centavos, 8_800, "CBS informativa sobre o preço");
    assert_eq!(imposto.ibs_uf_centavos, 50);
}

#[test]
fn simples_configurado_zera_legados_e_usa_das() {
    let mut ctx = ctx(2026);
    ctx.perfil.configurado = true;
    ctx.perfil.aliquota_das_bps = Some(Aliquota::try_from(700).expect("7%"));
    let imposto = MotorTributario::calcular_item(
        &ctx,
        &aliquotas_para(2026),
        &ClasseTributariaInfo::integral(),
        BASE,
    );
    assert_eq!(imposto.icms_centavos, 0, "Simples não destaca ICMS");
    assert_eq!(imposto.pis_centavos, 0);
    assert_eq!(imposto.cofins_centavos, 0);
    assert_eq!(imposto.cbs_centavos, 900, "CBS informativa de 2026 permanece");
    assert_eq!(imposto.csosn.as_deref(), Some("102"));
    assert_eq!(imposto.das_centavos, 7_000, "DAS 7% sobre a base");
    assert_eq!(
        imposto.custo_vendedor_centavos(true),
        7_000,
        "custo do vendedor = DAS (IBS/CBS informativos ficam fora)"
    );
}

#[test]
fn simples_configurado_sem_das_tem_custo_zero() {
    let mut ctx = ctx(2026);
    ctx.perfil.configurado = true;
    let imposto = MotorTributario::calcular_item(
        &ctx,
        &aliquotas_para(2026),
        &ClasseTributariaInfo::integral(),
        BASE,
    );
    assert_eq!(imposto.icms_centavos, 0);
    assert_eq!(imposto.das_centavos, 0);
    assert_eq!(imposto.custo_vendedor_centavos(true), 0);
}

#[test]
fn comportamento_legado_preservado_em_2025() {
    let imposto = MotorTributario::calcular_item(
        &ctx(2025),
        &aliquotas_para(2025),
        &ClasseTributariaInfo::integral(),
        12_345,
    );
    assert_eq!(imposto.icms_centavos, 2_222);
    assert_eq!(imposto.pis_centavos, 80);
    assert_eq!(imposto.cofins_centavos, 370);
    assert_eq!(imposto.cbs_centavos, 0);
}

#[test]
fn destacar_por_fora_sem_aliquota_devolve_zeros() {
    let t = MotorTributario::destacar_por_fora(
        &AliquotasItem::default(),
        &ClasseTributariaInfo::integral(),
        BASE,
    );
    assert_eq!(t, (0, 0, 0, 0));
}

#[test]
fn aliquota_efetiva_do_perfil_que_destaca() {
    // 2033, regime regular: IBS/CBS por fora sobre R$ 10.000,00 viram custo.
    let al = aliquotas_para(2033);
    let bps_efetivo =
        MotorTributario::aliquota_efetiva_bps(&ctx_destaca(2033), &al, &ClasseTributariaInfo::integral());
    let imposto =
        MotorTributario::calcular_item(&ctx_destaca(2033), &al, &ClasseTributariaInfo::integral(), 1_000_000);
    let custo = imposto.custo_vendedor_centavos(false);
    assert_eq!(bps_efetivo as i64, custo * 10_000 / 1_000_000);
    assert!(bps_efetivo > 0);
}

#[test]
fn aliquota_efetiva_do_simples_configurado_e_o_das() {
    let mut c = ctx(2026);
    c.perfil.configurado = true;
    c.perfil.aliquota_das_bps = Some(Aliquota::try_from(700).expect("7%"));
    let bps_efetivo =
        MotorTributario::aliquota_efetiva_bps(&c, &aliquotas_para(2026), &ClasseTributariaInfo::integral());
    assert_eq!(bps_efetivo, 700);
}

// ----------------------------------------------------------------- imposto

fn imposto_pleno() -> ImpostoItem {
    ImpostoItem {
        icms_centavos: 1_000,
        iss_centavos: 100,
        pis_centavos: 65,
        cofins_centavos: 300,
        cbs_centavos: 880,
        ibs_uf_centavos: 700,
        ibs_mun_centavos: 175,
        is_centavos: 250,
        ..ImpostoItem::default()
    }
}

#[test]
fn custo_vendedor_informativo_exclui_ibs_cbs() {
    let esperado = 1_000 + 100 + 65 + 300 + 250;
    assert_eq!(imposto_pleno().custo_vendedor_centavos(true), esperado);
}

#[test]
fn custo_vendedor_nao_informativo_inclui_ibs_cbs() {
    let esperado = 1_000 + 100 + 65 + 300 + 250 + 880 + 700 + 175;
    assert_eq!(imposto_pleno().custo_vendedor_centavos(false), esperado);
}

#[test]
fn ratear_metade_arredonda_meio_para_cima() {
    let r = imposto_pleno().ratear(1, 2);
    assert_eq!(r.icms_centavos, 500);
    assert_eq!(r.pis_centavos, 33);
    assert_eq!(r.ibs_mun_centavos, 88);
    let zero = imposto_pleno().ratear(1, 0);
    assert_eq!(zero.icms_centavos, 0);
}

#[test]
fn legado_simples_sobre_o_total() {
    let i = ImpostoItem::calcular_legado_simples(10_000);
    assert_eq!(i.icms_centavos, 1_800);
    assert_eq!(i.pis_centavos, 65);
    assert_eq!(i.cofins_centavos, 300);
}

fn aliquotas_ibs_cbs(cbs: i32, uf: i32, mun: i32, is: Option<i32>) -> AliquotasItem {
    AliquotasItem {
        cbs: Some(Aliquota::try_from(cbs).expect("bps")),
        ibs_uf: Some(Aliquota::try_from(uf).expect("bps")),
        ibs_mun: Some(Aliquota::try_from(mun).expect("bps")),
        is_seletivo: is.map(|v| Aliquota::try_from(v).expect("bps")),
        ..AliquotasItem::default()
    }
}

#[test]
fn destacar_por_fora_preco_minimo_fecha_no_maior_tributo_por_aliquota() {
    // 3 centavos: base 2, todos os tributos arredondam a zero; o centavo que
    // sobra vai para o IBS UF (maior alíquota efetiva), e base + tributos = 3.
    let t = MotorTributario::destacar_por_fora(
        &aliquotas_ibs_cbs(880, 1400, 350, None),
        &ClasseTributariaInfo::integral(),
        3,
    );
    assert_eq!(t, (0, 1, 0, 0));
}

#[test]
fn destacar_por_fora_aceita_qualquer_preco_i64() {
    let al = aliquotas_ibs_cbs(880, 1400, 350, Some(2_000));
    let classe = ClasseTributariaInfo::integral();
    let max = MotorTributario::destacar_por_fora(&al, &classe, i64::MAX);
    let min = MotorTributario::destacar_por_fora(&al, &classe, -i64::MAX);
    assert_eq!(min, (-max.0, -max.1, -max.2, -max.3));
    assert!(max.0 > 0 && max.1 > 0 && max.2 > 0 && max.3 > 0);
    let so_is = aliquotas_ibs_cbs(0, 0, 0, Some(20_000));
    let t = MotorTributario::destacar_por_fora(&so_is, &classe, i64::MAX);
    assert_eq!((t.0, t.1, t.2), (0, 0, 0));
    assert!(t.3 > 0);
    let _ = MotorTributario::destacar_por_fora(&al, &classe, i64::MIN);
}

#[test]
fn aliquota_efetiva_so_com_perfil_configurado() {
    let hoje = Data::from_ymd_opt(2027, 3, 10).expect("data");
    assert!(contexto_aliquota_efetiva(None, hoje).is_none());
    let ctx = contexto_aliquota_efetiva(Some(PerfilFiscal::padrao_legado()), hoje).expect("com perfil");
    assert_eq!(ctx.fase, FaseTransicao::Cbs2027_2028);
}
