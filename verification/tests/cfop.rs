use finledger::fiscal::cfop::{iguais_ignorando_caixa, resolver_cfop, TipoOperacao};
use finledger::fiscal::value_objects::ModeloNF;

#[test]
fn venda_intra_e_interestadual() {
    assert_eq!(
        resolver_cfop(TipoOperacao::Venda, "SP", Some("SP"), &ModeloNF::NFe, false),
        "5102"
    );
    assert_eq!(
        resolver_cfop(TipoOperacao::Venda, "SP", Some("RJ"), &ModeloNF::NFe, false),
        "6102"
    );
}

#[test]
fn consumidor_final_sem_uf_e_interno() {
    assert_eq!(
        resolver_cfop(TipoOperacao::Venda, "SP", None, &ModeloNF::NFCe, false),
        "5102"
    );
}

#[test]
fn venda_com_st() {
    assert_eq!(
        resolver_cfop(TipoOperacao::Venda, "SP", Some("SP"), &ModeloNF::NFe, true),
        "5405"
    );
    assert_eq!(
        resolver_cfop(TipoOperacao::Venda, "SP", Some("MG"), &ModeloNF::NFe, true),
        "6404"
    );
}

#[test]
fn devolucao_intra_e_interestadual() {
    assert_eq!(
        resolver_cfop(TipoOperacao::Devolucao, "SP", Some("SP"), &ModeloNF::NFe, false),
        "1202"
    );
    assert_eq!(
        resolver_cfop(TipoOperacao::Devolucao, "SP", Some("PR"), &ModeloNF::NFe, false),
        "2202"
    );
}

#[test]
fn uf_do_destinatario_ignora_caixa() {
    assert_eq!(
        resolver_cfop(TipoOperacao::Venda, "SP", Some("sp"), &ModeloNF::NFe, false),
        "5102"
    );
    assert!(iguais_ignorando_caixa("TrUe", "true"));
    assert!(!iguais_ignorando_caixa("tru", "true"));
}
