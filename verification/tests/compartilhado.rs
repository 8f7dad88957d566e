use finledger::compartilhado::ids::{id_como_texto, ler_id};
use finledger::compartilhado::texto::aparar;
use finledger::erro::{AppError, DomainError};

#[test]
fn id_lido_e_escrito() {
    let t = "67e55044-10b1-426f-9247-bb680e5fe0c8";
    let id = ler_id(t).expect("uuid");
    assert_eq!(id, 0x67e55044_10b1_426f_9247_bb680e5fe0c8u128);
    assert_eq!(id_como_texto(id), t);
    assert!(ler_id("não é uuid").is_none());
}

#[test]
fn aparar_remove_espacos_das_pontas() {
    assert_eq!(aparar("  a b \t\n"), "a b");
    assert_eq!(aparar("   "), "");
}

#[test]
fn erro_de_aplicacao() {
    assert!(matches!(AppError::infra("x".into()), AppError::Infrastructure(m) if m == "x"));
    let e = AppError::de_dominio(DomainError::NotFound("n".into()));
    assert!(matches!(e, AppError::Domain(DomainError::NotFound(_))));
}
