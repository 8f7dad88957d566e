use finledger::erro::DomainError;
use finledger::fornecedores::fornecedor::{Fornecedor, FornecedorEvent};

fn fornecedor_valido() -> Fornecedor {
    Fornecedor::cadastrar(
        "Distribuidora Brasil Ltda".into(),
        "12.345.678/0001-95".into(),
        Some("(11) 4000-1234".into()),
        Some("contato@distribuidorabrasil.com".into()),
        28,
    )
    .expect("fornecedor válido")
}

#[test]
fn cadastrar_gera_evento_e_fornecedor_ativo() {
    let f = fornecedor_valido();
    assert!(f.ativo);
    assert_eq!(f.cnpj.as_str(), "12345678000195");
    assert_eq!(f.prazo_pagamento_dias, 28);
    assert!(matches!(f.pending_events()[0], FornecedorEvent::FornecedorCadastrado { .. }));
}

#[test]
fn cadastrar_cnpj_invalido_retorna_erro() {
    let r = Fornecedor::cadastrar("Fornecedor".into(), "123".into(), None, None, 0);
    assert!(matches!(r, Err(DomainError::Validation(_))));
}

#[test]
fn cadastrar_razao_social_vazia_retorna_erro() {
    let r = Fornecedor::cadastrar("  ".into(), "12345678000195".into(), None, None, 0);
    assert!(matches!(r, Err(DomainError::Validation(_))));
}

#[test]
fn atualizar_altera_dados_e_gera_evento() {
    let mut f = fornecedor_valido();
    f.atualizar("Nova Razão SA".into(), None, None, 45).expect("atualizar");
    assert_eq!(f.razao_social.to_string(), "Nova Razão SA");
    assert_eq!(f.prazo_pagamento_dias, 45);
    assert!(f.telefone.is_none());
    assert!(matches!(f.pending_events().last(), Some(FornecedorEvent::FornecedorAtualizado { .. })));
}

#[test]
fn atualizar_email_invalido_retorna_erro() {
    let mut f = fornecedor_valido();
    assert!(matches!(
        f.atualizar("Razão".into(), None, Some("invalido".into()), 10),
        Err(DomainError::Validation(_))
    ));
}

#[test]
fn desativar_e_reativar_alternam_estado() {
    let mut f = fornecedor_valido();
    f.desativar().expect("desativar");
    assert!(!f.ativo);
    f.reativar().expect("reativar");
    assert!(f.ativo);
}

#[test]
fn desativar_fornecedor_ja_inativo_retorna_erro() {
    let mut f = fornecedor_valido();
    f.desativar().expect("desativar");
    assert!(matches!(f.desativar(), Err(DomainError::BusinessRule(_))));
}

#[test]
fn reativar_fornecedor_ativo_retorna_erro() {
    let mut f = fornecedor_valido();
    assert!(matches!(f.reativar(), Err(DomainError::BusinessRule(_))));
}

#[test]
fn validacoes_em_ordem_com_mensagens() {
    let r = Fornecedor::cadastrar("  ".into(), "123".into(), None, None, 0);
    assert!(matches!(r, Err(DomainError::Validation(m)) if m == "Nome não pode ser vazio"));
    let r = Fornecedor::cadastrar("X".into(), "11.111.111/1111-11".into(), None, None, 0);
    assert!(matches!(r, Err(DomainError::Validation(m)) if m == "CNPJ inválido"));
    let r = Fornecedor::cadastrar("X".into(), "12345678000195".into(), Some("123".into()), None, 0);
    assert!(matches!(r, Err(DomainError::Validation(m)) if m == "Telefone deve ter DDD e 8 ou 9 dígitos"));
    let r = Fornecedor::cadastrar("X".into(), "12345678000195".into(), None, Some("a@b".into()), 0);
    assert!(matches!(r, Err(DomainError::Validation(m)) if m == "E-mail inválido"));
}

#[test]
fn dados_guardados_normalizados() {
    let f = fornecedor_valido();
    assert_eq!(f.telefone.as_ref().expect("tel").as_str(), "1140001234");
    assert_eq!(f.email.as_ref().expect("email").as_str(), "contato@distribuidorabrasil.com");
    let g = Fornecedor::cadastrar("  Acme  ".into(), "12345678000195".into(), None, None, 0).expect("ok");
    assert_eq!(g.razao_social.as_str(), "Acme");
}

#[test]
fn reativar_apos_desativar_restaura_o_cadastro() {
    let mut f = fornecedor_valido();
    let antes = (f.razao_social.to_string(), f.prazo_pagamento_dias, f.ativo);
    f.desativar().expect("desativar");
    f.reativar().expect("reativar");
    assert_eq!((f.razao_social.to_string(), f.prazo_pagamento_dias, f.ativo), antes);
    assert_eq!(f.pending_events().len(), 3);
}
