use vstd::prelude::*;

verus! {

/// Erro de domínio: violação de validação de entrada, de regra de negócio ou
/// entidade inexistente. A mensagem é texto para o operador.
#[derive(Debug)]
pub enum DomainError {
    Validation(String),
    BusinessRule(String),
    NotFound(String),
}

pub type DomainResult<T> = Result<T, DomainError>;

impl DomainError {
    /// Mensagem humana do erro, qualquer que seja a variante.
    pub fn mensagem(&self) -> (m: &String)
        ensures
            m == (match self {
                DomainError::Validation(m) => m,
                DomainError::BusinessRule(m) => m,
                DomainError::NotFound(m) => m,
            }),
    {
        match self {
            DomainError::Validation(m) => m,
            DomainError::BusinessRule(m) => m,
            DomainError::NotFound(m) => m,
        }
    }
}

/// Erro da camada de aplicação: entidade ausente, entrada rejeitada, regra de
/// domínio violada, falha de infraestrutura, conflito de concorrência ou
/// acesso negado.
#[derive(Debug)]
pub enum AppError {
    NotFound,
    Validation(String),
    Domain(DomainError),
    Infrastructure(String),
    Conflict,
    Unauthorized,
    Forbidden,
}

impl AppError {
    /// Falha de infraestrutura com a descrição do erro de origem.
    pub fn infra(descricao: String) -> (e: AppError)
        ensures
            e == AppError::Infrastructure(descricao),
    {
        AppError::Infrastructure(descricao)
    }

    /// Erro de domínio levado à camada de aplicação.
    pub fn de_dominio(e: DomainError) -> (r: AppError)
        ensures
            r == AppError::Domain(e),
    {
        AppError::Domain(e)
    }
}

} // verus!
