use vstd::prelude::*;

use crate::compartilhado::texto::{
    aparado, aparar, caracteres, eh_digito, filtrar_digitos, so_digitos, texto_de, valor_digito,
};
use crate::erro::{DomainError, DomainResult};

verus! {

/// Quantidade positiva de unidades.
#[derive(Debug, Clone, Copy, PartialEq, Eq, Structural)]
pub struct Quantidade(u32);

impl Quantidade {
    pub closed spec fn spec_get(self) -> int {
        self.0 as int
    }

    #[verifier::type_invariant]
    closed spec fn positiva(self) -> bool {
        self.0 > 0
    }

    pub fn get(&self) -> (v: u32)
        ensures
            v == self.spec_get(),
            v > 0,
    {
        proof {
            use_type_invariant(self);
        }
        self.0
    }

    /// Rejeita quantidade zero.
    pub fn de_valor(v: u32) -> (r: DomainResult<Quantidade>)
        ensures
            v > 0 ==> (r matches Ok(q) && q.spec_get() == v),
            v == 0 ==> (r matches Err(DomainError::Validation(m))
                && m@ == "Quantidade deve ser maior que zero"@),
    {
        if v == 0 {
            return Err(DomainError::Validation(String::from_str(
                "Quantidade deve ser maior que zero",
            )));
        }
        Ok(Quantidade(v))
    }
}

/// Código NCM: exatamente 8 algarismos (pontuação é descartada).
#[derive(Debug, Clone, PartialEq, Eq)]
pub struct Ncm(String);

impl View for Ncm {
    type V = Seq<char>;

    closed spec fn view(&self) -> Seq<char> {
        self.0@
    }
}

impl Ncm {
    pub fn as_str(&self) -> (s: &str)
        ensures
            s@ == self@,
    {
        self.0.as_str()
    }

    /// Texto do NCM, consumindo o valor.
    pub fn into_string(self) -> (s: String)
        ensures
            s@ == self@,
    {
        self.0
    }

    /// Mantém só os algarismos e exige exatamente 8.
    pub fn de_texto(s: String) -> (r: DomainResult<Ncm>)
        ensures
            so_digitos(s@).len() == 8 ==> (r matches Ok(n) && n@ == so_digitos(s@)),
            so_digitos(s@).len() != 8 ==> (r matches Err(DomainError::Validation(m))
                && m@ == "NCM deve ter exatamente 8 dígitos"@),
    {
        let d = filtrar_digitos(s.as_str());
        if d.len() != 8 {
            return Err(DomainError::Validation(String::from_str("NCM deve ter exatamente 8 dígitos")));
        }
        Ok(Ncm(texto_de(&d)))
    }
}

/// Peso do algarismo na posição `i` de um prefixo de `n` algarismos no
/// cálculo do dígito verificador do CNPJ (2..=9, da direita para a esquerda).
pub open spec fn peso_cnpj(n: int, i: int) -> int {
    (n - 1 - i) % 8 + 2
}

/// Soma ponderada dos `k` primeiros algarismos de um prefixo de `n` algarismos.
pub open spec fn soma_ponderada(d: Seq<char>, n: int, k: int) -> int
    decreases k,
{
    if k <= 0 {
        0
    } else {
        soma_ponderada(d, n, k - 1) + valor_digito(d[k - 1]) * peso_cnpj(n, k - 1)
    }
}

/// Dígito verificador (módulo 11) dos `n` primeiros algarismos.
pub open spec fn digito_verificador(d: Seq<char>, n: int) -> int {
    let r = soma_ponderada(d, n, n) % 11;
    if r < 2 { 0 } else { 11 - r }
}

/// CNPJ válido: 14 algarismos, não todos iguais, com os dois dígitos
/// verificadores corretos.
pub open spec fn cnpj_valido(d: Seq<char>) -> bool {
    &&& d.len() == 14
    &&& exists|i: int| 0 < i < 14 && #[trigger] d[i] != d[0]
    &&& valor_digito(d[12]) == digito_verificador(d, 12)
    &&& valor_digito(d[13]) == digito_verificador(d, 13)
}

fn soma_ponderada_exec(d: &Vec<char>, n: usize) -> (s: u64)
    requires
        n <= d@.len(),
        n <= 14,
        forall|i: int| 0 <= i < d@.len() ==> eh_digito(#[trigger] d@[i]),
    ensures
        s == soma_ponderada(d@, n as int, n as int),
{
    let mut s: u64 = 0;
    let mut k: usize = 0;
    while k < n
        invariant
            n <= d@.len(),
            n <= 14,
            forall|i: int| 0 <= i < d@.len() ==> eh_digito(#[trigger] d@[i]),
            0 <= k <= n,
            s == soma_ponderada(d@, n as int, k as int),
            s <= 81 * k,
        decreases n - k,
    {
        let c = d[k];
        let v: u64 = (c as u64) - 48;
        let peso: u64 = ((n - 1 - k) % 8 + 2) as u64;
        proof {
            assert(eh_digito(d@[k as int]));
            assert(v * peso <= 81) by (nonlinear_arith)
                requires v <= 9, peso <= 9;
        }
        s = s + v * peso;
        k = k + 1;
    }
    s
}

fn digito_verificador_exec(d: &Vec<char>, n: usize) -> (v: u64)
    requires
        n <= d@.len(),
        n <= 14,
        forall|i: int| 0 <= i < d@.len() ==> eh_digito(#[trigger] d@[i]),
    ensures
        v == digito_verificador(d@, n as int),
{
    let r = soma_ponderada_exec(d, n) % 11;
    if r < 2 { 0 } else { 11 - r }
}

/// Mensagem de rejeição de um CNPJ.
pub open spec fn msg_cnpj_invalido() -> Seq<char> {
    "CNPJ inválido"@
}

/// CNPJ guardado só com os 14 algarismos.
#[derive(Debug, Clone, PartialEq, Eq)]
pub struct Cnpj(String);

impl View for Cnpj {
    type V = Seq<char>;

    closed spec fn view(&self) -> Seq<char> {
        self.0@
    }
}

impl Cnpj {
    pub fn as_str(&self) -> (s: &str)
        ensures
            s@ == self@,
    {
        self.0.as_str()
    }

    /// Descarta a pontuação e valida os 14 algarismos e os verificadores.
    pub fn de_texto(s: String) -> (r: DomainResult<Cnpj>)
        ensures
            cnpj_valido(so_digitos(s@)) ==> (r matches Ok(c) && c@ == so_digitos(s@)),
            !cnpj_valido(so_digitos(s@)) ==> (r matches Err(DomainError::Validation(m))
                && m@ == msg_cnpj_invalido()),
    {
        let d = filtrar_digitos(s.as_str());
        proof {
            lema_so_digitos_sao_digitos(s@);
        }
        if d.len() != 14 {
            return Err(DomainError::Validation(String::from_str("CNPJ inválido")));
        }
        let mut todos_iguais = true;
        let mut i: usize = 1;
        while i < 14
            invariant
                d@.len() == 14,
                1 <= i <= 14,
                todos_iguais <==> (forall|k: int| 0 < k < i ==> #[trigger] d@[k] == d@[0]),
            decreases 14 - i,
        {
            if d[i] != d[0] {
                todos_iguais = false;
            }
            i = i + 1;
        }
        if todos_iguais {
            return Err(DomainError::Validation(String::from_str("CNPJ inválido")));
        }
        let dv1 = digito_verificador_exec(&d, 12);
        let dv2 = digito_verificador_exec(&d, 13);
        let c12: u64 = (d[12] as u64) - 48;
        let c13: u64 = (d[13] as u64) - 48;
        if c12 != dv1 || c13 != dv2 {
            return Err(DomainError::Validation(String::from_str("CNPJ inválido")));
        }
        Ok(Cnpj(texto_de(&d)))
    }
}

/// Os caracteres de `so_digitos(s)` são algarismos.
pub proof fn lema_so_digitos_sao_digitos(s: Seq<char>)
    ensures
        forall|i: int| 0 <= i < so_digitos(s).len() ==> eh_digito(#[trigger] so_digitos(s)[i]),
    decreases s.len(),
{
    if s.len() > 0 {
        lema_so_digitos_sao_digitos(s.drop_last());
        let p = so_digitos(s.drop_last());
        if eh_digito(s.last()) {
            assert forall|i: int| 0 <= i < so_digitos(s).len() implies eh_digito(#[trigger] so_digitos(s)[i]) by {
                if i < p.len() {
                    assert(so_digitos(s)[i] == p[i]);
                }
            }
        }
    }
}

/// Nome obrigatório: guardado sem espaços nas pontas, nunca vazio.
#[derive(Debug, Clone, PartialEq, Eq)]
pub struct NomeNaoVazio(String);

impl View for NomeNaoVazio {
    type V = Seq<char>;

    closed spec fn view(&self) -> Seq<char> {
        self.0@
    }
}

impl NomeNaoVazio {
    pub fn as_str(&self) -> (s: &str)
        ensures
            s@ == self@,
    {
        self.0.as_str()
    }

    /// Texto do nome.
    pub fn to_string(&self) -> (s: String)
        ensures
            s@ == self@,
    {
        self.0.clone()
    }

    /// Rejeita texto vazio ou só com espaços; guarda o texto aparado.
    pub fn de_texto(s: String) -> (r: DomainResult<NomeNaoVazio>)
        ensures
            aparado(s@).len() > 0 ==> (r matches Ok(n) && n@ == aparado(s@)),
            aparado(s@).len() == 0 ==> (r matches Err(DomainError::Validation(m))
                && m@ == "Nome não pode ser vazio"@),
    {
        let a = aparar(s.as_str());
        if a.as_str().unicode_len() == 0 {
            return Err(DomainError::Validation(String::from_str("Nome não pode ser vazio")));
        }
        Ok(NomeNaoVazio(a))
    }
}

/// Telefone com DDD: 10 ou 11 algarismos (pontuação descartada).
#[derive(Debug, Clone, PartialEq, Eq)]
pub struct Telefone(String);

impl View for Telefone {
    type V = Seq<char>;

    closed spec fn view(&self) -> Seq<char> {
        self.0@
    }
}

impl Telefone {
    pub fn as_str(&self) -> (s: &str)
        ensures
            s@ == self@,
    {
        self.0.as_str()
    }

    /// Texto do telefone (só algarismos).
    pub fn to_string(&self) -> (s: String)
        ensures
            s@ == self@,
    {
        self.0.clone()
    }

    pub fn de_texto(s: String) -> (r: DomainResult<Telefone>)
        ensures
            (so_digitos(s@).len() == 10 || so_digitos(s@).len() == 11) ==> (r matches Ok(t)
                && t@ == so_digitos(s@)),
            !(so_digitos(s@).len() == 10 || so_digitos(s@).len() == 11) ==> (r matches Err(
                DomainError::Validation(m),
            ) && m@ == "Telefone deve ter DDD e 8 ou 9 dígitos"@),
    {
        let d = filtrar_digitos(s.as_str());
        if d.len() != 10 && d.len() != 11 {
            return Err(DomainError::Validation(String::from_str("Telefone deve ter DDD e 8 ou 9 dígitos")));
        }
        Ok(Telefone(texto_de(&d)))
    }
}

/// E-mail: um único `@`, com texto antes e um domínio depois que contém `.`
/// fora das pontas; sem espaços internos.
pub open spec fn email_valido(s: Seq<char>) -> bool {
    exists|k: int|
        #![trigger s[k]]
        0 < k < s.len() && s[k] == '@' && (forall|i: int| 0 <= i < s.len() && i != k ==> s[i] != '@'
            && s[i] != ' ') && (exists|j: int| k + 1 < j < s.len() - 1 && s[j] == '.')
}

/// E-mail guardado sem espaços nas pontas.
#[derive(Debug, Clone, PartialEq, Eq)]
pub struct Email(String);

impl View for Email {
    type V = Seq<char>;

    closed spec fn view(&self) -> Seq<char> {
        self.0@
    }
}

fn posicao_arroba(cs: &Vec<char>) -> (r: Option<usize>)
    ensures
        r matches Some(k) ==> k < cs@.len() && cs@[k as int] == '@' && (forall|i: int|
            0 <= i < cs@.len() && i != k ==> cs@[i] != '@'),
        r is None ==> !(exists|k: int|
            0 <= k < cs@.len() && cs@[k] == '@' && (forall|i: int|
                0 <= i < cs@.len() && i != k ==> cs@[i] != '@')),
{
    let mut achado: Option<usize> = None;
    let mut i: usize = 0;
    while i < cs.len()
        invariant
            0 <= i <= cs@.len(),
            achado matches Some(k) ==> k < i && cs@[k as int] == '@' && (forall|j: int|
                0 <= j < i && j != k ==> cs@[j] != '@'),
            achado is None ==> (forall|j: int| 0 <= j < i ==> cs@[j] != '@'),
        decreases cs@.len() - i,
    {
        if cs[i] == '@' {
            if achado.is_some() {
                proof {
                    let k = achado->0;
                    assert forall|k2: int|
                        0 <= k2 < cs@.len() && cs@[k2] == '@' implies !(forall|j: int|
                        0 <= j < cs@.len() && j != k2 ==> cs@[j] != '@') by {
                        if k2 != k {
                            assert(cs@[k as int] == '@');
                        } else {
                            assert(cs@[i as int] == '@');
                        }
                    }
                }
                return None;
            }
            achado = Some(i);
        }
        i = i + 1;
    }
    achado
}

impl Email {
    pub fn as_str(&self) -> (s: &str)
        ensures
            s@ == self@,
    {
        self.0.as_str()
    }

    /// Texto do e-mail.
    pub fn to_string(&self) -> (s: String)
        ensures
            s@ == self@,
    {
        self.0.clone()
    }

    pub fn de_texto(s: String) -> (r: DomainResult<Email>)
        ensures
            email_valido(aparado(s@)) ==> (r matches Ok(e) && e@ == aparado(s@)),
            !email_valido(aparado(s@)) ==> (r matches Err(DomainError::Validation(m))
                && m@ == "E-mail inválido"@),
    {
        let a = aparar(s.as_str());
        let cs = caracteres(a.as_str());
        let ghost t = a@;
        match posicao_arroba(&cs) {
            None => {
                Err(DomainError::Validation(String::from_str("E-mail inválido")))
            },
            Some(k) => {
                let n = cs.len();
                let mut sem_espaco = true;
                let mut tem_ponto = false;
                let mut i: usize = 0;
                while i < n
                    invariant
                        n == cs@.len(),
                        k < n,
                        0 <= i <= n,
                        sem_espaco <==> (forall|j: int| 0 <= j < i ==> cs@[j] != ' '),
                        tem_ponto <==> (exists|j: int| k + 1 < j < n - 1 && j < i && cs@[j] == '.'),
                    decreases n - i,
                {
                    if cs[i] == ' ' {
                        sem_espaco = false;
                    }
                    if cs[i] == '.' && k + 1 < i && i + 1 < n {
                        tem_ponto = true;
                    }
                    i = i + 1;
                }
                if k == 0 || !sem_espaco || !tem_ponto {
                    proof {
                        if email_valido(t) {
                            let k2 = choose|k2: int|
                                #![trigger t[k2]]
                                0 < k2 < t.len() && t[k2] == '@' && (forall|i: int|
                                    0 <= i < t.len() && i != k2 ==> t[i] != '@' && t[i] != ' ')
                                    && (exists|j: int| k2 + 1 < j < t.len() - 1 && t[j] == '.');
                            if k2 != k {
                                assert(cs@[k as int] == '@');
                            }
                            if !sem_espaco {
                                let j = choose|j: int| 0 <= j < n && cs@[j] == ' ';
                                assert(t[j] == ' ');
                                assert(j != k2);
                            }
                        }
                    }
                    return Err(DomainError::Validation(String::from_str("E-mail inválido")));
                }
                proof {
                    assert(t[k as int] == '@');
                }
                Ok(Email(a))
            },
        }
    }
}

} // verus!
