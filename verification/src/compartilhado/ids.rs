use vstd::prelude::*;
use vstd::arithmetic::power2::pow2;

verus! {

/// Dígito hexadecimal minúsculo de `n` (0..=15).
pub open spec fn hex_minusculo(n: int) -> char {
    if n < 10 { (48 + n) as char } else { (87 + n) as char }
}

/// `k`-ésimo nibble (0 = o mais significativo) de um UUID de 128 bits.
pub open spec fn nibble(id: u128, k: int) -> int {
    (id as int / pow2((4 * (31 - k)) as nat) as int) % 16
}

/// Quantos hífens do formato 8-4-4-4-12 vêm antes da posição `i`.
pub open spec fn hifens_antes(i: int) -> int {
    if i < 8 { 0 } else if i < 13 { 1 } else if i < 18 { 2 } else if i < 23 { 3 } else { 4 }
}

/// Forma textual hifenizada e minúscula de um UUID (ex.:
/// `67e55044-10b1-426f-9247-bb680e5fe0c8`).
pub open spec fn uuid_hifenado(id: u128) -> Seq<char> {
    Seq::new(
        36,
        |i: int|
            if i == 8 || i == 13 || i == 18 || i == 23 {
                '-'
            } else {
                hex_minusculo(nibble(id, i - hifens_antes(i)))
            },
    )
}

/// UUID versão 5 (SHA-1 do namespace seguido dos bytes UTF-8 do nome) —
/// função só do namespace e do texto do nome.
pub uninterp spec fn uuid_v5(namespace: u128, nome: Seq<char>) -> u128;

/// Resultado de `Uuid::parse_str` sobre um texto (qualquer dos formatos que a
/// crate aceita) — função só do texto.
pub uninterp spec fn uuid_lido(texto: Seq<char>) -> Option<u128>;

/// Namespace URL padrão da RFC 9562 (`6ba7b811-9dad-11d1-80b4-00c04fd430c8`).
pub const NAMESPACE_URL: u128 = 0x6ba7b811_9dad_11d1_80b4_00c04fd430c8;

/// Forma "simple" de um UUID: os 32 dígitos hexadecimais minúsculos, sem hífens.
pub open spec fn uuid_simples(id: u128) -> Seq<char> {
    Seq::new(32, |i: int| hex_minusculo(nibble(id, i)))
}

/// Erro de leitura de UUID da crate `uuid`.
#[verifier::external_type_specification]
#[verifier::external_body]
pub struct ErroLeituraUuid(uuid::Error);

/// `Uuid::new_v4()`: identificador aleatório. A crate fixa os bits de versão,
/// então ele nunca é o UUID nulo; nada mais se afirma sobre o valor.
#[verifier::external_body]
pub(crate) fn novo_id() -> (id: u128)
    ensures
        id != 0,
{
    uuid::Uuid::new_v4().as_u128()
}

/// `Uuid::new_v5(namespace, nome.as_bytes())`: identificador determinístico
/// do nome.
#[verifier::external_body]
pub(crate) fn id_v5(namespace: u128, nome: &str) -> (id: u128)
    ensures
        id == uuid_v5(namespace, nome@),
{
    uuid::Uuid::new_v5(&uuid::Uuid::from_u128(namespace), nome.as_bytes()).as_u128()
}

/// `Uuid::parse_str(texto)`: o identificador lido, ou o erro da crate quando o
/// texto não é um UUID em nenhum dos formatos aceitos.
#[verifier::external_body]
pub(crate) fn ler_uuid(texto: &str) -> (r: Result<u128, uuid::Error>)
    ensures
        r is Ok <==> uuid_lido(texto@) is Some,
        r matches Ok(v) ==> uuid_lido(texto@) == Some(v),
{
    match uuid::Uuid::parse_str(texto) {
        Ok(u) => Ok(u.as_u128()),
        Err(e) => Err(e),
    }
}

/// `uuid::Error::to_string()`: a descrição do erro de leitura, no texto da
/// crate; nada se afirma sobre o conteúdo.
#[verifier::external_body]
pub(crate) fn descrever_erro_uuid(e: &uuid::Error) -> (s: String) {
    e.to_string()
}

/// O identificador lido de um texto, ou `None` se o texto não é um UUID.
pub fn ler_id(texto: &str) -> (id: Option<u128>)
    ensures
        id == uuid_lido(texto@),
{
    match ler_uuid(texto) {
        Ok(v) => Some(v),
        Err(_) => None,
    }
}

/// `Uuid::to_string()`: a forma hifenizada minúscula (o `Display` da crate).
#[verifier::external_body]
pub(crate) fn texto_id(id: u128) -> (s: String)
    ensures
        s@ == uuid_hifenado(id),
{
    uuid::Uuid::from_u128(id).to_string()
}

/// `Uuid::simple().to_string()`: os 32 dígitos hexadecimais minúsculos.
#[verifier::external_body]
pub(crate) fn texto_id_simples(id: u128) -> (s: String)
    ensures
        s@ == uuid_simples(id),
{
    uuid::Uuid::from_u128(id).simple().to_string()
}

/// Texto hifenizado de um identificador.
pub fn id_como_texto(id: u128) -> (s: String)
    ensures
        s@ == uuid_hifenado(id),
{
    texto_id(id)
}

} // verus!
