//! Interface com o webservice da SEFAZ e o cliente de homologação que autoriza
//! toda nota sem contato real.

use vstd::prelude::*;

use crate::compartilhado::ids::novo_id;
use crate::compartilhado::texto::{decimal_com_zeros, escrever_decimal_com_zeros, texto_de};

verus! {

/// Resposta de autorização: chave de acesso (44 dígitos) e protocolo.
#[derive(Debug)]
pub struct SefazResponse {
    pub chave: String,
    pub protocolo: String,
}

/// Falha de transmissão: rejeição com código e motivo da SEFAZ, ou serviço
/// indisponível (a resposta não chegou).
#[derive(Debug)]
pub enum SefazError {
    Rejeicao { codigo: String, motivo: String },
    Indisponivel(String),
}

/// Interface de integração com o webservice da SEFAZ. Implementações reais fazem SOAP sobre HTTPS
/// com certificado A1/A3; em desenvolvimento e homologação usa-se o
/// `StubSefazClient`.
pub trait SefazClient {
    fn transmitir(&self, xml: String) -> Result<SefazResponse, SefazError>;
}

/// Prefixo fixo da chave fictícia: cUF 35 (SP), AAMM 2501, CNPJ zerado com
/// final 1, modelo 55, série 001.
pub open spec fn prefixo_chave_ficticia() -> Seq<char> {
    "35250100000000000001550010"@
}

/// Chave fictícia de 44 dígitos derivada de `n`: o prefixo fixo, os 9 dígitos
/// finais de `n` e os 9 dígitos finais de `n >> 32`.
pub open spec fn chave_ficticia(n: u128) -> Seq<char> {
    prefixo_chave_ficticia() + decimal_com_zeros((n % 1_000_000_000) as nat, 9) + decimal_com_zeros(
        ((n >> 32u128) % 1_000_000_000) as nat,
        9,
    )
}

/// Protocolo fictício: os 15 dígitos finais de `n`.
pub open spec fn protocolo_ficticio(n: u128) -> Seq<char> {
    decimal_com_zeros((n % 1_000_000_000_000_000) as nat, 15)
}

/// Resposta de autorização fictícia determinada por `n`.
pub fn resposta_ficticia(n: u128) -> (r: SefazResponse)
    ensures
        r.chave@ == chave_ficticia(n),
        r.protocolo@ == protocolo_ficticio(n),
{
    let mut cs: Vec<char> = Vec::new();
    escrever_decimal_com_zeros(n % 1_000_000_000, 9, &mut cs);
    escrever_decimal_com_zeros((n >> 32u128) % 1_000_000_000, 9, &mut cs);
    let mut chave = String::from_str("35250100000000000001550010");
    let sufixo = texto_de(&cs);
    chave.append(sufixo.as_str());
    proof {
        reveal_strlit("35250100000000000001550010");
    }
    let mut ps: Vec<char> = Vec::new();
    escrever_decimal_com_zeros(n % 1_000_000_000_000_000, 15, &mut ps);
    let protocolo = texto_de(&ps);
    SefazResponse { chave, protocolo }
}

/// Autoriza toda NF imediatamente sem contato real com a SEFAZ.
/// Usar em desenvolvimento e homologação até o certificado estar disponível.
pub struct StubSefazClient;

impl SefazClient for StubSefazClient {
    /// Autoriza com chave e protocolo fictícios derivados de um identificador
    /// aleatório.
    fn transmitir(&self, _xml: String) -> (r: Result<SefazResponse, SefazError>)
        ensures
            r matches Ok(resp) && exists|n: u128|
                n != 0 && resp.chave@ == chave_ficticia(n) && resp.protocolo@ == protocolo_ficticio(n),
    {
        let n = novo_id();
        let resp = resposta_ficticia(n);
        proof {
            assert(n != 0 && resp.chave@ == chave_ficticia(n) && resp.protocolo@ == protocolo_ficticio(n));
        }
        Ok(resp)
    }
}

} // verus!
