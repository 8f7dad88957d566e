//! Resolução do CFOP (Código Fiscal de Operações e Prestações).

use vstd::prelude::*;

use crate::compartilhado::texto::{caracteres, eh_digito, eh_espaco, em_branco};
use crate::fiscal::value_objects::ModeloNF;

verus! {

/// Sentido da operação para fins de CFOP.
#[derive(Debug, Clone, Copy, PartialEq, Eq, Structural)]
pub enum TipoOperacao {
    Venda,
    Devolucao,
}

/// Minúscula ASCII de um caractere (outros ficam como estão).
pub open spec fn minuscula_ascii(c: char) -> char {
    if 'A' <= c && c <= 'Z' { ((c as int) + 32) as char } else { c }
}

/// `eq_ignore_ascii_case`: mesmos caracteres, ignorando a caixa ASCII.
pub open spec fn iguais_sem_caixa(a: Seq<char>, b: Seq<char>) -> bool {
    a.len() == b.len() && forall|i: int| 0 <= i < a.len() ==> minuscula_ascii(#[trigger] a[i])
        == minuscula_ascii(b[i])
}

fn minuscula_ascii_exec(c: char) -> (m: char)
    ensures
        m == minuscula_ascii(c),
{
    if 'A' <= c && c <= 'Z' {
        ((c as u32) + 32) as u8 as char
    } else {
        c
    }
}

/// `str::eq_ignore_ascii_case`.
pub fn iguais_ignorando_caixa(a: &str, b: &str) -> (r: bool)
    ensures
        r == iguais_sem_caixa(a@, b@),
{
    let ca = caracteres(a);
    let cb = caracteres(b);
    if ca.len() != cb.len() {
        return false;
    }
    let mut i: usize = 0;
    while i < ca.len()
        invariant
            ca@ == a@,
            cb@ == b@,
            ca@.len() == cb@.len(),
            0 <= i <= ca@.len(),
            forall|k: int| 0 <= k < i ==> minuscula_ascii(#[trigger] ca@[k]) == minuscula_ascii(cb@[k]),
        decreases ca@.len() - i,
    {
        if minuscula_ascii_exec(ca[i]) != minuscula_ascii_exec(cb[i]) {
            return false;
        }
        i = i + 1;
    }
    true
}

/// A operação é interestadual: há UF do destinatário e ela difere da do
/// emitente (sem distinguir caixa).
pub open spec fn interestadual(uf_emitente: Seq<char>, uf_destinatario: Option<Seq<char>>) -> bool {
    match uf_destinatario {
        Some(d) => !iguais_sem_caixa(d, uf_emitente),
        None => false,
    }
}

/// CFOP por sentido, destino e substituição tributária.
pub open spec fn cfop_de(op: TipoOperacao, inter: bool, tem_st: bool) -> Seq<char> {
    match op {
        TipoOperacao::Venda => if !inter && !tem_st {
            "5102"@
        } else if !inter && tem_st {
            "5405"@
        } else if inter && !tem_st {
            "6102"@
        } else {
            "6404"@
        },
        TipoOperacao::Devolucao => if inter {
            "2202"@
        } else {
            "1202"@
        },
    }
}

/// Todo CFOP resolvido tem quatro algarismos: nunca é vazio nem só espaços.
pub proof fn lema_cfop_quatro_algarismos(op: TipoOperacao, inter: bool, tem_st: bool)
    ensures
        cfop_de(op, inter, tem_st).len() == 4,
        forall|i: int| 0 <= i < 4 ==> eh_digito(#[trigger] cfop_de(op, inter, tem_st)[i]),
        !em_branco(cfop_de(op, inter, tem_st)),
{
    reveal_strlit("5102");
    reveal_strlit("5405");
    reveal_strlit("6102");
    reveal_strlit("6404");
    reveal_strlit("2202");
    reveal_strlit("1202");
    let c = cfop_de(op, inter, tem_st);
    assert(!eh_espaco(c[0]));
}

/// O primeiro algarismo do CFOP diz o sentido e o destino da operação:
/// saída (venda) 5 dentro do estado e 6 para outro; entrada (devolução) 1
/// dentro do estado e 2 de outro. A devolução não depende de substituição
/// tributária; a venda com ST e sem ST diferem só nos demais algarismos.
pub proof fn lema_cfop_sentido_e_destino(op: TipoOperacao, inter: bool, st1: bool, st2: bool)
    ensures
        op == TipoOperacao::Venda && !inter ==> cfop_de(op, inter, st1)[0] == '5',
        op == TipoOperacao::Venda && inter ==> cfop_de(op, inter, st1)[0] == '6',
        op == TipoOperacao::Devolucao && !inter ==> cfop_de(op, inter, st1)[0] == '1',
        op == TipoOperacao::Devolucao && inter ==> cfop_de(op, inter, st1)[0] == '2',
        op == TipoOperacao::Devolucao ==> cfop_de(op, inter, st1) == cfop_de(op, inter, st2),
        op == TipoOperacao::Venda && st1 != st2 ==> cfop_de(op, inter, st1) != cfop_de(op, inter, st2),
{
    reveal_strlit("5102");
    reveal_strlit("5405");
    reveal_strlit("6102");
    reveal_strlit("6404");
    reveal_strlit("2202");
    reveal_strlit("1202");
    if op == TipoOperacao::Venda && st1 != st2 {
        assert(cfop_de(op, inter, st1)[1] != cfop_de(op, inter, st2)[1]);
    }
}

/// Destinatário no mesmo estado do emitente (em qualquer caixa) ou sem UF é
/// operação interna.
pub proof fn lema_mesma_uf_e_interna(uf: Seq<char>)
    ensures
        !interestadual(uf, Some(uf)),
        !interestadual(uf, None),
{
}

/// Resolve o CFOP da operação. `uf_destinatario = None` (consumidor final sem
/// endereço) é operação interna.
pub fn resolver_cfop(
    op: TipoOperacao,
    uf_emitente: &str,
    uf_destinatario: Option<&str>,
    _modelo: &ModeloNF,
    tem_st: bool,
) -> (c: &'static str)
    ensures
        c@ == cfop_de(
            op,
            interestadual(
                uf_emitente@,
                match uf_destinatario {
                    Some(d) => Some(d@),
                    None => None,
                },
            ),
            tem_st,
        ),
{
    let interestadual = match uf_destinatario {
        Some(d) => !iguais_ignorando_caixa(d, uf_emitente),
        None => false,
    };
    match op {
        TipoOperacao::Venda => {
            if !interestadual && !tem_st {
                "5102"
            } else if !interestadual && tem_st {
                "5405"
            } else if interestadual && !tem_st {
                "6102"
            } else {
                "6404"
            }
        },
        TipoOperacao::Devolucao => {
            if interestadual {
                "2202"
            } else {
                "1202"
            }
        },
    }
}

} // verus!
