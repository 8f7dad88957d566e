use vstd::prelude::*;

use crate::compartilhado::texto::{decimal, decimal_com_zeros, escrever_decimal, escrever_decimal_com_zeros, texto_de};

verus! {

/// Valor monetário em centavos (aritmética inteira — nada de ponto flutuante
/// em dinheiro).
#[derive(Debug, Clone, Copy, PartialEq, Eq, Structural)]
pub struct Dinheiro(pub i64);

impl Dinheiro {
    pub fn from_centavos(centavos: i64) -> (d: Dinheiro)
        ensures
            d.0 == centavos,
    {
        Dinheiro(centavos)
    }

    pub fn zero() -> (d: Dinheiro)
        ensures
            d.0 == 0,
    {
        Dinheiro(0)
    }

    pub fn centavos(&self) -> (c: i64)
        ensures
            c == self.0,
    {
        self.0
    }

    /// Texto do valor em reais: `R$ 60,00`; negativos com `-` à frente.
    pub fn formatar(&self) -> (s: String)
        ensures
            s@ == dinheiro_texto(self.0 as int),
    {
        let mut cs: Vec<char> = Vec::new();
        let v: i128 = self.0 as i128;
        let abs: i128 = if v < 0 { -v } else { v };
        if v < 0 {
            cs.push('-');
        }
        cs.push('R');
        cs.push('$');
        cs.push(' ');
        escrever_decimal((abs / 100) as u128, &mut cs);
        cs.push(',');
        escrever_decimal_com_zeros((abs % 100) as u128, 2, &mut cs);
        proof {
            reveal_strlit("-");
            reveal_strlit("R$ ");
            reveal_strlit(",");
            reveal_strlit("");
            assert(cs@ =~= dinheiro_texto(self.0 as int));
        }
        texto_de(&cs)
    }
}

/// Texto de um valor em centavos: sinal, `R$ `, reais, vírgula e dois
/// dígitos de centavos.
pub open spec fn dinheiro_texto(c: int) -> Seq<char> {
    let abs = if c < 0 { -c } else { c };
    (if c < 0 { "-"@ } else { ""@ }) + "R$ "@ + decimal((abs / 100) as nat) + ","@ + decimal_com_zeros(
        (abs % 100) as nat,
        2,
    )
}

} // verus!
