//! Paginação das listagens.

use vstd::prelude::*;

verus! {

/// Tamanho de página padrão e máximo.
pub const PAGINA_MAXIMA: i64 = 200;

/// Limite e deslocamento efetivos: sem limite, a página padrão; o limite fica
/// entre 1 e o máximo e o deslocamento nunca é negativo.
pub open spec fn paginacao_normalizada(limite: Option<i64>, offset: Option<i64>) -> (int, int) {
    let l = match limite {
        Some(v) => if v < 1 { 1 } else if v > PAGINA_MAXIMA { PAGINA_MAXIMA as int } else { v as int },
        None => PAGINA_MAXIMA as int,
    };
    let o = match offset {
        Some(v) => if v < 0 { 0 } else { v as int },
        None => 0,
    };
    (l, o)
}

/// Normaliza a paginação pedida por uma listagem.
pub fn normalizar_paginacao(limite: Option<i64>, offset: Option<i64>) -> (r: (i64, i64))
    ensures
        r.0 == paginacao_normalizada(limite, offset).0,
        r.1 == paginacao_normalizada(limite, offset).1,
{
    let l = match limite {
        Some(v) => if v < 1 { 1 } else if v > PAGINA_MAXIMA { PAGINA_MAXIMA } else { v },
        None => PAGINA_MAXIMA,
    };
    let o = match offset {
        Some(v) => if v < 0 { 0 } else { v },
        None => 0,
    };
    (l, o)
}

} // verus!
