use vstd::prelude::*;
use vstd::string::*;

verus! {

/// Caractere '0'..='9'.
pub open spec fn eh_digito(c: char) -> bool {
    '0' <= c && c <= '9'
}

/// Valor numérico de um algarismo ASCII.
pub open spec fn valor_digito(c: char) -> int {
    c as int - '0' as int
}

/// Algarismo ASCII correspondente a `d` (0..=9).
pub open spec fn algarismo(d: int) -> char {
    (d + 48) as char
}

/// Representação decimal (sem sinal, sem zeros à esquerda) de `n`.
pub open spec fn decimal(n: nat) -> Seq<char>
    decreases n,
{
    if n < 10 {
        seq![algarismo(n as int)]
    } else {
        decimal(n / 10).push(algarismo((n % 10) as int))
    }
}

/// Representação decimal com sinal `-` para negativos.
pub open spec fn decimal_com_sinal(v: int) -> Seq<char> {
    if v < 0 {
        seq!['-'] + decimal((-v) as nat)
    } else {
        decimal(v as nat)
    }
}

/// `decimal(n)` completado com zeros à esquerda até `largura` caracteres.
pub open spec fn decimal_com_zeros(n: nat, largura: nat) -> Seq<char> {
    let d = decimal(n);
    if d.len() >= largura {
        d
    } else {
        Seq::new((largura - d.len()) as nat, |i: int| '0') + d
    }
}

/// Apenas os algarismos de `s`, na ordem em que aparecem.
pub open spec fn so_digitos(s: Seq<char>) -> Seq<char>
    decreases s.len(),
{
    if s.len() == 0 {
        Seq::empty()
    } else if eh_digito(s.last()) {
        so_digitos(s.drop_last()).push(s.last())
    } else {
        so_digitos(s.drop_last())
    }
}

/// Espaço em branco segundo a propriedade Unicode `White_Space` (a mesma de
/// `char::is_whitespace`).
pub open spec fn eh_espaco(c: char) -> bool {
    ||| ('\u{9}' <= c && c <= '\u{d}')
    ||| c == ' '
    ||| c == '\u{85}'
    ||| c == '\u{a0}'
    ||| c == '\u{1680}'
    ||| ('\u{2000}' <= c && c <= '\u{200a}')
    ||| c == '\u{2028}'
    ||| c == '\u{2029}'
    ||| c == '\u{202f}'
    ||| c == '\u{205f}'
    ||| c == '\u{3000}'
}

/// Só espaços em branco (ou vazio): o que `trim()` deixaria vazio.
pub open spec fn em_branco(s: Seq<char>) -> bool {
    forall|i: int| 0 <= i < s.len() ==> eh_espaco(#[trigger] s[i])
}

/// Índice do primeiro caractere que não é espaço (ou `s.len()`).
pub open spec fn inicio_sem_espaco(s: Seq<char>) -> int
    decreases s.len(),
{
    if s.len() == 0 {
        0
    } else if eh_espaco(s[0]) {
        1 + inicio_sem_espaco(s.drop_first())
    } else {
        0
    }
}

/// Índice logo após o último caractere que não é espaço (ou 0).
pub open spec fn fim_sem_espaco(s: Seq<char>) -> int
    decreases s.len(),
{
    if s.len() == 0 {
        0
    } else if eh_espaco(s.last()) {
        fim_sem_espaco(s.drop_last())
    } else {
        s.len() as int
    }
}

/// `s` sem espaços nas pontas (o `trim()` do Rust).
pub open spec fn aparado(s: Seq<char>) -> Seq<char> {
    if em_branco(s) {
        Seq::empty()
    } else {
        s.subrange(inicio_sem_espaco(s), fim_sem_espaco(s))
    }
}

fn algarismo_exec(d: u8) -> (c: char)
    requires
        d < 10,
    ensures
        c == algarismo(d as int),
{
    (d + 48) as char
}

/// Acrescenta a `saida` a representação decimal de `n`.
pub fn escrever_decimal(n: u128, saida: &mut Vec<char>)
    ensures
        final(saida)@ == old(saida)@ + decimal(n as nat),
    decreases n,
{
    if n >= 10 {
        escrever_decimal(n / 10, saida);
    }
    let d = (n % 10) as u8;
    saida.push(algarismo_exec(d));
    proof {
        assert(decimal(n as nat) == if n < 10 {
            seq![algarismo(n as int)]
        } else {
            decimal((n / 10) as nat).push(algarismo((n % 10) as int))
        });
    }
}

/// Acrescenta `n` em decimal completado com zeros à esquerda até `largura`.
pub fn escrever_decimal_com_zeros(n: u128, largura: usize, saida: &mut Vec<char>)
    ensures
        final(saida)@ == old(saida)@ + decimal_com_zeros(n as nat, largura as nat),
{
    let mut digitos: Vec<char> = Vec::new();
    escrever_decimal(n, &mut digitos);
    let mut k: usize = digitos.len();
    let ghost base = saida@;
    while k < largura
        invariant
            digitos@ == decimal(n as nat),
            digitos@.len() <= k <= largura || (k == digitos@.len() && k >= largura),
            saida@ == base + Seq::new((k - digitos@.len()) as nat, |i: int| '0'),
        decreases largura - k,
    {
        saida.push('0');
        k = k + 1;
        proof {
            assert(saida@ =~= base + Seq::new((k - digitos@.len()) as nat, |i: int| '0'));
        }
    }
    let mut j: usize = 0;
    let ghost zeros = saida@;
    while j < digitos.len()
        invariant
            0 <= j <= digitos@.len(),
            saida@ == zeros + digitos@.subrange(0, j as int),
        decreases digitos@.len() - j,
    {
        saida.push(digitos[j]);
        j = j + 1;
        proof {
            assert(saida@ =~= zeros + digitos@.subrange(0, j as int));
        }
    }
    proof {
        assert(digitos@.subrange(0, digitos@.len() as int) =~= digitos@);
        if digitos@.len() >= largura {
            assert(Seq::new(0nat, |i: int| '0') + digitos@ =~= digitos@);
        }
        assert(saida@ =~= base + decimal_com_zeros(n as nat, largura as nat));
    }
}

/// Acrescenta `v` em decimal, com `-` se negativo.
pub fn escrever_decimal_com_sinal(v: i64, saida: &mut Vec<char>)
    ensures
        final(saida)@ == old(saida)@ + decimal_com_sinal(v as int),
{
    if v < 0 {
        saida.push('-');
        let m: i128 = -(v as i128);
        escrever_decimal(m as u128, saida);
        proof {
            assert(saida@ =~= old(saida)@ + (seq!['-'] + decimal((-v) as nat)));
        }
    } else {
        escrever_decimal(v as u128, saida);
    }
}

/// `String` com exatamente os caracteres de `cs`.
#[verifier::external_body]
pub(crate) fn texto_de(cs: &Vec<char>) -> (s: String)
    ensures
        s@ == cs@,
{
    cs.iter().collect::<String>()
}

/// Caracteres de um texto, em ordem.
pub fn caracteres(s: &str) -> (cs: Vec<char>)
    ensures
        cs@ == s@,
{
    let n = s.unicode_len();
    let mut cs: Vec<char> = Vec::new();
    let mut i: usize = 0;
    while i < n
        invariant
            n == s@.len(),
            0 <= i <= n,
            cs@ == s@.subrange(0, i as int),
        decreases n - i,
    {
        let c = s.get_char(i);
        cs.push(c);
        i = i + 1;
        proof {
            assert(cs@ =~= s@.subrange(0, i as int));
        }
    }
    proof {
        assert(s@.subrange(0, n as int) =~= s@);
    }
    cs
}

/// Apenas os algarismos ASCII de `s`.
pub fn filtrar_digitos(s: &str) -> (r: Vec<char>)
    ensures
        r@ == so_digitos(s@),
{
    let cs = caracteres(s);
    let mut r: Vec<char> = Vec::new();
    let mut i: usize = 0;
    while i < cs.len()
        invariant
            cs@ == s@,
            0 <= i <= cs@.len(),
            r@ == so_digitos(cs@.subrange(0, i as int)),
        decreases cs@.len() - i,
    {
        let c = cs[i];
        proof {
            let pre = cs@.subrange(0, i as int);
            let pos = cs@.subrange(0, i + 1);
            assert(pos.drop_last() =~= pre);
            assert(pos.last() == c);
        }
        if '0' <= c && c <= '9' {
            r.push(c);
        }
        i = i + 1;
    }
    proof {
        assert(cs@.subrange(0, cs@.len() as int) =~= cs@);
    }
    r
}

/// Verdadeiro se `s` é vazio ou só tem espaços (`s.trim().is_empty()`).
pub fn esta_em_branco(s: &str) -> (b: bool)
    ensures
        b == em_branco(s@),
{
    let cs = caracteres(s);
    let mut i: usize = 0;
    while i < cs.len()
        invariant
            cs@ == s@,
            0 <= i <= cs@.len(),
            forall|k: int| 0 <= k < i ==> eh_espaco(#[trigger] cs@[k]),
        decreases cs@.len() - i,
    {
        if !eh_espaco_exec(cs[i]) {
            return false;
        }
        i = i + 1;
    }
    true
}

/// `char::is_whitespace`, escrito sobre a tabela Unicode `White_Space`.
pub fn eh_espaco_exec(c: char) -> (b: bool)
    ensures
        b == eh_espaco(c),
{
    ('\u{9}' <= c && c <= '\u{d}') || c == ' ' || c == '\u{85}' || c == '\u{a0}'
        || c == '\u{1680}' || ('\u{2000}' <= c && c <= '\u{200a}') || c == '\u{2028}'
        || c == '\u{2029}' || c == '\u{202f}' || c == '\u{205f}' || c == '\u{3000}'
}

/// O primeiro não-espaço de `s` está em `i`.
proof fn lema_inicio(s: Seq<char>, i: int)
    requires
        0 <= i <= s.len(),
        forall|k: int| 0 <= k < i ==> eh_espaco(#[trigger] s[k]),
        i == s.len() || !eh_espaco(s[i]),
    ensures
        inicio_sem_espaco(s) == i,
    decreases i,
{
    if i > 0 {
        assert(eh_espaco(s[0]));
        let t = s.drop_first();
        assert forall|k: int| 0 <= k < i - 1 implies eh_espaco(#[trigger] t[k]) by {
            assert(t[k] == s[k + 1]);
        }
        if i < s.len() {
            assert(t[i - 1] == s[i]);
        }
        lema_inicio(t, i - 1);
    }
}

/// O último não-espaço de `s` está em `j - 1`.
proof fn lema_fim(s: Seq<char>, j: int)
    requires
        0 <= j <= s.len(),
        forall|k: int| j <= k < s.len() ==> eh_espaco(#[trigger] s[k]),
        j == 0 || !eh_espaco(s[j - 1]),
    ensures
        fim_sem_espaco(s) == j,
    decreases s.len() - j,
{
    if s.len() > j {
        assert(eh_espaco(s.last()));
        let t = s.drop_last();
        assert forall|k: int| j <= k < t.len() implies eh_espaco(#[trigger] t[k]) by {
            assert(t[k] == s[k]);
        }
        if j > 0 {
            assert(t[j - 1] == s[j - 1]);
        }
        lema_fim(t, j);
    }
}

/// `s.trim()`: o texto sem espaços em branco nas pontas.
pub fn aparar(s: &str) -> (r: String)
    ensures
        r@ == aparado(s@),
{
    let cs = caracteres(s);
    let n = cs.len();
    let mut i: usize = 0;
    while i < n && eh_espaco_exec(cs[i])
        invariant
            cs@ == s@,
            n == cs@.len(),
            0 <= i <= n,
            forall|k: int| 0 <= k < i ==> eh_espaco(#[trigger] cs@[k]),
        decreases n - i,
    {
        i = i + 1;
    }
    if i == n {
        proof {
            assert(em_branco(s@));
        }
        return String::new();
    }
    let mut j: usize = n;
    while j > i + 1 && eh_espaco_exec(cs[j - 1])
        invariant
            cs@ == s@,
            n == cs@.len(),
            i < j <= n,
            !eh_espaco(cs@[i as int]),
            forall|k: int| j <= k < n ==> eh_espaco(#[trigger] cs@[k]),
        decreases j,
    {
        j = j - 1;
    }
    proof {
        lema_inicio(s@, i as int);
        if j == i + 1 {
            assert(!eh_espaco(s@[j - 1]));
        }
        lema_fim(s@, j as int);
        assert(!em_branco(s@));
    }
    let pedaco = s.substring_char(i, j);
    String::from_str(pedaco)
}

/// Igualdade de textos, caractere a caractere.
pub fn textos_iguais(a: &str, b: &str) -> (igual: bool)
    ensures
        igual == (a@ == b@),
{
    let ca = caracteres(a);
    let cb = caracteres(b);
    if ca.len() != cb.len() {
        return false;
    }
    let mut i: usize = 0;
    while i < ca.len()
        invariant
            ca@ == a@,
            cb@ == b@,
            ca@.len() == cb@.len(),
            0 <= i <= ca@.len(),
            forall|k: int| 0 <= k < i ==> ca@[k] == cb@[k],
        decreases ca@.len() - i,
    {
        if ca[i] != cb[i] {
            return false;
        }
        i = i + 1;
    }
    proof {
        assert(a@ =~= b@);
    }
    true
}

/// Resultado de `str::to_uppercase` (mapeamento Unicode completo de
/// maiúsculas; depende só do texto).
pub uninterp spec fn maiusculas(s: Seq<char>) -> Seq<char>;

/// `str::to_uppercase`: o resultado é `maiusculas` do texto.
#[verifier::external_body]
pub(crate) fn em_maiusculas(s: &str) -> (r: String)
    ensures
        r@ == maiusculas(s@),
{
    s.to_uppercase()
}

} // verus!
