use vstd::prelude::*;

verus! {

/// Ano mínimo que `chrono::NaiveDate` representa.
pub const ANO_MINIMO: i32 = -262_143;
/// Ano máximo que `chrono::NaiveDate` representa.
pub const ANO_MAXIMO: i32 = 262_142;

/// Ano bissexto do calendário gregoriano proléptico.
pub open spec fn bissexto(ano: int) -> bool {
    ano % 4 == 0 && (ano % 100 != 0 || ano % 400 == 0)
}

/// Quantidade de dias do mês `mes` (1..=12) no ano `ano`.
pub open spec fn dias_no_mes(ano: int, mes: int) -> int {
    if mes == 2 {
        if bissexto(ano) { 29 } else { 28 }
    } else if mes == 4 || mes == 6 || mes == 9 || mes == 11 {
        30
    } else {
        31
    }
}

/// Data existente no calendário e no intervalo de anos representável.
pub open spec fn data_valida(ano: int, mes: int, dia: int) -> bool {
    &&& ANO_MINIMO <= ano <= ANO_MAXIMO
    &&& 1 <= mes <= 12
    &&& 1 <= dia <= dias_no_mes(ano, mes)
}

/// `chrono::NaiveDate::from_ymd_opt(ano, mes, dia).is_some()`: a documentação
/// do chrono garante `None` exatamente para mês/dia inexistentes ou ano fora de
/// `ANO_MINIMO..=ANO_MAXIMO`, no calendário gregoriano proléptico.
#[verifier::external_body]
fn chrono_data_existe(ano: i32, mes: u32, dia: u32) -> (existe: bool)
    ensures
        existe == data_valida(ano as int, mes as int, dia as int),
{
    chrono::NaiveDate::from_ymd_opt(ano, mes, dia).is_some()
}

/// Data civil (dia do calendário), válida por construção.
#[derive(Debug, Clone, Copy, PartialEq, Eq, Structural)]
pub struct Data {
    ano: i32,
    mes: u32,
    dia: u32,
}

impl Data {
    pub closed spec fn spec_ano(self) -> int {
        self.ano as int
    }

    pub closed spec fn spec_mes(self) -> int {
        self.mes as int
    }

    pub closed spec fn spec_dia(self) -> int {
        self.dia as int
    }

    #[verifier::type_invariant]
    closed spec fn existe(self) -> bool {
        data_valida(self.ano as int, self.mes as int, self.dia as int)
    }

    /// Constrói a data `ano-mes-dia`; `None` quando ela não existe.
    pub fn from_ymd_opt(ano: i32, mes: u32, dia: u32) -> (d: Option<Data>)
        ensures
            d is Some <==> data_valida(ano as int, mes as int, dia as int),
            d matches Some(d) ==> d.spec_ano() == ano && d.spec_mes() == mes && d.spec_dia() == dia,
    {
        if chrono_data_existe(ano, mes, dia) {
            Some(Data { ano, mes, dia })
        } else {
            None
        }
    }

    pub fn ano(&self) -> (a: i32)
        ensures
            a == self.spec_ano(),
            ANO_MINIMO <= a <= ANO_MAXIMO,
    {
        proof {
            use_type_invariant(self);
        }
        self.ano
    }

    pub fn mes(&self) -> (m: u32)
        ensures
            m == self.spec_mes(),
            1 <= m <= 12,
    {
        proof {
            use_type_invariant(self);
        }
        self.mes
    }

    pub fn dia(&self) -> (d: u32)
        ensures
            d == self.spec_dia(),
            1 <= d <= 31,
    {
        proof {
            use_type_invariant(self);
        }
        self.dia
    }
}

/// O dia de hoje no fuso America/Sao_Paulo (`Utc::now()` convertido pelo
/// `chrono-tz` e reduzido a `NaiveDate`), como (ano, mês, dia). Depende do
/// relógio; afirma-se só que é uma data do calendário, como toda `NaiveDate`.
#[verifier::external_body]
fn dia_atual_sao_paulo() -> (d: (i32, u32, u32))
    ensures
        data_valida(d.0 as int, d.1 as int, d.2 as int),
{
    let hoje = chrono::Utc::now().with_timezone(&chrono_tz::America::Sao_Paulo).date_naive();
    (chrono::Datelike::year(&hoje), chrono::Datelike::month(&hoje), chrono::Datelike::day(&hoje))
}

/// Data de hoje no fuso oficial das obrigações fiscais (America/Sao_Paulo):
/// a NF emitida à noite não pula de dia (nem de fase, na virada de ano).
pub fn hoje_brasil() -> (d: Data) {
    let (ano, mes, dia) = dia_atual_sao_paulo();
    Data { ano, mes, dia }
}

/// Microssegundos em um dia.
pub const MICROS_POR_DIA: i64 = 86_400_000_000;

/// Instante no tempo (UTC), em microssegundos desde 1970-01-01T00:00:00Z.
#[derive(Debug, Clone, Copy, PartialEq, Eq, Structural)]
pub struct Instante {
    pub micros: i64,
}

/// Instante `t` deslocado de `dias` dias.
pub open spec fn mais_dias_spec(t: Instante, dias: int) -> int {
    t.micros + dias * MICROS_POR_DIA
}

impl Instante {
    /// O instante deslocado de `dias` dias cabe na faixa representável.
    pub fn cabe_mais_dias(&self, dias: i64) -> (b: bool)
        ensures
            b == (i64::MIN <= mais_dias_spec(*self, dias as int) <= i64::MAX),
    {
        proof {
            assert(-0x8000_0000_0000_0000 * 86_400_000_000 <= dias * MICROS_POR_DIA <= 0x8000_0000_0000_0000 * 86_400_000_000) by (nonlinear_arith)
                requires
                    -0x8000_0000_0000_0000 <= dias <= 0x8000_0000_0000_0000;
        }
        let alvo: i128 = self.micros as i128 + dias as i128 * MICROS_POR_DIA as i128;
        -0x8000_0000_0000_0000 <= alvo && alvo <= 0x7fff_ffff_ffff_ffff
    }

    /// `self + Duration::days(dias)`.
    pub fn mais_dias(&self, dias: i64) -> (t: Instante)
        requires
            i64::MIN <= mais_dias_spec(*self, dias as int) <= i64::MAX,
        ensures
            t.micros == mais_dias_spec(*self, dias as int),
    {
        proof {
            assert(-0x8000_0000_0000_0000 * 86_400_000_000 <= dias * MICROS_POR_DIA <= 0x8000_0000_0000_0000 * 86_400_000_000) by (nonlinear_arith)
                requires
                    -0x8000_0000_0000_0000 <= dias <= 0x8000_0000_0000_0000;
        }
        let delta: i128 = dias as i128 * MICROS_POR_DIA as i128;
        Instante { micros: (self.micros as i128 + delta) as i64 }
    }
}

/// Maior leitura possível do relógio, em microssegundos: o último
/// microssegundo de 262142-12-31 (o último dia representável por
/// `chrono::NaiveDate`).
pub const MICROS_MAXIMO_RELOGIO: i64 = 8_210_266_876_799_999_999;

/// O instante atual do relógio do sistema
/// (`chrono::Utc::now().timestamp_micros()`). O valor depende do relógio; o
/// que o código do chrono garante de todo valor devolvido é a faixa: fora do
/// alvo wasm, `Utc::now` falha (pânico) com o relógio antes de 1970, e
/// `DateTime::from_timestamp(..).unwrap()` só devolve datas até
/// 262142-12-31. Nada mais se afirma.
#[verifier::external_body]
pub(crate) fn agora() -> (t: Instante)
    ensures
        0 <= t.micros <= MICROS_MAXIMO_RELOGIO,
{
    Instante { micros: chrono::Utc::now().timestamp_micros() }
}

} // verus!
