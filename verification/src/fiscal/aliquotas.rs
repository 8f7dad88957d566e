//! Resolução das alíquotas de um item a partir das linhas vigentes (override
//! do tenant e referência global) e dos metadados da classe tributária.

use vstd::prelude::*;

use crate::compartilhado::texto::{decimal_com_sinal, textos_iguais};
use crate::erro::{DomainError, DomainResult};
use crate::fiscal::tributacao::aliquota::{Aliquota, TETO_BPS};
use crate::fiscal::tributacao::classe_tributaria::{ClasseTributaria, ClasseTributariaInfo};
use crate::fiscal::tributacao::motor::{bps_de, AliquotasItem};

verus! {

/// Os tributos que têm lugar no snapshot de alíquotas.
pub open spec fn tributo_conhecido(t: Seq<char>) -> bool {
    ||| t == "icms"@
    ||| t == "iss"@
    ||| t == "pis"@
    ||| t == "cofins"@
    ||| t == "cbs"@
    ||| t == "ibs_uf"@
    ||| t == "ibs_mun"@
    ||| t == "is"@
}

/// A alíquota (em bps) que o snapshot tem para o tributo de nome `t`.
pub open spec fn slot_bps(al: AliquotasItem, t: Seq<char>) -> Option<int> {
    let a = if t == "icms"@ {
        al.icms
    } else if t == "iss"@ {
        al.iss
    } else if t == "pis"@ {
        al.pis
    } else if t == "cofins"@ {
        al.cofins
    } else if t == "cbs"@ {
        al.cbs
    } else if t == "ibs_uf"@ {
        al.ibs_uf
    } else if t == "ibs_mun"@ {
        al.ibs_mun
    } else if t == "is"@ {
        al.is_seletivo
    } else {
        None
    };
    match a {
        Some(x) => Some(x.valor()),
        None => None,
    }
}

/// Uma linha vigente: nome do tributo e alíquota em bps.
pub open spec fn bps_valida(bps: int) -> bool {
    0 <= bps <= TETO_BPS
}

/// A alíquota da primeira linha do tributo `t`, na ordem das linhas.
pub open spec fn primeira_bps(linhas: Seq<(String, i32)>, t: Seq<char>) -> Option<int>
    decreases linhas.len(),
{
    if linhas.len() == 0 {
        None
    } else {
        match primeira_bps(linhas.drop_last(), t) {
            Some(x) => Some(x),
            None => if linhas.last().0@ == t {
                Some(linhas.last().1 as int)
            } else {
                None
            },
        }
    }
}

/// Todas as linhas têm alíquota na faixa.
pub open spec fn todas_validas(linhas: Seq<(String, i32)>) -> bool {
    forall|i: int| 0 <= i < linhas.len() ==> bps_valida(#[trigger] linhas[i].1 as int)
}

/// Índice da primeira linha com alíquota fora da faixa (ou o tamanho).
pub open spec fn primeira_invalida(linhas: Seq<(String, i32)>) -> int
    decreases linhas.len(),
{
    if linhas.len() == 0 {
        0
    } else if !todas_validas(linhas.drop_last()) {
        primeira_invalida(linhas.drop_last())
    } else if !bps_valida(linhas.last().1 as int) {
        linhas.len() - 1
    } else {
        linhas.len() as int
    }
}

/// Mensagem de alíquota fora da faixa.
pub open spec fn msg_faixa(bps: int) -> Seq<char> {
    "Alíquota em bps fora da faixa 0..=20000: "@ + decimal_com_sinal(bps)
}

/// Resultado de preencher o snapshot com uma linha de alíquota válida.
pub open spec fn preenchido(antes: AliquotasItem, depois: AliquotasItem, t: Seq<char>, bps: int) -> bool {
    forall|u: Seq<char>|
        tributo_conhecido(u) ==> #[trigger] slot_bps(depois, u) == if u == t && slot_bps(antes, u)
            is None {
            Some(bps)
        } else {
            slot_bps(antes, u)
        }
}

fn preencher_slot(slot: &mut Option<Aliquota>, a: Aliquota)
    ensures
        (*old(slot)) is None ==> *final(slot) == Some(a),
        (*old(slot)) is Some ==> *final(slot) == *old(slot),
{
    if slot.is_none() {
        *slot = Some(a);
    }
}

/// Preenche o snapshot com uma linha: a alíquota é validada primeiro; um
/// tributo desconhecido é ignorado; a primeira linha de cada tributo vence.
pub fn preencher_aliquota(resultado: &mut AliquotasItem, tributo: &str, bps: i32) -> (r: DomainResult<()>)
    ensures
        !bps_valida(bps as int) ==> (r matches Err(DomainError::Validation(m)) && m@ == msg_faixa(
            bps as int,
        ) && *final(resultado) == *old(resultado)),
        bps_valida(bps as int) ==> r is Ok && preenchido(*old(resultado), *final(resultado), tributo@, bps as int),
{
    let a = match Aliquota::de_bps(bps) {
        Ok(a) => a,
        Err(e) => {
            return Err(e);
        },
    };
    if textos_iguais(tributo, "icms") {
        preencher_slot(&mut resultado.icms, a);
    } else if textos_iguais(tributo, "iss") {
        preencher_slot(&mut resultado.iss, a);
    } else if textos_iguais(tributo, "pis") {
        preencher_slot(&mut resultado.pis, a);
    } else if textos_iguais(tributo, "cofins") {
        preencher_slot(&mut resultado.cofins, a);
    } else if textos_iguais(tributo, "cbs") {
        preencher_slot(&mut resultado.cbs, a);
    } else if textos_iguais(tributo, "ibs_uf") {
        preencher_slot(&mut resultado.ibs_uf, a);
    } else if textos_iguais(tributo, "ibs_mun") {
        preencher_slot(&mut resultado.ibs_mun, a);
    } else if textos_iguais(tributo, "is") {
        preencher_slot(&mut resultado.is_seletivo, a);
    }
    proof {
        reveal_strlit("icms");
        reveal_strlit("iss");
        reveal_strlit("pis");
        reveal_strlit("cofins");
        reveal_strlit("cbs");
        reveal_strlit("ibs_uf");
        reveal_strlit("ibs_mun");
        reveal_strlit("is");
    }
    Ok(())
}

proof fn lema_invalida_no_prefixo(linhas: Seq<(String, i32)>, i: int)
    requires
        0 <= i < linhas.len(),
        todas_validas(linhas.take(i)),
        !bps_valida(linhas[i].1 as int),
    ensures
        primeira_invalida(linhas) == i,
    decreases linhas.len(),
{
    if i < linhas.len() - 1 {
        assert(linhas.drop_last().take(i) =~= linhas.take(i));
        assert(!todas_validas(linhas.drop_last())) by {
            assert(linhas.drop_last()[i] == linhas[i]);
        }
        lema_invalida_no_prefixo(linhas.drop_last(), i);
    } else {
        assert(linhas.drop_last() =~= linhas.take(i));
    }
}

fn preencher_linhas(
    resultado: &mut AliquotasItem,
    linhas: &Vec<(String, i32)>,
    anteriores: Ghost<Seq<(String, i32)>>,
) -> (r: DomainResult<()>)
    requires
        todas_validas(anteriores@),
        forall|t: Seq<char>|
            tributo_conhecido(t) ==> #[trigger] slot_bps(*old(resultado), t) == primeira_bps(
                anteriores@,
                t,
            ),
    ensures
        todas_validas(anteriores@ + linhas@) ==> (r is Ok && forall|t: Seq<char>|
            tributo_conhecido(t) ==> #[trigger] slot_bps(*final(resultado), t) == primeira_bps(
                anteriores@ + linhas@,
                t,
            )),
        !todas_validas(anteriores@ + linhas@) ==> (r matches Err(DomainError::Validation(m)) && m@
            == msg_faixa(
            (anteriores@ + linhas@)[primeira_invalida(anteriores@ + linhas@)].1 as int,
        )),
{
    let ghost todas = anteriores@ + linhas@;
    let ghost na = anteriores@.len() as int;
    let n = linhas.len();
    let mut j: usize = 0;
    proof {
        assert(todas.take(na) =~= anteriores@);
    }
    while j < n
        invariant
            todas == anteriores@ + linhas@,
            na == anteriores@.len(),
            n == linhas@.len(),
            0 <= j <= n,
            todas_validas(todas.take(na + j)),
            forall|t: Seq<char>|
                tributo_conhecido(t) ==> #[trigger] slot_bps(*resultado, t) == primeira_bps(
                    todas.take(na + j),
                    t,
                ),
        decreases n - j,
    {
        let linha = &linhas[j];
        let ghost i = na + j;
        proof {
            assert(*linha == todas[i]);
        }
        let ghost antes = *resultado;
        match preencher_aliquota(resultado, linha.0.as_str(), linha.1) {
            Ok(()) => {},
            Err(e) => {
                proof {
                    lema_invalida_no_prefixo(todas, i);
                    assert(!todas_validas(todas));
                }
                return Err(e);
            },
        }
        proof {
            let p = todas.take(i + 1);
            assert(p.drop_last() =~= todas.take(i));
            assert(p.last() == todas[i]);
            assert forall|t: Seq<char>| tributo_conhecido(t) implies #[trigger] slot_bps(*resultado, t)
                == primeira_bps(p, t) by {
                assert(slot_bps(antes, t) == primeira_bps(todas.take(i), t));
            }
            assert(todas_validas(p)) by {
                assert forall|k: int| 0 <= k < p.len() implies bps_valida(#[trigger] p[k].1 as int) by {
                    if k < i {
                        assert(p[k] == todas.take(i)[k]);
                    }
                }
            }
        }
        j = j + 1;
    }
    proof {
        assert(todas.take(na + n) =~= todas);
    }
    Ok(())
}

/// Snapshot de alíquotas a partir das linhas vigentes, já ordenadas por
/// especificidade: as do tenant antes das da referência global; para cada
/// tributo vence a primeira linha. Uma alíquota fora da faixa rejeita tudo.
pub fn resolver_aliquotas(linhas_tenant: &Vec<(String, i32)>, linhas_referencia: &Vec<(String, i32)>) -> (r:
    DomainResult<AliquotasItem>)
    ensures
        todas_validas(linhas_tenant@ + linhas_referencia@) ==> (r matches Ok(al) && forall|t: Seq<char>|
            tributo_conhecido(t) ==> #[trigger] slot_bps(al, t) == primeira_bps(
                linhas_tenant@ + linhas_referencia@,
                t,
            )),
        !todas_validas(linhas_tenant@ + linhas_referencia@) ==> (r matches Err(
            DomainError::Validation(m),
        ) && m@ == msg_faixa(
            (linhas_tenant@ + linhas_referencia@)[primeira_invalida(
                linhas_tenant@ + linhas_referencia@,
            )].1 as int,
        )),
{
    let mut resultado = AliquotasItem::default();
    proof {
        assert(Seq::<(String, i32)>::empty() + linhas_tenant@ =~= linhas_tenant@);
    }
    match preencher_linhas(&mut resultado, linhas_tenant, Ghost(Seq::empty())) {
        Ok(()) => {},
        Err(e) => {
            proof {
                lema_invalida_prefixo_da_soma(linhas_tenant@, linhas_referencia@);
            }
            return Err(e);
        },
    }
    match preencher_linhas(&mut resultado, linhas_referencia, Ghost(linhas_tenant@)) {
        Ok(()) => Ok(resultado),
        Err(e) => Err(e),
    }
}

proof fn lema_invalida_prefixo_da_soma(a: Seq<(String, i32)>, b: Seq<(String, i32)>)
    requires
        !todas_validas(a),
    ensures
        !todas_validas(a + b),
        primeira_invalida(a + b) == primeira_invalida(a),
        (a + b)[primeira_invalida(a)] == a[primeira_invalida(a)],
{
    let i = primeira_invalida(a);
    lema_primeira_invalida(a);
    assert((a + b).take(i) =~= a.take(i));
    assert((a + b)[i] == a[i]);
    lema_invalida_no_prefixo(a + b, i);
}

proof fn lema_primeira_invalida(a: Seq<(String, i32)>)
    requires
        !todas_validas(a),
    ensures
        0 <= primeira_invalida(a) < a.len(),
        todas_validas(a.take(primeira_invalida(a))),
        !bps_valida(a[primeira_invalida(a)].1 as int),
    decreases a.len(),
{
    if !todas_validas(a.drop_last()) {
        lema_primeira_invalida(a.drop_last());
        let i = primeira_invalida(a.drop_last());
        assert(a.take(i) =~= a.drop_last().take(i));
        assert(a[i] == a.drop_last()[i]);
    } else {
        assert(a.take(a.len() - 1) =~= a.drop_last());
        if bps_valida(a.last().1 as int) {
            assert forall|k: int| 0 <= k < a.len() implies bps_valida(#[trigger] a[k].1 as int) by {
                if k < a.len() - 1 {
                    assert(a[k] == a.drop_last()[k]);
                }
            }
        }
    }
}

/// Metadados da classe do produto: sem classe, ou classe desconhecida na
/// referência, a tributação é integral; senão vêm da linha da referência.
pub open spec fn classe_info_resolvida(
    classe: Option<ClasseTributaria>,
    linha: Option<(String, i32)>,
    info: ClasseTributariaInfo,
) -> bool {
    match (classe, linha) {
        (Some(c), Some((cst, reducao))) => info.classe == c && info.cst_ibs_cbs == cst && info.reducao_bps
            == reducao,
        _ => info.classe@ == "000001"@ && info.cst_ibs_cbs@ == "000"@ && info.reducao_bps == 0,
    }
}

/// Monta os metadados da classe a partir da linha encontrada na referência.
pub fn classe_info_de(classe: Option<ClasseTributaria>, linha: Option<(String, i32)>) -> (info:
    ClasseTributariaInfo)
    ensures
        classe_info_resolvida(classe, linha, info),
{
    match (classe, linha) {
        (Some(c), Some((cst, reducao))) => ClasseTributariaInfo {
            classe: c,
            cst_ibs_cbs: cst,
            reducao_bps: reducao,
        },
        _ => ClasseTributariaInfo::integral(),
    }
}

} // verus!
