//! Text helpers: comparing character sequences, case folding and reading an
//! identifier written in decimal.

use vstd::prelude::*;

verus! {

/// What `str::to_lowercase` returns for a string of the given characters.
pub uninterp spec fn minusculas_de(s: Seq<char>) -> Seq<char>;

/// Relies on `str::to_lowercase`: the lower-case form of the text, which
/// depends on its characters alone.
#[verifier::external_body]
pub(crate) fn minusculas(s: &str) -> (r: String)
    ensures
        r@ == minusculas_de(s@),
{
    s.to_lowercase()
}

/// Whether two strings hold the same characters.
pub fn iguales(a: &str, b: &str) -> (r: bool)
    ensures
        r == (a@ == b@),
{
    let n = a.unicode_len();
    if n != b.unicode_len() {
        return false;
    }
    let mut i: usize = 0;
    while i < n
        invariant
            n == a@.len(),
            n == b@.len(),
            i <= n,
            forall|j: int| 0 <= j < i ==> a@[j] == b@[j],
        decreases n - i,
    {
        if a.get_char(i) != b.get_char(i) {
            return false;
        }
        i = i + 1;
    }
    assert(a@ =~= b@);
    true
}

/// An ASCII decimal digit.
pub open spec fn es_digito(c: char) -> bool {
    '0' <= c && c <= '9'
}

/// The value of one decimal digit.
pub open spec fn valor_digito(c: char) -> nat {
    (c as u32 - '0' as u32) as nat
}

/// The value of a sequence of decimal digits, most significant first.
pub open spec fn valor_decimal(d: Seq<char>) -> nat
    decreases d.len(),
{
    if d.len() == 0 {
        0
    } else {
        valor_decimal(d.drop_last()) * 10 + valor_digito(d.last())
    }
}

/// The digits of an identifier as written: the text without one leading `+`.
pub open spec fn cifras(s: Seq<char>) -> Seq<char> {
    if s.len() > 0 && s[0] == '+' {
        s.drop_first()
    } else {
        s
    }
}

/// The identifier that a text denotes: an optional `+` and then one or more
/// decimal digits whose value fits in `u32`; any other text denotes none.
pub open spec fn id_decimal(s: Seq<char>) -> Option<u32> {
    let d = cifras(s);
    if d.len() > 0 && (forall|i: int| 0 <= i < d.len() ==> es_digito(#[trigger] d[i]))
        && valor_decimal(d) <= u32::MAX {
        Some(valor_decimal(d) as u32)
    } else {
        None
    }
}

/// Reads a task identifier written in decimal, as `u32::from_str` does.
pub fn analizar_id(s: &str) -> (r: Option<u32>)
    ensures
        r == id_decimal(s@),
{
    let n = s.unicode_len();
    let mut inicio: usize = 0;
    if n > 0 && s.get_char(0) == '+' {
        inicio = 1;
    }
    let ghost d = cifras(s@);
    assert(d =~= s@.subrange(inicio as int, n as int));
    if inicio == n {
        return None;
    }
    let mut valor: u64 = 0;
    let mut desbordado = false;
    let mut i: usize = inicio;
    while i < n
        invariant
            n == s@.len(),
            inicio <= i <= n,
            d == cifras(s@),
            d =~= s@.subrange(inicio as int, n as int),
            forall|j: int| inicio <= j < i ==> es_digito(#[trigger] s@[j]),
            !desbordado ==> valor == valor_decimal(s@.subrange(inicio as int, i as int)),
            !desbordado ==> valor <= u32::MAX,
            desbordado ==> valor_decimal(s@.subrange(inicio as int, i as int)) > u32::MAX,
        decreases n - i,
    {
        let c = s.get_char(i);
        if !('0' <= c && c <= '9') {
            assert(d[i - inicio] == c);
            return None;
        }
        let ghost previo = s@.subrange(inicio as int, i as int);
        let ghost siguiente = s@.subrange(inicio as int, i + 1);
        assert(siguiente.drop_last() =~= previo);
        assert(siguiente.last() == c);
        let cifra = (c as u32 - '0' as u32) as u64;
        if !desbordado {
            valor = valor * 10 + cifra;
            if valor > u32::MAX as u64 {
                desbordado = true;
            }
        } else {
            assert(valor_decimal(siguiente) >= valor_decimal(previo)) by (nonlinear_arith)
                requires
                    valor_decimal(siguiente) == valor_decimal(previo) * 10 + valor_digito(c),
            ;
        }
        i = i + 1;
    }
    assert(s@.subrange(inicio as int, n as int) =~= d);
    assert(forall|j: int| 0 <= j < d.len() ==> es_digito(#[trigger] d[j])) by {
        assert forall|j: int| 0 <= j < d.len() implies es_digito(#[trigger] d[j]) by {
            assert(d[j] == s@[j + inicio]);
        }
    }
    if desbordado {
        None
    } else {
        Some(valor as u32)
    }
}

} // verus!
