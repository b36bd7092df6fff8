//! Texto como sequência de `char`: espaço em branco, aparar, juntar, números
//! decimais e a conversão entre `&str`, `Vec<char>` e `String`.

use vstd::prelude::*;

verus! {

/// Os pontos de código com a propriedade Unicode `White_Space`, que é o que
/// `char::is_whitespace` reconhece.
pub open spec fn eh_espaco_spec(c: char) -> bool {
    let u = c as u32;
    ||| (0x09 <= u && u <= 0x0D)
    ||| u == 0x20
    ||| u == 0x85
    ||| u == 0xA0
    ||| u == 0x1680
    ||| (0x2000 <= u && u <= 0x200A)
    ||| u == 0x2028
    ||| u == 0x2029
    ||| u == 0x202F
    ||| u == 0x205F
    ||| u == 0x3000
}

#[verifier::when_used_as_spec(eh_espaco_spec)]
pub fn eh_espaco(c: char) -> (r: bool)
    ensures
        r == eh_espaco_spec(c),
{
    let u = c as u32;
    (0x09 <= u && u <= 0x0D) || u == 0x20 || u == 0x85 || u == 0xA0 || u == 0x1680 || (0x2000
        <= u && u <= 0x200A) || u == 0x2028 || u == 0x2029 || u == 0x202F || u == 0x205F || u
        == 0x3000
}

/// Os `char` de um `&str`, na ordem.
pub fn chars_de(s: &str) -> (r: Vec<char>)
    ensures
        r@ == s@,
{
    let n = s.unicode_len();
    let mut r: Vec<char> = Vec::new();
    let mut i: usize = 0;
    while i < n
        invariant
            n == s@.len(),
            i <= n,
            r@ == s@.subrange(0, i as int),
        decreases n - i,
    {
        let c = s.get_char(i);
        r.push(c);
        i = i + 1;
        assert(r@ =~= s@.subrange(0, i as int));
    }
    assert(r@ =~= s@);
    r
}

/// `String::push`.
#[verifier::external_body]
fn empurrar(s: &mut String, c: char)
    ensures
        final(s)@ == old(s)@.push(c),
{
    s.push(c);
}

/// O `String` com exatamente estes `char`.
pub fn string_de(v: &Vec<char>) -> (r: String)
    ensures
        r@ == v@,
{
    let mut r = String::new();
    let mut i: usize = 0;
    while i < v.len()
        invariant
            i <= v.len(),
            r@ == v@.subrange(0, i as int),
        decreases v.len() - i,
    {
        empurrar(&mut r, v[i]);
        i = i + 1;
        assert(r@ =~= v@.subrange(0, i as int));
    }
    assert(r@ =~= v@);
    r
}


/// `str::trim_start`: sem os espaços do começo.
pub open spec fn aparar_inicio(s: Seq<char>) -> Seq<char>
    decreases s.len(),
{
    if s.len() > 0 && eh_espaco_spec(s[0]) {
        aparar_inicio(s.drop_first())
    } else {
        s
    }
}

/// `str::trim_end`: sem os espaços do fim.
pub open spec fn aparar_fim(s: Seq<char>) -> Seq<char>
    decreases s.len(),
{
    if s.len() > 0 && eh_espaco_spec(s.last()) {
        aparar_fim(s.drop_last())
    } else {
        s
    }
}

/// `str::trim`.
pub open spec fn aparar_spec(s: Seq<char>) -> Seq<char> {
    aparar_fim(aparar_inicio(s))
}

proof fn lema_aparar_inicio_passo(s: Seq<char>, i: int)
    requires
        0 <= i < s.len(),
        eh_espaco_spec(s[i]),
    ensures
        aparar_inicio(s.subrange(i, s.len() as int)) == aparar_inicio(
            s.subrange(i + 1, s.len() as int),
        ),
{
    assert(s.subrange(i, s.len() as int).drop_first() =~= s.subrange(i + 1, s.len() as int));
}

proof fn lema_aparar_fim_passo(s: Seq<char>, j: int)
    requires
        0 < j <= s.len(),
        eh_espaco_spec(s[j - 1]),
    ensures
        aparar_fim(s.subrange(0, j)) == aparar_fim(s.subrange(0, j - 1)),
{
    assert(s.subrange(0, j).drop_last() =~= s.subrange(0, j - 1));
}

/// `str::trim` sobre uma sequência de `char`.
pub fn aparar(s: &Vec<char>) -> (r: Vec<char>)
    ensures
        r@ == aparar_spec(s@),
{
    let n = s.len();
    let mut i: usize = 0;
    assert(s@.subrange(0, n as int) =~= s@);
    while i < n && eh_espaco(s[i])
        invariant
            n == s@.len(),
            i <= n,
            aparar_inicio(s@) == aparar_inicio(s@.subrange(i as int, n as int)),
        decreases n - i,
    {
        proof {
            lema_aparar_inicio_passo(s@, i as int);
        }
        i = i + 1;
    }
    let ghost inicio = s@.subrange(i as int, n as int);
    assert(s@.subrange(0, n as int) =~= s@);
    assert(aparar_inicio(inicio) == inicio);
    let mut j: usize = n;
    assert(inicio.subrange(0, (n - i) as int) =~= inicio);
    while j > i && eh_espaco(s[j - 1])
        invariant
            n == s@.len(),
            i <= j <= n,
            inicio == s@.subrange(i as int, n as int),
            aparar_fim(inicio) == aparar_fim(inicio.subrange(0, j - i)),
        decreases j - i,
    {
        proof {
            lema_aparar_fim_passo(inicio, (j - i) as int);
            assert(inicio.subrange(0, (j - i) - 1) =~= inicio.subrange(0, (j - 1 - i) as int));
        }
        j = j - 1;
    }
    let mut r: Vec<char> = Vec::new();
    let mut k: usize = i;
    while k < j
        invariant
            i <= k <= j <= n,
            n == s@.len(),
            r@ == s@.subrange(i as int, k as int),
        decreases j - k,
    {
        r.push(s[k]);
        k = k + 1;
        assert(r@ =~= s@.subrange(i as int, k as int));
    }
    assert(inicio.subrange(0, j - i) =~= s@.subrange(i as int, j as int));
    assert(aparar_fim(inicio.subrange(0, j - i)) == inicio.subrange(0, j - i));
    r
}


/// As partes separadas por `sep`, coladas de volta: `[..].join(sep)`.
pub open spec fn juntar(p: Seq<Seq<char>>, sep: char) -> Seq<char>
    decreases p.len(),
{
    if p.len() == 0 {
        Seq::empty()
    } else if p.len() == 1 {
        p[0]
    } else {
        juntar(p.drop_last(), sep).push(sep) + p.last()
    }
}

/// As palavras de `s`, como `str::split_whitespace` as entrega: trechos
/// máximos sem espaço, na ordem.
pub open spec fn palavras(s: Seq<char>) -> Seq<Seq<char>>
    decreases s.len(),
{
    if s.len() == 0 {
        Seq::empty()
    } else {
        let p = palavras(s.drop_last());
        let c = s.last();
        if eh_espaco_spec(c) {
            p
        } else if s.len() >= 2 && !eh_espaco_spec(s[s.len() - 2]) {
            p.update(p.len() - 1, p.last().push(c))
        } else {
            p.push(seq![c])
        }
    }
}

/// `split_whitespace().collect::<Vec<_>>().join(" ")`: espaços das pontas
/// somem e cada sequência de espaços vira um espaço só.
pub open spec fn colapsar_spec(s: Seq<char>) -> Seq<char> {
    juntar(palavras(s), ' ')
}

/// `s` sem nenhum espaço.
pub open spec fn sem_espacos_spec(s: Seq<char>) -> Seq<char> {
    s.filter(|c: char| !eh_espaco_spec(c))
}

/// Uma sequência que termina em algo que não é espaço tem ao menos uma palavra,
/// e toda palavra é não vazia e sem espaço.
pub proof fn lema_palavras(s: Seq<char>)
    ensures
        s.len() > 0 && !eh_espaco_spec(s.last()) ==> palavras(s).len() > 0,
        forall|k: int|
            0 <= k < palavras(s).len() ==> (#[trigger] palavras(s)[k]).len() > 0 && forall|
                m: int,
            |
                0 <= m < palavras(s)[k].len() ==> !eh_espaco_spec(#[trigger] palavras(s)[k][m]),
    decreases s.len(),
{
    if s.len() > 0 {
        lema_palavras(s.drop_last());
        let p = palavras(s.drop_last());
        let c = s.last();
        if !eh_espaco_spec(c) && s.len() >= 2 && !eh_espaco_spec(s[s.len() - 2]) {
            assert(s.drop_last().last() == s[s.len() - 2]);
            let w = p.last().push(c);
            assert forall|m: int| 0 <= m < w.len() implies !eh_espaco_spec(w[m]) by {
                if m < p.last().len() {
                    assert(w[m] == p[p.len() - 1][m]);
                }
            }
        }
    }
}

pub proof fn lema_juntar_estende(p: Seq<Seq<char>>, c: char, sep: char)
    requires
        p.len() > 0,
    ensures
        juntar(p.update(p.len() - 1, p.last().push(c)), sep) == juntar(p, sep).push(c),
{
    let q = p.update(p.len() - 1, p.last().push(c));
    if p.len() > 1 {
        assert(q.drop_last() =~= p.drop_last());
        assert(juntar(q, sep) == juntar(p.drop_last(), sep).push(sep) + p.last().push(c));
        assert(juntar(p.drop_last(), sep).push(sep) + p.last().push(c) =~= (juntar(
            p.drop_last(),
            sep,
        ).push(sep) + p.last()).push(c));
    }
}

pub proof fn lema_juntar_acrescenta(p: Seq<Seq<char>>, w: Seq<char>, sep: char)
    ensures
        juntar(p.push(w), sep) == if p.len() == 0 {
            w
        } else {
            juntar(p, sep).push(sep) + w
        },
{
    assert(p.push(w).drop_last() =~= p);
}

/// `split_whitespace().collect::<Vec<_>>().join(" ")` sobre `char`.
pub fn colapsar(s: &Vec<char>) -> (r: Vec<char>)
    ensures
        r@ == colapsar_spec(s@),
{
    let n = s.len();
    let mut r: Vec<char> = Vec::new();
    let mut tem_palavra = false;
    let mut i: usize = 0;
    while i < n
        invariant
            n == s@.len(),
            i <= n,
            r@ == juntar(palavras(s@.take(i as int)), ' '),
            tem_palavra == (palavras(s@.take(i as int)).len() > 0),
        decreases n - i,
    {
        let c = s[i];
        let ghost t = s@.take(i as int);
        let ghost t1 = s@.take(i + 1);
        proof {
            assert(t1.drop_last() =~= t);
            assert(t1.last() == c);
            if i >= 1 {
                assert(t1[t1.len() - 2] == s@[i - 1]);
                assert(t.last() == s@[i - 1]);
            }
            lema_palavras(t);
        }
        if eh_espaco(c) {
        } else if i >= 1 && !eh_espaco(s[i - 1]) {
            proof {
                lema_juntar_estende(palavras(t), c, ' ');
            }
            r.push(c);
        } else {
            proof {
                lema_juntar_acrescenta(palavras(t), seq![c], ' ');
            }
            if tem_palavra {
                r.push(' ');
            }
            r.push(c);
            proof {
                if palavras(t).len() == 0 {
                    assert(r@ =~= seq![c]);
                } else {
                    assert(r@ =~= juntar(palavras(t), ' ').push(' ') + seq![c]);
                }
            }
            tem_palavra = true;
        }
        i = i + 1;
    }
    assert(s@.take(n as int) =~= s@);
    r
}

/// `s` sem nenhum espaço.
pub fn sem_espacos(s: &Vec<char>) -> (r: Vec<char>)
    ensures
        r@ == sem_espacos_spec(s@),
{
    let mut r: Vec<char> = Vec::new();
    let mut i: usize = 0;
    while i < s.len()
        invariant
            i <= s.len(),
            r@ == sem_espacos_spec(s@.take(i as int)),
        decreases s.len() - i,
    {
        proof {
            assert(s@.take(i + 1).drop_last() =~= s@.take(i as int));
            reveal_with_fuel(Seq::filter, 1);
        }
        if !eh_espaco(s[i]) {
            r.push(s[i]);
        }
        i = i + 1;
    }
    assert(s@.take(s.len() as int) =~= s@);
    r
}


/// `p` aparece dentro de `s` a partir da posição `i`.
pub open spec fn ocorre_em(s: Seq<char>, p: Seq<char>, i: int) -> bool {
    0 <= i && i + p.len() <= s.len() && s.subrange(i, i + p.len()) == p
}

/// `str::contains` com um padrão de texto.
pub open spec fn contem_spec(s: Seq<char>, p: Seq<char>) -> bool {
    exists|i: int| ocorre_em(s, p, i)
}

fn ocorre_aqui(s: &Vec<char>, p: &Vec<char>, i: usize) -> (r: bool)
    requires
        i + p.len() <= s.len(),
    ensures
        r == ocorre_em(s@, p@, i as int),
{
    let mut k: usize = 0;
    while k < p.len()
        invariant
            i + p.len() <= s.len(),
            k <= p.len(),
            s@.subrange(i as int, i + k) == p@.subrange(0, k as int),
        decreases p.len() - k,
    {
        if s[i + k] != p[k] {
            assert(s@.subrange(i as int, i + p.len())[k as int] != p@[k as int]);
            return false;
        }
        k = k + 1;
        assert(s@.subrange(i as int, i + k) =~= p@.subrange(0, k as int));
    }
    assert(p@.subrange(0, p.len() as int) =~= p@);
    true
}

/// `str::contains` sobre `char`.
pub fn contem(s: &Vec<char>, p: &Vec<char>) -> (r: bool)
    ensures
        r == contem_spec(s@, p@),
{
    if p.len() > s.len() {
        return false;
    }
    let fim = s.len() - p.len();
    let mut i: usize = 0;
    loop
        invariant
            p.len() <= s.len(),
            fim == s.len() - p.len(),
            i <= fim,
            forall|j: int| 0 <= j < i ==> !ocorre_em(s@, p@, j),
        decreases fim - i,
    {
        if ocorre_aqui(s, p, i) {
            return true;
        }
        if i == fim {
            return false;
        }
        i = i + 1;
    }
}

/// `str::contains` entre dois `&str`.
pub fn contem_str(s: &str, p: &str) -> (r: bool)
    ensures
        r == contem_spec(s@, p@),
{
    contem(&chars_de(s), &chars_de(p))
}


/// O `char` do algarismo `n`, de 0 a 9.
pub open spec fn digito(n: int) -> char {
    (48 + n) as char
}

/// Os algarismos decimais de `n`, sem zeros à esquerda.
pub open spec fn digitos(n: nat) -> Seq<char>
    decreases n,
{
    if n < 10 {
        seq![digito(n as int)]
    } else {
        digitos(n / 10).push(digito((n % 10) as int))
    }
}

/// Um inteiro escrito em decimal, como `Display` escreve: `-` na frente dos
/// negativos, nenhum zero à esquerda.
pub open spec fn decimal_spec(n: int) -> Seq<char> {
    if n < 0 {
        seq!['-'] + digitos((-n) as nat)
    } else {
        digitos(n as nat)
    }
}

pub fn char_digito(n: u64) -> (c: char)
    requires
        n < 10,
    ensures
        c == digito(n as int),
{
    let b: u8 = 48u8 + n as u8;
    let c = b as char;
    assert(c == digito(n as int)) by {
        assert(b == 48 + n);
    }
    c
}

pub fn escrever_digitos(n: u64, saida: &mut Vec<char>)
    ensures
        final(saida)@ == old(saida)@ + digitos(n as nat),
    decreases n,
{
    if n < 10 {
        saida.push(char_digito(n));
        assert(saida@ =~= old(saida)@ + digitos(n as nat));
    } else {
        escrever_digitos(n / 10, saida);
        saida.push(char_digito(n % 10));
        assert(saida@ =~= old(saida)@ + digitos(n as nat));
    }
}

/// Os algarismos de um número de até 128 bits.
pub fn escrever_digitos_largo(n: u128, saida: &mut Vec<char>)
    ensures
        final(saida)@ == old(saida)@ + digitos(n as nat),
    decreases n,
{
    if n < 10 {
        saida.push(char_digito(n as u64));
        assert(saida@ =~= old(saida)@ + digitos(n as nat));
    } else {
        escrever_digitos_largo(n / 10, saida);
        saida.push(char_digito((n % 10) as u64));
        assert(saida@ =~= old(saida)@ + digitos(n as nat));
    }
}

/// `n.to_string()` para um inteiro com sinal.
pub fn decimal(n: i64) -> (r: Vec<char>)
    ensures
        r@ == decimal_spec(n as int),
{
    let mut r: Vec<char> = Vec::new();
    if n < 0 {
        r.push('-');
        let m: u64 = (-(n as i128)) as u64;
        escrever_digitos(m, &mut r);
        assert(r@ =~= decimal_spec(n as int));
    } else {
        escrever_digitos(n as u64, &mut r);
        assert(r@ =~= decimal_spec(n as int));
    }
    r
}

/// `s` seguido de `t`.
pub fn anexar(s: &mut Vec<char>, t: &Vec<char>)
    ensures
        final(s)@ == old(s)@ + t@,
{
    let mut i: usize = 0;
    while i < t.len()
        invariant
            i <= t.len(),
            s@ == old(s)@ + t@.subrange(0, i as int),
        decreases t.len() - i,
    {
        s.push(t[i]);
        i = i + 1;
        assert(s@ =~= old(s)@ + t@.subrange(0, i as int));
    }
    assert(t@.subrange(0, t.len() as int) =~= t@);
}

/// Os `char` de um literal, anexados.
pub fn anexar_str(s: &mut Vec<char>, t: &str)
    ensures
        final(s)@ == old(s)@ + t@,
{
    let v = chars_de(t);
    anexar(s, &v);
}


/// `a == b` entre dois textos.
pub fn iguais(a: &str, b: &str) -> (r: bool)
    ensures
        r == (a@ == b@),
{
    let x = chars_de(a);
    let y = chars_de(b);
    if x.len() != y.len() {
        return false;
    }
    let mut i: usize = 0;
    while i < x.len()
        invariant
            x.len() == y.len(),
            i <= x.len(),
            x@ == a@,
            y@ == b@,
            x@.subrange(0, i as int) == y@.subrange(0, i as int),
        decreases x.len() - i,
    {
        if x[i] != y[i] {
            return false;
        }
        i = i + 1;
        assert(x@.subrange(0, i as int) =~= y@.subrange(0, i as int));
    }
    assert(x@ =~= x@.subrange(0, i as int));
    assert(y@ =~= y@.subrange(0, i as int));
    true
}

/// O texto sem o espaço em branco das pontas, como `str::trim`.
pub fn aparado(s: &str) -> (r: String)
    ensures
        r@ == aparar_spec(s@),
{
    string_de(&aparar(&chars_de(s)))
}

pub open spec fn vista(o: Option<String>) -> Option<Seq<char>> {
    match o {
        Some(s) => Some(s@),
        None => None,
    }
}

/// Um campo opcional aparado, e vazio vira ausente.
pub open spec fn limpo_spec(o: Option<String>) -> Option<Seq<char>> {
    match o {
        Some(s) => if aparar_spec(s@).len() == 0 {
            None
        } else {
            Some(aparar_spec(s@))
        },
        None => None,
    }
}

pub fn limpar(valor: &Option<String>) -> (r: Option<String>)
    ensures
        vista(r) == limpo_spec(*valor),
{
    match valor {
        Some(v) => if tamanho_aparado(v.as_str()) == 0 {
            None
        } else {
            Some(aparado(v.as_str()))
        },
        None => None,
    }
}

/// Quantos `char` sobram depois de aparar.
pub fn tamanho_aparado(s: &str) -> (r: usize)
    ensures
        r == aparar_spec(s@).len(),
{
    aparar(&chars_de(s)).len()
}


/// `a < b` na ordem de `String`: lexicográfica, `char` a `char`, e o prefixo
/// vem antes.
pub open spec fn menor_lex(a: Seq<char>, b: Seq<char>) -> bool
    decreases a.len(),
{
    if a.len() == 0 {
        b.len() > 0
    } else if b.len() == 0 {
        false
    } else if a[0] != b[0] {
        (a[0] as u32) < (b[0] as u32)
    } else {
        menor_lex(a.drop_first(), b.drop_first())
    }
}

/// `a < b` entre dois textos, na ordem de `String`.
pub fn menor(a: &str, b: &str) -> (r: bool)
    ensures
        r == menor_lex(a@, b@),
{
    let x = chars_de(a);
    let y = chars_de(b);
    let mut i: usize = 0;
    assert(a@.skip(0) =~= a@);
    assert(b@.skip(0) =~= b@);
    while i < x.len() && i < y.len() && x[i] == y[i]
        invariant
            i <= x.len(),
            i <= y.len(),
            x@ == a@,
            y@ == b@,
            menor_lex(a@, b@) == menor_lex(a@.skip(i as int), b@.skip(i as int)),
        decreases x.len() - i,
    {
        assert(a@.skip(i as int).drop_first() =~= a@.skip(i + 1));
        assert(b@.skip(i as int).drop_first() =~= b@.skip(i + 1));
        i = i + 1;
    }
    assert(a@.skip(i as int).len() == a@.len() - i);
    assert(b@.skip(i as int).len() == b@.len() - i);
    if i == x.len() {
        i < y.len()
    } else if i == y.len() {
        false
    } else {
        assert(a@.skip(i as int)[0] == x@[i as int]);
        assert(b@.skip(i as int)[0] == y@[i as int]);
        (x[i] as u32) < (y[i] as u32)
    }
}


/// As partes coladas com o separador `sep` entre cada duas: `join(sep)`.
pub open spec fn juntar_com(p: Seq<Seq<char>>, sep: Seq<char>) -> Seq<char>
    decreases p.len(),
{
    if p.len() == 0 {
        Seq::empty()
    } else if p.len() == 1 {
        p[0]
    } else {
        juntar_com(p.drop_last(), sep) + sep + p.last()
    }
}

/// `partes.join(sep)`.
pub fn juntar_exec(partes: &Vec<Vec<char>>, sep: &str) -> (r: Vec<char>)
    ensures
        r@ == juntar_com(partes@.map_values(|c: Vec<char>| c@), sep@),
{
    let ghost vistas = partes@.map_values(|c: Vec<char>| c@);
    let mut r: Vec<char> = Vec::new();
    let mut i: usize = 0;
    while i < partes.len()
        invariant
            i <= partes.len(),
            vistas == partes@.map_values(|c: Vec<char>| c@),
            r@ == juntar_com(vistas.take(i as int), sep@),
        decreases partes.len() - i,
    {
        assert(vistas.take(i + 1).drop_last() =~= vistas.take(i as int));
        if i > 0 {
            anexar_str(&mut r, sep);
        }
        anexar(&mut r, &partes[i]);
        i = i + 1;
        assert(r@ =~= juntar_com(vistas.take(i as int), sep@));
    }
    assert(vistas.take(partes.len() as int) =~= vistas);
    r
}

} // verus!
