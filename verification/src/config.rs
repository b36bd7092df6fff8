//! Onde moram os dados e em que modo o sistema roda.
//!
//! O caminho da pasta de rede nunca é compilado no binário: trocar de servidor
//! precisa ser editar o `config.toml` ao lado do executável, não recompilar.
//! Ler o arquivo é do programa em volta; aqui se decide o que ele significa.

use vstd::prelude::*;

use crate::erro::{lit, texto};

verus! {

#[derive(Debug, Clone, Copy, PartialEq, Eq, Structural)]
pub enum Modo {
    Producao,
    Demonstracao,
}

/// O `config.toml` lido. Sem `modo`, vale produção.
#[derive(Debug)]
pub struct ConfigArquivo {
    pub caminho_dados: String,
    pub modo: Modo,
}

pub fn modo_padrao() -> (r: Modo)
    ensures
        r == Modo::Producao,
{
    Modo::Producao
}

#[derive(Debug)]
pub struct Config {
    /// Raiz que contém `dados/`, `backups/` e `relatorios/`.
    pub raiz: String,
    pub modo: Modo,
    /// De onde a configuração veio, para a mensagem de erro dizer o caminho tentado.
    pub origem: String,
}

/// Um nome de arquivo ou pasta: sem separador, sem unidade, e que não é `.` nem
/// `..`.
pub open spec fn nome_simples(n: Seq<char>) -> bool {
    &&& n.len() > 0
    &&& forall|i: int| 0 <= i < n.len() ==> #[trigger] n[i] != '/' && n[i] != '\\' && n[i] != ':'
    &&& n != seq!['.']
    &&& n != seq!['.', '.']
}

/// Um caminho sem o prefixo literal `\\?` do Windows, o único em que a junção
/// reescreve a base.
pub open spec fn base_simples(b: Seq<char>) -> bool {
    !(b.len() >= 3 && b[0] == '\\' && b[1] == '\\' && b[2] == '?')
}

/// Os separadores de caminho: `/` em todo sistema, e também `\` no Windows.
pub open spec fn eh_separador(c: char, windows: bool) -> bool {
    c == '/' || (windows && c == '\\')
}

/// Só uma unidade do Windows, como `C:`: uma letra e dois-pontos, nada mais.
pub open spec fn so_unidade(b: Seq<char>) -> bool {
    &&& b.len() == 2
    &&& b[1] == ':'
    &&& (('a' <= b[0] && b[0] <= 'z') || ('A' <= b[0] && b[0] <= 'Z'))
}

/// `nome` acrescentado a `base` como último componente: o separador principal
/// do sistema (`\` no Windows, `/` nos outros) entre os dois, a não ser que a
/// base esteja vazia, já termine num separador, ou seja, no Windows, só uma
/// unidade (`C:` e `dados` dão `C:dados`, relativo à pasta corrente da
/// unidade). Uma base com unidade e mais coisa depois, como `C:\Frota`, recebe
/// o separador como qualquer outra.
pub open spec fn juntado(base: Seq<char>, nome: Seq<char>, windows: bool) -> Seq<char> {
    if base.len() == 0 || eh_separador(base.last(), windows) || (windows && so_unidade(base)) {
        base + nome
    } else {
        base + seq![if windows {
            '\\'
        } else {
            '/'
        }] + nome
    }
}

/// `r` é `base` com `nome` acrescentado como último componente: termina em
/// `nome` e, numa base sem o prefixo literal, é a junção do Windows ou a dos
/// outros sistemas.
pub open spec fn juncao(base: Seq<char>, nome: Seq<char>, r: Seq<char>) -> bool {
    &&& nome.len() <= r.len()
    &&& r.subrange(r.len() - nome.len(), r.len() as int) == nome
    &&& base_simples(base) ==> (r == juntado(base, nome, false) || r == juntado(base, nome, true))
}

/// Chama `Path::join` de std e devolve o caminho como texto. O contrato diz o
/// que `PathBuf::push` faz com um nome relativo simples: o nome entra como
/// último componente, depois do separador principal do sistema quando a base
/// não está vazia, não termina num separador e não é, no Windows, só uma
/// unidade. Qual dos dois sistemas roda, o contrato não afirma: cada chamada
/// pode ser a de um ou a do outro. Numa base com o prefixo literal `\\?\`,
/// em que a junção normaliza a base, afirma só que o resultado termina no nome.
#[verifier::external_body]
fn juntar_caminho(base: &str, nome: &str) -> (r: String)
    requires
        nome_simples(nome@),
    ensures
        juncao(base@, nome@, r@),
{
    std::path::Path::new(base).join(nome).to_string_lossy().into_owned()
}

/// `arquivo` dentro da pasta `dados` de `raiz`, com o mesmo separador ou outro
/// em cada junção.
pub open spec fn em_dados(raiz: Seq<char>, arquivo: Seq<char>, r: Seq<char>) -> bool {
    exists|w1: bool, w2: bool|
        r == #[trigger] juntado(juntado(raiz, lit("dados"), w1), arquivo, w2)
}

proof fn lema_dados_e_base_simples(raiz: Seq<char>, d: Seq<char>)
    requires
        base_simples(raiz),
        juncao(raiz, lit("dados"), d),
    ensures
        base_simples(d),
        d.len() > 0,
        d.last() == 's',
{
    reveal_strlit("dados");
    let w = if d == juntado(raiz, lit("dados"), false) {
        false
    } else {
        true
    };
    assert(d == juntado(raiz, lit("dados"), w));
    if d.len() >= 3 && d[0] == '\\' && d[1] == '\\' && d[2] == '?' {
        if raiz.len() >= 3 {
            assert(d[0] == raiz[0] && d[1] == raiz[1] && d[2] == raiz[2]);
        }
    }
}

proof fn lema_em_dados(raiz: Seq<char>, d: Seq<char>, arquivo: Seq<char>, r: Seq<char>)
    requires
        base_simples(raiz),
        juncao(raiz, lit("dados"), d),
        juncao(d, arquivo, r),
    ensures
        em_dados(raiz, arquivo, r),
{
    lema_dados_e_base_simples(raiz, d);
    let w1 = d != juntado(raiz, lit("dados"), false);
    let w2 = r != juntado(d, arquivo, false);
    assert(d == juntado(raiz, lit("dados"), w1));
    assert(r == juntado(juntado(raiz, lit("dados"), w1), arquivo, w2));
}

impl Config {
    pub fn dados(&self) -> (r: String)
        ensures
            juncao(self.raiz@, lit("dados"), r@),
    {
        proof {
            reveal_strlit("dados");
        }
        juntar_caminho(self.raiz.as_str(), "dados")
    }

    /// O banco, em `dados/controle.db`.
    pub fn banco(&self) -> (r: String)
        ensures
            exists|d: Seq<char>| juncao(self.raiz@, lit("dados"), d) && juncao(d, lit("controle.db"), r@),
            base_simples(self.raiz@) ==> em_dados(self.raiz@, lit("controle.db"), r@),
    {
        proof {
            reveal_strlit("controle.db");
        }
        let d = self.dados();
        let r = juntar_caminho(d.as_str(), "controle.db");
        assert(juncao(self.raiz@, lit("dados"), d@) && juncao(d@, lit("controle.db"), r@));
        proof {
            if base_simples(self.raiz@) {
                lema_em_dados(self.raiz@, d@, lit("controle.db"), r@);
            }
        }
        r
    }

    /// O lock, na mesma pasta do banco: `dados/controle.lock`.
    pub fn lock(&self) -> (r: String)
        ensures
            exists|d: Seq<char>| juncao(self.raiz@, lit("dados"), d) && juncao(d, lit("controle.lock"), r@),
            base_simples(self.raiz@) ==> em_dados(self.raiz@, lit("controle.lock"), r@),
    {
        proof {
            reveal_strlit("controle.lock");
        }
        let d = self.dados();
        let r = juntar_caminho(d.as_str(), "controle.lock");
        assert(juncao(self.raiz@, lit("dados"), d@) && juncao(d@, lit("controle.lock"), r@));
        proof {
            if base_simples(self.raiz@) {
                lema_em_dados(self.raiz@, d@, lit("controle.lock"), r@);
            }
        }
        r
    }

    pub fn backups(&self) -> (r: String)
        ensures
            juncao(self.raiz@, lit("backups"), r@),
    {
        proof {
            reveal_strlit("backups");
        }
        juntar_caminho(self.raiz.as_str(), "backups")
    }

    pub fn relatorios(&self) -> (r: String)
        ensures
            juncao(self.raiz@, lit("relatorios"), r@),
    {
        proof {
            reveal_strlit("relatorios");
        }
        juntar_caminho(self.raiz.as_str(), "relatorios")
    }

    pub fn demonstracao(&self) -> (r: bool)
        ensures
            r == (self.modo == Modo::Demonstracao),
    {
        self.modo == Modo::Demonstracao
    }
}

/// Em demonstração a base fica ao lado do executável, em `dados-demo`, e nunca
/// num caminho configurado: não há como apontar a apresentação para dado real
/// por engano.
pub fn config_demo(pasta: &str, origem: String) -> (r: Config)
    ensures
        juncao(pasta@, lit("dados-demo"), r.raiz@),
        r.modo == Modo::Demonstracao,
        r.origem == origem,
{
    proof {
        reveal_strlit("dados-demo");
    }
    Config { raiz: juntar_caminho(pasta, "dados-demo"), modo: Modo::Demonstracao, origem }
}

/// O que o `config.toml` lido em `arquivo` significa.
pub fn config_lida(pasta: &str, arquivo: &str, lido: ConfigArquivo) -> (r: Config)
    ensures
        lido.modo == Modo::Demonstracao ==> juncao(pasta@, lit("dados-demo"), r.raiz@),
        lido.modo == Modo::Producao ==> r.raiz == lido.caminho_dados,
        r.modo == lido.modo,
        r.origem@ == arquivo@,
{
    if lido.modo == Modo::Demonstracao {
        config_demo(pasta, texto(arquivo))
    } else {
        Config { raiz: lido.caminho_dados, modo: lido.modo, origem: texto(arquivo) }
    }
}

/// Sem `config.toml` ao lado do executável, o sistema está rodando do ambiente
/// de desenvolvimento: cai numa pasta local em modo produção, e o resto do
/// código não sabe a diferença entre ela e um caminho de rede.
pub fn config_desenvolvimento(tentado: &str) -> (r: Config)
    ensures
        r.raiz@ == lit("dados-dev"),
        r.modo == Modo::Producao,
        r.origem@ == lit("padrão de desenvolvimento (nenhum ") + tentado@ + lit(")"),
{
    let mut origem = String::from_str("padrão de desenvolvimento (nenhum ");
    origem.append(tentado);
    origem.append(")");
    Config { raiz: texto("dados-dev"), modo: Modo::Producao, origem }
}

} // verus!
