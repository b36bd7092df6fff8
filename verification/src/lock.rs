//! Um usuário por vez.
//!
//! O lock é o que torna segura a decisão de manter o banco direto na pasta de
//! rede: quase toda corrupção de SQLite sobre SMB vem de escrita concorrente, e
//! com ele ela não existe. O arquivo e o handle são do programa em volta; aqui
//! fica o que se decide sobre o `controle.lock.info`: quem está usando, desde
//! quando, e se a tomada de posse pode ser oferecida.

use vstd::prelude::*;

use crate::datahora::{
    analisar_carimbo, datahora_valida, escrita_chrono, formatar_carimbo, formatar_hora,
    leitura_chrono, minutos_entre, minutos_entre_spec, DataHora, FORMATO_CARIMBO, FORMATO_HORA,
};
use crate::erro::{lit, texto, ErroApp};

verus! {

pub const INTERVALO_HEARTBEAT_SEGUNDOS: u64 = 30;

/// Sem esse atraso, tomada de posse vira o botão que todo mundo aperta.
pub const IDADE_PARA_TOMADA_POSSE_MINUTOS: i64 = 10;

pub const FALHAS_PARA_DEGRADAR: u32 = 3;

/// O conteúdo do `controle.lock.info`. Os carimbos são `AAAA-MM-DDTHH:MM:SS`,
/// com segundos: aqui a diferença de segundos entre duas batidas é a
/// informação, não ruído.
#[derive(Debug)]
pub struct InfoLock {
    pub usuario_windows: String,
    pub maquina: String,
    pub pid: u32,
    pub inicio: String,
    pub heartbeat: String,
}

/// Minutos inteiros desde a batida registrada, ou `None` com o carimbo ilegível.
pub open spec fn minutos_desde_heartbeat_spec(info: InfoLock, agora: DataHora) -> Option<int> {
    match leitura_chrono(info.heartbeat@, FORMATO_CARIMBO@) {
        Some(batida) => Some(minutos_entre_spec(batida, agora)),
        None => None,
    }
}

/// A tomada de posse só é oferecida com a batida parada há mais de 10 minutos.
/// Carimbo ilegível não autoriza: não dá para afirmar que o dono sumiu.
pub open spec fn pode_tomar_posse_spec(info: InfoLock, agora: DataHora) -> bool {
    minutos_desde_heartbeat_spec(info, agora) matches Some(m) && m
        > IDADE_PARA_TOMADA_POSSE_MINUTOS
}

/// O início como `HH:MM`, ou o texto gravado quando ele é ilegível.
pub open spec fn hora_de_inicio_spec(info: InfoLock) -> Seq<char> {
    match leitura_chrono(info.inicio@, FORMATO_CARIMBO@) {
        Some(d) => escrita_chrono(d, FORMATO_HORA@),
        None => info.inicio@,
    }
}

impl InfoLock {
    /// O info de uma sessão que começa agora: início e batida iguais.
    pub fn nova(usuario_windows: String, maquina: String, pid: u32, agora: &DataHora) -> (r:
        InfoLock)
        requires
            datahora_valida(*agora),
        ensures
            r.usuario_windows == usuario_windows,
            r.maquina == maquina,
            r.pid == pid,
            r.inicio@ == escrita_chrono(*agora, FORMATO_CARIMBO@),
            r.heartbeat@ == r.inicio@,
    {
        let carimbo = formatar_carimbo(agora);
        InfoLock { usuario_windows, maquina, pid, inicio: carimbo.clone(), heartbeat: carimbo }
    }

    /// Minutos desde o último heartbeat. `None` quando o carimbo é ilegível: aí
    /// a tomada de posse **não** é oferecida.
    pub fn minutos_desde_heartbeat(&self, agora: &DataHora) -> (r: Option<i64>)
        requires
            datahora_valida(*agora),
        ensures
            match minutos_desde_heartbeat_spec(*self, *agora) {
                Some(m) => r == Some(m as i64),
                None => r is None,
            },
    {
        match analisar_carimbo(self.heartbeat.as_str()) {
            Some(batida) => Some(minutos_entre(&batida, agora)),
            None => None,
        }
    }

    pub fn pode_tomar_posse(&self, agora: &DataHora) -> (r: bool)
        requires
            datahora_valida(*agora),
        ensures
            r == pode_tomar_posse_spec(*self, *agora),
    {
        match self.minutos_desde_heartbeat(agora) {
            Some(m) => m > IDADE_PARA_TOMADA_POSSE_MINUTOS,
            None => false,
        }
    }

    /// `08:12`, como a tela de bloqueio mostra.
    pub fn hora_de_inicio(&self) -> (r: String)
        ensures
            r@ == hora_de_inicio_spec(*self),
    {
        match analisar_carimbo(self.inicio.as_str()) {
            Some(d) => formatar_hora(&d),
            None => self.inicio.clone(),
        }
    }
}

/// O lock de sessão. Quem o implementa é o programa em volta, com o mecanismo
/// do sistema operacional: o handle exclusivo do Windows, ou `flock` no
/// desenvolvimento.
pub trait Lock: Sized {
    fn adquirir(caminho: &str) -> Result<Self, ErroApp>;

    fn heartbeat(&self) -> Result<(), ErroApp>;

    fn info(caminho: &str) -> Result<Option<InfoLock>, ErroApp>;

    fn liberar(self);
}

/// `controle.lock.info` é arquivo separado porque o handle exclusivo bloqueia
/// até a leitura do `controle.lock`.
pub fn caminho_info(caminho_lock: &str) -> (r: String)
    ensures
        r@ == caminho_lock@ + lit(".info"),
{
    let mut r = String::from_str(caminho_lock);
    r.append(".info");
    r
}

/// O detalhe `EM_USO:` da recusa: quem, onde e desde quando, ou o aviso de que
/// não deu para saber.
pub open spec fn detalhe_em_uso(info: Option<InfoLock>) -> Seq<char> {
    match info {
        Some(i) => lit("EM_USO:") + i.usuario_windows@ + lit(" · ") + i.maquina@ + lit(" · desde ")
            + hora_de_inicio_spec(i),
        None => lit("EM_USO:não foi possível identificar quem está usando"),
    }
}

/// A recusa de quem tenta abrir o sistema com o lock tomado, a partir do info
/// lido (`None` quando ausente ou ilegível).
pub fn erro_em_uso(info: &Option<InfoLock>) -> (r: ErroApp)
    ensures
        r.codigo@ == lit("VALIDACAO"),
        r.mensagem@ == lit("O sistema já está aberto em outra máquina."),
        r.detalhe matches Some(d) && d@ == detalhe_em_uso(*info),
{
    let detalhe = match info {
        Some(i) => {
            let mut d = String::from_str("EM_USO:");
            d.append(i.usuario_windows.as_str());
            d.append(" · ");
            d.append(i.maquina.as_str());
            d.append(" · desde ");
            let hora = i.hora_de_inicio();
            d.append(hora.as_str());
            d
        },
        None => texto("EM_USO:não foi possível identificar quem está usando"),
    };
    ErroApp::validacao(texto("O sistema já está aberto em outra máquina.")).com_detalhe(detalhe)
}

/// Só o handle exclusivo do Windows protege contra outra máquina na rede; em
/// outro sistema o lock é um stub, e a barra de status é obrigada a dizer.
pub fn lock_e_confiavel(sistema: &str) -> (r: bool)
    ensures
        r == (sistema@ == lit("windows")),
{
    crate::texto::iguais(sistema, "windows")
}

} // verus!
