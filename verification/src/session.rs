//! State of the process's single transcription session. The session object
//! itself — a socket to the transcription server — lives with the embedding
//! program; this module decides which commands are legal when, and enforces
//! the rule that at most one session is open per process.

use vstd::prelude::*;

verus! {

/// The transcription commands the front end can issue.
#[derive(Clone, Copy, PartialEq, Eq, Structural, Debug)]
pub enum Comando {
    IniciarWrapper,
    IniciarTranscricao,
    PararTranscricao,
    RetomarTranscricao,
    PegarTexto,
}

/// What the embedding program must do with the session for a command.
#[derive(Clone, Copy, PartialEq, Eq, Structural, Debug)]
pub enum Acao {
    /// Open a new session against the transcription server.
    AbrirSessao,
    /// Tell the open session to begin streaming.
    ComecarEnvio,
    /// Tear the session down, open or not; closing its socket is the
    /// server's signal to restart.
    EncerrarSessao,
    /// Tell the open session to resume.
    RetomarEnvio,
    /// Read the text the open session has accumulated.
    LerTexto,
}

/// Why a command was rejected without touching the session.
#[derive(Clone, Copy, PartialEq, Eq, Structural, Debug)]
pub enum ComandoErro {
    /// A session is already open; at most one may exist per process.
    JaIniciado,
    /// No session is open yet.
    NaoIniciado,
}

/// What each command decides, given whether a session is open: starting a
/// second session is rejected, commands that need a session are rejected
/// while none is open, and tearing down is always allowed.
pub open spec fn decisao(ativa: bool, c: Comando) -> Result<Acao, ComandoErro> {
    match c {
        Comando::IniciarWrapper => if ativa {
            Err(ComandoErro::JaIniciado)
        } else {
            Ok(Acao::AbrirSessao)
        },
        Comando::IniciarTranscricao => if ativa {
            Ok(Acao::ComecarEnvio)
        } else {
            Err(ComandoErro::NaoIniciado)
        },
        Comando::PararTranscricao => Ok(Acao::EncerrarSessao),
        Comando::RetomarTranscricao => if ativa {
            Ok(Acao::RetomarEnvio)
        } else {
            Err(ComandoErro::NaoIniciado)
        },
        Comando::PegarTexto => if ativa {
            Ok(Acao::LerTexto)
        } else {
            Err(ComandoErro::NaoIniciado)
        },
    }
}

/// Whether a session is open after an action's outcome is reported back:
/// opening succeeds or leaves none, tearing down always leaves none, every
/// other action leaves the session as it was.
pub open spec fn proxima(ativa: bool, a: Acao, sucesso: bool) -> bool {
    match a {
        Acao::AbrirSessao => sucesso,
        Acao::EncerrarSessao => false,
        _ => ativa,
    }
}

/// Tracks whether the process's single transcription session is open.
#[derive(Clone, Copy, PartialEq, Eq, Structural, Debug)]
pub struct Estado {
    pub sessao_ativa: bool,
}

impl Estado {
    /// A fresh state: no session open.
    pub fn new() -> (e: Estado)
        ensures
            !e.sessao_ativa,
    {
        Estado { sessao_ativa: false }
    }

    /// Decides a command against the current state without changing it.
    pub fn despachar(&self, c: Comando) -> (r: Result<Acao, ComandoErro>)
        ensures
            r == decisao(self.sessao_ativa, c),
    {
        match c {
            Comando::IniciarWrapper => if self.sessao_ativa {
                Err(ComandoErro::JaIniciado)
            } else {
                Ok(Acao::AbrirSessao)
            },
            Comando::IniciarTranscricao => if self.sessao_ativa {
                Ok(Acao::ComecarEnvio)
            } else {
                Err(ComandoErro::NaoIniciado)
            },
            Comando::PararTranscricao => Ok(Acao::EncerrarSessao),
            Comando::RetomarTranscricao => if self.sessao_ativa {
                Ok(Acao::RetomarEnvio)
            } else {
                Err(ComandoErro::NaoIniciado)
            },
            Comando::PegarTexto => if self.sessao_ativa {
                Ok(Acao::LerTexto)
            } else {
                Err(ComandoErro::NaoIniciado)
            },
        }
    }

    /// Records the outcome of the action the embedding program performed.
    pub fn concluir(&mut self, a: Acao, sucesso: bool)
        ensures
            final(self).sessao_ativa == proxima(old(self).sessao_ativa, a, sucesso),
    {
        match a {
            Acao::AbrirSessao => {
                self.sessao_ativa = sucesso;
            }
            Acao::EncerrarSessao => {
                self.sessao_ativa = false;
            }
            Acao::ComecarEnvio => {
            }
            Acao::RetomarEnvio => {
            }
            Acao::LerTexto => {
            }
        }
    }
}

/// While a session is open, a start command is always rejected: the process
/// never holds two sessions.
pub proof fn lemma_sessao_unica(ativa: bool)
    ensures
        ativa ==> decisao(ativa, Comando::IniciarWrapper) == Err::<Acao, ComandoErro>(
            ComandoErro::JaIniciado,
        ),
{
}

/// Tearing down always clears the way: right after a stop, whatever its
/// outcome and the state before it, starting a session is allowed.
pub proof fn lemma_parar_permite_iniciar(ativa: bool, sucesso: bool)
    ensures
        decisao(proxima(ativa, Acao::EncerrarSessao, sucesso), Comando::IniciarWrapper)
            == Ok::<Acao, ComandoErro>(Acao::AbrirSessao),
{
}

} // verus!
