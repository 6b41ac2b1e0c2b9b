//! The command dispatch layer: the six operations the UI invokes, each a
//! decision over plain values. The surrounding binary performs the HTTP
//! attempt and hands its outcome here; every rule about success, error
//! shaping and what may be written locally is decided and proved in this
//! module.

use vstd::prelude::*;
use crate::api::{
    WorkerStatus, WorkerStatusV, KillResult, KillResultV, parse_worker_status_spec,
    parse_worker_status, parse_kill_result_spec, parse_kill_result,
};
use crate::config::{
    SavedConfig, SavedConfigV, ConfigUpdate, ConfigUpdateV, LoadProbe, load_local_config,
    load_result_spec, saved_config_text, saved_of_update,
};
use crate::num::{dec_text, push_u32_dec};
use crate::chars::chars_to_string;

verus! {

/// What one HTTP attempt produced: a transport failure with its detail,
/// or a response with its status code and body text.
#[derive(Debug)]
pub enum HttpOutcome {
    Transport(String),
    Response(u16, String),
}

/// The mathematical value of an `HttpOutcome`.
pub ghost enum HttpOutcomeV {
    Transport(Seq<char>),
    Response(u16, Seq<char>),
}

impl View for HttpOutcome {
    type V = HttpOutcomeV;

    open spec fn view(&self) -> HttpOutcomeV {
        match self {
            HttpOutcome::Transport(d) => HttpOutcomeV::Transport(d@),
            HttpOutcome::Response(code, body) => HttpOutcomeV::Response(*code, body@),
        }
    }
}

/// HTTP success: any status in the 2xx range.
pub open spec fn is_success(code: u16) -> bool {
    200 <= code < 300
}

/// HTTP success: any status in the 2xx range.
pub fn code_is_success(code: u16) -> (b: bool)
    ensures
        b == is_success(code),
{
    200 <= code && code < 300
}

/// The view of a result whose both sides carry strings in exec form.
pub open spec fn res_view<T: View>(r: &Result<T, String>) -> Result<T::V, Seq<char>> {
    match r {
        Ok(v) => Ok(v@),
        Err(m) => Err(m@),
    }
}

/// Concatenate a fixed prefix and a detail text.
fn msg_with_detail(prefix: &str, d: &str) -> (m: String)
    ensures
        m@ == prefix@ + d@,
{
    let mut m = String::from_str(prefix);
    m.append(d);
    m
}

/// Concatenate a fixed prefix and a status code in decimal.
fn msg_with_code(prefix: &str, code: u16) -> (m: String)
    ensures
        m@ == prefix@ + dec_text(code as nat),
{
    let mut v: Vec<char> = Vec::new();
    push_u32_dec(code as u32, &mut v);
    let mut m = String::from_str(prefix);
    let tail = chars_to_string(&v);
    m.append(tail.as_str());
    m
}

/// The status command's outcome: the decoded status on a 2xx response
/// with a well-formed body, an error message otherwise.
pub open spec fn get_worker_status_spec(o: HttpOutcomeV) -> Result<WorkerStatusV, Seq<char>> {
    match o {
        HttpOutcomeV::Transport(d) => Err("Erro ao conectar ao serviço: "@ + d),
        HttpOutcomeV::Response(code, body) => if !is_success(code) {
            Err("Serviço retornou erro: "@ + dec_text(code as nat))
        } else {
            match parse_worker_status_spec(body) {
                Some(ws) => Ok(ws),
                None => Err("Erro ao processar resposta"@),
            }
        },
    }
}

/// Resolve the status command from the HTTP outcome.
pub fn get_worker_status(o: &HttpOutcome) -> (r: Result<WorkerStatus, String>)
    ensures
        res_view(&r) == get_worker_status_spec(o@),
{
    match o {
        HttpOutcome::Transport(d) => Err(msg_with_detail("Erro ao conectar ao serviço: ", d.as_str())),
        HttpOutcome::Response(code, body) => {
            if !code_is_success(*code) {
                Err(msg_with_code("Serviço retornou erro: ", *code))
            } else {
                match parse_worker_status(body.as_str()) {
                    Some(ws) => Ok(ws),
                    None => Err(String::from_str("Erro ao processar resposta")),
                }
            }
        },
    }
}

/// The start command's outcome: a fixed confirmation on any 2xx
/// response, the body ignored; an error message otherwise.
pub open spec fn start_worker_spec(o: HttpOutcomeV) -> Result<Seq<char>, Seq<char>> {
    match o {
        HttpOutcomeV::Transport(d) => Err("Erro ao iniciar worker: "@ + d),
        HttpOutcomeV::Response(code, body) => if !is_success(code) {
            Err("Erro ao iniciar: "@ + dec_text(code as nat))
        } else {
            Ok("Worker iniciado"@)
        },
    }
}

/// Resolve the start command from the HTTP outcome.
pub fn start_worker(o: &HttpOutcome) -> (r: Result<String, String>)
    ensures
        res_view(&r) == start_worker_spec(o@),
{
    match o {
        HttpOutcome::Transport(d) => Err(msg_with_detail("Erro ao iniciar worker: ", d.as_str())),
        HttpOutcome::Response(code, _body) => {
            if !code_is_success(*code) {
                Err(msg_with_code("Erro ao iniciar: ", *code))
            } else {
                Ok(String::from_str("Worker iniciado"))
            }
        },
    }
}

/// The stop command's outcome, symmetric to the start command.
pub open spec fn stop_worker_spec(o: HttpOutcomeV) -> Result<Seq<char>, Seq<char>> {
    match o {
        HttpOutcomeV::Transport(d) => Err("Erro ao parar worker: "@ + d),
        HttpOutcomeV::Response(code, body) => if !is_success(code) {
            Err("Erro ao parar: "@ + dec_text(code as nat))
        } else {
            Ok("Worker parado"@)
        },
    }
}

/// Resolve the stop command from the HTTP outcome.
pub fn stop_worker(o: &HttpOutcome) -> (r: Result<String, String>)
    ensures
        res_view(&r) == stop_worker_spec(o@),
{
    match o {
        HttpOutcome::Transport(d) => Err(msg_with_detail("Erro ao parar worker: ", d.as_str())),
        HttpOutcome::Response(code, _body) => {
            if !code_is_success(*code) {
                Err(msg_with_code("Erro ao parar: ", *code))
            } else {
                Ok(String::from_str("Worker parado"))
            }
        },
    }
}

/// The kill command's outcome: the decoded answer on a 2xx response —
/// `killed == false` is a legitimate answer, not an error — and an error
/// message otherwise.
pub open spec fn kill_automation_spec(o: HttpOutcomeV) -> Result<KillResultV, Seq<char>> {
    match o {
        HttpOutcomeV::Transport(d) => Err("Erro ao matar execução: "@ + d),
        HttpOutcomeV::Response(code, body) => if !is_success(code) {
            Err("Erro ao matar execução: "@ + dec_text(code as nat))
        } else {
            match parse_kill_result_spec(body) {
                Some(k) => Ok(k),
                None => Err("Erro ao processar resposta"@),
            }
        },
    }
}

/// Resolve the kill command from the HTTP outcome.
pub fn kill_automation(o: &HttpOutcome) -> (r: Result<KillResult, String>)
    ensures
        res_view(&r) == kill_automation_spec(o@),
{
    match o {
        HttpOutcome::Transport(d) => Err(msg_with_detail("Erro ao matar execução: ", d.as_str())),
        HttpOutcome::Response(code, body) => {
            if !code_is_success(*code) {
                Err(msg_with_code("Erro ao matar execução: ", *code))
            } else {
                match parse_kill_result(body.as_str()) {
                    Some(k) => Ok(k),
                    None => Err(String::from_str("Erro ao processar resposta")),
                }
            }
        },
    }
}

/// The outcome of the remote half of the save command: the push to the
/// worker must succeed before anything local may change.
pub open spec fn save_config_push_spec(o: HttpOutcomeV) -> Result<(), Seq<char>> {
    match o {
        HttpOutcomeV::Transport(d) => Err("Erro ao salvar configuração: "@ + d),
        HttpOutcomeV::Response(code, body) => if !is_success(code) {
            Err("Erro ao salvar: "@ + dec_text(code as nat))
        } else {
            Ok(())
        },
    }
}

/// Resolve the remote half of the save command from the HTTP outcome.
pub fn save_config_push_result(o: &HttpOutcome) -> (r: Result<(), String>)
    ensures
        match r {
            Ok(_) => save_config_push_spec(o@) is Ok,
            Err(m) => save_config_push_spec(o@) == Err::<(), Seq<char>>(m@),
        },
{
    match o {
        HttpOutcome::Transport(d) => Err(
            msg_with_detail("Erro ao salvar configuração: ", d.as_str()),
        ),
        HttpOutcome::Response(code, _body) => {
            if !code_is_success(*code) {
                Err(msg_with_code("Erro ao salvar: ", *code))
            } else {
                Ok(())
            }
        },
    }
}

/// Conclude the save command once the local write has been attempted:
/// a fixed confirmation on success, the write's own message otherwise.
/// A push success followed by a failed local write still reports the
/// error, although the worker already holds the new configuration; the
/// remote state is deliberately not rolled back.
pub fn save_config_result(w: &Result<(), String>) -> (r: Result<String, String>)
    ensures
        w is Ok ==> res_view(&r) == Ok::<Seq<char>, Seq<char>>("Configuração salva"@),
        w matches Err(d) ==> res_view(&r) == Err::<Seq<char>, Seq<char>>(d@),
{
    match w {
        Ok(_) => Ok(String::from_str("Configuração salva")),
        Err(d) => Err(d.clone()),
    }
}

/// The local file's content after the save command, over the push
/// outcome: only a 2xx push response lets the canonical text of the
/// update's persisted subset replace the prior content.
pub open spec fn save_config_file_after(
    o: HttpOutcomeV,
    prior: Option<Seq<char>>,
    u: ConfigUpdateV,
) -> Option<Seq<char>> {
    if save_config_push_spec(o) is Ok {
        Some(saved_config_text(saved_of_update(u)))
    } else {
        prior
    }
}

/// A rejected push leaves the local file untouched, whatever it held.
pub proof fn lemma_failed_push_leaves_file(
    o: HttpOutcomeV,
    prior: Option<Seq<char>>,
    u: ConfigUpdateV,
)
    requires
        save_config_push_spec(o) is Err,
    ensures
        save_config_file_after(o, prior, u) == prior,
{
}

/// A non-2xx response never yields a decoded status, whatever the body.
pub proof fn lemma_error_status_never_decodes(code: u16, body: Seq<char>)
    requires
        !is_success(code),
    ensures
        get_worker_status_spec(HttpOutcomeV::Response(code, body)) == Err::<
            WorkerStatusV,
            Seq<char>,
        >("Serviço retornou erro: "@ + dec_text(code as nat)),
{
}

/// The config command: a pass-through to the local load, which serves
/// the fixed default whenever no file exists and needs no writable
/// directory.
pub fn get_config(p: &LoadProbe) -> (r: Result<SavedConfig, String>)
    ensures
        match r {
            Ok(c) => load_result_spec(p) == Ok::<SavedConfigV, Seq<char>>(c@),
            Err(m) => load_result_spec(p) == Err::<SavedConfigV, Seq<char>>(m@),
        },
        p is Missing ==> r is Ok,
{
    load_local_config(p)
}

/// The message the binary reports when no per-user configuration
/// directory can be resolved for a save.
pub fn config_dir_unavailable_message() -> (m: String)
    ensures
        m@ == "Não foi possível encontrar diretório de configuração"@,
{
    String::from_str("Não foi possível encontrar diretório de configuração")
}

/// The message the binary reports when creating the configuration
/// directory fails during a save.
pub fn dir_create_error_message(d: &str) -> (m: String)
    ensures
        m@ == "Erro ao criar diretório de configuração: "@ + d@,
{
    msg_with_detail("Erro ao criar diretório de configuração: ", d)
}

/// The message the binary reports when writing the configuration file
/// fails.
pub fn write_error_message(d: &str) -> (m: String)
    ensures
        m@ == "Erro ao salvar arquivo de configuração: "@ + d@,
{
    msg_with_detail("Erro ao salvar arquivo de configuração: ", d)
}

} // verus!
