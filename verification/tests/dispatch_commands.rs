use worker_panel::api::{encode_push_body, endpoint_url, endpoint_is_get, Endpoint};
use worker_panel::config::ConfigUpdate;
use worker_panel::dispatch::{
    get_worker_status, start_worker, stop_worker, kill_automation, save_config_push_result,
    save_config_result, HttpOutcome,
};

fn resp(code: u16, body: &str) -> HttpOutcome {
    HttpOutcome::Response(code, body.to_string())
}

const STATUS_BODY: &str = "{\"running\":true,\"worker_name\":\"RPA-Worker-01\",\"version\":\"1.4.2\",\"has_active_execution\":false,\"current_execution_id\":null,\"current_execution_pid\":null,\"last_heartbeat\":\"2024-05-01T10:00:00\",\"stats\":{\"executions_completed\":12,\"executions_failed\":3,\"started_at\":\"2024-05-01T08:00:00\"},\"config\":{\"orchestrator_url\":\"http://localhost:8000\",\"polling_interval\":5,\"heartbeat_interval\":30}}";

#[test]
fn status_500_is_a_service_error() {
    let r = get_worker_status(&resp(500, STATUS_BODY));
    assert_eq!(r.unwrap_err(), "Serviço retornou erro: 500");
}

#[test]
fn status_transport_failure() {
    let r = get_worker_status(&HttpOutcome::Transport("connection refused".to_string()));
    assert_eq!(r.unwrap_err(), "Erro ao conectar ao serviço: connection refused");
}

#[test]
fn status_2xx_decodes_the_body() {
    let ws = get_worker_status(&resp(200, STATUS_BODY)).unwrap();
    assert!(ws.running);
    assert_eq!(ws.worker_name, "RPA-Worker-01");
    assert_eq!(ws.version, "1.4.2");
    assert!(!ws.has_active_execution);
    assert_eq!(ws.current_execution_id, None);
    assert_eq!(ws.current_execution_pid, None);
    assert_eq!(ws.last_heartbeat.as_deref(), Some("2024-05-01T10:00:00"));
    assert_eq!(ws.stats.executions_completed, 12);
    assert_eq!(ws.stats.executions_failed, 3);
    assert_eq!(ws.stats.started_at.as_deref(), Some("2024-05-01T08:00:00"));
    assert_eq!(ws.config.orchestrator_url, "http://localhost:8000");
    assert_eq!(ws.config.polling_interval, 5);
    assert_eq!(ws.config.heartbeat_interval, 30);
}

#[test]
fn status_with_active_execution() {
    let body = STATUS_BODY
        .replace("\"has_active_execution\":false", "\"has_active_execution\":true")
        .replace("\"current_execution_id\":null", "\"current_execution_id\":\"run-7\"")
        .replace("\"current_execution_pid\":null", "\"current_execution_pid\":4294967295");
    let ws = get_worker_status(&resp(200, &body)).unwrap();
    assert!(ws.has_active_execution);
    assert_eq!(ws.current_execution_id.as_deref(), Some("run-7"));
    assert_eq!(ws.current_execution_pid, Some(4294967295));
}

#[test]
fn status_malformed_body_is_a_decode_error() {
    assert_eq!(get_worker_status(&resp(200, "{}")).unwrap_err(), "Erro ao processar resposta");
    assert_eq!(get_worker_status(&resp(204, "")).unwrap_err(), "Erro ao processar resposta");
}

#[test]
fn status_rejects_out_of_range_pid() {
    let body =
        STATUS_BODY.replace("\"current_execution_pid\":null", "\"current_execution_pid\":4294967296");
    assert_eq!(get_worker_status(&resp(200, &body)).unwrap_err(), "Erro ao processar resposta");
}

#[test]
fn status_rejects_leading_zero_numbers() {
    let body = STATUS_BODY.replace("\"polling_interval\":5", "\"polling_interval\":05");
    assert_eq!(get_worker_status(&resp(200, &body)).unwrap_err(), "Erro ao processar resposta");
}

#[test]
fn status_code_boundaries() {
    assert!(start_worker(&resp(200, "")).is_ok());
    assert!(start_worker(&resp(299, "")).is_ok());
    assert_eq!(start_worker(&resp(199, "")).unwrap_err(), "Erro ao iniciar: 199");
    assert_eq!(start_worker(&resp(300, "")).unwrap_err(), "Erro ao iniciar: 300");
}

#[test]
fn start_confirmation_ignores_the_body() {
    let r = start_worker(&resp(201, "anything at all"));
    assert_eq!(r.unwrap(), "Worker iniciado");
}

#[test]
fn start_transport_failure() {
    let r = start_worker(&HttpOutcome::Transport("timed out".to_string()));
    assert_eq!(r.unwrap_err(), "Erro ao iniciar worker: timed out");
}

#[test]
fn stop_confirmation_and_error() {
    assert_eq!(stop_worker(&resp(200, "")).unwrap(), "Worker parado");
    assert_eq!(stop_worker(&resp(503, "")).unwrap_err(), "Erro ao parar: 503");
    assert_eq!(
        stop_worker(&HttpOutcome::Transport("broken pipe".to_string())).unwrap_err(),
        "Erro ao parar worker: broken pipe"
    );
}

#[test]
fn kill_without_active_execution_is_not_an_error() {
    let r = kill_automation(&resp(200, "{\"killed\":false,\"execution_id\":null}"));
    let k = r.unwrap();
    assert!(!k.killed);
    assert_eq!(k.execution_id, None);
}

#[test]
fn kill_reports_the_killed_execution() {
    let r = kill_automation(&resp(200, "{\"killed\":true,\"execution_id\":\"run-42\"}"));
    let k = r.unwrap();
    assert!(k.killed);
    assert_eq!(k.execution_id.as_deref(), Some("run-42"));
}

#[test]
fn kill_error_status_and_transport() {
    assert_eq!(kill_automation(&resp(404, "")).unwrap_err(), "Erro ao matar execução: 404");
    assert_eq!(
        kill_automation(&HttpOutcome::Transport("no route".to_string())).unwrap_err(),
        "Erro ao matar execução: no route"
    );
}

#[test]
fn kill_malformed_body_is_a_decode_error() {
    assert_eq!(
        kill_automation(&resp(200, "{\"killed\":maybe}")).unwrap_err(),
        "Erro ao processar resposta"
    );
}

#[test]
fn rejected_push_fails_the_save() {
    let r = save_config_push_result(&resp(500, "boom"));
    assert_eq!(r.unwrap_err(), "Erro ao salvar: 500");
}

#[test]
fn push_transport_failure() {
    let r = save_config_push_result(&HttpOutcome::Transport("refused".to_string()));
    assert_eq!(r.unwrap_err(), "Erro ao salvar configuração: refused");
}

#[test]
fn accepted_push_then_write_outcome() {
    assert!(save_config_push_result(&resp(200, "")).is_ok());
    assert_eq!(save_config_result(&Ok(())).unwrap(), "Configuração salva");
    assert_eq!(
        save_config_result(&Err("Erro ao salvar arquivo de configuração: full".to_string()))
            .unwrap_err(),
        "Erro ao salvar arquivo de configuração: full"
    );
}

#[test]
fn push_body_is_exact_and_carries_credentials() {
    let u = ConfigUpdate {
        orchestrator_url: "http://localhost:8000".to_string(),
        api_key: "key-123".to_string(),
        tenant_id: "t-9".to_string(),
        worker_name: "w-1".to_string(),
    };
    let b = encode_push_body(&u);
    assert_eq!(
        b,
        "{\"orchestrator_url\":\"http://localhost:8000\",\"api_key\":\"key-123\",\"tenant_id\":\"t-9\"}"
    );
    // the worker name is not part of the push body
    assert!(!b.contains("w-1"));
}

#[test]
fn endpoints_are_fixed() {
    assert_eq!(endpoint_url(Endpoint::Status), "http://127.0.0.1:8765/status");
    assert_eq!(endpoint_url(Endpoint::Start), "http://127.0.0.1:8765/start");
    assert_eq!(endpoint_url(Endpoint::Stop), "http://127.0.0.1:8765/stop");
    assert_eq!(endpoint_url(Endpoint::Kill), "http://127.0.0.1:8765/execution/kill");
    assert_eq!(endpoint_url(Endpoint::Config), "http://127.0.0.1:8765/config");
    assert!(endpoint_is_get(Endpoint::Status));
    assert!(!endpoint_is_get(Endpoint::Config));
}

#[test]
fn status_tolerates_pretty_rendering() {
    let body = STATUS_BODY
        .replace(":", ": ")
        .replace(",", ",\n  ")
        .replace("{", "{\n  ");
    let ws = get_worker_status(&resp(200, &body)).unwrap();
    assert_eq!(ws.worker_name, "RPA-Worker-01");
    assert_eq!(ws.config.heartbeat_interval, 30);
}

#[test]
fn kill_tolerates_whitespace() {
    let r = kill_automation(&resp(200, "{ \"killed\" : false , \"execution_id\" : null }"));
    let k = r.unwrap();
    assert!(!k.killed);
    assert_eq!(k.execution_id, None);
}
