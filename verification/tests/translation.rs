use dyn_http_error::AnyhowHttpError;
use dyn_http_error::AnyhowStatusExt;
use dyn_http_error::BasicHttpError;
use dyn_http_error::DynHttpError;
use dyn_http_error::ErrorConfig;
use dyn_http_error::HttpError;
use dyn_http_error::HttpResult;
use dyn_http_error::StatusCode;
use dyn_http_error::TextErrorResponse;

fn config(enable_logging: bool, hide_internal_detail: bool) -> ErrorConfig {
    ErrorConfig {
        enable_logging,
        hide_internal_detail,
    }
}

fn chained_error(outer: &'static str, cause: &'static str) -> anyhow::Error {
    anyhow::Error::msg(cause).context(outer)
}

#[test]
fn status_code_accepts_standard_range_only() {
    assert!(StatusCode::new(99).is_none());
    assert!(StatusCode::new(100).is_some());
    assert!(StatusCode::new(404).is_some());
    assert!(StatusCode::new(599).is_some());
    assert!(StatusCode::new(600).is_none());
    assert!(StatusCode::new(0).is_none());
    assert_eq!(StatusCode::new(404).unwrap().as_u16(), 404);
    assert_eq!(StatusCode::internal_server_error().as_u16(), 500);
}

#[test]
fn default_status_is_500() {
    assert_eq!(dyn_http_error::default_status().as_u16(), 500);
}

#[test]
fn default_reason_is_display_text() {
    let e = BasicHttpError::from_message("boom".to_string());
    assert_eq!(e.status().as_u16(), 500);
    assert_eq!(e.reason(), "boom");
    assert_eq!(e.display_text(), "boom");
}

#[test]
fn adapter_defaults_report_500_and_display_text() {
    let cfg = config(false, false);
    let adapted = AnyhowHttpError::wrap(anyhow::Error::msg("boom"), &cfg);
    assert_eq!(adapted.status().as_u16(), 500);
    assert_eq!(adapted.reason(), adapted.display_text());
    assert_eq!(adapted.reason(), "boom");
}

#[test]
fn domain_error_renders_status_and_reason() {
    let cfg = config(false, false);
    let e = BasicHttpError::new(StatusCode::new(404).unwrap(), "not found".to_string());
    let container = DynHttpError::<TextErrorResponse>::wrap(e);
    let rendered = container.render(&cfg);
    assert_eq!(rendered.response.status.as_u16(), 404);
    assert_eq!(rendered.response.body, "not found");
    assert!(rendered.log_record.is_none());
}

#[test]
fn domain_error_user_missing_scenario() {
    let cfg = config(false, false);
    let e = BasicHttpError::new(StatusCode::new(404).unwrap(), "user missing".to_string());
    let rendered = DynHttpError::<TextErrorResponse>::wrap(e).render(&cfg);
    assert_eq!(rendered.response.status.as_u16(), 404);
    assert_eq!(rendered.response.body, "user missing");
}

#[test]
fn generic_error_body_with_hiding_off() {
    let cfg = config(false, false);
    let err = chained_error("db connection failed", "timeout");
    let rendered = DynHttpError::<TextErrorResponse>::wrap_generic(err, &cfg).render(&cfg);
    assert_eq!(rendered.response.status.as_u16(), 500);
    assert!(rendered.response.body.contains("db connection failed"));
}

#[test]
fn generic_error_body_with_hiding_on() {
    let cfg = config(false, true);
    let err = chained_error("db connection failed", "timeout");
    let rendered = DynHttpError::<TextErrorResponse>::wrap_generic(err, &cfg).render(&cfg);
    assert_eq!(rendered.response.status.as_u16(), 500);
    assert_eq!(rendered.response.body, "Server error");

    // The hidden body does not depend on the chain's content or depth.
    let deep = anyhow::Error::msg("disk full")
        .context("write failed")
        .context("db connection failed");
    let rendered = DynHttpError::<TextErrorResponse>::wrap_generic(deep, &cfg).render(&cfg);
    assert_eq!(rendered.response.body, "Server error");
}

#[test]
fn explicit_status_takes_precedence_in_both_hiding_states() {
    for hide in [false, true] {
        let cfg = config(false, hide);
        let err = anyhow::Error::msg("boom");
        let adapted =
            AnyhowHttpError::wrap_with_status(err, StatusCode::new(400).unwrap(), &cfg);
        assert_eq!(adapted.status().as_u16(), 400);
    }
}

#[test]
fn status_extension_attaches_status() {
    let cfg = config(false, true);
    let adapted = anyhow::Error::msg("boom").status(StatusCode::new(400).unwrap(), &cfg);
    assert_eq!(adapted.status().as_u16(), 400);
    assert_eq!(adapted.reason(), "Server error");
}

#[test]
fn log_record_is_full_in_both_hiding_states() {
    let mut records: Vec<String> = Vec::new();
    for hide in [false, true] {
        let cfg = config(true, hide);
        let err = chained_error("db connection failed", "timeout");
        let adapted = AnyhowHttpError::wrap(err, &cfg);
        let record = adapted.log_record();
        assert!(record.contains("db connection failed"));
        assert!(record.contains("timeout"));
        records.push(record);
    }
    // Enabling detail hiding does not shrink what is logged.
    assert_eq!(records[0], records[1]);
}

#[test]
fn default_log_record_formula() {
    let record = dyn_http_error::make_default_log_record("front", "back");
    assert_eq!(record, "front: back");
}

#[test]
fn debug_representation_is_stable_and_labelled() {
    let cfg = config(false, false);
    let err = anyhow::Error::msg("boom");
    let container = DynHttpError::<TextErrorResponse>::wrap_generic(err, &cfg);
    let first = container.debug_representation();
    let second = container.debug_representation();
    assert_eq!(first, second);
    assert!(first.contains("AnyhowHttpError"));
    assert!(first.contains("boom"));
    // Inspection did not consume the container: it still renders.
    let rendered = container.render(&cfg);
    assert_eq!(rendered.response.status.as_u16(), 500);
}

#[test]
fn debug_representation_shape_for_domain_error() {
    let cfg = config(false, false);
    let e = BasicHttpError::new(StatusCode::new(418).unwrap(), "teapot".to_string());
    let container = DynHttpError::<TextErrorResponse>::wrap(e);
    assert_eq!(container.debug_representation(), "BasicHttpError(teapot)");
    assert_eq!(container.display_representation(), "teapot");
    let rendered = container.render(&cfg);
    assert_eq!(rendered.response.status.as_u16(), 418);
}

#[test]
fn upstream_timeout_default_wrap_scenario() {
    let cfg = config(true, false);
    let err = chained_error("upstream timeout", "socket closed");
    let rendered = DynHttpError::<TextErrorResponse>::wrap_generic(err, &cfg).render(&cfg);
    assert_eq!(rendered.response.status.as_u16(), 500);
    assert_eq!(rendered.response.body, "upstream timeout");
    let record = rendered.log_record.expect("logging is enabled");
    assert!(record.contains("upstream timeout"));
    assert!(record.contains("socket closed"));
}

#[test]
fn upstream_timeout_hidden_scenario() {
    let cfg = config(true, true);
    let err = chained_error("upstream timeout", "socket closed");
    let rendered = DynHttpError::<TextErrorResponse>::wrap_generic(err, &cfg).render(&cfg);
    assert_eq!(rendered.response.status.as_u16(), 500);
    assert_eq!(rendered.response.body, "Server error");
    let record = rendered.log_record.expect("logging is enabled");
    assert!(record.contains("upstream timeout"));
    assert!(record.contains("socket closed"));
}

#[test]
fn explicit_status_hidden_scenario() {
    let cfg = config(false, true);
    let err = anyhow::Error::msg("boom");
    let adapted = AnyhowHttpError::wrap_with_status(err, StatusCode::new(400).unwrap(), &cfg);
    let rendered = DynHttpError::<TextErrorResponse>::wrap(adapted).render(&cfg);
    assert_eq!(rendered.response.status.as_u16(), 400);
    assert_eq!(rendered.response.body, "Server error");
}

#[test]
fn render_emits_record_only_when_logging_enabled() {
    let e = BasicHttpError::new(StatusCode::new(503).unwrap(), "down".to_string());
    let rendered = DynHttpError::<TextErrorResponse>::wrap(e).render(&config(true, false));
    let record = rendered.log_record.expect("logging is enabled");
    assert_eq!(record, "down: down");

    let e = BasicHttpError::new(StatusCode::new(503).unwrap(), "down".to_string());
    let rendered = DynHttpError::<TextErrorResponse>::wrap(e).render(&config(false, false));
    assert!(rendered.log_record.is_none());
}

#[test]
fn wire_response_carries_rendered_status() {
    let cfg = config(true, false);
    let e = BasicHttpError::new(StatusCode::new(404).unwrap(), "not found".to_string());
    let container = DynHttpError::<TextErrorResponse>::wrap(e);
    let (response, record) = container.into_response(&cfg);
    assert_eq!(response.status().as_u16(), 404);
    assert!(record.is_some());
}

#[test]
fn http_result_carries_container() {
    let cfg = config(false, false);
    let outcome: HttpResult<u32> = Err(DynHttpError::wrap(BasicHttpError::new(
        StatusCode::new(404).unwrap(),
        "missing".to_string(),
    )));
    match outcome {
        Ok(_) => panic!("expected an error"),
        Err(container) => {
            let rendered = container.render(&cfg);
            assert_eq!(rendered.response.status.as_u16(), 404);
            assert_eq!(rendered.response.body, "missing");
        }
    }
}

#[test]
fn config_defaults_are_off() {
    let cfg = ErrorConfig::default();
    assert!(!cfg.enable_logging);
    assert!(!cfg.hide_internal_detail);
}
