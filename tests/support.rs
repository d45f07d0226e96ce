use rust_usecases::auth::{access_level, identity_from_subject, upgrade_identity, user_id, websocket_entry, Claims, TokenCheck};
use rust_usecases::config::{self, ElasticsearchSettings, JwtSettings, ServerSettings, Settings, SettingsCell};
use rust_usecases::config::init_settings::{get_settings, init_settings};
use rust_usecases::errors::AppError;
use rust_usecases::logs::LogLevel;

fn claims(sub: &str) -> Claims {
    Claims { sub: sub.to_string(), exp: 0, access_level: "admin".to_string() }
}

fn settings(env: &str) -> Settings {
    Settings {
        environment: env.to_string(),
        server: ServerSettings { host: "127.0.0.1".to_string(), port: 8080 },
        jwt: JwtSettings { secret: "s".to_string(), expires_in: 3600 },
        elasticsearch: ElasticsearchSettings { url: "http://localhost:9200".to_string() },
    }
}

#[test]
fn app_error_constructors_and_bodies() {
    assert_eq!(AppError::not_found("x"), AppError::NotFound(Some("x".to_string())));
    assert_eq!(AppError::unauthorized("y"), AppError::Unauthorized(Some("y".to_string())));
    assert_eq!(AppError::bad_request("z"), AppError::BadRequest(Some("z".to_string())));
    assert_eq!(AppError::internal("w"), AppError::InternalError(Some("w".to_string())));
    assert_eq!(AppError::NotFound(None).status_code(), 404);
    assert_eq!(AppError::Unauthorized(None).status_code(), 401);
    assert_eq!(AppError::BadRequest(None).status_code(), 400);
    assert_eq!(AppError::InternalError(None).status_code(), 500);
    assert_eq!(AppError::DatabaseError(None).status_code(), 500);
    assert_eq!(AppError::NotFound(None).message(), "Recurso não encontrado");
    assert_eq!(AppError::Unauthorized(None).message(), "Não autorizado");
    assert_eq!(AppError::BadRequest(None).message(), "Requisição inválida");
    assert_eq!(AppError::InternalError(None).message(), "Erro interno do servidor");
    assert_eq!(AppError::bad_request("own").message(), "own");
}

#[test]
fn websocket_entry_outcomes() {
    assert_eq!(
        websocket_entry(TokenCheck::Missing),
        Err(AppError::Unauthorized(Some("Token ausente".to_string())))
    );
    assert_eq!(
        websocket_entry(TokenCheck::Invalid),
        Err(AppError::Unauthorized(Some("Token inválido".to_string())))
    );
    assert_eq!(
        websocket_entry(TokenCheck::Valid(claims("not-a-uuid"))),
        Err(AppError::Unauthorized(Some("ID inválido no token".to_string())))
    );
    assert_eq!(
        websocket_entry(TokenCheck::Valid(claims("a1a2a3a4-b1b2-c1c2-d1d2-d3d4d5d6d7d8"))),
        Ok(0xa1a2a3a4b1b2c1c2d1d2d3d4d5d6d7d8)
    );
    assert_eq!(upgrade_identity(Some(7)), Ok(7));
    assert_eq!(
        upgrade_identity(None),
        Err(AppError::Unauthorized(Some("ID inválido no token".to_string())))
    );
}

#[test]
fn request_identity_from_claims() {
    assert_eq!(user_id(None), Err(AppError::Unauthorized(None)));
    assert_eq!(
        user_id(Some(&claims("550e8400-e29b-41d4-a716-446655440000"))),
        Ok(0x550e8400e29b41d4a716446655440000)
    );
    assert_eq!(user_id(Some(&claims("550e8400"))), Err(AppError::Unauthorized(None)));
    assert_eq!(identity_from_subject(Some(3)), Ok(3));
    assert_eq!(identity_from_subject(None), Err(AppError::Unauthorized(None)));
    assert_eq!(access_level(Some(&claims("x"))), Ok("admin".to_string()));
    assert_eq!(
        access_level(None),
        Err(AppError::Unauthorized(Some("Token inválido".to_string())))
    );
}

#[test]
fn strict_settings_initialization() {
    let mut cell = SettingsCell::new();
    assert_eq!(config::get_settings(&cell), None);
    assert_eq!(config::init_settings(&mut cell, Err("no env".to_string())), Err("no env".to_string()));
    assert!(!cell.is_initialized());
    assert_eq!(config::init_settings(&mut cell, Ok(settings("dev"))), Ok(()));
    assert_eq!(
        config::init_settings(&mut cell, Ok(settings("prod"))),
        Err("Configurações já inicializadas".to_string())
    );
    assert_eq!(config::get_settings(&cell).unwrap().environment, "dev");
}

#[test]
fn lenient_settings_initialization() {
    let mut cell = SettingsCell::new();
    assert_eq!(init_settings(&mut cell, Err("no env".to_string())), Err("no env".to_string()));
    assert_eq!(init_settings(&mut cell, Ok(settings("dev"))), Ok(()));
    assert_eq!(init_settings(&mut cell, Ok(settings("prod"))), Ok(()));
    assert_eq!(init_settings(&mut cell, Err("ignored".to_string())), Ok(()));
    assert_eq!(get_settings(&cell).environment, "dev");
    assert_eq!(get_settings(&cell).server.port, 8080);
}

#[test]
fn log_level_names() {
    assert_eq!(LogLevel::Info.to_string(), "info");
    assert_eq!(LogLevel::Warn.to_string(), "warn");
    assert_eq!(LogLevel::Error.to_string(), "error");
}
