use whisper_server::audio::DecodeError;
use whisper_server::boundary::{render_decode_failure, render_outcome};
use whisper_server::config::{
    validate_model_path, Cli, EngineKind, LoadError, PathShape, ServerConfig,
    DEFAULT_MAX_BYTES, DEFAULT_QUEUE_CAPACITY,
};
use whisper_server::dispatcher::WorkerError;

#[test]
fn engine_names() {
    assert_eq!(EngineKind::Whisper.as_str(), "whisper");
    assert_eq!(EngineKind::Parakeet.as_str(), "parakeet");
}

#[test]
fn engine_path_shapes() {
    assert_eq!(EngineKind::Whisper.expected_path_shape(), PathShape::File);
    assert_eq!(
        EngineKind::Parakeet.expected_path_shape(),
        PathShape::Directory
    );
}

#[test]
fn model_path_validation() {
    assert_eq!(
        validate_model_path(EngineKind::Whisper, false, false, false),
        Err(LoadError::PathNotFound)
    );
    assert_eq!(
        validate_model_path(EngineKind::Whisper, true, false, true),
        Err(LoadError::WrongPathShape(PathShape::File))
    );
    assert_eq!(
        validate_model_path(EngineKind::Parakeet, true, true, false),
        Err(LoadError::WrongPathShape(PathShape::Directory))
    );
    assert_eq!(
        validate_model_path(EngineKind::Whisper, true, true, false),
        Ok(())
    );
    assert_eq!(
        validate_model_path(EngineKind::Parakeet, true, false, true),
        Ok(())
    );
}

#[test]
fn defaults_are_positive() {
    assert_eq!(DEFAULT_MAX_BYTES, 50_000_000);
    assert_eq!(DEFAULT_QUEUE_CAPACITY, 8);
    assert!(DEFAULT_MAX_BYTES > 0 && DEFAULT_QUEUE_CAPACITY > 0);
}

#[test]
fn server_config_copies_cli() {
    let cli = Cli {
        engine: EngineKind::Parakeet,
        model_path: "/models/parakeet".to_string(),
        bind: "127.0.0.1:8080".to_string(),
        max_bytes: 1234,
        queue_capacity: 3,
    };
    let config = ServerConfig::from_cli(&cli);
    assert_eq!(config.engine, EngineKind::Parakeet);
    assert_eq!(config.model_path, "/models/parakeet");
    assert_eq!(config.bind, "127.0.0.1:8080");
    assert_eq!(config.max_bytes, 1234);
    assert_eq!(config.queue_capacity, 3);
}

#[test]
fn outcome_rendering() {
    assert_eq!(
        render_outcome(Ok("a transcript".to_string())),
        (200, "a transcript".to_string())
    );
    assert_eq!(
        render_outcome(Err(WorkerError::QueueFull)),
        (503, "transcription queue is full".to_string())
    );
    assert_eq!(
        render_outcome(Err(WorkerError::WorkerGone)),
        (503, "transcription worker unavailable".to_string())
    );
    assert_eq!(
        render_outcome(Err(WorkerError::Transcription("boom".to_string()))),
        (500, "transcription failed: boom".to_string())
    );
}

#[test]
fn decode_failure_rendering() {
    assert_eq!(
        render_decode_failure(&DecodeError::EmptyInput),
        (400, "Empty audio payload".to_string())
    );
    assert_eq!(
        render_decode_failure(&DecodeError::MisalignedLength),
        (400, "PCM byte length must be even".to_string())
    );
}
