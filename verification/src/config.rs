//! Engine selection and service configuration.

use vstd::prelude::*;

verus! {

/// Default maximum request body size, in bytes.
pub const DEFAULT_MAX_BYTES: usize = 50_000_000;

/// Default bound on the number of queued transcription jobs.
pub const DEFAULT_QUEUE_CAPACITY: usize = 8;

/// The model family that backs the transcription worker.
#[derive(Copy, Clone, Debug, PartialEq, Eq, Structural)]
pub enum EngineKind {
    /// Expects a single model file.
    Whisper,
    /// Expects a model directory.
    Parakeet,
}

/// The filesystem shape a model path must have.
#[derive(Copy, Clone, Debug, PartialEq, Eq, Structural)]
pub enum PathShape {
    File,
    Directory,
}

impl EngineKind {
    /// The stable lower-case name of the engine.
    pub fn as_str(&self) -> (r: &'static str)
        ensures
            *self is Whisper ==> r@ == "whisper"@,
            *self is Parakeet ==> r@ == "parakeet"@,
    {
        match self {
            EngineKind::Whisper => "whisper",
            EngineKind::Parakeet => "parakeet",
        }
    }

    /// The artifact shape this engine's model path must point at: a single
    /// file for Whisper, a directory for Parakeet.
    pub fn expected_path_shape(&self) -> (s: PathShape)
        ensures
            *self is Whisper ==> s is File,
            *self is Parakeet ==> s is Directory,
    {
        match self {
            EngineKind::Whisper => PathShape::File,
            EngineKind::Parakeet => PathShape::Directory,
        }
    }
}

/// Why the model could not be prepared at startup; fatal — the process must
/// not start serving without a loaded model.
#[derive(Clone, Debug, PartialEq, Eq)]
pub enum LoadError {
    /// The configured model path does not exist.
    PathNotFound,
    /// The path exists but has the wrong shape for the engine; the expected
    /// shape is attached.
    WrongPathShape(PathShape),
    /// The engine itself failed to load the model; the detail is attached.
    EngineFailure(String),
}

/// Decides whether an observation of the model path (does it exist, is it a
/// file, is it a directory) satisfies the engine's requirement. Selecting
/// the wrong path shape is a configuration error, reported before any
/// engine work.
pub fn validate_model_path(engine: EngineKind, exists: bool, is_file: bool, is_dir: bool) -> (r:
    Result<(), LoadError>)
    ensures
        !exists ==> r == Result::<(), LoadError>::Err(LoadError::PathNotFound),
        exists && engine is Whisper && !is_file ==> r == Result::<(), LoadError>::Err(
            LoadError::WrongPathShape(PathShape::File),
        ),
        exists && engine is Parakeet && !is_dir ==> r == Result::<(), LoadError>::Err(
            LoadError::WrongPathShape(PathShape::Directory),
        ),
        exists && (engine is Whisper && is_file || engine is Parakeet && is_dir) ==> r
            == Result::<(), LoadError>::Ok(()),
{
    if !exists {
        return Err(LoadError::PathNotFound);
    }
    match engine {
        EngineKind::Whisper => {
            if is_file {
                Ok(())
            } else {
                Err(LoadError::WrongPathShape(PathShape::File))
            }
        },
        EngineKind::Parakeet => {
            if is_dir {
                Ok(())
            } else {
                Err(LoadError::WrongPathShape(PathShape::Directory))
            }
        },
    }
}

/// Parsed command-line configuration for the service.
#[derive(Clone, Debug)]
pub struct Cli {
    /// Engine to use.
    pub engine: EngineKind,
    /// Path to the Whisper model file or the Parakeet model directory.
    pub model_path: String,
    /// Bind address of the HTTP listener.
    pub bind: String,
    /// Maximum request body size in bytes.
    pub max_bytes: usize,
    /// Maximum number of queued transcription jobs.
    pub queue_capacity: usize,
}

/// Everything the running service needs to know, fixed at startup.
#[derive(Clone, Debug)]
pub struct ServerConfig {
    pub engine: EngineKind,
    pub model_path: String,
    pub bind: String,
    pub max_bytes: usize,
    pub queue_capacity: usize,
}

impl ServerConfig {
    /// Builds the server configuration from parsed command-line options,
    /// field for field.
    pub fn from_cli(cli: &Cli) -> (c: ServerConfig)
        ensures
            c.engine == cli.engine,
            c.model_path@ == cli.model_path@,
            c.bind@ == cli.bind@,
            c.max_bytes == cli.max_bytes,
            c.queue_capacity == cli.queue_capacity,
    {
        ServerConfig {
            engine: cli.engine,
            model_path: cli.model_path.clone(),
            bind: cli.bind.clone(),
            max_bytes: cli.max_bytes,
            queue_capacity: cli.queue_capacity,
        }
    }
}

} // verus!
