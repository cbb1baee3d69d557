//! The run configuration, read once at startup and immutable thereafter.

use vstd::prelude::*;

use crate::errors::ProcessingError;

verus! {

/// Settings of the CompreFace client.
#[derive(Debug, PartialEq, Eq)]
pub struct CompreFaceConfig {
    /// CompreFace API URL.
    pub compreface_url: String,
    /// CompreFace API key.
    pub compreface_api_key: String,
}

/// Settings of the DoubleTake client.
#[derive(Debug, PartialEq, Eq)]
pub struct DoubleTakeConfig {
    /// DoubleTake API URL.
    pub doubletake_url: String,
}

impl Clone for CompreFaceConfig {
    fn clone(&self) -> (r: Self)
        ensures
            r == *self,
    {
        CompreFaceConfig {
            compreface_url: self.compreface_url.clone(),
            compreface_api_key: self.compreface_api_key.clone(),
        }
    }
}

impl Clone for DoubleTakeConfig {
    fn clone(&self) -> (r: Self)
        ensures
            r == *self,
    {
        DoubleTakeConfig { doubletake_url: self.doubletake_url.clone() }
    }
}

/// Which remote service the run talks to.
#[derive(Debug, Clone, Copy, PartialEq, Eq, Structural)]
pub enum ClientType {
    Compreface,
    DoubleTake,
}

/// Whether the run trains the model or recognizes against it.
#[derive(Debug, Clone, Copy, PartialEq, Eq, Structural)]
pub enum ClientMode {
    Train,
    Recognize,
}

/// What to do on disk with a file the service failed on or missed.
#[derive(Debug, Clone, Copy, PartialEq, Eq, Structural)]
pub enum ErrorBehavior {
    Copy,
    Move,
    Ignore,
}

/// How to choose the destination folder of a failed recognition, once the
/// error behavior asks for the file to be copied or moved.
///
/// `KeepAsIs` re-uses the file's own subject folder.  `MaxSimilarity` picks
/// the candidate with the highest similarity; on a tie the first-encountered
/// maximum wins, and an empty candidate list is an error.  `AboveThreshold`
/// takes every candidate whose similarity strictly exceeds the configured
/// threshold, which may be none at all.
#[derive(Debug, Clone, Copy, PartialEq, Eq, Structural)]
pub enum PostRecognizeStrategy {
    /// Copy or move the file into a folder named after its own subject.
    KeepAsIs,
    /// Use the subject with the maximum similarity.
    MaxSimilarity,
    /// Use all subjects with similarity above the threshold.
    AboveThreshold,
}

/// What to do with files the service failed on or missed.
#[derive(Debug, PartialEq, Eq)]
pub struct ErrorConfiguration {
    /// Where to place the failed and missed files; required as soon as the
    /// behavior is not `Ignore` and there is something to place.
    pub output_dir: Option<String>,
    /// Whether to copy, move or ignore such files.
    pub error_behavior: ErrorBehavior,
    /// How to pick destination folders for failed recognitions.
    pub post_recognize_strategy: PostRecognizeStrategy,
    /// The similarity bound, in thousandths, used by `AboveThreshold`.
    pub above_threshold: Option<u32>,
}

impl Clone for ErrorConfiguration {
    fn clone(&self) -> (r: Self)
        ensures
            r == *self,
    {
        ErrorConfiguration {
            output_dir: self.output_dir.clone(),
            error_behavior: self.error_behavior,
            post_recognize_strategy: self.post_recognize_strategy,
            above_threshold: self.above_threshold,
        }
    }
}

/// The full run configuration.
#[derive(Debug, PartialEq, Eq)]
pub struct Configuration {
    /// The client type to use, CompreFace or DoubleTake.
    pub client_type: ClientType,
    /// The client mode to run, train or recognize.
    pub client_mode: ClientMode,
    /// Settings of the DoubleTake client, when that type is selected.
    pub double_take: Option<DoubleTakeConfig>,
    /// Settings of the CompreFace client, when that type is selected.
    pub compreface: Option<CompreFaceConfig>,
    /// The dataset root folder with the face images.
    pub dataset_path: String,
    /// The byte budget of one request to the remote service.
    pub max_request_size: u64,
    /// An optional name for all scanned faces; when set, the per-folder
    /// names are ignored.
    pub override_trained_name: Option<String>,
    /// What to do with failed and missed files.
    pub error_configuration: ErrorConfiguration,
}

impl Clone for Configuration {
    fn clone(&self) -> (r: Self)
        ensures
            r == *self,
    {
        Configuration {
            client_type: self.client_type,
            client_mode: self.client_mode,
            double_take: self.double_take.clone(),
            compreface: self.compreface.clone(),
            dataset_path: self.dataset_path.clone(),
            max_request_size: self.max_request_size,
            override_trained_name: self.override_trained_name.clone(),
            error_configuration: self.error_configuration.clone(),
        }
    }
}

impl Configuration {
    /// A configuration is usable only when the selected client type comes
    /// with its settings.
    pub fn validate(&self) -> (r: Result<(), ProcessingError>)
        ensures
            r is Ok <==> (self.client_type is Compreface ==> self.compreface is Some) && (
            self.client_type is DoubleTake ==> self.double_take is Some),
            self.client_type is Compreface && self.compreface is None ==> r == Result::<
                (),
                ProcessingError,
            >::Err(ProcessingError::ComprefaceConfigMissing),
            self.client_type is DoubleTake && self.double_take is None ==> r == Result::<
                (),
                ProcessingError,
            >::Err(ProcessingError::DoubleTakeConfigMissing),
    {
        match self.client_type {
            ClientType::Compreface => {
                if self.compreface.is_none() {
                    return Err(ProcessingError::ComprefaceConfigMissing);
                }
            },
            ClientType::DoubleTake => {
                if self.double_take.is_none() {
                    return Err(ProcessingError::DoubleTakeConfigMissing);
                }
            },
        }
        Ok(())
    }
}

} // verus!
