//! What can go wrong while a shader is built or used.

use crate::graphics::utility::ShaderStage;
use crate::utility::LogLevel;
use vstd::prelude::*;
use vstd::string::*;

verus! {

#[derive(Clone, Debug, PartialEq, Eq)]
pub enum ShaderError {
    /// The registry holds no source under this path.
    AssetMissing { path: String },
    /// The driver refused to compile one stage; `log` is what it said.
    ShaderCompileFailed { stage: ShaderStage, log: String },
    /// The driver refused to link the two stages; `log` is what it said.
    ShaderLinkFailed { log: String },
    /// A uniform of this name is already stored.
    UniformAlreadyExists { name: String },
    /// The value is not of the type that the shader was declared with.
    UniformTypeMismatch,
    /// The shader was disposed before.
    DoubleDispose,
}

/// An error as contracts see it: texts are sequences of characters.
pub enum Fault {
    AssetMissing { path: Seq<char> },
    ShaderCompileFailed { stage: ShaderStage, log: Seq<char> },
    ShaderLinkFailed { log: Seq<char> },
    UniformAlreadyExists { name: Seq<char> },
    UniformTypeMismatch,
    DoubleDispose,
}

impl View for ShaderError {
    type V = Fault;

    open spec fn view(&self) -> Fault {
        match *self {
            ShaderError::AssetMissing { path } => Fault::AssetMissing { path: path@ },
            ShaderError::ShaderCompileFailed { stage, log } => Fault::ShaderCompileFailed {
                stage,
                log: log@,
            },
            ShaderError::ShaderLinkFailed { log } => Fault::ShaderLinkFailed { log: log@ },
            ShaderError::UniformAlreadyExists { name } => Fault::UniformAlreadyExists {
                name: name@,
            },
            ShaderError::UniformTypeMismatch => Fault::UniformTypeMismatch,
            ShaderError::DoubleDispose => Fault::DoubleDispose,
        }
    }
}

impl Fault {
    /// Whether the error ends the construction it came up in, and with it
    /// the process. The others leave the call without effect.
    pub open spec fn is_fatal(self) -> bool {
        match self {
            Fault::AssetMissing { .. } => true,
            Fault::ShaderCompileFailed { .. } => true,
            Fault::ShaderLinkFailed { .. } => true,
            Fault::UniformAlreadyExists { .. } => false,
            Fault::UniformTypeMismatch => false,
            Fault::DoubleDispose => false,
        }
    }

    /// The level at which the error is logged: a dropped uniform and a
    /// second disposal are warnings.
    pub open spec fn level(self) -> LogLevel {
        match self {
            Fault::UniformTypeMismatch => LogLevel::Warn,
            Fault::DoubleDispose => LogLevel::Warn,
            _ => LogLevel::Error,
        }
    }

    /// The text shown for an error: a fixed lead, then the path, the log or
    /// the name as it is.
    pub open spec fn message(self) -> Seq<char> {
        match self {
            Fault::AssetMissing { path } => "Could not get file "@ + path,
            Fault::ShaderCompileFailed { stage, log } => match stage {
                ShaderStage::Vertex => "Could not compile vertex shader with reason "@ + log,
                ShaderStage::Fragment => "Could not compile fragment shader with reason "@ + log,
            },
            Fault::ShaderLinkFailed { log } => "Could not link shader with reason "@ + log,
            Fault::UniformAlreadyExists { name } => "Uniform '"@ + name + "' already exists!"@,
            Fault::UniformTypeMismatch => "Uniform type does not match the shader's"@,
            Fault::DoubleDispose => "Shader is already disposed"@,
        }
    }
}

impl ShaderError {
    pub fn is_fatal(&self) -> (fatal: bool)
        ensures
            fatal == self@.is_fatal(),
    {
        match self {
            ShaderError::AssetMissing { .. } => true,
            ShaderError::ShaderCompileFailed { .. } => true,
            ShaderError::ShaderLinkFailed { .. } => true,
            ShaderError::UniformAlreadyExists { .. } => false,
            ShaderError::UniformTypeMismatch => false,
            ShaderError::DoubleDispose => false,
        }
    }

    pub fn level(&self) -> (level: LogLevel)
        ensures
            level == self@.level(),
    {
        match self {
            ShaderError::UniformTypeMismatch => LogLevel::Warn,
            ShaderError::DoubleDispose => LogLevel::Warn,
            _ => LogLevel::Error,
        }
    }

    pub fn message(&self) -> (text: String)
        ensures
            text@ == self@.message(),
    {
        match self {
            ShaderError::AssetMissing { path } => {
                String::from_str("Could not get file ").concat(path.as_str())
            },
            ShaderError::ShaderCompileFailed { stage, log } => {
                let lead = match stage {
                    ShaderStage::Vertex => "Could not compile vertex shader with reason ",
                    ShaderStage::Fragment => "Could not compile fragment shader with reason ",
                };
                String::from_str(lead).concat(log.as_str())
            },
            ShaderError::ShaderLinkFailed { log } => {
                String::from_str("Could not link shader with reason ").concat(log.as_str())
            },
            ShaderError::UniformAlreadyExists { name } => {
                String::from_str("Uniform '").concat(name.as_str()).concat("' already exists!")
            },
            ShaderError::UniformTypeMismatch => {
                String::from_str("Uniform type does not match the shader's")
            },
            ShaderError::DoubleDispose => String::from_str("Shader is already disposed"),
        }
    }
}

} // verus!
