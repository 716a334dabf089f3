//! Engine configuration: per-tool enable flags and executable paths, a
//! default compression preset, and one timeout applied to every
//! external-tool invocation.  Loaded once at startup and immutable for
//! the process lifetime.

use vstd::prelude::*;
use vstd::string::StringExecFns;
use crate::model::clone_opt_string;

verus! {

/// The engine's startup configuration.
#[derive(Debug)]
pub struct EngineConfig {
    pub pdfcpu_enabled: bool,
    pub qpdf_enabled: bool,
    pub ghostscript_enabled: bool,
    pub pdfcpu_path: Option<String>,
    pub qpdf_path: Option<String>,
    pub ghostscript_path: Option<String>,
    pub default_compression_preset: String,
    pub tool_timeout_secs: u64,
}

impl Default for EngineConfig {
    /// The built-in defaults: every tool enabled, resolved from the
    /// search path, the lightest compression preset, two minutes.
    fn default() -> (r: Self)
        ensures
            r.pdfcpu_enabled,
            r.qpdf_enabled,
            r.ghostscript_enabled,
            r.pdfcpu_path is None,
            r.qpdf_path is None,
            r.ghostscript_path is None,
            r.default_compression_preset@ == "screen"@,
            r.tool_timeout_secs == 120,
    {
        EngineConfig {
            pdfcpu_enabled: true,
            qpdf_enabled: true,
            ghostscript_enabled: true,
            pdfcpu_path: Option::None,
            qpdf_path: Option::None,
            ghostscript_path: Option::None,
            default_compression_preset: String::from_str("screen"),
            tool_timeout_secs: 120,
        }
    }
}

impl Clone for EngineConfig {
    fn clone(&self) -> (r: Self)
        ensures
            r.pdfcpu_enabled == self.pdfcpu_enabled,
            r.qpdf_enabled == self.qpdf_enabled,
            r.ghostscript_enabled == self.ghostscript_enabled,
            r.pdfcpu_path == self.pdfcpu_path,
            r.qpdf_path == self.qpdf_path,
            r.ghostscript_path == self.ghostscript_path,
            r.default_compression_preset@ == self.default_compression_preset@,
            r.tool_timeout_secs == self.tool_timeout_secs,
    {
        EngineConfig {
            pdfcpu_enabled: self.pdfcpu_enabled,
            qpdf_enabled: self.qpdf_enabled,
            ghostscript_enabled: self.ghostscript_enabled,
            pdfcpu_path: clone_opt_string(&self.pdfcpu_path),
            qpdf_path: clone_opt_string(&self.qpdf_path),
            ghostscript_path: clone_opt_string(&self.ghostscript_path),
            default_compression_preset: self.default_compression_preset.clone(),
            tool_timeout_secs: self.tool_timeout_secs,
        }
    }
}

/// How one external tool is invoked: whether it may run at all, the
/// executable to spawn, and the timeout for the run.
#[derive(Debug)]
pub struct ToolConfig {
    pub enabled: bool,
    pub executable: String,
    pub timeout_secs: u64,
}

impl Clone for ToolConfig {
    fn clone(&self) -> (r: Self)
        ensures
            r.enabled == self.enabled,
            r.executable@ == self.executable@,
            r.timeout_secs == self.timeout_secs,
    {
        ToolConfig {
            enabled: self.enabled,
            executable: self.executable.clone(),
            timeout_secs: self.timeout_secs,
        }
    }
}

} // verus!
