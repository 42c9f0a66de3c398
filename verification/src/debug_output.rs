//! Classification of driver diagnostics.
//!
//! The driver delivers diagnostics through a callback owned by the
//! embedding program; this module owns the decisions: whether the target
//! device-API version supports diagnostics at all, whether they are
//! switched on, which messages are noise, and the readable labels of a
//! message's source, type and severity.

use vstd::prelude::*;

verus! {

/// The id of the routine notification that a buffer will use video
/// memory; it is noise and never reported.
pub const VIDEO_MEMORY_NOTICE_ID: u32 = 131185;

/// Whether device-API version `major.minor` supports debug output:
/// version 4.3 and everything above it.
pub open spec fn debug_output_supported(major: u32, minor: u32) -> bool {
    (major == 4 && minor >= 3) || major > 4
}

/// Returns whether device-API version `version` supports debug output.
pub fn is_debug_output_supported(version: (u32, u32)) -> (r: bool)
    ensures
        r == debug_output_supported(version.0, version.1),
{
    (version.0 == 4 && version.1 >= 3) || version.0 > 4
}

/// Decides whether diagnostics are switched on: only in a debug context
/// whose version supports them.
pub fn should_enable_debug_output(debug_context: bool, version: (u32, u32)) -> (r: bool)
    ensures
        r == (debug_context && debug_output_supported(version.0, version.1)),
{
    debug_context && is_debug_output_supported(version)
}

/// Where a diagnostic came from.
#[derive(PartialEq, Eq, Structural, Clone, Copy, Debug)]
pub enum DebugSource {
    /// The device API itself.
    Api,
    /// The shader compiler.
    ShaderCompiler,
    /// The window system.
    WindowSystem,
    /// A third party.
    ThirdParty,
    /// The application.
    Application,
    /// Some other source.
    OtherSource,
    /// A source this library does not know.
    UnknownSource,
}

/// What kind of condition a diagnostic reports.
#[derive(PartialEq, Eq, Structural, Clone, Copy, Debug)]
pub enum DebugType {
    /// An error.
    Error,
    /// Use of deprecated behavior.
    DeprecatedBehavior,
    /// Undefined behavior.
    UndefinedBehavior,
    /// A performance concern.
    Performance,
    /// A portability concern.
    Portability,
    /// An annotation marker.
    Marker,
    /// A group push.
    PushGroup,
    /// A group pop.
    PopGroup,
    /// Some other kind.
    OtherType,
    /// A kind this library does not know.
    UnknownType,
}

/// How severe a diagnostic is.
#[derive(PartialEq, Eq, Structural, Clone, Copy, Debug)]
pub enum DebugSeverity {
    /// Errors and dangerous undefined behavior.
    High,
    /// Major warnings.
    Medium,
    /// Minor warnings.
    Low,
    /// Anything that is not an error or performance issue.
    Notification,
    /// A severity this library does not know.
    UnknownSeverity,
}

/// Whether a diagnostic is reported at all: everything but the routine
/// video-memory notification.
pub open spec fn reported(id: u32, severity: DebugSeverity) -> bool {
    !(id == VIDEO_MEMORY_NOTICE_ID && severity is Notification)
}

/// Decides whether the diagnostic with this id and severity is
/// reported.
pub fn should_report(id: u32, severity: DebugSeverity) -> (r: bool)
    ensures
        r == reported(id, severity),
{
    match severity {
        DebugSeverity::Notification => id != VIDEO_MEMORY_NOTICE_ID,
        _ => true,
    }
}

/// The readable label of a diagnostic source.
pub open spec fn source_label_spec(s: DebugSource) -> Seq<char> {
    match s {
        DebugSource::Api => "API"@,
        DebugSource::ShaderCompiler => "Shader Compiler"@,
        DebugSource::WindowSystem => "Window System"@,
        DebugSource::ThirdParty => "Third Party"@,
        DebugSource::Application => "Application"@,
        DebugSource::OtherSource => "Other"@,
        DebugSource::UnknownSource => "Unknown"@,
    }
}

/// Returns the readable label of a diagnostic source.
pub fn source_label(s: DebugSource) -> (r: String)
    ensures
        r@ == source_label_spec(s),
{
    match s {
        DebugSource::Api => "API".to_owned(),
        DebugSource::ShaderCompiler => "Shader Compiler".to_owned(),
        DebugSource::WindowSystem => "Window System".to_owned(),
        DebugSource::ThirdParty => "Third Party".to_owned(),
        DebugSource::Application => "Application".to_owned(),
        DebugSource::OtherSource => "Other".to_owned(),
        DebugSource::UnknownSource => "Unknown".to_owned(),
    }
}

/// The readable label of a diagnostic type.
pub open spec fn type_label_spec(t: DebugType) -> Seq<char> {
    match t {
        DebugType::Error => "Error"@,
        DebugType::DeprecatedBehavior => "Deprecated Behavior"@,
        DebugType::UndefinedBehavior => "Undefined Behavior"@,
        DebugType::Performance => "Performance"@,
        DebugType::Portability => "Portability"@,
        DebugType::Marker => "Marker"@,
        DebugType::PushGroup => "Push Group"@,
        DebugType::PopGroup => "Pop Group"@,
        DebugType::OtherType => "Other"@,
        DebugType::UnknownType => "Unknown"@,
    }
}

/// Returns the readable label of a diagnostic type.
pub fn type_label(t: DebugType) -> (r: String)
    ensures
        r@ == type_label_spec(t),
{
    match t {
        DebugType::Error => "Error".to_owned(),
        DebugType::DeprecatedBehavior => "Deprecated Behavior".to_owned(),
        DebugType::UndefinedBehavior => "Undefined Behavior".to_owned(),
        DebugType::Performance => "Performance".to_owned(),
        DebugType::Portability => "Portability".to_owned(),
        DebugType::Marker => "Marker".to_owned(),
        DebugType::PushGroup => "Push Group".to_owned(),
        DebugType::PopGroup => "Pop Group".to_owned(),
        DebugType::OtherType => "Other".to_owned(),
        DebugType::UnknownType => "Unknown".to_owned(),
    }
}

/// The readable label of a diagnostic severity.
pub open spec fn severity_label_spec(s: DebugSeverity) -> Seq<char> {
    match s {
        DebugSeverity::High => "High"@,
        DebugSeverity::Medium => "Medium"@,
        DebugSeverity::Low => "Low"@,
        DebugSeverity::Notification => "Notification"@,
        DebugSeverity::UnknownSeverity => "Unknown"@,
    }
}

/// Returns the readable label of a diagnostic severity.
pub fn severity_label(s: DebugSeverity) -> (r: String)
    ensures
        r@ == severity_label_spec(s),
{
    match s {
        DebugSeverity::High => "High".to_owned(),
        DebugSeverity::Medium => "Medium".to_owned(),
        DebugSeverity::Low => "Low".to_owned(),
        DebugSeverity::Notification => "Notification".to_owned(),
        DebugSeverity::UnknownSeverity => "Unknown".to_owned(),
    }
}

} // verus!
