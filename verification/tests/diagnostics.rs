use ren::{
    is_debug_output_supported, severity_label, should_enable_debug_output, should_report,
    source_label, type_label, DebugSeverity, DebugSource, DebugType,
};

#[test]
fn debug_output_needs_version_four_three() {
    assert!(is_debug_output_supported((4, 3)));
    assert!(is_debug_output_supported((4, 5)));
    assert!(is_debug_output_supported((4, 6)));
    assert!(is_debug_output_supported((5, 0)));
    assert!(!is_debug_output_supported((4, 2)));
    assert!(!is_debug_output_supported((4, 0)));
    assert!(!is_debug_output_supported((3, 3)));
}

#[test]
fn debug_output_needs_a_debug_context_too() {
    assert!(should_enable_debug_output(true, (4, 5)));
    assert!(!should_enable_debug_output(false, (4, 5)));
    assert!(!should_enable_debug_output(true, (3, 3)));
}

#[test]
fn video_memory_notice_is_the_only_silenced_message() {
    assert!(!should_report(131185, DebugSeverity::Notification));
    assert!(should_report(131185, DebugSeverity::High));
    assert!(should_report(131185, DebugSeverity::Low));
    assert!(should_report(1, DebugSeverity::Notification));
    assert!(should_report(0, DebugSeverity::Medium));
}

#[test]
fn source_labels() {
    assert_eq!(source_label(DebugSource::Api), "API");
    assert_eq!(source_label(DebugSource::ShaderCompiler), "Shader Compiler");
    assert_eq!(source_label(DebugSource::WindowSystem), "Window System");
    assert_eq!(source_label(DebugSource::ThirdParty), "Third Party");
    assert_eq!(source_label(DebugSource::Application), "Application");
    assert_eq!(source_label(DebugSource::OtherSource), "Other");
    assert_eq!(source_label(DebugSource::UnknownSource), "Unknown");
}

#[test]
fn type_labels() {
    assert_eq!(type_label(DebugType::Error), "Error");
    assert_eq!(type_label(DebugType::DeprecatedBehavior), "Deprecated Behavior");
    assert_eq!(type_label(DebugType::UndefinedBehavior), "Undefined Behavior");
    assert_eq!(type_label(DebugType::Performance), "Performance");
    assert_eq!(type_label(DebugType::Portability), "Portability");
    assert_eq!(type_label(DebugType::Marker), "Marker");
    assert_eq!(type_label(DebugType::PushGroup), "Push Group");
    assert_eq!(type_label(DebugType::PopGroup), "Pop Group");
    assert_eq!(type_label(DebugType::OtherType), "Other");
    assert_eq!(type_label(DebugType::UnknownType), "Unknown");
}

#[test]
fn severity_labels() {
    assert_eq!(severity_label(DebugSeverity::High), "High");
    assert_eq!(severity_label(DebugSeverity::Medium), "Medium");
    assert_eq!(severity_label(DebugSeverity::Low), "Low");
    assert_eq!(severity_label(DebugSeverity::Notification), "Notification");
    assert_eq!(severity_label(DebugSeverity::UnknownSeverity), "Unknown");
}
