use rust_pilot::executor::ReportRow;
use rust_pilot::logging::{start_spinner, stop_spinner, Logger, PlainLogger};
use rust_pilot::reporting::{render_details, TestReport};
use rust_pilot::strutil::{two_digit_string, u64_to_string};
use rust_pilot::tags::{error_tag, info_tag, log_tag, ok_tag, warning_tag};

#[test]
fn test_report_new() {
    // Test the constructor method
    let report = TestReport::new("test_file.yml".to_string(), "Android".to_string());

    // Verify initial values
    assert_eq!(report.test_file, "test_file.yml");
    assert_eq!(report.platform, "Android");
    assert_eq!(report.steps_executed, 0);
    assert_eq!(report.execution_millis, 0);
    assert_eq!(report.details, "");
}

#[test]
fn test_report_content() {
    // Create a test report with known values
    let report = TestReport {
        test_file: "test_file.yml".to_string(),
        platform: "Test Platform".to_string(),
        steps_executed: 10,
        execution_millis: 30000,
        details: "Test execution details".to_string(),
    };

    // Generate markdown content
    let markdown = report.generate_markdown();

    // Verify content contains expected information
    assert!(markdown.contains("test_file.yml"), "Report doesn't contain test file name");
    assert!(markdown.contains("Test Platform"), "Report doesn't contain platform name");
    assert!(markdown.contains("Steps executed: 10"), "Report doesn't contain correct step count");
    assert!(markdown.contains("30.00 seconds"), "Report doesn't contain correct execution time");
    assert!(markdown.contains("Test execution details"), "Report doesn't contain details");
}

#[test]
fn test_report_markdown_exact() {
    let report = TestReport {
        test_file: "f.yml".to_string(),
        platform: "Android".to_string(),
        steps_executed: 2,
        execution_millis: 1500,
        details: "details".to_string(),
    };
    let markdown = report.generate_markdown_at("2024-01-01 10:00:00");
    assert_eq!(
        markdown,
        "# Test suite report\n\n![LOGO](./assets/logo.webp)\n\nTest file: f.yml\n\nPlatform: Android\n\n🕒 Date and time: 2024-01-01 10:00:00\n\n✅ Steps executed: 2 successfully\n\n⏱️ Total execution time: 1.50 seconds\n\n## Test Details\n\ndetails\n"
    );
}

#[test]
fn test_report_fractional_seconds() {
    let report = TestReport {
        test_file: "f.yml".to_string(),
        platform: "Android".to_string(),
        steps_executed: 3,
        execution_millis: 12345,
        details: String::new(),
    };
    let markdown = report.generate_markdown();
    assert!(markdown.contains("12.34 seconds"));
}

#[test]
fn test_render_details_table() {
    let rows = vec![
        ReportRow {
            description: "Tapped on text: Login".to_string(),
            passed: true,
            observation: String::new(),
        },
        ReportRow {
            description: "Element Welcome visible".to_string(),
            passed: true,
            observation: String::new(),
        },
    ];
    let details = render_details(&rows);
    assert_eq!(
        details,
        "| Description | State | Observation |\n|----|----|----|\n| Tapped on text: Login | ✅ |  |\n| Element Welcome visible | ✅ |  |\n"
    );
}

#[test]
fn test_number_rendering() {
    assert_eq!(u64_to_string(0), "0");
    assert_eq!(u64_to_string(7), "7");
    assert_eq!(u64_to_string(12345), "12345");
    assert_eq!(two_digit_string(7), "07");
    assert_eq!(two_digit_string(42), "42");
}

#[test]
fn test_plain_logger_creation() {
    let message = "Test message".to_string();
    let logger = PlainLogger { message: message.clone(), indent_level: 0 };

    assert_eq!(logger.message, message);
    assert_eq!(logger.indent_level, 0);
}

#[test]
fn test_spinner_lines() {
    let sp = start_spinner("Tapping on: Login".to_string(), 1);
    assert_eq!(sp.message, "Tapping on: Login");
    assert_eq!(sp.indent_level, 1);
    assert_eq!(stop_spinner(&sp), "  ✅ Tapping on: Login - Completed");
    assert_eq!(sp.stop_with_symbol("Element found"), "  ℹ️  Element found");
}

#[test]
fn test_logger_lines() {
    assert_eq!(Logger::info_line("hello", 0), "ℹ️  hello");
    assert_eq!(Logger::success_line("done", 2), "    ✅ done");
    assert_eq!(Logger::error_line("bad", 0), "❌ bad");
    assert_eq!(Logger::warning_line("careful", 0), "⚠️  careful");
    assert_eq!(Logger::step_line("working", 1), "  ⏳ working");
}

#[test]
fn test_tags() {
    assert_eq!(ok_tag(), "[OK]");
    assert_eq!(error_tag(), "[ERR]");
    assert_eq!(log_tag(), "[LOG]");
    assert_eq!(info_tag(), "[INFO]");
    assert_eq!(warning_tag(), "[WARN]");
}
