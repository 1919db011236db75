//! Tests for application type detection.

use ports::app_detector::detect_app_type;
use ports::models::{AppType, ProcessInfo};

fn make_process(name: &str, command: Option<&str>) -> ProcessInfo {
    let mut p = ProcessInfo::new(1234, name.to_string());
    if let Some(cmd) = command {
        p.command = Some(cmd.to_string());
    }
    p
}

#[test]
fn test_detect_nodejs() {
    let process = make_process("node", Some("node server.js"));
    assert_eq!(detect_app_type(&process), AppType::NodeJs);

    let process = make_process("npm", Some("npm run dev"));
    assert_eq!(detect_app_type(&process), AppType::NodeJs);
}

#[test]
fn test_detect_python() {
    let process = make_process("python3", Some("python3 app.py"));
    assert_eq!(detect_app_type(&process), AppType::Python);

    let process = make_process("uvicorn", Some("uvicorn main:app"));
    assert_eq!(detect_app_type(&process), AppType::Python);
}

#[test]
fn test_detect_dotnet() {
    let process = make_process("dotnet", Some("dotnet run"));
    assert_eq!(detect_app_type(&process), AppType::DotNet);

    let process = make_process("MyApp", Some("/app/MyApp.dll"));
    assert_eq!(detect_app_type(&process), AppType::DotNet);
}

#[test]
fn test_detect_java() {
    let process = make_process("java", Some("java -jar app.jar"));
    assert_eq!(detect_app_type(&process), AppType::Java);
}

#[test]
fn test_detect_rust() {
    let process = make_process("myapp", Some("cargo run"));
    assert_eq!(detect_app_type(&process), AppType::Rust);

    let process = make_process("myapp", Some("/target/debug/myapp"));
    assert_eq!(detect_app_type(&process), AppType::Rust);
}

#[test]
fn test_detect_unknown() {
    let process = make_process("someapp", Some("/usr/bin/someapp"));
    assert_eq!(detect_app_type(&process), AppType::Unknown);
}

#[test]
fn test_rust_precedence_over_go() {
    // "cargo run" contains the substring "go run"; the Rust group is
    // checked first, so the result must be Rust, not Go.
    let process = make_process("server", Some("cargo run --release"));
    assert_eq!(detect_app_type(&process), AppType::Rust);
}

#[test]
fn test_detect_go() {
    let process = make_process("main", Some("go run main.go"));
    assert_eq!(detect_app_type(&process), AppType::Go);
}

#[test]
fn test_detect_ruby() {
    let process = make_process("ruby", Some("ruby app.rb"));
    assert_eq!(detect_app_type(&process), AppType::Ruby);

    let process = make_process("srv", Some("bundle exec rackup"));
    assert_eq!(detect_app_type(&process), AppType::Ruby);
}

#[test]
fn test_detect_php() {
    let process = make_process("php-fpm", Some("php-fpm: master process"));
    assert_eq!(detect_app_type(&process), AppType::Php);
}

#[test]
fn test_detect_nginx() {
    let process = make_process("nginx", None);
    assert_eq!(detect_app_type(&process), AppType::Nginx);
}

#[test]
fn test_detect_apache() {
    let process = make_process("httpd", None);
    assert_eq!(detect_app_type(&process), AppType::Apache);
}

#[test]
fn test_command_only_patterns_ignore_name() {
    // "echo" is a command-only pattern: a process merely named "echo"
    // must not classify as Go.
    let process = make_process("echo", None);
    assert_eq!(detect_app_type(&process), AppType::Unknown);

    let process = make_process("server", Some("echo -listen :8080"));
    assert_eq!(detect_app_type(&process), AppType::Go);
}

#[test]
fn test_detect_uppercase_is_lowered() {
    let process = make_process("NODE", Some("NODE SERVER.JS"));
    assert_eq!(detect_app_type(&process), AppType::NodeJs);
}

#[test]
fn test_classification_is_deterministic() {
    let a = make_process("python3", Some("python3 -m http.server"));
    let b = make_process("python3", Some("python3 -m http.server"));
    let first = detect_app_type(&a);
    assert_eq!(detect_app_type(&a), first);
    assert_eq!(detect_app_type(&b), first);
}
