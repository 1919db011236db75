//! Application type detection.
//!
//! Classifies a process by application framework or runtime from its name
//! and command line, via an ordered list of substring rules with explicit
//! precedence.

use crate::models::{AppType, ProcessInfo};
use crate::text::{
    contains_chars, ends_with, ends_with_chars, has_sub, lower_seq, str_to_chars, to_lower,
};
use vstd::prelude::*;

verus! {

/// The characters of an optional command line; empty when absent.
pub open spec fn command_view(c: Option<Seq<char>>) -> Seq<char> {
    match c {
        Some(s) => s,
        None => Seq::empty(),
    }
}

/// The classification policy: both fields are lowercased, then an ordered
/// list of rule groups is evaluated and the first matching group's tag is
/// returned. Name-only patterns are checked only against the name and
/// command patterns only against the command; the Rust group is checked
/// before the Go group because "cargo run" contains "go run".
pub open spec fn spec_classify(name: Seq<char>, command: Seq<char>) -> AppType {
    let n = lower_seq(name);
    let c = lower_seq(command);
    if has_sub(n, "node"@) || has_sub(c, "node "@) || has_sub(c, "npm "@) || has_sub(c, "yarn "@)
        || has_sub(c, "npx "@) || has_sub(c, "next "@) || has_sub(c, "react-scripts"@) || has_sub(
        c,
        "vite"@,
    ) || has_sub(c, "webpack"@) {
        AppType::NodeJs
    } else if has_sub(n, "python"@) || has_sub(c, "python "@) || has_sub(c, "python3 "@)
        || has_sub(c, "uvicorn "@) || has_sub(c, "gunicorn "@) || has_sub(c, "flask "@) || has_sub(
        c,
        "django"@,
    ) || has_sub(c, "fastapi"@) {
        AppType::Python
    } else if has_sub(n, "dotnet"@) || has_sub(c, "dotnet "@) || ends_with(c, ".dll"@) || has_sub(
        c,
        ".dll "@,
    ) {
        AppType::DotNet
    } else if has_sub(n, "java"@) || has_sub(c, "java "@) || ends_with(c, ".jar"@) || has_sub(
        c,
        ".jar "@,
    ) || has_sub(c, "spring"@) || has_sub(c, "tomcat"@) || has_sub(c, "jetty"@) {
        AppType::Java
    } else if has_sub(c, "cargo run"@) || has_sub(c, "/target/debug/"@) || has_sub(
        c,
        "/target/release/"@,
    ) {
        AppType::Rust
    } else if has_sub(c, "go run"@) || has_sub(c, "gin"@) || has_sub(c, "echo"@) || has_sub(
        c,
        "fiber"@,
    ) {
        AppType::Go
    } else if has_sub(n, "ruby"@) || has_sub(c, "ruby "@) || has_sub(c, "rails "@) || has_sub(
        c,
        "puma "@,
    ) || has_sub(c, "unicorn "@) || has_sub(c, "bundle exec"@) {
        AppType::Ruby
    } else if has_sub(n, "php"@) || has_sub(c, "php "@) || has_sub(c, "artisan "@) || has_sub(
        c,
        "laravel"@,
    ) {
        AppType::Php
    } else if has_sub(n, "nginx"@) || has_sub(c, "nginx"@) {
        AppType::Nginx
    } else if has_sub(n, "httpd"@) || has_sub(n, "apache"@) || has_sub(c, "httpd"@) || has_sub(
        c,
        "apache"@,
    ) {
        AppType::Apache
    } else {
        AppType::Unknown
    }
}

/// Detects the application type from process information.
///
/// Uses pattern matching on the command line and process name
/// to identify common development frameworks and servers.
pub fn detect_app_type(process: &ProcessInfo) -> (t: AppType)
    ensures
        t == spec_classify(process@.name, command_view(process@.command)),
{
    let name_chars = str_to_chars(process.name.as_str());
    let name_lower = to_lower(&name_chars);
    let command_lower: Vec<char> = match &process.command {
        Some(c) => {
            let command_chars = str_to_chars(c.as_str());
            to_lower(&command_chars)
        },
        None => Vec::new(),
    };
    proof {
        assert(name_lower@ == lower_seq(process@.name));
        assert(command_lower@ =~= lower_seq(command_view(process@.command)));
    }

    if contains_chars(&name_lower, "node") || contains_chars(&command_lower, "node ")
        || contains_chars(&command_lower, "npm ") || contains_chars(&command_lower, "yarn ")
        || contains_chars(&command_lower, "npx ") || contains_chars(&command_lower, "next ")
        || contains_chars(&command_lower, "react-scripts") || contains_chars(
        &command_lower,
        "vite",
    ) || contains_chars(&command_lower, "webpack") {
        return AppType::NodeJs;
    }

    if contains_chars(&name_lower, "python") || contains_chars(&command_lower, "python ")
        || contains_chars(&command_lower, "python3 ") || contains_chars(&command_lower, "uvicorn ")
        || contains_chars(&command_lower, "gunicorn ") || contains_chars(&command_lower, "flask ")
        || contains_chars(&command_lower, "django") || contains_chars(&command_lower, "fastapi") {
        return AppType::Python;
    }

    if contains_chars(&name_lower, "dotnet") || contains_chars(&command_lower, "dotnet ")
        || ends_with_chars(&command_lower, ".dll") || contains_chars(&command_lower, ".dll ") {
        return AppType::DotNet;
    }

    if contains_chars(&name_lower, "java") || contains_chars(&command_lower, "java ")
        || ends_with_chars(&command_lower, ".jar") || contains_chars(&command_lower, ".jar ")
        || contains_chars(&command_lower, "spring") || contains_chars(&command_lower, "tomcat")
        || contains_chars(&command_lower, "jetty") {
        return AppType::Java;
    }

    if contains_chars(&command_lower, "cargo run") || contains_chars(
        &command_lower,
        "/target/debug/",
    ) || contains_chars(&command_lower, "/target/release/") {
        return AppType::Rust;
    }

    if contains_chars(&command_lower, "go run") || contains_chars(&command_lower, "gin")
        || contains_chars(&command_lower, "echo") || contains_chars(&command_lower, "fiber") {
        return AppType::Go;
    }

    if contains_chars(&name_lower, "ruby") || contains_chars(&command_lower, "ruby ")
        || contains_chars(&command_lower, "rails ") || contains_chars(&command_lower, "puma ")
        || contains_chars(&command_lower, "unicorn ") || contains_chars(
        &command_lower,
        "bundle exec",
    ) {
        return AppType::Ruby;
    }

    if contains_chars(&name_lower, "php") || contains_chars(&command_lower, "php ")
        || contains_chars(&command_lower, "artisan ") || contains_chars(&command_lower, "laravel") {
        return AppType::Php;
    }

    if contains_chars(&name_lower, "nginx") || contains_chars(&command_lower, "nginx") {
        return AppType::Nginx;
    }

    if contains_chars(&name_lower, "httpd") || contains_chars(&name_lower, "apache")
        || contains_chars(&command_lower, "httpd") || contains_chars(&command_lower, "apache") {
        return AppType::Apache;
    }

    AppType::Unknown
}

/// Classification is a pure function of the process name and command line:
/// two classifications that agree on both fields yield the same application
/// type, so repeated calls of `detect_app_type` on records with identical
/// name and command always return identical tags.
pub proof fn lemma_classify_deterministic(
    name1: Seq<char>,
    command1: Seq<char>,
    name2: Seq<char>,
    command2: Seq<char>,
)
    requires
        name1 == name2,
        command1 == command2,
    ensures
        spec_classify(name1, command1) == spec_classify(name2, command2),
{
}

} // verus!