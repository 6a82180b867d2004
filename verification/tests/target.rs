use drone_print::cmd::{run, PrintCmd, PrintSubCmd};
use drone_print::color::Color;
use drone_print::target::{
    config_path, resolve_target, target, CargoConfig, CargoConfigBuild, ConfigRead, ErrorKind,
    PrintError,
};

fn with_target(triple: &str) -> ConfigRead {
    ConfigRead::Parsed {
        config: CargoConfig {
            build: Some(CargoConfigBuild { target: Some(triple.to_string()) }),
        },
    }
}

/// Parses a text with the `toml` crate and writes down what it holds under
/// `build.target`, or the parser's words where it rejects the text.
fn read(text: &str) -> ConfigRead {
    let document = match text.parse::<toml::Value>() {
        Ok(document) => document,
        Err(error) => return ConfigRead::Malformed { detail: error.to_string() },
    };
    let build = document.get("build").map(|build| CargoConfigBuild {
        target: build.get("target").and_then(|target| target.as_str()).map(String::from),
    });
    ConfigRead::Parsed { config: CargoConfig { build } }
}

#[test]
fn target_is_read_from_build_table() {
    let text = "[build]\ntarget = \"thumbv7em-none-eabihf\"";
    let resolved = target("/project", read(text));
    assert_eq!(resolved.unwrap(), "thumbv7em-none-eabihf");
    assert_eq!(
        target("/project", with_target("thumbv7em-none-eabihf")).unwrap(),
        "thumbv7em-none-eabihf"
    );
}

#[test]
fn target_is_echoed_verbatim() {
    assert_eq!(target("/project", with_target("Not A Triple ")).unwrap(), "Not A Triple ");
    let text = "[build]\ntarget = \"Not A Triple \"\n";
    assert_eq!(target("/project", read(text)).unwrap(), "Not A Triple ");
}

#[test]
fn other_fields_are_ignored() {
    let short = "[build]\ntarget = \"thumbv7m-none-eabi\"\n";
    let long = "[alias]\nb = \"build\"\n\n[build]\njobs = 4\ntarget = \"thumbv7m-none-eabi\"\nrustflags = [\"-C\", \"x\"]\n\n[term]\nverbose = true\n";
    assert_eq!(target("/project", read(short)).unwrap(), "thumbv7m-none-eabi");
    assert_eq!(target("/project", read(long)).unwrap(), "thumbv7m-none-eabi");
}

#[test]
fn large_file_gives_its_target() {
    let mut text = String::from("# a.b.c.d.e.f [[[ {{{ ...\n[build]\ntarget = \"thumbv6m-none-eabi\"\n");
    for i in 0..1000 {
        text.push_str(&format!("[target.board{}.extra]\nrunner = \"run.sh --v1.2.3\"\n", i));
    }
    assert_eq!(target("/project", read(&text)).unwrap(), "thumbv6m-none-eabi");
}

#[test]
fn missing_build_table_is_missing_target_field() {
    let text = "[package]\nname = \"demo\"\n";
    let error = target("/project", read(text)).unwrap_err();
    assert_eq!(error.kind(), ErrorKind::MissingTargetField);
    assert!(matches!(error, PrintError::MissingTargetField));
    let by_value = ConfigRead::Parsed { config: CargoConfig { build: None } };
    assert!(matches!(target("/project", by_value), Err(PrintError::MissingTargetField)));
}

#[test]
fn empty_file_is_missing_target_field() {
    let error = target("/project", read("")).unwrap_err();
    assert_eq!(error.kind(), ErrorKind::MissingTargetField);
}

#[test]
fn build_table_without_target_is_missing_target_field() {
    let text = "[build]\njobs = 2\n";
    let error = target("/project", read(text)).unwrap_err();
    assert_eq!(error.kind(), ErrorKind::MissingTargetField);
    assert_eq!(error.message(), "No [build.target] configuration in .cargo/config");
}

#[test]
fn absent_file_is_config_not_found() {
    let error = target("/home/user/project", ConfigRead::Absent).unwrap_err();
    assert_eq!(error.kind(), ErrorKind::ConfigNotFound);
    let message = error.message();
    assert!(message.contains(".cargo/config"));
    assert!(message.contains("/home/user/project"));
    assert_eq!(message, "`.cargo/config` not exists in `/home/user/project");
}

#[test]
fn malformed_text_is_parse_error_in_the_parser_words() {
    let text = "[build";
    let words = text.parse::<toml::Value>().unwrap_err().to_string();
    assert!(!words.is_empty());
    let error = target("/project", read(text)).unwrap_err();
    assert_eq!(error.kind(), ErrorKind::ConfigParseError);
    assert!(matches!(&error, PrintError::ConfigParseError { detail } if *detail == words));
    assert_eq!(error.message(), words);
}

#[test]
fn parse_error_detail_is_handed_on_unchanged() {
    let read = ConfigRead::Malformed { detail: "expected an equals, found eof at line 3".to_string() };
    let error = target("/project", read).unwrap_err();
    assert_eq!(error.kind(), ErrorKind::ConfigParseError);
    assert_eq!(error.message(), "expected an equals, found eof at line 3");
}

#[test]
fn resolve_target_on_values() {
    let full = CargoConfig {
        build: Some(CargoConfigBuild { target: Some("thumbv7em-none-eabihf".to_string()) }),
    };
    assert_eq!(resolve_target(&full).unwrap(), "thumbv7em-none-eabihf");
    let no_target = CargoConfig { build: Some(CargoConfigBuild { target: None }) };
    assert!(matches!(resolve_target(&no_target), Err(PrintError::MissingTargetField)));
    let no_build = CargoConfig { build: None };
    assert!(matches!(resolve_target(&no_build), Err(PrintError::MissingTargetField)));
    let empty = CargoConfig { build: Some(CargoConfigBuild { target: Some(String::new()) }) };
    assert_eq!(resolve_target(&empty).unwrap(), "");
}

#[test]
fn config_path_is_fixed() {
    assert_eq!(config_path(), ".cargo/config");
}

#[test]
fn run_target_writes_one_line() {
    let cmd = PrintCmd { print_sub_cmd: PrintSubCmd::Target };
    assert!(cmd.reads_config());
    let text = "[build]\ntarget = \"thumbv7em-none-eabihf\"";
    let written = run(cmd, Color::Never, "/project", read(text)).unwrap();
    assert_eq!(written, "thumbv7em-none-eabihf\n");
}

#[test]
fn run_target_fails_without_file() {
    let cmd = PrintCmd { print_sub_cmd: PrintSubCmd::Target };
    let error = run(cmd, Color::Always, "/project", ConfigRead::Absent).unwrap_err();
    assert!(matches!(&error, PrintError::ConfigNotFound { root } if root == "/project"));
}

#[test]
fn run_hands_on_the_failure_of_target() {
    let cmd = PrintCmd { print_sub_cmd: PrintSubCmd::Target };
    let text = "build = [";
    let from_run = run(cmd, Color::Never, "/project", read(text)).unwrap_err();
    let from_target = target("/project", read(text)).unwrap_err();
    assert_eq!(from_run.kind(), ErrorKind::ConfigParseError);
    assert_eq!(from_run.message(), from_target.message());
    let missing = run(cmd, Color::Never, "/project", read("[build]\n")).unwrap_err();
    assert!(matches!(missing, PrintError::MissingTargetField));
}

#[test]
fn target_is_the_same_under_both_colors() {
    let cmd = PrintCmd { print_sub_cmd: PrintSubCmd::Target };
    let bad = "build = [";
    let plain = run(cmd, Color::Never, "/project", read(bad)).unwrap_err();
    let styled = run(cmd, Color::Always, "/project", read(bad)).unwrap_err();
    assert_eq!(plain.message(), styled.message());
    let good = "[build]\ntarget = \"thumbv7m-none-eabi\"";
    assert_eq!(
        run(cmd, Color::Never, "/project", read(good)).unwrap(),
        run(cmd, Color::Always, "/project", read(good)).unwrap()
    );
}
