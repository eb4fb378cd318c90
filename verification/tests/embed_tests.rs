use pyembed_xtask::pip::{env_value, pip_args, pip_current_dir, pip_report};
use pyembed_xtask::pyo3_config::{
    config_file, text_names_lib_name, config_text, configure_plan, embedded_config, pyo3_build_config,
    rustc_env_directive, ConfigError,
};
use pyembed_xtask::python::{get_python_resource_type, print_source, ResourceKind};

const CONFIG: &str = "implementation=CPython\nversion=3.10\nshared=true\nabi3=false\nlib_name=python3.10\nlib_dir=/opt/python/lib\nexecutable=/opt/python/bin/python3\npointer_width=64\nbuild_flags=\nsuppress_build_script_link_lines=false\n";

#[test]
fn config_file_missing_is_not_found() {
    assert!(matches!(config_file(None, false), Err(ConfigError::NotFound)));
}

#[test]
fn config_file_rejects_malformed_text() {
    match config_file(Some(b"version"), false) {
        Err(ConfigError::Unparsable(m)) => assert!(m.contains("expected key=value pair")),
        _ => panic!("expected a parse error"),
    }
    match config_file(Some(b"colour=blue\nversion=3.10\n"), false) {
        Err(ConfigError::Unparsable(m)) => assert!(m.contains("unknown config key")),
        _ => panic!("expected a parse error"),
    }
    assert!(matches!(
        config_file(Some(b"implementation=CPython\n"), false),
        Err(ConfigError::Unparsable(_))
    ));
}

#[test]
fn config_file_holds_the_fields_of_the_text() {
    let config = match config_file(Some(CONFIG.as_bytes()), false) {
        Ok(c) => c,
        Err(_) => panic!("the configuration parses"),
    };
    assert_eq!(config.implementation(), "CPython");
    assert_eq!(config.version(), "3.10");
    assert!(config.shared() && !config.abi3());
    assert_eq!(config.lib_name(), Some("python3.10"));
    assert_eq!(config.lib_dir(), Some("/opt/python/lib"));
    assert_eq!(config.executable(), Some("/opt/python/bin/python3"));
    assert_eq!(config.pointer_width(), Some("64"));
    assert!(config.build_flags().is_empty());
    assert!(!config.suppress_build_script_link_lines());
    assert!(config.extra_build_script_lines().is_empty());
}

#[test]
fn config_file_defaults_and_flags() {
    let text = "version=3.9\nbuild_flags=Py_DEBUG,WITH_THREAD\nextra_build_script_line=cargo:rustc-cfg=x\n";
    let config = match config_file(Some(text.as_bytes()), false) {
        Ok(c) => c,
        Err(_) => panic!("the configuration parses"),
    };
    assert_eq!(config.implementation(), "CPython");
    assert!(config.shared());
    assert_eq!(config.executable(), None);
    let mut flags = config.build_flags().clone();
    flags.sort();
    assert_eq!(flags, vec!["Py_DEBUG", "WITH_THREAD"]);
    assert_eq!(*config.extra_build_script_lines(), vec!["cargo:rustc-cfg=x"]);
    let written = String::from_utf8(config_text(&config)).unwrap();
    assert!(written.starts_with("implementation=CPython\nversion=3.9\nshared=true\nabi3=false\n"));
    assert!(
        written.contains("build_flags=Py_DEBUG,WITH_THREAD\n")
            || written.contains("build_flags=WITH_THREAD,Py_DEBUG\n")
    );
    assert!(written.ends_with(
        "suppress_build_script_link_lines=false\nextra_build_script_line=cargo:rustc-cfg=x\n"
    ));
    assert!(!written.contains("executable="));
}

#[test]
fn pyo3_build_config_escapes_serialized_config() {
    let config = match config_file(Some(CONFIG.as_bytes()), false) {
        Ok(c) => c,
        Err(_) => panic!("the configuration parses"),
    };
    let embedded = pyo3_build_config(&config);
    assert_eq!(embedded.config_text, CONFIG.as_bytes());
    let expected: String = CONFIG.bytes().map(|b| format!("{:02x}", b)).collect();
    assert_eq!(embedded.dep_cfg, expected);
    assert_eq!(embedded.python_interpreter, "/opt/python/bin/python3");
}

#[test]
fn config_text_without_optional_fields() {
    let text = "implementation=PyPy\nversion=3.8\nshared=false\nabi3=true\nlib_name=pypy3-c\nbuild_flags=\nsuppress_build_script_link_lines=true\n";
    let config = match config_file(Some(text.as_bytes()), false) {
        Ok(c) => c,
        Err(_) => panic!("the configuration parses"),
    };
    assert_eq!(config_text(&config), text.as_bytes());
    assert!(config.executable().is_none());
}

#[test]
fn embedded_config_exact() {
    let e = embedded_config(b"a\n".to_vec(), "py".to_string());
    assert_eq!(e.dep_cfg, "610a");
    assert_eq!(e.python_interpreter, "py");
}

#[test]
fn rustc_env_directive_format() {
    assert_eq!(
        rustc_env_directive("PYO3_CONFIG_FILE", "/r/target/pyembedded/pyo3-build-config-file.txt"),
        "cargo:rustc-env=PYO3_CONFIG_FILE=/r/target/pyembedded/pyo3-build-config-file.txt"
    );
    assert_eq!(rustc_env_directive("A", ""), "cargo:rustc-env=A=");
}

#[test]
fn configure_plans() {
    let (p, written) = configure_plan(true, true, false);
    assert!(p.create_parent_dir && !p.in_out_dir && p.write_config && written);
    let (p, written) = configure_plan(false, false, false);
    assert!(!p.create_parent_dir && p.in_out_dir && !p.write_config && !written);
    let (p, _) = configure_plan(true, true, true);
    assert!(!p.create_parent_dir);
}

#[test]
fn pip_arguments() {
    let packages = vec!["netaddr".to_string()];
    assert_eq!(
        pip_args(true, &packages),
        vec!["-m", "pip", "--disable-pip-version-check", "--verbose", "install", "netaddr"]
    );
    assert_eq!(
        pip_args(false, &vec![]),
        vec!["-m", "pip", "--disable-pip-version-check", "install"]
    );
}

#[test]
fn pip_working_directory() {
    let envs = vec![
        ("CURRENT_DIR".to_string(), "/a".to_string()),
        ("OTHER".to_string(), "x".to_string()),
        ("CURRENT_DIR".to_string(), "/b".to_string()),
    ];
    assert_eq!(pip_current_dir(&envs).as_deref(), Some("/b"));
    assert_eq!(pip_current_dir(&vec![]), None);
    assert_eq!(env_value(&envs, "OTHER").as_deref(), Some("x"));
    assert_eq!(env_value(&envs, "current_dir"), None);
}

#[test]
fn pip_reports() {
    let ok = pip_report(true, "installed", "warn");
    assert!(ok.succeeded);
    assert_eq!(ok.log, "pip install log:\ninstalled");
    let err = pip_report(false, "installed", "no network");
    assert!(!err.succeeded);
    assert_eq!(err.log, "pip install err:\nno network");
}

#[test]
fn resource_type_names() {
    let kinds = [
        ResourceKind::ModuleSource,
        ResourceKind::ModuleBytecodeRequest,
        ResourceKind::ModuleBytecode,
        ResourceKind::PackageResource,
        ResourceKind::PackageDistributionResource,
        ResourceKind::ExtensionModule,
        ResourceKind::EggFile,
        ResourceKind::PathExtension,
        ResourceKind::File,
    ];
    let names: Vec<String> = kinds.iter().map(|k| get_python_resource_type(*k)).collect();
    assert_eq!(names[0], "ModuleSource");
    assert_eq!(names[4], "PackageDistributionResource");
    assert_eq!(names[8], "File");
    for i in 0..names.len() {
        for j in 0..names.len() {
            assert_eq!(i == j, names[i] == names[j]);
        }
    }
}

#[test]
fn print_source_wraps_text() {
    assert_eq!(print_source("hello1"), "print(\"hello1\")");
    assert_eq!(print_source(""), "print(\"\")");
}

#[test]
fn lib_name_lines_are_found_at_line_starts() {
    assert!(text_names_lib_name(b"lib_name=python3.10\n"));
    assert!(text_names_lib_name(b"version=3.10\nlib_name=x\n"));
    assert!(!text_names_lib_name(b"version=3.10\n"));
    assert!(!text_names_lib_name(b"xlib_name=y\n"));
    assert!(!text_names_lib_name(b"lib_name"));
    assert!(!text_names_lib_name(b""));
}

#[test]
fn config_file_in_a_panicking_environment_with_a_named_library() {
    let text = "version=3.10\nlib_name=python3.10\n";
    match config_file(Some(text.as_bytes()), true) {
        Ok(c) => assert_eq!(c.lib_name(), Some("python3.10")),
        Err(_) => panic!("the configuration parses"),
    }
}
