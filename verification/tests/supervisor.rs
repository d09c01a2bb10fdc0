use lsp_proxy::config::Lang;
use lsp_proxy::supervisor::{
    config_dir_for_os, custom_config_server, java_server, select_launcher, start_lang_server,
};

#[test]
fn launcher_scan_takes_the_last_match() {
    let names = vec![
        "org.eclipse.equinox.launcher_1.5.0.jar".to_string(),
        "other.plugin.jar".to_string(),
        "org.eclipse.equinox.launcher_1.6.0.v20200915-1508.jar".to_string(),
    ];
    assert_eq!(
        select_launcher(&names).as_deref(),
        Some("org.eclipse.equinox.launcher_1.6.0.v20200915-1508.jar")
    );
}

#[test]
fn launcher_scan_can_come_up_empty() {
    let names = vec!["a.jar".to_string(), "b.jar".to_string()];
    assert_eq!(select_launcher(&names), None);
    assert_eq!(select_launcher(&Vec::new()), None);
}

#[test]
fn config_dir_follows_the_host_os() {
    assert_eq!(config_dir_for_os("windows").as_deref(), Some("./config_win"));
    assert_eq!(config_dir_for_os("linux").as_deref(), Some("./config_linux"));
    assert_eq!(config_dir_for_os("macos").as_deref(), Some("./config_mac"));
    assert_eq!(config_dir_for_os("plan9"), None);
}

#[test]
fn java_server_plan_is_complete() {
    let names = vec!["org.eclipse.equinox.launcher_1.6.0.jar".to_string()];
    let plan = java_server("/srv/jdtls", &names, "linux", "/tmp/data").expect("no plan");
    assert_eq!(plan.program, "java");
    assert_eq!(plan.current_dir, "/srv/jdtls");
    assert!(!plan.capture_stderr);
    assert_eq!(
        plan.args,
        vec![
            "-agentlib:jdwp=transport=dt_socket,server=y,suspend=n,address=1044".to_string(),
            "-Declipse.application=org.eclipse.jdt.ls.core.id1".to_string(),
            "-Dosgi.bundles.defaultStartLevel=4".to_string(),
            "-Declipse.product=org.eclipse.jdt.ls.core.product".to_string(),
            "-Dlog.level=ALL".to_string(),
            "-noverify".to_string(),
            "-Xmx1G".to_string(),
            "-jar".to_string(),
            "./plugins/org.eclipse.equinox.launcher_1.6.0.jar".to_string(),
            "-configuration".to_string(),
            "./config_linux".to_string(),
            "-data".to_string(),
            "/tmp/data".to_string(),
            "--add-modules=ALL-SYSTEM".to_string(),
            "--add-opens".to_string(),
            "java.base/java.util=ALL-UNNAMED".to_string(),
            "--add-opens".to_string(),
            "java.base/java.lang=ALL-UNNAMED".to_string(),
        ]
    );
}

#[test]
fn java_server_fails_without_a_launcher_or_platform() {
    assert!(java_server("/srv", &Vec::new(), "linux", "/tmp").is_none());
    let names = vec!["org.eclipse.equinox.launcher_1.6.0.jar".to_string()];
    assert!(java_server("/srv", &names, "plan9", "/tmp").is_none());
}

#[test]
fn custom_server_takes_the_command_verbatim() {
    let plan = custom_config_server("/srv", &Some("./run-server.sh".to_string())).expect("no plan");
    assert_eq!(plan.program, "./run-server.sh");
    assert_eq!(plan.current_dir, "/srv");
    assert!(plan.args.is_empty());
    assert!(custom_config_server("/srv", &None).is_none());
}

#[test]
fn language_dispatch() {
    assert!(start_lang_server(Lang::C, "/srv", &Vec::new(), "linux", "/tmp", &None).is_none());
    let custom = start_lang_server(
        Lang::Custom,
        "/srv",
        &Vec::new(),
        "linux",
        "/tmp",
        &Some("cmd".to_string()),
    );
    assert_eq!(custom.unwrap().program, "cmd");
    let names = vec!["org.eclipse.equinox.launcher_1.6.0.jar".to_string()];
    let java = start_lang_server(Lang::Java, "/srv", &names, "linux", "/tmp", &None);
    assert_eq!(java.unwrap().program, "java");
}
