use shim_core::role::{
    cli_name_for, client_name_for, daemon_name_for, plan_startup, select_role, startup,
    usage_error, version_banner, Role, Startup, USAGE_EXIT_CODE,
};

const DEMO_USAGE: &str = "error: unrecognized binary name, expected one of \
containerd-shim-demo-v1, containerd-shim-demod-v1, or containerd-demod.";

#[test]
fn names_of_the_three_roles() {
    assert_eq!(cli_name_for("demo"), "containerd-shim-demo-v1");
    assert_eq!(client_name_for("demo"), "containerd-shim-demod-v1");
    assert_eq!(daemon_name_for("demo"), "containerd-demod");
    assert_eq!(cli_name_for(""), "containerd-shim--v1");
}

#[test]
fn cli_name_selects_cli_role() {
    assert_eq!(select_role("containerd-shim-demo-v1", "demo"), Ok(Role::Cli));
}

#[test]
fn client_and_daemon_names_select_their_roles() {
    assert_eq!(select_role("containerd-shim-demod-v1", "demo"), Ok(Role::ManagerClient));
    assert_eq!(select_role("containerd-demod", "demo"), Ok(Role::ManagerDaemon));
}

#[test]
fn unknown_name_is_refused_with_the_three_names() {
    assert_eq!(select_role("totally-unknown", "demo"), Err(DEMO_USAGE.to_string()));
    assert_eq!(usage_error("demo"), DEMO_USAGE);
    assert_eq!(USAGE_EXIT_CODE, 137);
    assert_eq!(
        plan_startup("totally-unknown", "demo", false, "1.0", "abc"),
        Startup::Refuse { message: DEMO_USAGE.to_string(), exit_code: 137 }
    );
}

#[test]
fn match_is_exact_and_case_sensitive() {
    assert!(select_role("Containerd-shim-demo-v1", "demo").is_err());
    assert!(select_role("containerd-shim-demo-v1 ", "demo").is_err());
    assert!(select_role("containerd-shim-demo-v2", "demo").is_err());
    assert!(select_role("containerd-shim-demo", "demo").is_err());
    assert!(select_role("", "demo").is_err());
    assert!(select_role("containerd-shim-DEMO-v1", "demo").is_err());
}

#[test]
fn plan_for_each_role() {
    assert_eq!(
        plan_startup("containerd-shim-demo-v1", "demo", false, "1.0", "abc"),
        Startup::RunCli { id: "io.containerd.demo.v1".to_string() }
    );
    assert_eq!(
        plan_startup("containerd-shim-demod-v1", "demo", false, "1.0", "abc"),
        Startup::RunManagerClient { id: "containerd-shim-demod-v1".to_string() }
    );
    assert_eq!(
        plan_startup("containerd-demod", "demo", false, "1.0", "abc"),
        Startup::RunManagerDaemon {
            address: "unix:///run/io.containerd.wasmwasi.v1/manager.sock".to_string()
        }
    );
}

#[test]
fn version_is_answered_before_the_name_is_looked_at() {
    let banner = "whatever:\n  Runtime: demo\n  Version: 1.2.3\n  Revision: deadbeef\n\n";
    assert_eq!(version_banner("whatever", "demo", "1.2.3", "deadbeef"), banner);
    assert_eq!(
        plan_startup("whatever", "demo", true, "1.2.3", "deadbeef"),
        Startup::PrintVersion { text: banner.to_string() }
    );
    assert_eq!(
        plan_startup("containerd-shim-demo-v1", "demo", true, "1.2.3", "deadbeef"),
        Startup::PrintVersion {
            text: "containerd-shim-demo-v1:\n  Runtime: demo\n  Version: 1.2.3\n  Revision: \
deadbeef\n\n"
                .to_string()
        }
    );
}

#[test]
fn startup_takes_the_base_name_of_the_invoked_path() {
    assert_eq!(
        startup("/usr/local/bin/containerd-shim-demo-v1", "demo", false, "1.0", "abc"),
        Startup::RunCli { id: "io.containerd.demo.v1".to_string() }
    );
    assert_eq!(
        startup("./containerd-demod", "demo", false, "1.0", "abc"),
        Startup::RunManagerDaemon {
            address: "unix:///run/io.containerd.wasmwasi.v1/manager.sock".to_string()
        }
    );
    assert_eq!(
        startup("bin/containerd-shim-demod-v1", "demo", false, "1.0", "abc"),
        Startup::RunManagerClient { id: "containerd-shim-demod-v1".to_string() }
    );
}

#[test]
fn startup_refuses_a_base_name_with_an_extension() {
    let refusal = Startup::Refuse { message: DEMO_USAGE.to_string(), exit_code: 137 };
    assert_eq!(startup("containerd-shim-demo-v1.bak", "demo", false, "1.0", "abc"), refusal);
    assert_eq!(startup("/opt/containerd-shim-demod-v1.exe", "demo", false, "1.0", "abc"), refusal);
    assert_eq!(startup("/opt/containerd-demod.sh", "demo", false, "1.0", "abc"), refusal);
}

#[test]
fn startup_lower_cases_the_runtime_name() {
    assert_eq!(
        startup("containerd-shim-demo-v1", "Demo", false, "1.0", "abc"),
        Startup::RunCli { id: "io.containerd.demo.v1".to_string() }
    );
    assert_eq!(
        startup("containerd-shim-Demo-v1", "Demo", false, "1.0", "abc"),
        Startup::Refuse { message: DEMO_USAGE.to_string(), exit_code: 137 }
    );
}

#[test]
fn version_banner_names_the_runtime_in_lower_case() {
    assert_eq!(
        startup("/bin/containerd-shim-demo-v1", "Demo", true, "0.4.0", "r1"),
        Startup::PrintVersion {
            text: "containerd-shim-demo-v1:\n  Runtime: demo\n  Version: 0.4.0\n  Revision: r1\n\n"
                .to_string()
        }
    );
    assert_eq!(
        startup("totally-unknown.bin", "DEMO", true, "0.4.0", "r1"),
        Startup::PrintVersion {
            text: "totally-unknown.bin:\n  Runtime: demo\n  Version: 0.4.0\n  Revision: r1\n\n"
                .to_string()
        }
    );
}

#[test]
fn startup_without_a_base_name_is_refused() {
    let refusal = Startup::Refuse { message: DEMO_USAGE.to_string(), exit_code: 137 };
    assert_eq!(startup("/", "demo", false, "1.0", "abc"), refusal);
    assert_eq!(startup("", "demo", false, "1.0", "abc"), refusal);
    assert_eq!(startup("bin/..", "demo", false, "1.0", "abc"), refusal);
}

#[test]
fn version_without_a_base_name_is_printed_under_an_empty_name() {
    assert_eq!(
        startup("/", "Demo", true, "1.0", "abc"),
        Startup::PrintVersion {
            text: ":\n  Runtime: demo\n  Version: 1.0\n  Revision: abc\n\n".to_string()
        }
    );
}
