use binary_crates::binary_crates::{cargo_install_update, BinaryCrate, CrateName};
use binary_crates::cmd::{Binary, Command, Runnable};
use binary_crates::tools::{Cargo, Exit, InstalledCheck, Probe, Provisioning, Tool, ToolError};
use binary_crates::workspace::{binary_path, Workspace};

fn workspace() -> Workspace {
    Workspace::new("/opt/ws/cargo-home/bin", Some(900))
}

fn ripgrep() -> BinaryCrate {
    BinaryCrate {
        crate_name: CrateName::Registry("ripgrep"),
        binary: "rg",
        cargo_subcommand: None,
    }
}

fn repo_tool() -> BinaryCrate {
    BinaryCrate {
        crate_name: CrateName::Git("https://example/repo"),
        binary: "repo-tool",
        cargo_subcommand: None,
    }
}

fn plugin() -> BinaryCrate {
    BinaryCrate {
        crate_name: CrateName::Registry("cargo-sweep"),
        binary: "cargo-sweep",
        cargo_subcommand: Some("sweep"),
    }
}

fn strings(items: &[&str]) -> Vec<String> {
    items.iter().map(|s| s.to_string()).collect()
}

fn command_of(step: Provisioning) -> Command {
    match step {
        Provisioning::Run(command) => command,
        Provisioning::Done(result) => panic!("no command was asked for: {:?}", result),
    }
}

#[test]
fn name_is_the_binary_name() {
    assert_eq!(Tool::name(&ripgrep()), "rg");
    assert_eq!(Tool::name(&repo_tool()), "repo-tool");
    assert_eq!(Tool::name(&plugin()), "cargo-sweep");
}

#[test]
fn name_is_stable_across_calls() {
    let tool = ripgrep();
    let first = Tool::name(&tool);
    let _ = tool.is_installed(&workspace());
    let _ = tool.install(&Workspace::new("/elsewhere", None), true);
    assert_eq!(Tool::name(&tool), first);
    assert_eq!(Tool::name(&tool), "rg");
}

#[test]
fn path_joins_binary_directory_and_name() {
    assert_eq!(ripgrep().path(&workspace()), "/opt/ws/cargo-home/bin/rg");
    assert_eq!(
        binary_path(&workspace(), "cargo-install-update"),
        "/opt/ws/cargo-home/bin/cargo-install-update"
    );
}

#[test]
fn path_follows_the_workspace() {
    let tool = ripgrep();
    assert_eq!(tool.path(&Workspace::new("relative/bin", None)), "relative/bin/rg");
    assert_eq!(tool.path(&Workspace::new("/a/", None)), "/a/rg");
}

#[test]
fn workspace_new_keeps_its_arguments() {
    let ws = Workspace::new("/w/bin", Some(7));
    assert_eq!(ws.binary_dir, "/w/bin");
    assert_eq!(ws.command_timeout, Some(7));
    assert_eq!(Workspace::new("", None).command_timeout, None);
}

#[test]
fn is_installed_asks_about_the_binary_path() {
    assert_eq!(
        ripgrep().is_installed(&workspace()),
        InstalledCheck::IsFile("/opt/ws/cargo-home/bin/rg".to_string())
    );
}

#[test]
fn missing_file_is_not_installed() {
    let check = ripgrep().is_installed(&workspace()).resume(Probe::File(false));
    assert_eq!(check, InstalledCheck::Done(Ok(false)));
}

#[test]
fn present_file_asks_for_executability() {
    let check = ripgrep().is_installed(&workspace()).resume(Probe::File(true));
    assert_eq!(
        check,
        InstalledCheck::IsExecutable("/opt/ws/cargo-home/bin/rg".to_string())
    );
}

#[test]
fn executable_file_is_installed() {
    let check = ripgrep()
        .is_installed(&workspace())
        .resume(Probe::File(true))
        .resume(Probe::Executable(Ok(true)));
    assert_eq!(check, InstalledCheck::Done(Ok(true)));
}

#[test]
fn present_but_not_executable_is_not_installed() {
    let check = ripgrep()
        .is_installed(&workspace())
        .resume(Probe::File(true))
        .resume(Probe::Executable(Ok(false)));
    assert_eq!(check, InstalledCheck::Done(Ok(false)));
}

#[test]
fn failed_executability_query_is_a_filesystem_error() {
    let check = ripgrep()
        .is_installed(&workspace())
        .resume(Probe::File(true))
        .resume(Probe::Executable(Err("permission denied".to_string())));
    assert_eq!(
        check,
        InstalledCheck::Done(Err(ToolError::Filesystem("permission denied".to_string())))
    );
}

#[test]
fn unasked_reports_change_nothing() {
    let start = ripgrep().is_installed(&workspace());
    let same = start.resume(Probe::Executable(Ok(true)));
    assert_eq!(same, ripgrep().is_installed(&workspace()));
    let asked = same.resume(Probe::File(true)).resume(Probe::File(false));
    assert_eq!(
        asked,
        InstalledCheck::IsExecutable("/opt/ws/cargo-home/bin/rg".to_string())
    );
    let done = asked.resume(Probe::Executable(Ok(true)));
    assert_eq!(done.resume(Probe::File(false)), InstalledCheck::Done(Ok(true)));
}

#[test]
fn install_from_registry_with_fast_install() {
    let command = command_of(ripgrep().install(&workspace(), true));
    assert_eq!(command.args, strings(&["install", "ripgrep", "--debug"]));
}

#[test]
fn install_from_repository_without_fast_install() {
    let command = command_of(repo_tool().install(&workspace(), false));
    assert_eq!(command.args, strings(&["install", "--git", "https://example/repo"]));
}

#[test]
fn install_from_registry_without_fast_install() {
    let command = command_of(ripgrep().install(&workspace(), false));
    assert_eq!(command.args, strings(&["install", "ripgrep"]));
}

#[test]
fn install_from_repository_with_fast_install() {
    let command = command_of(repo_tool().install(&workspace(), true));
    assert_eq!(
        command.args,
        strings(&["install", "--git", "https://example/repo", "--debug"])
    );
}

#[test]
fn install_runs_the_package_manager_without_time_limit() {
    let command = command_of(plugin().install(&workspace(), false));
    assert_eq!(command.binary, Binary::ManagedByRustwide("cargo".to_string()));
    assert_eq!(command.timeout, None);
    assert_eq!(command.args, strings(&["install", "cargo-sweep"]));
}

#[test]
fn successful_install_succeeds() {
    let step = ripgrep().install(&workspace(), false).resume(Exit::Code(0));
    assert_eq!(step, Provisioning::Done(Ok(())));
}

#[test]
fn nonzero_exit_of_install_is_a_process_error() {
    let tool = ripgrep();
    let command = command_of(tool.install(&workspace(), true));
    for code in [1, 2, 101, -1, i32::MAX, i32::MIN] {
        let step = tool.install(&workspace(), true).resume(Exit::Code(code));
        assert_eq!(
            step,
            Provisioning::Done(Err(ToolError::Process {
                command: command.clone(),
                exit: Exit::Code(code),
            }))
        );
    }
}

#[test]
fn failed_install_does_not_change_the_installed_check() {
    let tool = ripgrep();
    let before = tool.is_installed(&workspace());
    let failed = tool.install(&workspace(), false).resume(Exit::Code(101));
    assert!(matches!(failed, Provisioning::Done(Err(ToolError::Process { .. }))));
    let again = tool.install(&workspace(), false).resume(Exit::Code(101));
    assert_eq!(again, failed);
    assert_eq!(tool.is_installed(&workspace()), before);
    assert_eq!(
        tool.is_installed(&workspace()).resume(Probe::File(false)),
        InstalledCheck::Done(Ok(false))
    );
}

#[test]
fn install_that_cannot_start_is_a_process_error() {
    let tool = repo_tool();
    let command = command_of(tool.install(&workspace(), false));
    let exit = Exit::NotStarted("No such file or directory".to_string());
    assert_eq!(
        tool.install(&workspace(), false).resume(exit.clone()),
        Provisioning::Done(Err(ToolError::Process { command, exit }))
    );
}

#[test]
fn killed_install_is_a_process_error() {
    let tool = repo_tool();
    let command = command_of(tool.install(&workspace(), false));
    assert_eq!(
        tool.install(&workspace(), false).resume(Exit::Killed),
        Provisioning::Done(Err(ToolError::Process { command, exit: Exit::Killed }))
    );
}

#[test]
fn finished_operation_ignores_reports() {
    let done = ripgrep().install(&workspace(), false).resume(Exit::Code(0));
    assert_eq!(done.resume(Exit::Code(3)), Provisioning::Done(Ok(())));
    let failed = ripgrep().install(&workspace(), false).resume(Exit::Code(3));
    let expected = ripgrep().install(&workspace(), false).resume(Exit::Code(3));
    assert_eq!(failed.resume(Exit::Code(0)), expected);
}

#[test]
fn update_from_registry_runs_install_update_once() {
    let tool = ripgrep();
    for fast_install in [false, true] {
        let command = command_of(tool.update(&workspace(), fast_install));
        assert_eq!(command.binary, Binary::ManagedByRustwide("cargo".to_string()));
        assert_eq!(command.args, strings(&["install-update", "ripgrep"]));
        assert_eq!(command.timeout, None);
    }
    let after = tool.update(&workspace(), true).resume(Exit::Code(0));
    assert_eq!(after, Provisioning::Done(Ok(())));
}

#[test]
fn update_ignores_fast_install() {
    assert_eq!(ripgrep().update(&workspace(), true), ripgrep().update(&workspace(), false));
    assert_eq!(repo_tool().update(&workspace(), true), repo_tool().update(&workspace(), false));
}

#[test]
fn failed_update_is_a_process_error() {
    let tool = ripgrep();
    let command = command_of(tool.update(&workspace(), false));
    assert_eq!(
        tool.update(&workspace(), false).resume(Exit::Code(1)),
        Provisioning::Done(Err(ToolError::Process { command, exit: Exit::Code(1) }))
    );
}

#[test]
fn update_from_repository_runs_nothing_and_succeeds() {
    for fast_install in [false, true] {
        assert_eq!(repo_tool().update(&workspace(), fast_install), Provisioning::Done(Ok(())));
    }
    assert_eq!(
        repo_tool().update(&workspace(), false).resume(Exit::Code(1)),
        Provisioning::Done(Ok(()))
    );
}

#[test]
fn plugin_is_invoked_through_the_package_manager() {
    let tool = plugin();
    assert_eq!(Runnable::name(&tool), Binary::ManagedByRustwide("cargo".to_string()));
    let command = Command::new(&workspace(), &tool);
    assert_eq!(command.binary, Binary::ManagedByRustwide("cargo".to_string()));
    assert_eq!(command.args, strings(&["sweep"]));
    assert_eq!(command.timeout, Some(900));
}

#[test]
fn plugin_subcommand_leads_the_arguments() {
    let tool = plugin();
    let bare = Command {
        binary: Binary::Global("anything".to_string()),
        args: strings(&["--time", "30"]),
        timeout: Some(5),
    };
    let prepared = tool.prepare_command(bare);
    assert_eq!(prepared.binary, Binary::Global("anything".to_string()));
    assert_eq!(prepared.args, strings(&["sweep", "--time", "30"]));
    assert_eq!(prepared.timeout, Some(5));
    let command = Command::new(&workspace(), &tool).args(&["--time", "30"]);
    assert_eq!(command.args, strings(&["sweep", "--time", "30"]));
}

#[test]
fn plain_tool_is_invoked_by_its_own_binary() {
    let tool = ripgrep();
    assert_eq!(Runnable::name(&tool), Binary::ManagedByRustwide("rg".to_string()));
    let bare = Command {
        binary: Binary::ManagedByRustwide("rg".to_string()),
        args: strings(&["-n", "needle"]),
        timeout: None,
    };
    assert_eq!(tool.prepare_command(bare.clone()), bare);
    let command = Command::new(&workspace(), &tool);
    assert_eq!(command.args, Vec::<String>::new());
    assert_eq!(command.binary, Binary::ManagedByRustwide("rg".to_string()));
}

#[test]
fn cargo_is_the_managed_package_manager() {
    assert_eq!(Cargo.name(), Binary::ManagedByRustwide("cargo".to_string()));
    let command = Command::new(&Workspace::new("/w", None), &Cargo);
    assert_eq!(command.binary, Binary::ManagedByRustwide("cargo".to_string()));
    assert!(command.args.is_empty());
    assert_eq!(command.timeout, None);
    let kept = Cargo.prepare_command(command.clone().args(&["build"]));
    assert_eq!(kept.args, strings(&["build"]));
}

#[test]
fn cargo_install_update_is_a_plugin_from_the_registry() {
    let updater = cargo_install_update();
    assert_eq!(updater.crate_name, CrateName::Registry("cargo-update"));
    assert_eq!(updater.binary, "cargo-install-update");
    assert_eq!(updater.cargo_subcommand, Some("install-update"));
    assert_eq!(Runnable::name(&updater), Binary::ManagedByRustwide("cargo".to_string()));
    let install = command_of(updater.install(&workspace(), false));
    assert_eq!(install.args, strings(&["install", "cargo-update"]));
}

#[test]
fn command_new_takes_the_workspace_time_limit() {
    assert_eq!(Command::new(&workspace(), &Cargo).timeout, Some(900));
    assert_eq!(Command::new(&Workspace::new("/w", Some(1)), &Cargo).timeout, Some(1));
}

#[test]
fn command_args_appends_in_order() {
    let command = Command::new(&workspace(), &Cargo)
        .args(&["a", "b"])
        .args(&[])
        .args(&["c"]);
    assert_eq!(command.args, strings(&["a", "b", "c"]));
    assert_eq!(command.timeout, Some(900));
}

#[test]
fn command_timeout_replaces_the_limit() {
    let command = Command::new(&workspace(), &Cargo).args(&["x"]);
    let unlimited = command.clone().timeout(None);
    assert_eq!(unlimited.timeout, None);
    assert_eq!(unlimited.args, command.args);
    assert_eq!(unlimited.binary, command.binary);
    assert_eq!(command.timeout(Some(3)).timeout, Some(3));
}

#[test]
fn exit_succeeds_only_with_code_zero() {
    assert!(Exit::Code(0).success());
    assert!(!Exit::Code(1).success());
    assert!(!Exit::Code(-1).success());
    assert!(!Exit::Killed.success());
    assert!(!Exit::NotStarted(String::new()).success());
}
