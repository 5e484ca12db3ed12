//! Shell hooks and the installer.

use rck_core::klipdot::installer::ShellInstaller;
use rck_core::klipdot::shell_hooks::{HookStatus, ShellHookManager};

#[test]
fn test_shell_hook_manager_creation() {
    let manager = ShellHookManager::new();
    assert!(manager.is_ok());

    let manager = manager.unwrap();
    assert!(!manager.patterns.is_empty());
    assert!(!manager.command_aliases.is_empty());
}

#[test]
fn test_image_command_detection() {
    let manager = ShellHookManager::new().unwrap();

    assert!(manager.is_image_command("cp test.png /tmp/"));
    assert!(manager.is_image_command("mv screenshot.jpg ~/Desktop/"));
    assert!(manager.is_image_command("scp image.gif user@host:/path/"));
    assert!(manager.is_image_command("screencapture -i test.png"));

    assert!(!manager.is_image_command("cp test.txt /tmp/"));
    assert!(!manager.is_image_command("ls -la"));
    assert!(!manager.is_image_command("echo hello"));
}

#[test]
fn test_command_replacement() {
    let manager = ShellHookManager::new().unwrap();

    let replacement = manager.get_command_replacement("cp file1 file2");
    assert!(replacement.is_some());
    assert!(replacement.unwrap().starts_with("klipdot_cp"));

    let replacement = manager.get_command_replacement("ls -la");
    assert!(replacement.is_none());
}

#[test]
fn test_hook_function_generation() {
    let manager = ShellHookManager::new().unwrap();

    let functions = manager.generate_hook_functions();
    assert!(functions.contains("klipdot_handle_file"));
    assert!(functions.contains("klipdot_preexec_hook"));
    assert!(functions.contains("klipdot_precmd_hook"));
}

#[test]
fn test_command_wrapper_generation() {
    let manager = ShellHookManager::new().unwrap();

    let wrappers = manager.generate_command_wrappers();
    assert!(wrappers.contains("cp()"));
    assert!(wrappers.contains("mv()"));
    assert!(wrappers.contains("scp()"));
    assert!(wrappers.contains("command cp"));
}

#[test]
fn test_shell_integration_generation() {
    let manager = ShellHookManager::new().unwrap();

    let bash_integration = manager.generate_shell_integration("bash");
    assert!(bash_integration.contains("BASH_VERSION"));
    assert!(bash_integration.contains("PROMPT_COMMAND"));

    let zsh_integration = manager.generate_shell_integration("zsh");
    assert!(zsh_integration.contains("ZSH_VERSION"));
    assert!(zsh_integration.contains("add-zsh-hook"));
}

#[test]
fn test_hook_status() {
    let status = HookStatus::from_checks(false, true, Some("source ~/.klipdot/hooks"), None);
    assert!(!status.binary_available);
    assert!(status.hooks_installed);
    assert!(status.bash_integrated);
    assert!(!status.zsh_integrated);
    let plain = HookStatus::default();
    assert!(!plain.hooks_installed);
}

#[test]
fn replacement_rejoins_words() {
    let manager = ShellHookManager::new().unwrap();
    assert_eq!(
        manager.get_command_replacement("  mv   a.png \t b/ ").unwrap(),
        "klipdot_mv a.png b/"
    );
    assert_eq!(manager.get_command_replacement("scp").unwrap(), "klipdot_scp");
    assert!(manager.get_command_replacement("   ").is_none());
}

#[test]
fn environment_and_arguments() {
    let manager = ShellHookManager::new().unwrap();
    assert_eq!(
        manager.generate_environment_setup(),
        "# KlipDot Environment Setup\nexport KLIPDOT_ENABLED=\"1\"\nexport KLIPDOT_LOG_LEVEL=\"info\"\n\n"
    );
    assert_eq!(
        manager.extract_image_files("cp shot.PNG notes.txt /tmp/pic.webp"),
        vec!["shot.PNG", "/tmp/pic.webp"]
    );
    assert!(manager.should_intercept_command("ls", true));
    assert!(!manager.should_intercept_command("ls", false));
    assert!(manager.generate_shell_integration("fish").ends_with("# Generic shell integration\n"));
}

fn installer(shell: &str) -> ShellInstaller {
    ShellInstaller::new(shell, "/home/u", Some("/home/u/.klipdot"))
}

#[test]
fn test_shell_installer_creation() {
    let installer_bash = installer("bash");
    assert_eq!(installer_bash.shell_type, "bash");
    assert!(installer_bash.shell_rc_path.contains(".bashrc"));

    let installer_zsh = installer("zsh");
    assert_eq!(installer_zsh.shell_type, "zsh");
    assert!(installer_zsh.shell_rc_path.contains(".zshrc"));
}

#[test]
fn test_shell_detection() {
    let shell = ShellInstaller::shell_from_env(Some("/usr/bin/zsh"));
    assert_eq!(shell, "zsh");
    assert!(!ShellInstaller::shell_from_env(None).is_empty());
    assert_eq!(ShellInstaller::shell_from_env(None), "bash");
}

#[test]
fn test_hook_content_generation() {
    let installer = ShellInstaller::new("bash", "/tmp/home", None);
    assert_eq!(installer.hooks_dir, "/tmp/home/.klipdot/hooks");

    let bash_content = installer.generate_bash_hook_content("/tmp/home/.klipdot", "/usr/bin/klipdot");
    assert!(bash_content.contains("KlipDot Bash Integration"));
    assert!(bash_content.contains("klipdot_handle_image"));
    assert!(bash_content.contains("preexec"));

    let zsh_content = installer.generate_zsh_hook_content("/tmp/home/.klipdot", "/usr/bin/klipdot");
    assert!(zsh_content.contains("KlipDot ZSH Integration"));
    assert!(zsh_content.contains("klipdot_handle_image"));
    assert!(zsh_content.contains("add-zsh-hook"));
    assert!(zsh_content.contains("KLIPDOT_BIN=\"/usr/bin/klipdot\""));
}

#[test]
fn test_source_line_operations() {
    let installer = installer("bash");
    let rc = "export PATH=$PATH:~/bin\n";
    let added = installer.add_source_line(rc).unwrap();
    assert!(added.contains("KlipDot Terminal Interceptor"));
    assert!(added.contains("source"));
    assert!(added.contains("/home/u/.klipdot/hooks/bash-hooks.bash"));
    // Adding twice changes nothing.
    assert!(installer.add_source_line(&added).is_none());

    let removed = installer.remove_source_line(&added);
    assert!(!removed.contains("KlipDot Terminal Interceptor"));
    assert!(!removed.contains("bash-hooks.bash"));
    assert!(removed.contains("export PATH"));
}

#[test]
fn desktop_and_unit_files() {
    let d = ShellInstaller::desktop_entry("/opt/k");
    assert!(d.contains("Exec=/opt/k start --daemon"));
    let u = ShellInstaller::systemd_service("/opt/k");
    assert!(u.contains("ExecStart=/opt/k start --daemon"));
    assert_eq!(installer("zsh").hook_file(), "/home/u/.klipdot/hooks/zsh-hooks.zsh");
}
