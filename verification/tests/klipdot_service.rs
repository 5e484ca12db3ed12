//! The background service's files and process records.

use rck_core::klipdot::service::ServiceManager;

#[test]
fn test_service_manager_creation() {
    let service_manager = ServiceManager::new("/home/u/.klipdot");
    assert!(service_manager.pid_file.contains("klipdot.pid"));
    assert!(service_manager.log_file.contains("klipdot.log"));
}

#[test]
fn test_pid_file_operations() {
    let pid = 12345;
    let text = ServiceManager::pid_text(pid);
    assert_eq!(text, "12345");
    assert_eq!(ServiceManager::parse_pid(&text).unwrap(), pid);
    assert_eq!(ServiceManager::parse_pid(" 42\n").unwrap(), 42);
    assert!(ServiceManager::parse_pid("").is_err());
    assert!(ServiceManager::parse_pid("4294967296").is_err());
    assert!(ServiceManager::parse_pid("12a").is_err());
}

#[test]
fn test_log_operations() {
    assert_eq!(ServiceManager::log_tail(None, 10), "No log file found");
    let log_content = "Line 1\nLine 2\nLine 3\nLine 4\nLine 5";
    assert_eq!(ServiceManager::log_tail(Some(log_content), 3), "Line 3\nLine 4\nLine 5");
    assert_eq!(ServiceManager::log_tail(Some(log_content), 10), log_content);
    let m = ServiceManager::new("/var/k");
    assert_eq!(m.rotated_log_path(), "/var/k/klipdot.log.old");
}

#[test]
fn proc_records() {
    let stat = "cpu 1 2 3\nbtime 1700000000\nprocesses 5\n";
    assert_eq!(ServiceManager::parse_boot_time(stat).unwrap(), 1700000000);
    assert!(ServiceManager::parse_boot_time("cpu 1\n").is_err());
    let status = "Name:\tklipdot\nVmRSS:\t  2048 kB\n";
    assert_eq!(ServiceManager::memory_usage_kb(status), Some(2048));
    assert_eq!(ServiceManager::memory_usage_bytes(status), Some(2048 * 1024));
    assert_eq!(ServiceManager::memory_usage_kb("Name: x\n"), None);
    let fields: Vec<String> = (0..22).map(|i| if i == 21 { "500".to_string() } else { "x".to_string() }).collect();
    let pstat = fields.join(" ");
    assert_eq!(ServiceManager::uptime_secs(&pstat, 1000, 100, 1010), Some(5));
    assert_eq!(ServiceManager::uptime_secs(&pstat, 1000, 100, 1005), None);
    assert_eq!(ServiceManager::uptime_secs("1 2 3", 1000, 100, 2000), None);
}
