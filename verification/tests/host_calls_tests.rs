use pros_simulator::host_calls::{has_return, lookup_host_call, param_count, str_eq, HostCall};

#[test]
fn known_imports_resolve() {
    assert_eq!(lookup_host_call("env", "mutex_create"), Some(HostCall::MutexCreate));
    assert_eq!(lookup_host_call("env", "mutex_take"), Some(HostCall::MutexTake));
    assert_eq!(lookup_host_call("env", "task_create"), Some(HostCall::TaskCreate));
    assert_eq!(lookup_host_call("env", "millis"), Some(HostCall::Millis));
    assert_eq!(
        lookup_host_call("env", "pvTaskGetThreadLocalStoragePointer"),
        Some(HostCall::TaskGetLocalStorage)
    );
    assert_eq!(lookup_host_call("pros_v0", "lcd_set_text"), Some(HostCall::LcdSetText));
    assert_eq!(lookup_host_call("pros_v0", "get_errno"), Some(HostCall::GetErrno));
    assert_eq!(
        lookup_host_call("pros_v0", "lcd_register_btn2_cb"),
        Some(HostCall::LcdRegisterBtn2Cb)
    );
}

#[test]
fn unknown_imports_do_not_resolve() {
    assert_eq!(lookup_host_call("env", "micros"), None);
    assert_eq!(lookup_host_call("env", "lcd_set_text"), None);
    assert_eq!(lookup_host_call("pros_v0", "mutex_create"), None);
    assert_eq!(lookup_host_call("wasi_snapshot_preview1", "fd_write"), None);
    assert_eq!(lookup_host_call("", ""), None);
}

#[test]
fn arities_match_the_import_surface() {
    assert_eq!(param_count(HostCall::MutexCreate), 0);
    assert_eq!(param_count(HostCall::MutexTake), 2);
    assert_eq!(param_count(HostCall::TaskCreate), 5);
    assert_eq!(param_count(HostCall::LcdSetText), 3);
    assert_eq!(param_count(HostCall::Panic), 2);
    assert_eq!(param_count(HostCall::TaskSetLocalStorage), 3);

    assert!(has_return(HostCall::MutexCreate));
    assert!(!has_return(HostCall::MutexDelete));
    assert!(has_return(HostCall::RtosResumeAll));
    assert!(!has_return(HostCall::RtosSuspendAll));
    assert!(!has_return(HostCall::LcdRegisterBtn0Cb));
    assert!(has_return(HostCall::LcdIsInitialized));
}

#[test]
fn string_equality() {
    assert!(str_eq("mutex_create", "mutex_create"));
    assert!(!str_eq("mutex_create", "mutex_delete"));
    assert!(!str_eq("short", "longer text"));
    assert!(str_eq("", ""));
}
