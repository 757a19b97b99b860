use rs_dotnet::hosting::{
    native_string, Context, HostAction, HostEvent, HostMachine, NativeString, Phase, Platform,
    ENTRY_METHOD_NAME, ENTRY_TYPE_NAME, HOSTFXR_PATH_CAPACITY, LOAD_ASSEMBLY_AND_GET_FUNCTION_POINTER,
    RUNTIME_CONFIG_PATH, UNMANAGEDCALLERSONLY_METHOD,
};
use rs_dotnet::wide::to_wstring;

fn full_context() -> Context {
    Context {
        initialize_for_runtime_config_func_ptr: 0x1000,
        get_runtime_delegate_func_ptr: 0x2000,
        close_func_ptr: 0x3000,
    }
}

fn narrow(s: &str) -> Vec<u8> {
    let mut v = s.as_bytes().to_vec();
    v.push(0);
    v
}

fn path_buffer(path: &str) -> Vec<u8> {
    let mut b = path.as_bytes().to_vec();
    b.resize(HOSTFXR_PATH_CAPACITY, 0);
    b
}

/// Drives a Unix machine up to the point where the assembly is to be loaded.
fn unix_until_assembly(m: &mut HostMachine) {
    assert!(matches!(m.step(HostEvent::Begin), HostAction::QueryHostfxrPath { .. }));
    assert!(matches!(
        m.step(HostEvent::HostfxrPathFound { status: 0, buffer: path_buffer("/lib/libhostfxr.so") }),
        HostAction::LoadHostfxr { .. }
    ));
    assert!(matches!(
        m.step(HostEvent::HostfxrLoaded { loaded: true, context: full_context() }),
        HostAction::InitializeRuntime { .. }
    ));
    assert!(matches!(
        m.step(HostEvent::RuntimeInitialized { status: 0, handle: 77 }),
        HostAction::GetRuntimeDelegate { .. }
    ));
    assert!(matches!(
        m.step(HostEvent::DelegateObtained { status: 0, delegate: 0x4000 }),
        HostAction::CloseHost { .. }
    ));
    assert!(matches!(m.step(HostEvent::HostClosed { status: 0, exe_dir: "/opt/app".to_string() }), HostAction::LoadAssembly { .. }));
}

#[test]
fn successful_unix_start_invokes_entry() {
    let mut m = HostMachine::new(Platform::Unix, RUNTIME_CONFIG_PATH.to_string());
    assert_eq!(m.phase(), Phase::Start);
    match m.step(HostEvent::Begin) {
        HostAction::QueryHostfxrPath { capacity } => assert_eq!(capacity, 260),
        _ => panic!("expected a path query"),
    }
    match m.step(HostEvent::HostfxrPathFound { status: 0, buffer: path_buffer("/lib/libhostfxr.so") }) {
        HostAction::LoadHostfxr { path } => assert_eq!(path, "/lib/libhostfxr.so"),
        _ => panic!("expected a library load"),
    }
    match m.step(HostEvent::HostfxrLoaded { loaded: true, context: full_context() }) {
        HostAction::InitializeRuntime { func, config_path: NativeString::Narrow(c) } => {
            assert_eq!(func, 0x1000);
            assert_eq!(c, narrow("./AppWithPlugin.runtimeconfig.json"));
        },
        _ => panic!("expected runtime initialisation"),
    }
    match m.step(HostEvent::RuntimeInitialized { status: 0, handle: 77 }) {
        HostAction::GetRuntimeDelegate { func, handle, delegate_type } => {
            assert_eq!((func, handle, delegate_type), (0x2000, 77, 5));
        },
        _ => panic!("expected a delegate request"),
    }
    match m.step(HostEvent::DelegateObtained { status: 0, delegate: 0x4000 }) {
        HostAction::CloseHost { func, handle } => assert_eq!((func, handle), (0x3000, 77)),
        _ => panic!("expected a close"),
    }
    match m.step(HostEvent::HostClosed { status: 0, exe_dir: "/opt/app".to_string() }) {
        HostAction::LoadAssembly {
            func,
            assembly_path: NativeString::Narrow(a),
            managed_type: NativeString::Narrow(t),
            method_name: NativeString::Narrow(n),
            delegate_type_name,
        } => {
            assert_eq!(func, 0x4000);
            assert_eq!(a, narrow("/opt/app/AppWithPlugin.dll"));
            assert_eq!(t, narrow("AppWithPlugin.Entry, AppWithPlugin"));
            assert_eq!(n, narrow("Main"));
            assert_eq!(delegate_type_name, -1);
        },
        _ => panic!("expected an assembly load"),
    }
    match m.step(HostEvent::AssemblyLoaded { status: 0, entry: 0x5000 }) {
        HostAction::InvokeEntry { entry } => assert_eq!(entry, 0x5000),
        _ => panic!("expected the entry point"),
    }
    assert_eq!(m.phase(), Phase::Done);
    assert!(m.is_finished());
    assert!(matches!(m.step(HostEvent::Begin), HostAction::Stop));
    assert_eq!(m.phase(), Phase::Done);
}

#[test]
fn successful_windows_start_uses_wide_strings() {
    let mut m = HostMachine::new(Platform::Windows, RUNTIME_CONFIG_PATH.to_string());
    assert!(matches!(m.step(HostEvent::Begin), HostAction::QueryHostfxrPath { capacity: 260 }));
    let raw = to_wstring("C:\\dotnet\\hostfxr.dll");
    match m.step(HostEvent::HostfxrPathFoundWide { status: 0, wide_buffer: raw.clone() }) {
        HostAction::LoadHostfxrWide { wide_path } => assert_eq!(wide_path, raw),
        _ => panic!("expected a wide library load"),
    }
    match m.step(HostEvent::HostfxrLoaded { loaded: true, context: full_context() }) {
        HostAction::InitializeRuntime { func, config_path: NativeString::Wide(c) } => {
            assert_eq!(func, 0x1000);
            assert_eq!(c, to_wstring("./AppWithPlugin.runtimeconfig.json"));
        },
        _ => panic!("expected runtime initialisation"),
    }
    assert!(matches!(
        m.step(HostEvent::RuntimeInitialized { status: 0, handle: 9 }),
        HostAction::GetRuntimeDelegate { handle: 9, .. }
    ));
    assert!(matches!(
        m.step(HostEvent::DelegateObtained { status: 0, delegate: 0x4000 }),
        HostAction::CloseHost { handle: 9, .. }
    ));
    match m.step(HostEvent::HostClosed { status: 3, exe_dir: "/opt/app".to_string() }) {
        HostAction::LoadAssembly { assembly_path: NativeString::Wide(a), managed_type: NativeString::Wide(t), .. } => {
            assert_eq!(a, to_wstring("./AppWithPlugin.dll"));
            assert_eq!(t, to_wstring("AppWithPlugin.Entry, AppWithPlugin"));
        },
        _ => panic!("expected an assembly load"),
    }
    assert!(matches!(m.step(HostEvent::AssemblyLoaded { status: 0, entry: 1 }), HostAction::InvokeEntry { entry: 1 }));
}

#[test]
fn hostfxr_path_query_failure_aborts() {
    let mut m = HostMachine::new(Platform::Unix, RUNTIME_CONFIG_PATH.to_string());
    m.step(HostEvent::Begin);
    assert!(matches!(
        m.step(HostEvent::HostfxrPathFound { status: 0x80008083u32 as i32, buffer: path_buffer("/x") }),
        HostAction::Abort
    ));
    assert_eq!(m.phase(), Phase::Failed);
}

#[test]
fn hostfxr_path_not_utf8_aborts() {
    let mut m = HostMachine::new(Platform::Unix, RUNTIME_CONFIG_PATH.to_string());
    m.step(HostEvent::Begin);
    assert!(matches!(m.step(HostEvent::HostfxrPathFound { status: 0, buffer: vec![0xff, 0] }), HostAction::Abort));
}

#[test]
fn windows_path_query_failure_aborts() {
    let mut m = HostMachine::new(Platform::Windows, RUNTIME_CONFIG_PATH.to_string());
    m.step(HostEvent::Begin);
    assert!(matches!(
        m.step(HostEvent::HostfxrPathFoundWide { status: 1, wide_buffer: vec![0; 260] }),
        HostAction::Abort
    ));
}

#[test]
fn unix_library_not_loaded_aborts() {
    let mut m = HostMachine::new(Platform::Unix, RUNTIME_CONFIG_PATH.to_string());
    m.step(HostEvent::Begin);
    m.step(HostEvent::HostfxrPathFound { status: 0, buffer: path_buffer("/x") });
    assert!(matches!(m.step(HostEvent::HostfxrLoaded { loaded: false, context: full_context() }), HostAction::Abort));
}

#[test]
fn unix_missing_init_export_aborts() {
    let mut m = HostMachine::new(Platform::Unix, RUNTIME_CONFIG_PATH.to_string());
    m.step(HostEvent::Begin);
    m.step(HostEvent::HostfxrPathFound { status: 0, buffer: path_buffer("/x") });
    let ctx = Context { initialize_for_runtime_config_func_ptr: 0, ..full_context() };
    assert!(matches!(m.step(HostEvent::HostfxrLoaded { loaded: true, context: ctx }), HostAction::Abort));
}

#[test]
fn unix_missing_delegate_export_aborts_after_init() {
    let mut m = HostMachine::new(Platform::Unix, RUNTIME_CONFIG_PATH.to_string());
    m.step(HostEvent::Begin);
    m.step(HostEvent::HostfxrPathFound { status: 0, buffer: path_buffer("/x") });
    let ctx = Context { get_runtime_delegate_func_ptr: 0, ..full_context() };
    assert!(matches!(m.step(HostEvent::HostfxrLoaded { loaded: true, context: ctx }), HostAction::InitializeRuntime { .. }));
    assert!(matches!(m.step(HostEvent::RuntimeInitialized { status: 0, handle: 1 }), HostAction::Abort));
}

#[test]
fn unix_missing_close_export_aborts_after_delegate() {
    let mut m = HostMachine::new(Platform::Unix, RUNTIME_CONFIG_PATH.to_string());
    m.step(HostEvent::Begin);
    m.step(HostEvent::HostfxrPathFound { status: 0, buffer: path_buffer("/x") });
    let ctx = Context { close_func_ptr: 0, ..full_context() };
    m.step(HostEvent::HostfxrLoaded { loaded: true, context: ctx });
    assert!(matches!(m.step(HostEvent::RuntimeInitialized { status: 0, handle: 1 }), HostAction::GetRuntimeDelegate { .. }));
    assert!(matches!(m.step(HostEvent::DelegateObtained { status: 0, delegate: 5 }), HostAction::Abort));
}

#[test]
fn windows_incomplete_context_aborts_before_init() {
    let mut m = HostMachine::new(Platform::Windows, RUNTIME_CONFIG_PATH.to_string());
    m.step(HostEvent::Begin);
    m.step(HostEvent::HostfxrPathFoundWide { status: 0, wide_buffer: vec![0; 260] });
    let ctx = Context { close_func_ptr: 0, ..full_context() };
    assert!(matches!(m.step(HostEvent::HostfxrLoaded { loaded: true, context: ctx }), HostAction::Abort));
}

#[test]
fn runtime_init_failure_aborts() {
    let mut m = HostMachine::new(Platform::Unix, RUNTIME_CONFIG_PATH.to_string());
    m.step(HostEvent::Begin);
    m.step(HostEvent::HostfxrPathFound { status: 0, buffer: path_buffer("/x") });
    m.step(HostEvent::HostfxrLoaded { loaded: true, context: full_context() });
    assert!(matches!(m.step(HostEvent::RuntimeInitialized { status: -1, handle: 1 }), HostAction::Abort));
    assert!(matches!(m.step(HostEvent::DelegateObtained { status: 0, delegate: 5 }), HostAction::Abort));
    assert_eq!(m.phase(), Phase::Failed);
}

#[test]
fn delegate_failure_aborts() {
    let mut m = HostMachine::new(Platform::Unix, RUNTIME_CONFIG_PATH.to_string());
    m.step(HostEvent::Begin);
    m.step(HostEvent::HostfxrPathFound { status: 0, buffer: path_buffer("/x") });
    m.step(HostEvent::HostfxrLoaded { loaded: true, context: full_context() });
    m.step(HostEvent::RuntimeInitialized { status: 0, handle: 1 });
    assert!(matches!(m.step(HostEvent::DelegateObtained { status: 2, delegate: 5 }), HostAction::Abort));
}

#[test]
fn null_delegate_aborts_after_close() {
    let mut m = HostMachine::new(Platform::Unix, RUNTIME_CONFIG_PATH.to_string());
    m.step(HostEvent::Begin);
    m.step(HostEvent::HostfxrPathFound { status: 0, buffer: path_buffer("/x") });
    m.step(HostEvent::HostfxrLoaded { loaded: true, context: full_context() });
    m.step(HostEvent::RuntimeInitialized { status: 0, handle: 1 });
    assert!(matches!(m.step(HostEvent::DelegateObtained { status: 0, delegate: 0 }), HostAction::CloseHost { .. }));
    assert!(matches!(m.step(HostEvent::HostClosed { status: 0, exe_dir: "/opt/app".to_string() }), HostAction::Abort));
}

#[test]
fn assembly_failure_with_entry_aborts() {
    let mut m = HostMachine::new(Platform::Unix, RUNTIME_CONFIG_PATH.to_string());
    unix_until_assembly(&mut m);
    assert!(matches!(m.step(HostEvent::AssemblyLoaded { status: 1, entry: 0x5000 }), HostAction::Abort));
}

#[test]
fn assembly_failure_without_entry_hands_on_null() {
    let mut m = HostMachine::new(Platform::Unix, RUNTIME_CONFIG_PATH.to_string());
    unix_until_assembly(&mut m);
    assert!(matches!(m.step(HostEvent::AssemblyLoaded { status: 1, entry: 0 }), HostAction::InvokeEntry { entry: 0 }));
    assert_eq!(m.phase(), Phase::Done);
}

#[test]
fn null_entry_is_handed_on() {
    let mut m = HostMachine::new(Platform::Unix, RUNTIME_CONFIG_PATH.to_string());
    unix_until_assembly(&mut m);
    assert!(matches!(m.step(HostEvent::AssemblyLoaded { status: 0, entry: 0 }), HostAction::InvokeEntry { entry: 0 }));
}

#[test]
fn config_path_with_nul_fails_before_native_calls_on_unix() {
    let mut m = HostMachine::new(Platform::Unix, "./a\0b.json".to_string());
    assert!(matches!(m.step(HostEvent::Begin), HostAction::Abort));
    assert_eq!(m.phase(), Phase::Failed);
}

#[test]
fn config_path_with_nul_is_passed_wide_on_windows() {
    let mut m = HostMachine::new(Platform::Windows, "./a\0b.json".to_string());
    assert!(matches!(m.step(HostEvent::Begin), HostAction::QueryHostfxrPath { .. }));
    m.step(HostEvent::HostfxrPathFoundWide { status: 0, wide_buffer: vec![0; 260] });
    match m.step(HostEvent::HostfxrLoaded { loaded: true, context: full_context() }) {
        HostAction::InitializeRuntime { config_path: NativeString::Wide(c), .. } => {
            assert_eq!(c, to_wstring("./a\0b.json"));
        },
        _ => panic!("expected runtime initialisation"),
    }
}

#[test]
fn caller_chosen_config_path_is_initialised() {
    let mut m = HostMachine::new(Platform::Unix, "/etc/app/custom.runtimeconfig.json".to_string());
    m.step(HostEvent::Begin);
    m.step(HostEvent::HostfxrPathFound { status: 0, buffer: path_buffer("/x") });
    match m.step(HostEvent::HostfxrLoaded { loaded: true, context: full_context() }) {
        HostAction::InitializeRuntime { config_path: NativeString::Narrow(c), .. } => {
            assert_eq!(c, narrow("/etc/app/custom.runtimeconfig.json"));
        },
        _ => panic!("expected runtime initialisation"),
    }
}

#[test]
fn assembly_path_with_nul_aborts() {
    let mut m = HostMachine::new(Platform::Unix, RUNTIME_CONFIG_PATH.to_string());
    m.step(HostEvent::Begin);
    m.step(HostEvent::HostfxrPathFound { status: 0, buffer: path_buffer("/x") });
    m.step(HostEvent::HostfxrLoaded { loaded: true, context: full_context() });
    m.step(HostEvent::RuntimeInitialized { status: 0, handle: 1 });
    m.step(HostEvent::DelegateObtained { status: 0, delegate: 5 });
    assert!(matches!(
        m.step(HostEvent::HostClosed { status: 0, exe_dir: "/opt/a\0pp".to_string() }),
        HostAction::Abort
    ));
}

#[test]
fn unexpected_event_aborts() {
    let mut m = HostMachine::new(Platform::Unix, RUNTIME_CONFIG_PATH.to_string());
    assert!(matches!(m.step(HostEvent::HostClosed { status: 0, exe_dir: "/opt/app".to_string() }), HostAction::Abort));
    assert_eq!(m.phase(), Phase::Failed);
}

#[test]
fn wrong_platform_event_aborts() {
    let mut m = HostMachine::new(Platform::Unix, RUNTIME_CONFIG_PATH.to_string());
    m.step(HostEvent::Begin);
    assert!(matches!(
        m.step(HostEvent::HostfxrPathFoundWide { status: 0, wide_buffer: vec![0; 4] }),
        HostAction::Abort
    ));
}

#[test]
fn failure_is_final() {
    let mut m = HostMachine::new(Platform::Unix, RUNTIME_CONFIG_PATH.to_string());
    m.step(HostEvent::AssemblyLoaded { status: 0, entry: 1 });
    assert!(m.is_finished());
    assert!(matches!(m.step(HostEvent::Begin), HostAction::Abort));
    assert!(matches!(m.step(HostEvent::AssemblyLoaded { status: 0, entry: 1 }), HostAction::Abort));
    assert_eq!(m.phase(), Phase::Failed);
}

#[test]
fn context_loaded_only_when_complete() {
    assert!(full_context().is_loaded());
    assert!(!Context::new().is_loaded());
    assert!(!Context { get_runtime_delegate_func_ptr: 0, ..full_context() }.is_loaded());
    let c = Context::new();
    assert_eq!(c.initialize_for_runtime_config_func_ptr, 0);
    assert_eq!(c.get_runtime_delegate_func_ptr, 0);
    assert_eq!(c.close_func_ptr, 0);
}

#[test]
fn native_string_per_platform() {
    match native_string(Platform::Unix, "Main") {
        Some(NativeString::Narrow(b)) => assert_eq!(b, narrow("Main")),
        _ => panic!("expected narrow"),
    }
    match native_string(Platform::Windows, "Main") {
        Some(NativeString::Wide(w)) => assert_eq!(w, vec![77u16, 97, 105, 110, 0]),
        _ => panic!("expected wide"),
    }
    assert!(native_string(Platform::Unix, "a\0").is_none());
    assert!(native_string(Platform::Windows, "a\0").is_some());
}

#[test]
fn hosting_constants() {
    assert_eq!(RUNTIME_CONFIG_PATH, "./AppWithPlugin.runtimeconfig.json");
    assert_eq!(ENTRY_TYPE_NAME, "AppWithPlugin.Entry, AppWithPlugin");
    assert_eq!(ENTRY_METHOD_NAME, "Main");
    assert_eq!(LOAD_ASSEMBLY_AND_GET_FUNCTION_POINTER, 5);
    assert_eq!(UNMANAGEDCALLERSONLY_METHOD, -1);
}
