use vstd::prelude::*;
use crate::c_string::{c_string_of, encode_c_string};
use crate::host_path::{
    hostfxr_path_from_buffer, join_path, join_path_spec, spec_hostfxr_path, trim_nul,
    trim_nul_chars,
};
use crate::platform::{load_hostfxr_library, spec_load_hostfxr_library};
use crate::wide::{to_wstring, wide_string};

verus! {

/// Path of the runtime configuration that the host initialises from.
pub const RUNTIME_CONFIG_PATH: &'static str = "./AppWithPlugin.runtimeconfig.json";

/// File name of the managed assembly, next to the executable.
pub const ASSEMBLY_FILE_NAME: &'static str = "AppWithPlugin.dll";

/// Path of the managed assembly as the Windows host names it.
pub const WINDOWS_ASSEMBLY_PATH: &'static str = "./AppWithPlugin.dll";

/// Assembly-qualified name of the managed type that holds the entry point.
pub const ENTRY_TYPE_NAME: &'static str = "AppWithPlugin.Entry, AppWithPlugin";

/// Name of the managed entry method.
pub const ENTRY_METHOD_NAME: &'static str = "Main";

/// Capacity, in code units, of the buffer handed to the hostfxr path query.
pub const HOSTFXR_PATH_CAPACITY: usize = 260;

/// The runtime delegate kind "load assembly and get function pointer".
pub const LOAD_ASSEMBLY_AND_GET_FUNCTION_POINTER: i32 = 5;

/// The delegate type name value that asks for an `UnmanagedCallersOnly` method.
pub const UNMANAGEDCALLERSONLY_METHOD: isize = -1;

/// The operating system whose native hosting interface is driven.
#[derive(PartialEq, Eq, Structural, Clone, Copy, Debug)]
pub enum Platform {
    Unix,
    Windows,
}

/// Addresses of the three hostfxr exports that the host calls; zero stands
/// for an export that could not be resolved.
#[derive(Clone, Copy, Debug)]
pub struct Context {
    pub initialize_for_runtime_config_func_ptr: usize,
    pub get_runtime_delegate_func_ptr: usize,
    pub close_func_ptr: usize,
}

impl Context {
    /// A context in which no export has been resolved yet.
    pub fn new() -> (c: Context)
        ensures
            c.initialize_for_runtime_config_func_ptr == 0,
            c.get_runtime_delegate_func_ptr == 0,
            c.close_func_ptr == 0,
    {
        Context {
            initialize_for_runtime_config_func_ptr: 0,
            get_runtime_delegate_func_ptr: 0,
            close_func_ptr: 0,
        }
    }

    /// Whether all three exports were resolved.
    pub open spec fn spec_is_loaded(self) -> bool {
        &&& self.initialize_for_runtime_config_func_ptr != 0
        &&& self.get_runtime_delegate_func_ptr != 0
        &&& self.close_func_ptr != 0
    }

    /// Whether all three exports were resolved: the outcome of loading the
    /// hostfxr library on Windows.
    pub fn is_loaded(&self) -> (r: bool)
        ensures
            r == self.spec_is_loaded(),
            r <==> self.initialize_for_runtime_config_func_ptr != 0
                && self.get_runtime_delegate_func_ptr != 0 && self.close_func_ptr != 0,
    {
        self.initialize_for_runtime_config_func_ptr != 0 && self.get_runtime_delegate_func_ptr
            != 0 && self.close_func_ptr != 0
    }
}

/// A string in the form a native host function takes it.
pub enum NativeString {
    /// NUL-terminated UTF-8 bytes (Unix).
    Narrow(Vec<u8>),
    /// NUL-terminated UTF-16 units (Windows).
    Wide(Vec<u16>),
}

/// The contents of a [`NativeString`].
pub enum NativeText {
    Narrow(Seq<u8>),
    Wide(Seq<u16>),
}

impl View for NativeString {
    type V = NativeText;

    open spec fn view(&self) -> NativeText {
        match self {
            NativeString::Narrow(b) => NativeText::Narrow(b@),
            NativeString::Wide(w) => NativeText::Wide(w@),
        }
    }
}

/// The native form of the text `s` on `platform`; none when `s` cannot be
/// passed as a C string.
pub open spec fn native_text(platform: Platform, s: Seq<char>) -> Option<NativeText> {
    match platform {
        Platform::Unix => match c_string_of(s) {
            Some(b) => Some(NativeText::Narrow(b)),
            None => None,
        },
        Platform::Windows => Some(NativeText::Wide(wide_string(s))),
    }
}

/// Encodes `s` for the native host functions of `platform`.
pub fn native_string(platform: Platform, s: &str) -> (r: Option<NativeString>)
    ensures
        r is Some <==> native_text(platform, s@) is Some,
        r matches Some(n) ==> Some(n@) == native_text(platform, s@),
{
    match platform {
        Platform::Unix => match encode_c_string(s) {
            Some(b) => Some(NativeString::Narrow(b)),
            None => None,
        },
        Platform::Windows => Some(NativeString::Wide(to_wstring(s))),
    }
}

/// How far the host has come in starting the managed program.
#[derive(PartialEq, Eq, Structural, Clone, Copy, Debug)]
pub enum Phase {
    /// Nothing has been done yet.
    Start,
    /// The path of the hostfxr library is being queried.
    LocatingHostfxr,
    /// The hostfxr library is being loaded and its exports resolved.
    LoadingHostfxr,
    /// The runtime is being initialised from its configuration.
    InitializingRuntime,
    /// The load-assembly delegate is being requested.
    GettingDelegate,
    /// The host context is being closed.
    ClosingHost,
    /// The managed assembly is being loaded and its entry point resolved.
    LoadingAssembly,
    /// The entry point has been handed out to be invoked.
    Done,
    /// A step failed; the host gives up.
    Failed,
}

/// What the native side reports back after performing a [`HostAction`].
pub enum HostEvent {
    /// Start the protocol.
    Begin,
    /// The hostfxr path query returned `status` and filled `buffer` (Unix).
    HostfxrPathFound { status: i32, buffer: Vec<u8> },
    /// The hostfxr path query returned `status` and filled `buffer` (Windows).
    HostfxrPathFoundWide { status: i32, wide_buffer: Vec<u16> },
    /// The library was loaded (`loaded`) and its exports resolved to `context`.
    HostfxrLoaded { loaded: bool, context: Context },
    /// Runtime initialisation returned `status` and the host context `handle`.
    RuntimeInitialized { status: i32, handle: usize },
    /// The delegate request returned `status` and the function `delegate`.
    DelegateObtained { status: i32, delegate: usize },
    /// Closing the host context returned `status`; `exe_dir` is the
    /// directory of the running executable, read after the close (Unix).
    HostClosed { status: i32, exe_dir: String },
    /// Loading the assembly returned `status` and the function `entry`.
    AssemblyLoaded { status: i32, entry: usize },
}

/// The contents of a [`HostEvent`].
pub enum HostEventView {
    Begin,
    HostfxrPathFound { status: i32, buffer: Seq<u8> },
    HostfxrPathFoundWide { status: i32, wide_buffer: Seq<u16> },
    HostfxrLoaded { loaded: bool, context: Context },
    RuntimeInitialized { status: i32, handle: usize },
    DelegateObtained { status: i32, delegate: usize },
    HostClosed { status: i32, exe_dir: Seq<char> },
    AssemblyLoaded { status: i32, entry: usize },
}

impl View for HostEvent {
    type V = HostEventView;

    open spec fn view(&self) -> HostEventView {
        match self {
            HostEvent::Begin => HostEventView::Begin,
            HostEvent::HostfxrPathFound { status, buffer } => HostEventView::HostfxrPathFound {
                status: *status,
                buffer: buffer@,
            },
            HostEvent::HostfxrPathFoundWide { status, wide_buffer } =>
                HostEventView::HostfxrPathFoundWide { status: *status, wide_buffer: wide_buffer@ },
            HostEvent::HostfxrLoaded { loaded, context } => HostEventView::HostfxrLoaded {
                loaded: *loaded,
                context: *context,
            },
            HostEvent::RuntimeInitialized { status, handle } =>
                HostEventView::RuntimeInitialized { status: *status, handle: *handle },
            HostEvent::DelegateObtained { status, delegate } => HostEventView::DelegateObtained {
                status: *status,
                delegate: *delegate,
            },
            HostEvent::HostClosed { status, exe_dir } => HostEventView::HostClosed {
                status: *status,
                exe_dir: exe_dir@,
            },
            HostEvent::AssemblyLoaded { status, entry } => HostEventView::AssemblyLoaded {
                status: *status,
                entry: *entry,
            },
        }
    }
}

/// The native call that the host asks to be performed next.
pub enum HostAction {
    /// Query the hostfxr path into a buffer of `capacity` units.
    QueryHostfxrPath { capacity: usize },
    /// Load the hostfxr library at `path` and resolve its exports (Unix).
    LoadHostfxr { path: String },
    /// Load the hostfxr library at the wide `path` and resolve its exports (Windows).
    LoadHostfxrWide { wide_path: Vec<u16> },
    /// Call the initialisation export `func` on `config_path`.
    InitializeRuntime { func: usize, config_path: NativeString },
    /// Call the delegate export `func` on `handle` for `delegate_type`.
    GetRuntimeDelegate { func: usize, handle: usize, delegate_type: i32 },
    /// Call the close export `func` on `handle`.
    CloseHost { func: usize, handle: usize },
    /// Call the load-assembly delegate `func`.
    LoadAssembly {
        func: usize,
        assembly_path: NativeString,
        managed_type: NativeString,
        method_name: NativeString,
        delegate_type_name: isize,
    },
    /// Invoke the managed entry point `entry`.
    InvokeEntry { entry: usize },
    /// A step failed: give up.
    Abort,
    /// Nothing is left to do.
    Stop,
}

/// The contents of a [`HostAction`].
pub enum HostActionView {
    QueryHostfxrPath { capacity: usize },
    LoadHostfxr { path: Seq<char> },
    LoadHostfxrWide { wide_path: Seq<u16> },
    InitializeRuntime { func: usize, config_path: NativeText },
    GetRuntimeDelegate { func: usize, handle: usize, delegate_type: i32 },
    CloseHost { func: usize, handle: usize },
    LoadAssembly {
        func: usize,
        assembly_path: NativeText,
        managed_type: NativeText,
        method_name: NativeText,
        delegate_type_name: isize,
    },
    InvokeEntry { entry: usize },
    Abort,
    Stop,
}

impl View for HostAction {
    type V = HostActionView;

    open spec fn view(&self) -> HostActionView {
        match self {
            HostAction::QueryHostfxrPath { capacity } => HostActionView::QueryHostfxrPath {
                capacity: *capacity,
            },
            HostAction::LoadHostfxr { path } => HostActionView::LoadHostfxr { path: path@ },
            HostAction::LoadHostfxrWide { wide_path } => HostActionView::LoadHostfxrWide {
                wide_path: wide_path@,
            },
            HostAction::InitializeRuntime { func, config_path } =>
                HostActionView::InitializeRuntime { func: *func, config_path: config_path@ },
            HostAction::GetRuntimeDelegate { func, handle, delegate_type } =>
                HostActionView::GetRuntimeDelegate {
                    func: *func,
                    handle: *handle,
                    delegate_type: *delegate_type,
                },
            HostAction::CloseHost { func, handle } => HostActionView::CloseHost {
                func: *func,
                handle: *handle,
            },
            HostAction::LoadAssembly {
                func,
                assembly_path,
                managed_type,
                method_name,
                delegate_type_name,
            } => HostActionView::LoadAssembly {
                func: *func,
                assembly_path: assembly_path@,
                managed_type: managed_type@,
                method_name: method_name@,
                delegate_type_name: *delegate_type_name,
            },
            HostAction::InvokeEntry { entry } => HostActionView::InvokeEntry { entry: *entry },
            HostAction::Abort => HostActionView::Abort,
            HostAction::Stop => HostActionView::Stop,
        }
    }
}

/// The state of the hosting protocol, as a value.
pub struct HostModel {
    pub platform: Platform,
    pub phase: Phase,
    pub context: Context,
    pub handle: usize,
    pub delegate: usize,
    pub path_status: i32,
    pub config_path: Seq<char>,
}

/// The hosting protocol: it decides, from what the native side reported,
/// which native call comes next, until the managed entry point is handed
/// out or a step fails.
pub struct HostMachine {
    platform: Platform,
    phase: Phase,
    context: Context,
    handle: usize,
    delegate: usize,
    path_status: i32,
    config_path: String,
}

impl View for HostMachine {
    type V = HostModel;

    closed spec fn view(&self) -> HostModel {
        HostModel {
            platform: self.platform,
            phase: self.phase,
            context: self.context,
            handle: self.handle,
            delegate: self.delegate,
            path_status: self.path_status,
            config_path: self.config_path@,
        }
    }
}

/// The protocol's state before anything was done, for the runtime
/// configuration at `config_path`.
pub open spec fn initial_model(platform: Platform, config_path: Seq<char>) -> HostModel {
    HostModel {
        platform,
        phase: Phase::Start,
        context: Context {
            initialize_for_runtime_config_func_ptr: 0,
            get_runtime_delegate_func_ptr: 0,
            close_func_ptr: 0,
        },
        handle: 0,
        delegate: 0,
        path_status: 0,
        config_path,
    }
}

/// `m` moved to `phase`.
pub open spec fn with_phase(m: HostModel, phase: Phase) -> HostModel {
    HostModel { phase, ..m }
}

/// The failure outcome of a step from `m`.
pub open spec fn fail(m: HostModel) -> (HostModel, HostActionView) {
    (with_phase(m, Phase::Failed), HostActionView::Abort)
}

/// The path of the managed assembly that the host loads on `platform`.
pub open spec fn assembly_path_text(platform: Platform, exe_dir: Seq<char>) -> Seq<char> {
    match platform {
        Platform::Unix => join_path_spec(exe_dir, ASSEMBLY_FILE_NAME@),
        Platform::Windows => WINDOWS_ASSEMBLY_PATH@,
    }
}

/// The step taken after the hostfxr exports were reported.
pub open spec fn after_load(m: HostModel, loaded: bool, context: Context) -> (HostModel, HostActionView) {
    let m2 = HostModel { context, ..m };
    let usable = match m.platform {
        Platform::Unix => loaded && context.initialize_for_runtime_config_func_ptr != 0,
        Platform::Windows => spec_load_hostfxr_library(Platform::Windows, m.path_status, context),
    };
    if !usable {
        fail(m2)
    } else {
        match native_text(m.platform, m.config_path) {
            None => fail(m2),
            Some(config) => (
                with_phase(m2, Phase::InitializingRuntime),
                HostActionView::InitializeRuntime {
                    func: context.initialize_for_runtime_config_func_ptr,
                    config_path: config,
                },
            ),
        }
    }
}

/// The step taken after the host context was closed, with the running
/// executable in `exe_dir`.
pub open spec fn after_close(m: HostModel, exe_dir: Seq<char>) -> (HostModel, HostActionView) {
    let assembly = native_text(m.platform, assembly_path_text(m.platform, exe_dir));
    let managed_type = native_text(m.platform, ENTRY_TYPE_NAME@);
    let method_name = native_text(m.platform, ENTRY_METHOD_NAME@);
    if m.delegate == 0 || assembly is None || managed_type is None || method_name is None {
        fail(m)
    } else {
        (
            with_phase(m, Phase::LoadingAssembly),
            HostActionView::LoadAssembly {
                func: m.delegate,
                assembly_path: assembly->0,
                managed_type: managed_type->0,
                method_name: method_name->0,
                delegate_type_name: UNMANAGEDCALLERSONLY_METHOD,
            },
        )
    }
}

/// One step of the hosting protocol: from the state `m` and the report `e`
/// of the last native call, the next state and the next native call.
///
/// A nonzero status fails the step, except that of closing the host
/// context, which is not looked at, and that of loading the assembly, which
/// fails it only when a non-null entry was left behind; any other entry,
/// null included, is handed on. On Unix a configuration path that is no C
/// string fails before any native call, and each hostfxr export is checked
/// just before its first use; on Windows the library load must succeed as
/// the platform's load rule says before the runtime is initialised. A null
/// delegate, a report that does not answer the call asked for, and an
/// assembly path that is no C string also fail.
pub open spec fn next(m: HostModel, e: HostEventView) -> (HostModel, HostActionView) {
    match m.phase {
        Phase::Failed => (m, HostActionView::Abort),
        Phase::Done => (m, HostActionView::Stop),
        Phase::Start => match e {
            HostEventView::Begin => if native_text(m.platform, m.config_path) is None {
                fail(m)
            } else {
                (
                    with_phase(m, Phase::LocatingHostfxr),
                    HostActionView::QueryHostfxrPath { capacity: HOSTFXR_PATH_CAPACITY },
                )
            },
            _ => fail(m),
        },
        Phase::LocatingHostfxr => match e {
            HostEventView::HostfxrPathFound { status, buffer } if m.platform == Platform::Unix =>
                match spec_hostfxr_path(status, buffer) {
                    None => fail(m),
                    Some(p) => (
                        HostModel { phase: Phase::LoadingHostfxr, path_status: status, ..m },
                        HostActionView::LoadHostfxr { path: trim_nul(p) },
                    ),
                },
            HostEventView::HostfxrPathFoundWide { status, wide_buffer } if m.platform
                == Platform::Windows => if status != 0 {
                fail(m)
            } else {
                (
                    HostModel { phase: Phase::LoadingHostfxr, path_status: status, ..m },
                    HostActionView::LoadHostfxrWide { wide_path: wide_buffer },
                )
            },
            _ => fail(m),
        },
        Phase::LoadingHostfxr => match e {
            HostEventView::HostfxrLoaded { loaded, context } => after_load(m, loaded, context),
            _ => fail(m),
        },
        Phase::InitializingRuntime => match e {
            HostEventView::RuntimeInitialized { status, handle } => if status != 0
                || m.context.get_runtime_delegate_func_ptr == 0 {
                fail(m)
            } else {
                (
                    HostModel { phase: Phase::GettingDelegate, handle, ..m },
                    HostActionView::GetRuntimeDelegate {
                        func: m.context.get_runtime_delegate_func_ptr,
                        handle,
                        delegate_type: LOAD_ASSEMBLY_AND_GET_FUNCTION_POINTER,
                    },
                )
            },
            _ => fail(m),
        },
        Phase::GettingDelegate => match e {
            HostEventView::DelegateObtained { status, delegate } => if status != 0
                || m.context.close_func_ptr == 0 {
                fail(m)
            } else {
                (
                    HostModel { phase: Phase::ClosingHost, delegate, ..m },
                    HostActionView::CloseHost { func: m.context.close_func_ptr, handle: m.handle },
                )
            },
            _ => fail(m),
        },
        Phase::ClosingHost => match e {
            HostEventView::HostClosed { exe_dir, .. } => after_close(m, exe_dir),
            _ => fail(m),
        },
        Phase::LoadingAssembly => match e {
            HostEventView::AssemblyLoaded { status, entry } => if status != 0 && entry != 0 {
                fail(m)
            } else {
                (with_phase(m, Phase::Done), HostActionView::InvokeEntry { entry })
            },
            _ => fail(m),
        },
    }
}


impl HostMachine {
    /// A protocol on `platform` that has not started yet and initialises
    /// the runtime from the configuration at `config_path`.
    pub fn new(platform: Platform, config_path: String) -> (m: HostMachine)
        ensures
            m@ == initial_model(platform, config_path@),
    {
        HostMachine {
            platform,
            phase: Phase::Start,
            context: Context::new(),
            handle: 0,
            delegate: 0,
            path_status: 0,
            config_path,
        }
    }

    /// How far the protocol has come.
    pub fn phase(&self) -> (p: Phase)
        ensures
            p == self@.phase,
    {
        self.phase
    }

    /// Whether the protocol has ended, by handing out the entry point or by failing.
    pub fn is_finished(&self) -> (r: bool)
        ensures
            r == (self@.phase == Phase::Done || self@.phase == Phase::Failed),
    {
        self.phase == Phase::Done || self.phase == Phase::Failed
    }

    fn fail(&mut self) -> (a: HostAction)
        ensures
            (final(self)@, a@) == fail(old(self)@),
    {
        self.phase = Phase::Failed;
        HostAction::Abort
    }

    fn load_step(&mut self, loaded: bool, context: Context) -> (a: HostAction)
        requires
            old(self)@.phase == Phase::LoadingHostfxr,
        ensures
            (final(self)@, a@) == after_load(old(self)@, loaded, context),
    {
        self.context = context;
        let usable = match self.platform {
            Platform::Unix => loaded && context.initialize_for_runtime_config_func_ptr != 0,
            Platform::Windows => load_hostfxr_library(Platform::Windows, self.path_status, context),
        };
        if !usable {
            return self.fail();
        }
        match native_string(self.platform, self.config_path.as_str()) {
            None => self.fail(),
            Some(config) => {
                self.phase = Phase::InitializingRuntime;
                HostAction::InitializeRuntime {
                    func: context.initialize_for_runtime_config_func_ptr,
                    config_path: config,
                }
            },
        }
    }

    fn close_step(&mut self, exe_dir: String) -> (a: HostAction)
        requires
            old(self)@.phase == Phase::ClosingHost,
        ensures
            (final(self)@, a@) == after_close(old(self)@, exe_dir@),
    {
        if self.delegate == 0 {
            return self.fail();
        }
        let assembly = match self.platform {
            Platform::Unix => {
                let path = join_path(exe_dir.as_str(), ASSEMBLY_FILE_NAME);
                native_string(self.platform, path.as_str())
            },
            Platform::Windows => native_string(self.platform, WINDOWS_ASSEMBLY_PATH),
        };
        let managed_type = native_string(self.platform, ENTRY_TYPE_NAME);
        let method_name = native_string(self.platform, ENTRY_METHOD_NAME);
        match (assembly, managed_type, method_name) {
            (Some(assembly_path), Some(managed_type), Some(method_name)) => {
                self.phase = Phase::LoadingAssembly;
                HostAction::LoadAssembly {
                    func: self.delegate,
                    assembly_path,
                    managed_type,
                    method_name,
                    delegate_type_name: UNMANAGEDCALLERSONLY_METHOD,
                }
            },
            _ => self.fail(),
        }
    }

    /// Takes the report `event` of the last native call and decides the
    /// next one, as [`next`] states.
    pub fn step(&mut self, event: HostEvent) -> (a: HostAction)
        ensures
            (final(self)@, a@) == next(old(self)@, event@),
    {
        match self.phase {
            Phase::Failed => HostAction::Abort,
            Phase::Done => HostAction::Stop,
            Phase::Start => match event {
                HostEvent::Begin => {
                    if native_string(self.platform, self.config_path.as_str()).is_none() {
                        return self.fail();
                    }
                    self.phase = Phase::LocatingHostfxr;
                    HostAction::QueryHostfxrPath { capacity: HOSTFXR_PATH_CAPACITY }
                },
                _ => self.fail(),
            },
            Phase::LocatingHostfxr => match event {
                HostEvent::HostfxrPathFound { status, buffer } => {
                    if self.platform != Platform::Unix {
                        return self.fail();
                    }
                    match hostfxr_path_from_buffer(status, buffer) {
                        None => self.fail(),
                        Some(p) => {
                            self.phase = Phase::LoadingHostfxr;
                            self.path_status = status;
                            HostAction::LoadHostfxr { path: trim_nul_chars(p.as_str()) }
                        },
                    }
                },
                HostEvent::HostfxrPathFoundWide { status, wide_buffer } => {
                    if self.platform != Platform::Windows || status != 0 {
                        return self.fail();
                    }
                    self.phase = Phase::LoadingHostfxr;
                    self.path_status = status;
                    HostAction::LoadHostfxrWide { wide_path: wide_buffer }
                },
                _ => self.fail(),
            },
            Phase::LoadingHostfxr => match event {
                HostEvent::HostfxrLoaded { loaded, context } => self.load_step(loaded, context),
                _ => self.fail(),
            },
            Phase::InitializingRuntime => match event {
                HostEvent::RuntimeInitialized { status, handle } => {
                    if status != 0 || self.context.get_runtime_delegate_func_ptr == 0 {
                        return self.fail();
                    }
                    self.phase = Phase::GettingDelegate;
                    self.handle = handle;
                    HostAction::GetRuntimeDelegate {
                        func: self.context.get_runtime_delegate_func_ptr,
                        handle,
                        delegate_type: LOAD_ASSEMBLY_AND_GET_FUNCTION_POINTER,
                    }
                },
                _ => self.fail(),
            },
            Phase::GettingDelegate => match event {
                HostEvent::DelegateObtained { status, delegate } => {
                    if status != 0 || self.context.close_func_ptr == 0 {
                        return self.fail();
                    }
                    self.phase = Phase::ClosingHost;
                    self.delegate = delegate;
                    HostAction::CloseHost { func: self.context.close_func_ptr, handle: self.handle }
                },
                _ => self.fail(),
            },
            Phase::ClosingHost => match event {
                HostEvent::HostClosed { status: _, exe_dir } => self.close_step(exe_dir),
                _ => self.fail(),
            },
            Phase::LoadingAssembly => match event {
                HostEvent::AssemblyLoaded { status, entry } => {
                    if status != 0 && entry != 0 {
                        return self.fail();
                    }
                    self.phase = Phase::Done;
                    HostAction::InvokeEntry { entry }
                },
                _ => self.fail(),
            },
        }
    }
}


/// The order of the phases along a successful start.
pub open spec fn phase_rank(p: Phase) -> int {
    match p {
        Phase::Start => 0,
        Phase::LocatingHostfxr => 1,
        Phase::LoadingHostfxr => 2,
        Phase::InitializingRuntime => 3,
        Phase::GettingDelegate => 4,
        Phase::ClosingHost => 5,
        Phase::LoadingAssembly => 6,
        Phase::Done => 7,
        Phase::Failed => 8,
    }
}

/// Once a step has failed, the host stays failed and only gives up.
pub proof fn law_failure_is_final(m: HostModel, e: HostEventView)
    requires
        m.phase == Phase::Failed,
    ensures
        next(m, e) == (m, HostActionView::Abort),
{
}

/// Every step either moves the protocol exactly one phase ahead or fails,
/// and it fails exactly when it answers `Abort`; a protocol that is done
/// stays done and asks for nothing.
pub proof fn law_step_advances_or_fails(m: HostModel, e: HostEventView)
    requires
        m.phase != Phase::Failed,
    ensures
        m.phase == Phase::Done ==> next(m, e) == (m, HostActionView::Stop),
        m.phase != Phase::Done ==> {
            let (m2, a) = next(m, e);
            ||| m2.phase == Phase::Failed && a == HostActionView::Abort
            ||| phase_rank(m2.phase) == phase_rank(m.phase) + 1 && a != HostActionView::Abort
        },
{
}

/// A native call that reports a nonzero status ends the protocol in failure;
/// the status of closing the host context is not looked at, and a failed
/// assembly load fails only when it still left a non-null entry behind.
pub proof fn law_nonzero_status_fails(m: HostModel, e: HostEventView)
    requires
        m.phase != Phase::Done,
        match e {
            HostEventView::HostfxrPathFound { status, .. } => status != 0,
            HostEventView::HostfxrPathFoundWide { status, .. } => status != 0,
            HostEventView::RuntimeInitialized { status, .. } => status != 0,
            HostEventView::DelegateObtained { status, .. } => status != 0,
            HostEventView::AssemblyLoaded { status, entry } => status != 0 && entry != 0,
            _ => false,
        },
    ensures
        next(m, e).0.phase == Phase::Failed,
        next(m, e).1 == HostActionView::Abort,
{
}

/// The host never asks for a native call through a null function address.
/// The entry point it hands out is the one that loading the assembly left
/// behind, and a non-null one only when that load succeeded; a null entry
/// is handed on as it is, for its caller to refuse.
pub proof fn law_no_call_through_null(m: HostModel, e: HostEventView)
    ensures
        match next(m, e).1 {
            HostActionView::InitializeRuntime { func, .. } => func != 0,
            HostActionView::GetRuntimeDelegate { func, .. } => func != 0,
            HostActionView::CloseHost { func, .. } => func != 0,
            HostActionView::LoadAssembly { func, .. } => func != 0,
            HostActionView::InvokeEntry { entry } => {
                &&& m.phase == Phase::LoadingAssembly
                &&& e matches HostEventView::AssemblyLoaded { status, entry: loaded }
                &&& loaded == entry
                &&& (entry != 0 ==> status == 0)
            },
            _ => true,
        },
{
}

/// Once the assembly load is reported, the host fails exactly when the
/// status is nonzero and an entry was left behind; otherwise it hands the
/// entry on, null included.
pub proof fn law_assembly_load_outcome(m: HostModel, status: i32, entry: usize)
    requires
        m.phase == Phase::LoadingAssembly,
    ensures
        ({
            let (m2, a) = next(m, HostEventView::AssemblyLoaded { status, entry });
            &&& status != 0 && entry != 0 ==> m2.phase == Phase::Failed && a == HostActionView::Abort
            &&& !(status != 0 && entry != 0) ==> m2.phase == Phase::Done
                && a == HostActionView::InvokeEntry { entry }
        }),
{
}

/// On Unix a runtime configuration path that cannot be passed as a C
/// string fails the protocol before any native call.
pub proof fn law_config_path_with_nul_fails_first(config_path: Seq<char>)
    requires
        c_string_of(config_path) is None,
    ensures
        next(initial_model(Platform::Unix, config_path), HostEventView::Begin) == fail(
            initial_model(Platform::Unix, config_path),
        ),
{
}

/// The delegate request and the close of the host context both get the
/// handle that runtime initialisation returned.
pub proof fn law_handle_reaches_close(m: HostModel, h: usize, d: usize)
    requires
        m.phase == Phase::InitializingRuntime,
        m.context.get_runtime_delegate_func_ptr != 0,
        m.context.close_func_ptr != 0,
    ensures
        ({
            let (m1, a1) = next(m, HostEventView::RuntimeInitialized { status: 0, handle: h });
            let (m2, a2) = next(m1, HostEventView::DelegateObtained { status: 0, delegate: d });
            &&& a1 == HostActionView::GetRuntimeDelegate {
                func: m.context.get_runtime_delegate_func_ptr,
                handle: h,
                delegate_type: LOAD_ASSEMBLY_AND_GET_FUNCTION_POINTER,
            }
            &&& a2 == HostActionView::CloseHost { func: m.context.close_func_ptr, handle: h }
        }),
{
}

/// The assembly is loaded through the delegate that the runtime handed out,
/// whatever closing the host context reported.
pub proof fn law_assembly_loaded_through_delegate(m: HostModel, d: usize, s: i32, exe_dir: Seq<char>)
    requires
        m.phase == Phase::GettingDelegate,
        m.context.close_func_ptr != 0,
    ensures
        ({
            let (m1, a1) = next(m, HostEventView::DelegateObtained { status: 0, delegate: d });
            let (m2, a2) = next(m1, HostEventView::HostClosed { status: s, exe_dir });
            &&& a2 matches HostActionView::LoadAssembly { func, delegate_type_name, .. } ==> func == d
                && delegate_type_name == UNMANAGEDCALLERSONLY_METHOD
            &&& (d == 0 ==> m2.phase == Phase::Failed)
        }),
{
}


proof fn lemma_ascii_has_c_string(s: Seq<char>)
    requires
        forall|i: int| 0 <= i < s.len() ==> '\u{1}' <= #[trigger] s[i] <= '\u{7f}',
    ensures
        c_string_of(s) is Some,
{
    assert(vstd::utf8::is_ascii_chars(s));
    vstd::utf8::is_ascii_chars_encode_utf8(s);
    let b = vstd::utf8::encode_utf8(s);
    assert(!b.contains(0u8)) by {
        if b.contains(0u8) {
            let j = choose|j: int| 0 <= j < b.len() && b[j] == 0u8;
            assert(s[j] as u8 == b[j]);
        }
    }
}

/// The fixed names that the host passes are valid C strings.
pub proof fn lemma_fixed_names_encode()
    ensures
        c_string_of(RUNTIME_CONFIG_PATH@) is Some,
        c_string_of(ENTRY_TYPE_NAME@) is Some,
        c_string_of(ENTRY_METHOD_NAME@) is Some,
{
    reveal_strlit("./AppWithPlugin.runtimeconfig.json");
    reveal_strlit("AppWithPlugin.Entry, AppWithPlugin");
    reveal_strlit("Main");
    lemma_ascii_has_c_string(RUNTIME_CONFIG_PATH@);
    lemma_ascii_has_c_string(ENTRY_TYPE_NAME@);
    lemma_ascii_has_c_string(ENTRY_METHOD_NAME@);
}

/// When every native call on Unix succeeds (the path query returns status
/// zero and UTF-8 text, the library and its exports load, the runtime,
/// the delegate and the assembly report status zero with non-null
/// results), the protocol initialises the runtime from the given
/// configuration, passes one handle from initialisation to the delegate
/// request and the close, loads the assembly next to the executable
/// through the delegate, and hands out exactly the entry point it got.
pub proof fn law_successful_start_invokes_entry(
    config_path: Seq<char>,
    exe_dir: Seq<char>,
    buffer: Seq<u8>,
    ctx: Context,
    handle: usize,
    delegate: usize,
    close_status: i32,
    entry: usize,
)
    requires
        vstd::utf8::valid_utf8(buffer),
        ctx.spec_is_loaded(),
        delegate != 0,
        entry != 0,
        c_string_of(config_path) is Some,
        c_string_of(join_path_spec(exe_dir, ASSEMBLY_FILE_NAME@)) is Some,
    ensures
        ({
            let m0 = initial_model(Platform::Unix, config_path);
            let (m1, a1) = next(m0, HostEventView::Begin);
            let (m2, a2) = next(m1, HostEventView::HostfxrPathFound { status: 0, buffer });
            let (m3, a3) = next(m2, HostEventView::HostfxrLoaded { loaded: true, context: ctx });
            let (m4, a4) = next(m3, HostEventView::RuntimeInitialized { status: 0, handle });
            let (m5, a5) = next(m4, HostEventView::DelegateObtained { status: 0, delegate });
            let (m6, a6) = next(m5, HostEventView::HostClosed { status: close_status, exe_dir });
            let (m7, a7) = next(m6, HostEventView::AssemblyLoaded { status: 0, entry });
            &&& a1 == HostActionView::QueryHostfxrPath { capacity: HOSTFXR_PATH_CAPACITY }
            &&& a2 == HostActionView::LoadHostfxr { path: trim_nul(vstd::utf8::decode_utf8(buffer)) }
            &&& a3 matches HostActionView::InitializeRuntime { func, config_path: c }
                && func == ctx.initialize_for_runtime_config_func_ptr
                && c == NativeText::Narrow(c_string_of(config_path)->0)
            &&& a4 matches HostActionView::GetRuntimeDelegate { func, handle: h, .. }
                && func == ctx.get_runtime_delegate_func_ptr && h == handle
            &&& a5 == HostActionView::CloseHost { func: ctx.close_func_ptr, handle }
            &&& a6 matches HostActionView::LoadAssembly { func, assembly_path, .. }
                && func == delegate && assembly_path == NativeText::Narrow(
                c_string_of(join_path_spec(exe_dir, ASSEMBLY_FILE_NAME@))->0,
            )
            &&& a7 == HostActionView::InvokeEntry { entry }
            &&& m7.phase == Phase::Done
        }),
{
    lemma_fixed_names_encode();
}

/// The same on Windows: when the path query and the library load succeed
/// and every export is found, the runtime is initialised from the wide
/// configuration path, one handle flows from initialisation to the delegate
/// request and the close, the assembly is loaded by its fixed relative path
/// through the delegate, and the entry that the load left behind is handed
/// out unless the load failed with a non-null entry.
pub proof fn law_successful_windows_start(
    config_path: Seq<char>,
    buffer: Seq<u16>,
    loaded: bool,
    ctx: Context,
    handle: usize,
    delegate: usize,
    close_status: i32,
    exe_dir: Seq<char>,
    status: i32,
    entry: usize,
)
    requires
        ctx.spec_is_loaded(),
        delegate != 0,
        !(status != 0 && entry != 0),
    ensures
        ({
            let m0 = initial_model(Platform::Windows, config_path);
            let (m1, a1) = next(m0, HostEventView::Begin);
            let (m2, a2) = next(m1, HostEventView::HostfxrPathFoundWide { status: 0, wide_buffer: buffer });
            let (m3, a3) = next(m2, HostEventView::HostfxrLoaded { loaded, context: ctx });
            let (m4, a4) = next(m3, HostEventView::RuntimeInitialized { status: 0, handle });
            let (m5, a5) = next(m4, HostEventView::DelegateObtained { status: 0, delegate });
            let (m6, a6) = next(m5, HostEventView::HostClosed { status: close_status, exe_dir });
            let (m7, a7) = next(m6, HostEventView::AssemblyLoaded { status, entry });
            &&& a1 == HostActionView::QueryHostfxrPath { capacity: HOSTFXR_PATH_CAPACITY }
            &&& a2 == HostActionView::LoadHostfxrWide { wide_path: buffer }
            &&& a3 == HostActionView::InitializeRuntime {
                func: ctx.initialize_for_runtime_config_func_ptr,
                config_path: NativeText::Wide(wide_string(config_path)),
            }
            &&& a4 == HostActionView::GetRuntimeDelegate {
                func: ctx.get_runtime_delegate_func_ptr,
                handle,
                delegate_type: LOAD_ASSEMBLY_AND_GET_FUNCTION_POINTER,
            }
            &&& a5 == HostActionView::CloseHost { func: ctx.close_func_ptr, handle }
            &&& a6 == HostActionView::LoadAssembly {
                func: delegate,
                assembly_path: NativeText::Wide(wide_string(WINDOWS_ASSEMBLY_PATH@)),
                managed_type: NativeText::Wide(wide_string(ENTRY_TYPE_NAME@)),
                method_name: NativeText::Wide(wide_string(ENTRY_METHOD_NAME@)),
                delegate_type_name: UNMANAGEDCALLERSONLY_METHOD,
            }
            &&& a7 == HostActionView::InvokeEntry { entry }
            &&& m7.phase == Phase::Done
        }),
{
}


/// On Windows the protocol gets past loading the hostfxr library exactly
/// when the platform's up-front load succeeds: the path query returned
/// status zero and all three exports were found.
pub proof fn law_windows_load_is_platform_load(config_path: Seq<char>, buffer: Seq<u16>, status: i32, loaded: bool, ctx: Context)
    ensures
        ({
            let m0 = initial_model(Platform::Windows, config_path);
            let (m1, a1) = next(m0, HostEventView::Begin);
            let (m2, a2) = next(m1, HostEventView::HostfxrPathFoundWide { status, wide_buffer: buffer });
            let (m3, a3) = next(m2, HostEventView::HostfxrLoaded { loaded, context: ctx });
            &&& (status != 0 ==> m2.phase == Phase::Failed)
            &&& (m3.phase == Phase::InitializingRuntime <==> spec_load_hostfxr_library(
                Platform::Windows,
                status,
                ctx,
            ))
        }),
{
}


/// A context counts as loaded exactly when none of the three exports
/// (initialisation, delegate request, close) is missing.
pub proof fn law_context_loaded_needs_every_export(c: Context)
    ensures
        c.spec_is_loaded() <==> (c.initialize_for_runtime_config_func_ptr != 0
            && c.get_runtime_delegate_func_ptr != 0 && c.close_func_ptr != 0),
        c.initialize_for_runtime_config_func_ptr == 0 ==> !c.spec_is_loaded(),
        c.get_runtime_delegate_func_ptr == 0 ==> !c.spec_is_loaded(),
        c.close_func_ptr == 0 ==> !c.spec_is_loaded(),
{
}

} // verus!
