//! The decisions of discovery and of handing control to the program.
//!
//! The caller queries the address space and makes the calls; what to take
//! up, where to query next, and which calls to make in which order is
//! decided here.

use vstd::prelude::*;
use crate::nx::{MemoryInfo, MemoryState};

verus! {

/// Whether the region that `info` describes holds a module to take up: it
/// is readable and executable code, and it is not the linker itself, which
/// lies at `linker_module_base`.
pub open spec fn is_candidate(info: MemoryInfo, linker_module_base: u64) -> bool {
    &&& info.permission.read()
    &&& info.permission.execute()
    &&& info.state == MemoryState::Code
    &&& info.address != linker_module_base
}

/// Whether the region that `info` describes holds a module to take up.
pub fn is_module_region(info: &MemoryInfo, linker_module_base: u64) -> (candidate: bool)
    ensures
        candidate == is_candidate(*info, linker_module_base),
{
    info.permission.read() && info.permission.execute() && info.state == MemoryState::Code
        && info.address != linker_module_base
}

/// The address at which to query the address space next: the end of the
/// region that `info` describes. `None` ends the scan: the region reaches
/// the top of the address space.
pub fn next_query_address(info: &MemoryInfo) -> (next: Option<u64>)
    ensures
        next == if info.address + info.size <= u64::MAX {
            Some((info.address + info.size) as u64)
        } else {
            None
        },
{
    info.address.checked_add(info.size)
}

/// The function behind the address `ptr`: none behind the null address.
pub fn get_function_from_ptr(ptr: u64) -> (function: Option<u64>)
    ensures
        function == if ptr == 0 {
            None
        } else {
            Some(ptr)
        },
{
    if ptr == 0 {
        None
    } else {
        Some(ptr)
    }
}

/// The entry points that the program may export for its start, as
/// addresses; zero stands for one that it does not export.
#[derive(Clone, Copy, Debug, PartialEq, Eq, Structural)]
pub struct StartSymbols {
    /// A start function of the host's own.
    pub custom_start: u64,
    /// The start function of the vendor's later kits, which takes three
    /// continuations.
    pub sdk10_start: u64,
    /// The start function of the vendor's earlier kits, which takes two
    /// continuations.
    pub sdk03_start: u64,
    /// The optional steps of the start sequence that the linker runs itself
    /// for the earliest kits.
    pub initialize_sdk_module: u64,
    pub initialize_abort_observer: u64,
    pub finalize_sdk_module: u64,
}

/// A continuation that a start function is handed.
#[derive(Clone, Copy, Debug, PartialEq, Eq, Structural)]
pub enum Continuation {
    /// Tells the linker that the program's exception handler is ready.
    NotifyExceptionHandlerReady,
    /// Calls the initializers of all modules.
    CallInitializers,
    /// Calls the finalizers of all modules.
    CallFinalizers,
}

/// One call of the start sequence that the linker runs itself.
#[derive(Clone, Copy, Debug, PartialEq, Eq, Structural)]
pub enum LegacyStep {
    /// Stage 0 of the C library's initialization.
    InitLibc0,
    /// The initialization of the operating system layer, with the thread
    /// handle and the argument data.
    OsInitialize,
    /// Notes that the exception handler is ready.
    NotifyExceptionHandlerReady,
    /// Stage 1 of the C library's initialization.
    InitLibc1,
    /// The start of diagnostics.
    DiagStartup,
    /// The initialization of the kit's module, at the given address.
    InitializeSdkModule(u64),
    /// The initialization of the abort observer, at the given address.
    InitializeAbortObserver(u64),
    /// The program's own startup hook.
    InitStartup,
    /// Stage 2 of the C library's initialization.
    InitLibc2,
    /// The initializers of all modules.
    CallInitializers,
    /// The program's entry point.
    Main,
    /// The finalization of the kit's module, at the given address.
    FinalizeSdkModule(u64),
    /// The quick exit of the operating system layer.
    QuickExit,
    /// The end of the process.
    ExitProcess,
}

/// The way in which control is handed to the program. Exactly one of them
/// is taken, and none returns.
#[derive(Clone, Copy, Debug, PartialEq, Eq, Structural)]
pub enum StartupProtocol {
    /// The host's own start function, at the given address, with three
    /// continuations.
    Custom(u64),
    /// The start function of the vendor's later kits, with three
    /// continuations.
    Sdk10(u64),
    /// The start function of the vendor's earlier kits, with two
    /// continuations.
    Sdk03(u64),
    /// No start function: the linker runs the start sequence itself.
    Legacy,
}

/// The protocol that `symbols` selects: the most specific start function
/// that the program exports.
pub open spec fn selected(symbols: StartSymbols) -> StartupProtocol {
    if symbols.custom_start != 0 {
        StartupProtocol::Custom(symbols.custom_start)
    } else if symbols.sdk10_start != 0 {
        StartupProtocol::Sdk10(symbols.sdk10_start)
    } else if symbols.sdk03_start != 0 {
        StartupProtocol::Sdk03(symbols.sdk03_start)
    } else {
        StartupProtocol::Legacy
    }
}

/// `steps` followed by `step`, where the function at `address` exists.
pub open spec fn with_optional(steps: Seq<LegacyStep>, address: u64, step: LegacyStep) -> Seq<
    LegacyStep,
> {
    if address != 0 {
        steps.push(step)
    } else {
        steps
    }
}

/// The start sequence that the linker runs itself, in calling order. The
/// three optional calls are made where the program exports their function.
pub open spec fn legacy_steps(symbols: StartSymbols) -> Seq<LegacyStep> {
    let opening = seq![
        LegacyStep::InitLibc0,
        LegacyStep::OsInitialize,
        LegacyStep::NotifyExceptionHandlerReady,
        LegacyStep::InitLibc1,
        LegacyStep::DiagStartup,
    ];
    let prepared = with_optional(
        with_optional(
            opening,
            symbols.initialize_sdk_module,
            LegacyStep::InitializeSdkModule(symbols.initialize_sdk_module),
        ),
        symbols.initialize_abort_observer,
        LegacyStep::InitializeAbortObserver(symbols.initialize_abort_observer),
    );
    let run = prepared.push(LegacyStep::InitStartup).push(LegacyStep::InitLibc2).push(
        LegacyStep::CallInitializers,
    ).push(LegacyStep::Main);
    with_optional(
        run,
        symbols.finalize_sdk_module,
        LegacyStep::FinalizeSdkModule(symbols.finalize_sdk_module),
    ).push(LegacyStep::QuickExit).push(LegacyStep::ExitProcess)
}

impl StartupProtocol {
    /// The continuations that the start function of this protocol is
    /// handed, in argument order; none where the linker runs the start
    /// sequence itself.
    pub open spec fn spec_continuations(&self) -> Seq<Continuation> {
        match self {
            StartupProtocol::Custom(_) => seq![
                Continuation::NotifyExceptionHandlerReady,
                Continuation::CallInitializers,
                Continuation::CallFinalizers,
            ],
            StartupProtocol::Sdk10(_) => seq![
                Continuation::NotifyExceptionHandlerReady,
                Continuation::CallInitializers,
                Continuation::CallFinalizers,
            ],
            StartupProtocol::Sdk03(_) => seq![
                Continuation::NotifyExceptionHandlerReady,
                Continuation::CallInitializers,
            ],
            StartupProtocol::Legacy => Seq::empty(),
        }
    }

    /// Selects the protocol by the start functions that the program
    /// exports, the most specific first.
    pub fn select(symbols: &StartSymbols) -> (protocol: Self)
        ensures
            protocol == selected(*symbols),
    {
        if let Some(start) = get_function_from_ptr(symbols.custom_start) {
            StartupProtocol::Custom(start)
        } else if let Some(start) = get_function_from_ptr(symbols.sdk10_start) {
            StartupProtocol::Sdk10(start)
        } else if let Some(start) = get_function_from_ptr(symbols.sdk03_start) {
            StartupProtocol::Sdk03(start)
        } else {
            StartupProtocol::Legacy
        }
    }

    /// The continuations that the start function of this protocol is
    /// handed, in argument order.
    pub fn continuations(&self) -> (handed: Vec<Continuation>)
        ensures
            handed@ == self.spec_continuations(),
    {
        let mut handed: Vec<Continuation> = Vec::new();
        match self {
            StartupProtocol::Custom(_) | StartupProtocol::Sdk10(_) => {
                handed.push(Continuation::NotifyExceptionHandlerReady);
                handed.push(Continuation::CallInitializers);
                handed.push(Continuation::CallFinalizers);
            },
            StartupProtocol::Sdk03(_) => {
                handed.push(Continuation::NotifyExceptionHandlerReady);
                handed.push(Continuation::CallInitializers);
            },
            StartupProtocol::Legacy => {},
        }
        handed
    }

    /// The calls that the linker makes itself under this protocol, in
    /// calling order: the start sequence where the program exports no start
    /// function, and none otherwise.
    pub fn steps(&self, symbols: &StartSymbols) -> (calls: Vec<LegacyStep>)
        ensures
            calls@ == if *self == StartupProtocol::Legacy {
                legacy_steps(*symbols)
            } else {
                Seq::empty()
            },
    {
        let mut calls: Vec<LegacyStep> = Vec::new();
        match self {
            StartupProtocol::Legacy => {
                calls.push(LegacyStep::InitLibc0);
                calls.push(LegacyStep::OsInitialize);
                calls.push(LegacyStep::NotifyExceptionHandlerReady);
                calls.push(LegacyStep::InitLibc1);
                calls.push(LegacyStep::DiagStartup);
                if let Some(function) = get_function_from_ptr(symbols.initialize_sdk_module) {
                    calls.push(LegacyStep::InitializeSdkModule(function));
                }
                if let Some(function) = get_function_from_ptr(symbols.initialize_abort_observer) {
                    calls.push(LegacyStep::InitializeAbortObserver(function));
                }
                calls.push(LegacyStep::InitStartup);
                calls.push(LegacyStep::InitLibc2);
                calls.push(LegacyStep::CallInitializers);
                calls.push(LegacyStep::Main);
                if let Some(function) = get_function_from_ptr(symbols.finalize_sdk_module) {
                    calls.push(LegacyStep::FinalizeSdkModule(function));
                }
                calls.push(LegacyStep::QuickExit);
                calls.push(LegacyStep::ExitProcess);
            },
            _ => {},
        }
        calls
    }
}

/// The handlers to call when the program raises an exception, in calling
/// order: the host's own, then the vendor kit's, each where the program
/// exports it.
pub fn exception_handlers(custom_handler: u64, sdk_handler: u64) -> (calls: Vec<u64>)
    ensures
        calls@ == (if custom_handler != 0 {
            seq![custom_handler]
        } else {
            Seq::<u64>::empty()
        }) + (if sdk_handler != 0 {
            seq![sdk_handler]
        } else {
            Seq::<u64>::empty()
        }),
{
    let mut calls: Vec<u64> = Vec::new();
    if let Some(handler) = get_function_from_ptr(custom_handler) {
        calls.push(handler);
    }
    if let Some(handler) = get_function_from_ptr(sdk_handler) {
        calls.push(handler);
    }
    calls
}

/// Whether the region that `info` describes continues a module that ends
/// at `end`: it starts there, it is in use, and it is not code, with which
/// the next module would start.
pub open spec fn continues_module(info: MemoryInfo, end: int) -> bool {
    &&& info.address == end
    &&& info.address + info.size <= u64::MAX
    &&& info.state != MemoryState::Free
    &&& info.state != MemoryState::Code
}

/// The end of the module that reaches `end` so far, given the regions from
/// `regions[next]` on: the module takes in every region that continues it.
pub open spec fn module_end(regions: Seq<MemoryInfo>, next: int, end: int) -> int
    decreases regions.len() - next,
{
    if 0 <= next < regions.len() && continues_module(regions[next], end) {
        module_end(regions, next + 1, end + regions[next].size)
    } else {
        end
    }
}

/// The number of bytes of the module that starts with the region
/// `regions[index]`: the sizes of that region and of the regions that
/// continue it, where `regions` lists the regions of the address space in
/// ascending order. Zero where there is no such region or it reaches beyond
/// the top of the address space.
pub fn module_extent(regions: &[MemoryInfo], index: usize) -> (size: u64)
    ensures
        size == if index < regions@.len() && regions@[index as int].address
            + regions@[index as int].size <= u64::MAX {
            module_end(
                regions@,
                index + 1,
                regions@[index as int].address + regions@[index as int].size,
            ) - regions@[index as int].address
        } else {
            0
        },
{
    if index >= regions.len() {
        return 0;
    }
    let start = regions[index].address;
    let mut end = match start.checked_add(regions[index].size) {
        Some(end) => end,
        None => {
            return 0;
        },
    };
    let ghost first = end;
    let mut next: usize = index + 1;
    while next < regions.len()
        invariant
            index < next <= regions.len(),
            start <= first <= end,
            module_end(regions@, next as int, end as int) == module_end(
                regions@,
                index + 1,
                first as int,
            ),
        ensures
            start <= end,
            module_end(regions@, index + 1, first as int) == end,
        decreases regions.len() - next,
    {
        let info = &regions[next];
        if info.address != end || info.state == MemoryState::Free || info.state
            == MemoryState::Code {
            break ;
        }
        match info.address.checked_add(info.size) {
            Some(grown) => {
                end = grown;
            },
            None => {
                break ;
            },
        }
        next += 1;
    }
    end - start
}

} // verus!
