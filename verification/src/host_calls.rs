//! The import surface: the table wiring guest import names to host
//! calls.
//!
//! The sandbox resolves each import of the guest module by its module
//! and function name; this table is the single place that mapping is
//! written down, together with each call's arity and whether it hands a
//! value back. The shell walks the guest's imports, looks each one up
//! here, and links the matching handler.

use vstd::prelude::*;

verus! {

/// One host-implemented function the guest can import.
#[derive(Debug, Clone, Copy, PartialEq, Eq, Structural)]
pub enum HostCall {
    MutexCreate,
    MutexDelete,
    MutexGive,
    MutexTake,
    TaskGetLocalStorage,
    TaskSetLocalStorage,
    TaskGetCurrent,
    Delay,
    TaskDelay,
    TaskDelayUntil,
    RtosSuspendAll,
    RtosResumeAll,
    Millis,
    TaskCreate,
    GetErrno,
    Panic,
    LcdSetText,
    LcdInitialize,
    LcdShutdown,
    LcdIsInitialized,
    LcdClear,
    LcdClearLine,
    LcdReadButtons,
    LcdRegisterBtn0Cb,
    LcdRegisterBtn1Cb,
    LcdRegisterBtn2Cb,
    LcdSetBackgroundColor,
    LcdSetTextColor,
}

/// The import module each call is published under.
pub open spec fn host_call_module(c: HostCall) -> Seq<char> {
    match c {
        HostCall::MutexCreate => "env"@,
        HostCall::MutexDelete => "env"@,
        HostCall::MutexGive => "env"@,
        HostCall::MutexTake => "env"@,
        HostCall::TaskGetLocalStorage => "env"@,
        HostCall::TaskSetLocalStorage => "env"@,
        HostCall::TaskGetCurrent => "env"@,
        HostCall::Delay => "env"@,
        HostCall::TaskDelay => "env"@,
        HostCall::TaskDelayUntil => "env"@,
        HostCall::RtosSuspendAll => "env"@,
        HostCall::RtosResumeAll => "env"@,
        HostCall::Millis => "env"@,
        HostCall::TaskCreate => "env"@,
        HostCall::GetErrno => "pros_v0"@,
        HostCall::Panic => "pros_v0"@,
        HostCall::LcdSetText => "pros_v0"@,
        HostCall::LcdInitialize => "pros_v0"@,
        HostCall::LcdShutdown => "pros_v0"@,
        HostCall::LcdIsInitialized => "pros_v0"@,
        HostCall::LcdClear => "pros_v0"@,
        HostCall::LcdClearLine => "pros_v0"@,
        HostCall::LcdReadButtons => "pros_v0"@,
        HostCall::LcdRegisterBtn0Cb => "pros_v0"@,
        HostCall::LcdRegisterBtn1Cb => "pros_v0"@,
        HostCall::LcdRegisterBtn2Cb => "pros_v0"@,
        HostCall::LcdSetBackgroundColor => "pros_v0"@,
        HostCall::LcdSetTextColor => "pros_v0"@,
    }
}

/// The import name of each call.
pub open spec fn host_call_name(c: HostCall) -> Seq<char> {
    match c {
        HostCall::MutexCreate => "mutex_create"@,
        HostCall::MutexDelete => "mutex_delete"@,
        HostCall::MutexGive => "mutex_give"@,
        HostCall::MutexTake => "mutex_take"@,
        HostCall::TaskGetLocalStorage => "pvTaskGetThreadLocalStoragePointer"@,
        HostCall::TaskSetLocalStorage => "vTaskSetThreadLocalStoragePointer"@,
        HostCall::TaskGetCurrent => "task_get_current"@,
        HostCall::Delay => "delay"@,
        HostCall::TaskDelay => "task_delay"@,
        HostCall::TaskDelayUntil => "task_delay_until"@,
        HostCall::RtosSuspendAll => "rtos_suspend_all"@,
        HostCall::RtosResumeAll => "rtos_resume_all"@,
        HostCall::Millis => "millis"@,
        HostCall::TaskCreate => "task_create"@,
        HostCall::GetErrno => "get_errno"@,
        HostCall::Panic => "panic"@,
        HostCall::LcdSetText => "lcd_set_text"@,
        HostCall::LcdInitialize => "lcd_initialize"@,
        HostCall::LcdShutdown => "lcd_shutdown"@,
        HostCall::LcdIsInitialized => "lcd_is_initialized"@,
        HostCall::LcdClear => "lcd_clear"@,
        HostCall::LcdClearLine => "lcd_clear_line"@,
        HostCall::LcdReadButtons => "lcd_read_buttons"@,
        HostCall::LcdRegisterBtn0Cb => "lcd_register_btn0_cb"@,
        HostCall::LcdRegisterBtn1Cb => "lcd_register_btn1_cb"@,
        HostCall::LcdRegisterBtn2Cb => "lcd_register_btn2_cb"@,
        HostCall::LcdSetBackgroundColor => "lcd_set_background_color"@,
        HostCall::LcdSetTextColor => "lcd_set_text_color"@,
    }
}

/// What an import (module, name) pair resolves to: the table, written
/// as the lookup reads it.
pub open spec fn spec_lookup(module: Seq<char>, name: Seq<char>) -> Option<HostCall> {
    if module == "env"@ {
        if name == "mutex_create"@ {
            Some(HostCall::MutexCreate)
        } else if name == "mutex_delete"@ {
            Some(HostCall::MutexDelete)
        } else if name == "mutex_give"@ {
            Some(HostCall::MutexGive)
        } else if name == "mutex_take"@ {
            Some(HostCall::MutexTake)
        } else if name == "pvTaskGetThreadLocalStoragePointer"@ {
            Some(HostCall::TaskGetLocalStorage)
        } else if name == "vTaskSetThreadLocalStoragePointer"@ {
            Some(HostCall::TaskSetLocalStorage)
        } else if name == "task_get_current"@ {
            Some(HostCall::TaskGetCurrent)
        } else if name == "delay"@ {
            Some(HostCall::Delay)
        } else if name == "task_delay"@ {
            Some(HostCall::TaskDelay)
        } else if name == "task_delay_until"@ {
            Some(HostCall::TaskDelayUntil)
        } else if name == "rtos_suspend_all"@ {
            Some(HostCall::RtosSuspendAll)
        } else if name == "rtos_resume_all"@ {
            Some(HostCall::RtosResumeAll)
        } else if name == "millis"@ {
            Some(HostCall::Millis)
        } else if name == "task_create"@ {
            Some(HostCall::TaskCreate)
        } else {
            None
        }
    } else if module == "pros_v0"@ {
        if name == "get_errno"@ {
            Some(HostCall::GetErrno)
        } else if name == "panic"@ {
            Some(HostCall::Panic)
        } else if name == "lcd_set_text"@ {
            Some(HostCall::LcdSetText)
        } else if name == "lcd_initialize"@ {
            Some(HostCall::LcdInitialize)
        } else if name == "lcd_shutdown"@ {
            Some(HostCall::LcdShutdown)
        } else if name == "lcd_is_initialized"@ {
            Some(HostCall::LcdIsInitialized)
        } else if name == "lcd_clear"@ {
            Some(HostCall::LcdClear)
        } else if name == "lcd_clear_line"@ {
            Some(HostCall::LcdClearLine)
        } else if name == "lcd_read_buttons"@ {
            Some(HostCall::LcdReadButtons)
        } else if name == "lcd_register_btn0_cb"@ {
            Some(HostCall::LcdRegisterBtn0Cb)
        } else if name == "lcd_register_btn1_cb"@ {
            Some(HostCall::LcdRegisterBtn1Cb)
        } else if name == "lcd_register_btn2_cb"@ {
            Some(HostCall::LcdRegisterBtn2Cb)
        } else if name == "lcd_set_background_color"@ {
            Some(HostCall::LcdSetBackgroundColor)
        } else if name == "lcd_set_text_color"@ {
            Some(HostCall::LcdSetTextColor)
        } else {
            None
        }
    } else {
        None
    }
}

/// Every entry of the table is published under its own module and
/// name: a successful lookup returns the call whose module and name
/// were asked for.
pub proof fn lemma_lookup_sound(module: Seq<char>, name: Seq<char>, c: HostCall)
    requires
        spec_lookup(module, name) == Some(c),
    ensures
        host_call_module(c) == module,
        host_call_name(c) == name,
{
}

/// Resolves one guest import against the table.
pub fn lookup_host_call(module: &str, name: &str) -> (r: Option<HostCall>)
    ensures
        r == spec_lookup(module@, name@),
{
    if str_eq(module, "env") {
        if str_eq(name, "mutex_create") {
            Some(HostCall::MutexCreate)
        } else if str_eq(name, "mutex_delete") {
            Some(HostCall::MutexDelete)
        } else if str_eq(name, "mutex_give") {
            Some(HostCall::MutexGive)
        } else if str_eq(name, "mutex_take") {
            Some(HostCall::MutexTake)
        } else if str_eq(name, "pvTaskGetThreadLocalStoragePointer") {
            Some(HostCall::TaskGetLocalStorage)
        } else if str_eq(name, "vTaskSetThreadLocalStoragePointer") {
            Some(HostCall::TaskSetLocalStorage)
        } else if str_eq(name, "task_get_current") {
            Some(HostCall::TaskGetCurrent)
        } else if str_eq(name, "delay") {
            Some(HostCall::Delay)
        } else if str_eq(name, "task_delay") {
            Some(HostCall::TaskDelay)
        } else if str_eq(name, "task_delay_until") {
            Some(HostCall::TaskDelayUntil)
        } else if str_eq(name, "rtos_suspend_all") {
            Some(HostCall::RtosSuspendAll)
        } else if str_eq(name, "rtos_resume_all") {
            Some(HostCall::RtosResumeAll)
        } else if str_eq(name, "millis") {
            Some(HostCall::Millis)
        } else if str_eq(name, "task_create") {
            Some(HostCall::TaskCreate)
        } else {
            None
        }
    } else if str_eq(module, "pros_v0") {
        if str_eq(name, "get_errno") {
            Some(HostCall::GetErrno)
        } else if str_eq(name, "panic") {
            Some(HostCall::Panic)
        } else if str_eq(name, "lcd_set_text") {
            Some(HostCall::LcdSetText)
        } else if str_eq(name, "lcd_initialize") {
            Some(HostCall::LcdInitialize)
        } else if str_eq(name, "lcd_shutdown") {
            Some(HostCall::LcdShutdown)
        } else if str_eq(name, "lcd_is_initialized") {
            Some(HostCall::LcdIsInitialized)
        } else if str_eq(name, "lcd_clear") {
            Some(HostCall::LcdClear)
        } else if str_eq(name, "lcd_clear_line") {
            Some(HostCall::LcdClearLine)
        } else if str_eq(name, "lcd_read_buttons") {
            Some(HostCall::LcdReadButtons)
        } else if str_eq(name, "lcd_register_btn0_cb") {
            Some(HostCall::LcdRegisterBtn0Cb)
        } else if str_eq(name, "lcd_register_btn1_cb") {
            Some(HostCall::LcdRegisterBtn1Cb)
        } else if str_eq(name, "lcd_register_btn2_cb") {
            Some(HostCall::LcdRegisterBtn2Cb)
        } else if str_eq(name, "lcd_set_background_color") {
            Some(HostCall::LcdSetBackgroundColor)
        } else if str_eq(name, "lcd_set_text_color") {
            Some(HostCall::LcdSetTextColor)
        } else {
            None
        }
    } else {
        None
    }
}

/// How many guest-side arguments the call takes.
pub open spec fn spec_param_count(c: HostCall) -> nat {
    match c {
        HostCall::MutexCreate => 0,
        HostCall::MutexDelete => 1,
        HostCall::MutexGive => 1,
        HostCall::MutexTake => 2,
        HostCall::TaskGetLocalStorage => 2,
        HostCall::TaskSetLocalStorage => 3,
        HostCall::TaskGetCurrent => 0,
        HostCall::Delay => 1,
        HostCall::TaskDelay => 1,
        HostCall::TaskDelayUntil => 2,
        HostCall::RtosSuspendAll => 0,
        HostCall::RtosResumeAll => 0,
        HostCall::Millis => 0,
        HostCall::TaskCreate => 5,
        HostCall::GetErrno => 0,
        HostCall::Panic => 2,
        HostCall::LcdSetText => 3,
        HostCall::LcdInitialize => 0,
        HostCall::LcdShutdown => 0,
        HostCall::LcdIsInitialized => 0,
        HostCall::LcdClear => 0,
        HostCall::LcdClearLine => 1,
        HostCall::LcdReadButtons => 0,
        HostCall::LcdRegisterBtn0Cb => 1,
        HostCall::LcdRegisterBtn1Cb => 1,
        HostCall::LcdRegisterBtn2Cb => 1,
        HostCall::LcdSetBackgroundColor => 1,
        HostCall::LcdSetTextColor => 1,
    }
}

/// Whether the call hands a value back to the guest.
pub open spec fn spec_has_return(c: HostCall) -> bool {
    match c {
        HostCall::MutexCreate => true,
        HostCall::MutexDelete => false,
        HostCall::MutexGive => true,
        HostCall::MutexTake => true,
        HostCall::TaskGetLocalStorage => true,
        HostCall::TaskSetLocalStorage => false,
        HostCall::TaskGetCurrent => true,
        HostCall::Delay => false,
        HostCall::TaskDelay => false,
        HostCall::TaskDelayUntil => false,
        HostCall::RtosSuspendAll => false,
        HostCall::RtosResumeAll => true,
        HostCall::Millis => true,
        HostCall::TaskCreate => true,
        HostCall::GetErrno => true,
        HostCall::Panic => false,
        HostCall::LcdSetText => true,
        HostCall::LcdInitialize => true,
        HostCall::LcdShutdown => true,
        HostCall::LcdIsInitialized => true,
        HostCall::LcdClear => true,
        HostCall::LcdClearLine => true,
        HostCall::LcdReadButtons => true,
        HostCall::LcdRegisterBtn0Cb => false,
        HostCall::LcdRegisterBtn1Cb => false,
        HostCall::LcdRegisterBtn2Cb => false,
        HostCall::LcdSetBackgroundColor => false,
        HostCall::LcdSetTextColor => false,
    }
}

/// Returns how many guest-side arguments the call takes.
pub fn param_count(c: HostCall) -> (r: usize)
    ensures
        r == spec_param_count(c),
{
    match c {
        HostCall::MutexCreate => 0,
        HostCall::MutexDelete => 1,
        HostCall::MutexGive => 1,
        HostCall::MutexTake => 2,
        HostCall::TaskGetLocalStorage => 2,
        HostCall::TaskSetLocalStorage => 3,
        HostCall::TaskGetCurrent => 0,
        HostCall::Delay => 1,
        HostCall::TaskDelay => 1,
        HostCall::TaskDelayUntil => 2,
        HostCall::RtosSuspendAll => 0,
        HostCall::RtosResumeAll => 0,
        HostCall::Millis => 0,
        HostCall::TaskCreate => 5,
        HostCall::GetErrno => 0,
        HostCall::Panic => 2,
        HostCall::LcdSetText => 3,
        HostCall::LcdInitialize => 0,
        HostCall::LcdShutdown => 0,
        HostCall::LcdIsInitialized => 0,
        HostCall::LcdClear => 0,
        HostCall::LcdClearLine => 1,
        HostCall::LcdReadButtons => 0,
        HostCall::LcdRegisterBtn0Cb => 1,
        HostCall::LcdRegisterBtn1Cb => 1,
        HostCall::LcdRegisterBtn2Cb => 1,
        HostCall::LcdSetBackgroundColor => 1,
        HostCall::LcdSetTextColor => 1,
    }
}

/// Returns whether the call hands a value back to the guest.
pub fn has_return(c: HostCall) -> (r: bool)
    ensures
        r == spec_has_return(c),
{
    match c {
        HostCall::MutexCreate => true,
        HostCall::MutexDelete => false,
        HostCall::MutexGive => true,
        HostCall::MutexTake => true,
        HostCall::TaskGetLocalStorage => true,
        HostCall::TaskSetLocalStorage => false,
        HostCall::TaskGetCurrent => true,
        HostCall::Delay => false,
        HostCall::TaskDelay => false,
        HostCall::TaskDelayUntil => false,
        HostCall::RtosSuspendAll => false,
        HostCall::RtosResumeAll => true,
        HostCall::Millis => true,
        HostCall::TaskCreate => true,
        HostCall::GetErrno => true,
        HostCall::Panic => false,
        HostCall::LcdSetText => true,
        HostCall::LcdInitialize => true,
        HostCall::LcdShutdown => true,
        HostCall::LcdIsInitialized => true,
        HostCall::LcdClear => true,
        HostCall::LcdClearLine => true,
        HostCall::LcdReadButtons => true,
        HostCall::LcdRegisterBtn0Cb => false,
        HostCall::LcdRegisterBtn1Cb => false,
        HostCall::LcdRegisterBtn2Cb => false,
        HostCall::LcdSetBackgroundColor => false,
        HostCall::LcdSetTextColor => false,
    }
}

/// Character-wise string equality.
pub fn str_eq(a: &str, b: &str) -> (r: bool)
    ensures
        r == (a@ == b@),
{
    let na = a.unicode_len();
    let nb = b.unicode_len();
    if na != nb {
        return false;
    }
    let mut i: usize = 0;
    while i < na
        invariant
            i <= na,
            na == a@.len(),
            na == b@.len(),
            forall|k: int| 0 <= k < i ==> a@[k] == b@[k],
        decreases na - i,
    {
        if a.get_char(i) != b.get_char(i) {
            return false;
        }
        i = i + 1;
    }
    proof {
        assert(a@ =~= b@);
    }
    true
}

} // verus!
