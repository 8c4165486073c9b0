//! Virtual processor registers by name and value.
use crate::vmm::error::{check_whpx, Error, S_OK};
use vstd::prelude::*;

verus! {

/// The registers that are set from outside.
#[derive(Clone, Copy, PartialEq, Eq, Structural, Debug)]
pub enum RegisterName {
    Rax,
    Rcx,
    Rdx,
    Rbx,
    Rsp,
    Rbp,
    Rsi,
    Rip,
    Rflags,
    Es,
    Cs,
    Ss,
    Ds,
    Fs,
    Gs,
    Tr,
    Idtr,
    Gdtr,
    Cr0,
    Cr3,
    Cr4,
    Efer,
    PendingInterruption,
}

/// The number by which the hypervisor knows a register.
pub open spec fn register_code(name: RegisterName) -> i32 {
    match name {
        RegisterName::Rax => 0,
        RegisterName::Rcx => 1,
        RegisterName::Rdx => 2,
        RegisterName::Rbx => 3,
        RegisterName::Rsp => 4,
        RegisterName::Rbp => 5,
        RegisterName::Rsi => 6,
        RegisterName::Rip => 16,
        RegisterName::Rflags => 17,
        RegisterName::Es => 18,
        RegisterName::Cs => 19,
        RegisterName::Ss => 20,
        RegisterName::Ds => 21,
        RegisterName::Fs => 22,
        RegisterName::Gs => 23,
        RegisterName::Tr => 25,
        RegisterName::Idtr => 26,
        RegisterName::Gdtr => 27,
        RegisterName::Cr0 => 28,
        RegisterName::Cr3 => 30,
        RegisterName::Cr4 => 31,
        RegisterName::Efer => 8193,
        RegisterName::PendingInterruption => (-0x8000_0000) as i32,
    }
}

impl RegisterName {
    /// The number by which the hypervisor knows the register.
    pub fn code(&self) -> (code: i32)
        ensures
            code == register_code(*self),
    {
        match self {
            RegisterName::Rax => 0,
            RegisterName::Rcx => 1,
            RegisterName::Rdx => 2,
            RegisterName::Rbx => 3,
            RegisterName::Rsp => 4,
            RegisterName::Rbp => 5,
            RegisterName::Rsi => 6,
            RegisterName::Rip => 16,
            RegisterName::Rflags => 17,
            RegisterName::Es => 18,
            RegisterName::Cs => 19,
            RegisterName::Ss => 20,
            RegisterName::Ds => 21,
            RegisterName::Fs => 22,
            RegisterName::Gs => 23,
            RegisterName::Tr => 25,
            RegisterName::Idtr => 26,
            RegisterName::Gdtr => 27,
            RegisterName::Cr0 => 28,
            RegisterName::Cr3 => 30,
            RegisterName::Cr4 => 31,
            RegisterName::Efer => 8193,
            RegisterName::PendingInterruption => -0x8000_0000,
        }
    }
}

/// A segment register with its hidden part.
#[derive(Clone, Copy, PartialEq, Eq, Structural, Debug)]
pub struct SegmentRegister {
    pub base: u64,
    pub limit: u32,
    pub selector: u16,
    pub attributes: u16,
}

/// A descriptor table register.
#[derive(Clone, Copy, PartialEq, Eq, Structural, Debug)]
pub struct TableRegister {
    pub base: u64,
    pub limit: u16,
}

/// The value of a register.
#[derive(Clone, Copy, PartialEq, Eq, Structural, Debug)]
pub enum RegisterValue {
    Reg64(u64),
    Segment(SegmentRegister),
    Table(TableRegister),
}

/// A register and the value it is to take.
#[derive(Clone, Copy, PartialEq, Eq, Structural, Debug)]
pub struct RegisterWrite {
    pub name: RegisterName,
    pub value: RegisterValue,
}

/// A 64-bit register and the value it is to take.
pub open spec fn reg64_write(name: RegisterName, value: u64) -> RegisterWrite {
    RegisterWrite { name, value: RegisterValue::Reg64(value) }
}

/// A 64-bit register and the value it is to take.
pub fn reg64(name: RegisterName, value: u64) -> (write: RegisterWrite)
    ensures
        write == reg64_write(name, value),
{
    RegisterWrite { name, value: RegisterValue::Reg64(value) }
}

/// What became of setting registers, from the result code of the call.
pub fn registers_set(hr: i32) -> (r: Result<(), Error>)
    ensures
        r == (if hr == S_OK {
            Ok::<(), Error>(())
        } else {
            Err(Error::SetRegisters(hr))
        }),
{
    match check_whpx(hr) {
        Ok(()) => Ok(()),
        Err(hr) => Err(Error::SetRegisters(hr)),
    }
}

/// What became of reading a 64-bit register, from the result code of the call
/// and the value it filled in.
pub fn register_read(hr: i32, value: u64) -> (r: Result<u64, Error>)
    ensures
        r == (if hr == S_OK {
            Ok::<u64, Error>(value)
        } else {
            Err(Error::GetRegisters(hr))
        }),
{
    match check_whpx(hr) {
        Ok(()) => Ok(value),
        Err(hr) => Err(Error::GetRegisters(hr)),
    }
}

/// A write names its register and holds the whole value.
pub proof fn writes_hold_the_whole_value(name: RegisterName, value: u64, write: RegisterWrite)
    requires
        call_ensures(reg64, (name, value), write),
    ensures
        write.name == name,
        write.value matches RegisterValue::Reg64(v) && v == value,
{
}

/// No two registers have the same number. The general registers and the
/// segment registers have theirs in the order of the hypervisor.
pub proof fn numbers_tell_registers_apart(a: RegisterName, b: RegisterName, x: i32, y: i32)
    requires
        call_ensures(RegisterName::code, (&a,), x),
        call_ensures(RegisterName::code, (&b,), y),
    ensures
        x == y <==> a == b,
        a is Rax && b is Rbx ==> y == x + 3,
        a is Rax && b is Rdx ==> y == x + 2,
        a is Rip && b is Rflags ==> y == x + 1,
        a is Es && b is Gs ==> y == x + 5,
        a is Idtr && b is Gdtr ==> y == x + 1,
        a is Cr0 && b is Cr4 ==> y == x + 3,
        a is Rip ==> x == 16,
        a is PendingInterruption ==> x < 0,
{
}

/// Registers are set, or read, exactly if the call returned zero; any other
/// code is handed on.
pub proof fn register_calls_succeed_with_zero(
    hr: i32,
    value: u64,
    set: Result<(), Error>,
    read: Result<u64, Error>,
)
    requires
        call_ensures(registers_set, (hr,), set),
        call_ensures(register_read, (hr, value), read),
    ensures
        set is Ok <==> hr == 0,
        set matches Err(e) ==> e == Error::SetRegisters(hr),
        read is Ok <==> hr == 0,
        read matches Ok(v) ==> v == value,
        read matches Err(e) ==> e == Error::GetRegisters(hr),
{
}

} // verus!
