//! Native functions callable from on-chain scripts.
//!
//! A native is handed an accessor onto the executing script's stack, takes
//! its arguments from it, and returns a value together with the gas cost it
//! charges.

use vstd::prelude::*;

verus! {

/// Why a native function failed to take its arguments.
#[derive(Clone, Copy, Debug, PartialEq, Eq, Structural)]
pub enum NativeError {
    /// The stack did not hold an argument of the expected type.
    BadArgument,
}

/// A value returned by a native function.
#[derive(Debug, PartialEq)]
pub enum NativeReturnType {
    ByteArray(Vec<u8>),
}

/// A native function's return value together with the gas cost it charges.
#[derive(Debug, PartialEq)]
pub struct CostedReturnType {
    pub native_cost: u64,
    pub native_return: NativeReturnType,
}

impl CostedReturnType {
    pub fn new(native_cost: u64, native_return: NativeReturnType) -> (r: CostedReturnType)
        ensures
            r.native_cost == native_cost,
            r.native_return == native_return,
    {
        CostedReturnType { native_cost, native_return }
    }
}

/// Access to the executing script's stack, implemented by the host virtual
/// machine: natives take their arguments through it.
pub trait StackAccessor {
    /// Pop a byte-array argument off the stack.
    fn get_byte_array(&mut self) -> Result<Vec<u8>, NativeError>;
}

/// Echo: return the byte-array argument unchanged, charging one gas unit per
/// byte. Whatever bytes the accessor hands over, the returned value carries
/// exactly those bytes and the cost equals their number.
pub fn native_echo<T: StackAccessor>(accessor: T) -> (r: Result<CostedReturnType, NativeError>)
    ensures
        match r {
            Ok(c) => match c.native_return {
                NativeReturnType::ByteArray(b) => c.native_cost == b.len(),
            },
            Err(_) => true,
        },
{
    let mut accessor = accessor;
    let arg = match accessor.get_byte_array() {
        Ok(a) => a,
        Err(e) => {
            return Err(e);
        },
    };
    let native_cost: u64 = arg.len() as u64;
    let native_return = NativeReturnType::ByteArray(arg);
    Ok(CostedReturnType::new(native_cost, native_return))
}

} // verus!
