use vstd::prelude::*;
use crate::mode::Mode;
use crate::sink::{admissible, SinkCall};
use crate::text::is_c_text;

verus! {

/// Records that `size` bytes at `address` were allocated in the pool `name`.
///
/// The record goes to the sink as it is. That each address is released
/// once, in the pool it was allocated in, is up to the caller.
pub fn track_alloc(mode: Mode, name: &'static str, address: usize, size: usize) -> (call: Option<
    SinkCall<'static>,
>)
    requires
        mode is Enabled ==> is_c_text(name),
    ensures
        call == match mode {
            Mode::Enabled => Some(
                SinkCall::MemoryAllocNamed { address, size, secure: 0i32, name },
            ),
            Mode::Disabled => None,
        },
        admissible(call),
{
    match mode {
        Mode::Enabled => Some(SinkCall::MemoryAllocNamed { address, size, secure: 0, name }),
        Mode::Disabled => None,
    }
}

/// Records that the memory at `address` was released in the pool `name`.
///
/// The record goes to the sink as it is, whether or not the address was
/// ever recorded as allocated.
pub fn track_free(mode: Mode, name: &'static str, address: usize) -> (call: Option<
    SinkCall<'static>,
>)
    requires
        mode is Enabled ==> is_c_text(name),
    ensures
        call == match mode {
            Mode::Enabled => Some(SinkCall::MemoryFreeNamed { address, secure: 0i32, name }),
            Mode::Disabled => None,
        },
        admissible(call),
{
    match mode {
        Mode::Enabled => Some(SinkCall::MemoryFreeNamed { address, secure: 0, name }),
        Mode::Disabled => None,
    }
}

} // verus!
