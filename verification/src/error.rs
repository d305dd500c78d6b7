use vstd::prelude::*;

verus! {

/// Why an operation of the bridge did not produce its result.
#[derive(Clone, Copy, Debug, PartialEq, Eq, Structural)]
pub enum BridgeError {
    /// A textual address is not `0x` followed by the hex form of 20 bytes.
    MalformedAddress,
    /// The token has no cached address yet; it has to be resolved first.
    UnresolvedMapping,
    /// The engine answered with anything but success, or the call never
    /// reached it.
    RemoteCallFailed,
    /// The engine could not resolve a token to an address.
    ResolutionFailed,
    /// The budget attached to a call was used up before it completed.
    ResourceExhausted,
    /// The bytes that a successful call returned are no balance: they are
    /// more than 32, or their value does not fit in 128 bits.
    InvalidBalance,
    /// A resolved pair contradicts an entry that is already cached.
    MappingConflict,
    /// A privileged operation was invoked by an account other than the
    /// contract itself.
    Unauthorized,
}

} // verus!
