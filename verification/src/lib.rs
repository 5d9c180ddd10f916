//! A synchronous script-to-native message bridge.
//!
//! Script code running in an embedded browser surface calls a native
//! callback by name through a generic "invoke method by id" protocol and
//! receives a string result in-line. The crate models the three parts of
//! that bridge: the reflection descriptor for the one exposed method
//! ([`descriptor`]), the dispatch adapter that answers the engine's
//! introspection and invocation queries ([`adapter`]), and the tagged
//! dynamic value handed to the host runtime at injection ([`bridge`]).
//! Method arguments and results travel as UTF-16 code units; [`utf16`]
//! holds the verified codec.

pub mod adapter;
pub mod bridge;
pub mod descriptor;
pub mod utf16;
