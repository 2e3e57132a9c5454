//! The handle under which the native media controls are registered with the
//! application shell.

use vstd::prelude::*;

verus! {

/// The native media plugin. It carries no state of its own: the controls it
/// stands for live on the platform's side.
#[derive(Clone, Copy, Debug, PartialEq, Eq, Structural)]
pub struct NativeMediaPlugin;

impl NativeMediaPlugin {
    /// The plugin.
    pub fn new() -> (plugin: Self)
        ensures
            plugin == NativeMediaPlugin,
    {
        NativeMediaPlugin
    }
}

} // verus!
