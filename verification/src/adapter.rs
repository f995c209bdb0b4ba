//! The capability interface through which the core talks to its
//! embedding host: diagnostics, user alerts, and insertion of rendered
//! output into a named presentation container.
//!
//! The core only consumes these capabilities; it never implements them.
//! An embedding host supplies an implementation (for instance over a
//! browser DOM), and nothing is assumed here about how an
//! implementation behaves: the core's own contracts hold whatever an
//! adapter does.

use vstd::prelude::*;

verus! {

/// The ways the host can fail to insert rendered output.
#[derive(Clone, Copy, Debug, PartialEq, Eq, Structural)]
pub enum AdapterError {
    /// The requested container id does not resolve to an existing
    /// presentation node.
    ContainerNotFound,
    /// The host's document or node-creation primitives are absent.
    DocumentUnavailable,
}

/// Capabilities the embedding host provides to the core.
///
/// `notify` and `alert_user` are best effort: a failure inside the host
/// is not observable to the core. `insert_rendered_output` is the one
/// fallible call the core surfaces; its result is propagated verbatim.
pub trait HostAdapter {
    /// Emit one diagnostic message (fire and forget).
    fn notify(&mut self, message: &str);

    /// Show one modal notification to the user (fire and forget).
    fn alert_user(&mut self, message: &str);

    /// Append a new child node holding `rendered_text` to the
    /// presentation container named `container_id`.
    fn insert_rendered_output(&mut self, container_id: &str, rendered_text: &str) -> Result<
        (),
        AdapterError,
    >;
}

} // verus!
