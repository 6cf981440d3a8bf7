//! The marker a host application installs to enable the toon material
//! swap.

use vstd::prelude::*;

verus! {

/// Marker for installing the toon material swap into a host application.
/// The host that registers it is expected to load the fragment shader
/// program and the mask texture under the library's fixed handles and to
/// drive the migration driver's poll once per update tick.
#[derive(Clone, Copy, Debug, Default, PartialEq, Eq, Structural)]
#[non_exhaustive]
pub struct WindWakerShaderPlugin;

} // verus!
