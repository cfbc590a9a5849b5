//! Texture loading and retrieval.
//!
//! The host loads textures asynchronously: a load call hands the texture to
//! a receive callback later, on a thread of the host's choosing. The
//! get-or-create calls answer synchronously with an already loaded texture,
//! or nothing.

use vstd::prelude::*;

use crate::host::HostCall;
use crate::lifecycle::LifecycleState;
use crate::util::no_interior_nul;

verus! {

/// What the library reads of a loaded texture: its dimensions and a handle
/// standing for the native shader resource view.
#[derive(Debug, Clone, Copy, PartialEq, Eq, Structural)]
pub struct Texture {
    /// Width of the texture.
    pub width: u32,
    /// Height of the texture.
    pub height: u32,
    /// Handle of the shader resource view of the texture.
    pub resource: u64,
}

/// Describes retrieving a texture by its identifier.
pub fn get_texture(state: &LifecycleState, identifier: String) -> (r: HostCall)
    requires
        state.is_initialized(),
        no_interior_nul(identifier@),
    ensures
        r == (HostCall::TextureGet { identifier }),
{
    HostCall::TextureGet { identifier }
}

/// Describes retrieving a texture or creating it from the given file path.
pub fn get_texture_or_create_from_file(state: &LifecycleState, identifier: String, file: String)
    -> (r: HostCall)
    requires
        state.is_initialized(),
        no_interior_nul(identifier@),
        no_interior_nul(file@),
    ensures
        r == (HostCall::TextureGetOrCreateFromFile { identifier, file }),
{
    HostCall::TextureGetOrCreateFromFile { identifier, file }
}

/// Describes retrieving a texture or creating it from the given embedded
/// resource of the module.
pub fn get_texture_or_create_from_resource(
    state: &LifecycleState,
    identifier: String,
    resource_id: u32,
    module: u64,
) -> (r: HostCall)
    requires
        state.is_initialized(),
        no_interior_nul(identifier@),
    ensures
        r == (HostCall::TextureGetOrCreateFromResource { identifier, resource_id, module }),
{
    HostCall::TextureGetOrCreateFromResource { identifier, resource_id, module }
}

/// Describes retrieving a texture or creating it from the given URL.
pub fn get_texture_or_create_from_url(
    state: &LifecycleState,
    identifier: String,
    remote: String,
    endpoint: String,
) -> (r: HostCall)
    requires
        state.is_initialized(),
        no_interior_nul(identifier@),
        no_interior_nul(remote@),
        no_interior_nul(endpoint@),
    ensures
        r == (HostCall::TextureGetOrCreateFromUrl { identifier, remote, endpoint }),
{
    HostCall::TextureGetOrCreateFromUrl { identifier, remote, endpoint }
}

/// Describes retrieving a texture or creating it from the given bytes in
/// memory.
pub fn get_texture_or_create_from_memory(
    state: &LifecycleState,
    identifier: String,
    memory: Vec<u8>,
) -> (r: HostCall)
    requires
        state.is_initialized(),
        no_interior_nul(identifier@),
    ensures
        r == (HostCall::TextureGetOrCreateFromMemory { identifier, data: memory }),
{
    HostCall::TextureGetOrCreateFromMemory { identifier, data: memory }
}

/// Describes loading a texture from the given file path and sending it to
/// the callback; with no callback, the texture is only cached by the host.
pub fn load_texture_from_file(
    state: &LifecycleState,
    identifier: String,
    file: String,
    callback: Option<u64>,
) -> (r: HostCall)
    requires
        state.is_initialized(),
        no_interior_nul(identifier@),
        no_interior_nul(file@),
    ensures
        r == (HostCall::TextureLoadFromFile { identifier, file, callback }),
{
    HostCall::TextureLoadFromFile { identifier, file, callback }
}

/// Describes loading a texture from the given embedded resource and sending
/// it to the callback; with no callback, the texture is only cached by the
/// host.
pub fn load_texture_from_resource(
    state: &LifecycleState,
    identifier: String,
    resource_id: u32,
    module: u64,
    callback: Option<u64>,
) -> (r: HostCall)
    requires
        state.is_initialized(),
        no_interior_nul(identifier@),
    ensures
        r == (HostCall::TextureLoadFromResource { identifier, resource_id, module, callback }),
{
    HostCall::TextureLoadFromResource { identifier, resource_id, module, callback }
}

/// Describes loading a texture from the given URL and sending it to the
/// callback; with no callback, the texture is only cached by the host.
pub fn load_texture_from_url(
    state: &LifecycleState,
    identifier: String,
    remote: String,
    endpoint: String,
    callback: Option<u64>,
) -> (r: HostCall)
    requires
        state.is_initialized(),
        no_interior_nul(identifier@),
        no_interior_nul(remote@),
        no_interior_nul(endpoint@),
    ensures
        r == (HostCall::TextureLoadFromUrl { identifier, remote, endpoint, callback }),
{
    HostCall::TextureLoadFromUrl { identifier, remote, endpoint, callback }
}

/// Describes loading a texture from the given bytes in memory and sending it
/// to the callback; with no callback, the texture is only cached by the
/// host.
pub fn load_texture_from_memory(
    state: &LifecycleState,
    identifier: String,
    memory: Vec<u8>,
    callback: Option<u64>,
) -> (r: HostCall)
    requires
        state.is_initialized(),
        no_interior_nul(identifier@),
    ensures
        r == (HostCall::TextureLoadFromMemory { identifier, data: memory, callback }),
{
    HostCall::TextureLoadFromMemory { identifier, data: memory, callback }
}

} // verus!
