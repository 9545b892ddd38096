//! What a tool may ask of a sandbox beyond its profile.

use vstd::prelude::*;

use crate::text::views;

verus! {

/// Network access that a tool asks for.
#[derive(Debug, Clone, Copy, PartialEq, Eq, Structural)]
pub enum SandboxNetworkPermission {
    Unchanged,
    Enabled,
}

/// Network access that a process is spawned with.
#[derive(Debug, Clone, Copy, PartialEq, Eq, Structural)]
pub enum SpawnNetworkPermission {
    Unchanged,
    Enabled,
}

/// What a tool asks for beyond the profile.
#[derive(Debug, PartialEq, Eq)]
pub struct SandboxPermissionOverlay {
    pub network: SandboxNetworkPermission,
    pub read_paths: Vec<String>,
    pub write_paths: Vec<String>,
}

/// The view of [`SandboxPermissionOverlay`].
#[verifier::ext_equal]
pub struct SandboxPermissionOverlayView {
    pub network: SandboxNetworkPermission,
    pub read_paths: Seq<Seq<char>>,
    pub write_paths: Seq<Seq<char>>,
}

impl View for SandboxPermissionOverlay {
    type V = SandboxPermissionOverlayView;

    open spec fn view(&self) -> SandboxPermissionOverlayView {
        SandboxPermissionOverlayView {
            network: self.network,
            read_paths: views(self.read_paths@),
            write_paths: views(self.write_paths@),
        }
    }
}

impl Clone for SandboxPermissionOverlay {
    fn clone(&self) -> (result: Self)
        ensures
            result@ == self@,
    {
        let result = SandboxPermissionOverlay {
            network: self.network,
            read_paths: self.read_paths.clone(),
            write_paths: self.write_paths.clone(),
        };
        assert(views(result.read_paths@) =~= views(self.read_paths@));
        assert(views(result.write_paths@) =~= views(self.write_paths@));
        result
    }
}

/// What a process is spawned with beyond the profile.
#[derive(Debug, PartialEq, Eq)]
pub struct SpawnPermissionOverlay {
    pub network: SpawnNetworkPermission,
    pub read_paths: Vec<String>,
    pub write_paths: Vec<String>,
}

/// The view of [`SpawnPermissionOverlay`].
#[verifier::ext_equal]
pub struct SpawnPermissionOverlayView {
    pub network: SpawnNetworkPermission,
    pub read_paths: Seq<Seq<char>>,
    pub write_paths: Seq<Seq<char>>,
}

impl View for SpawnPermissionOverlay {
    type V = SpawnPermissionOverlayView;

    open spec fn view(&self) -> SpawnPermissionOverlayView {
        SpawnPermissionOverlayView {
            network: self.network,
            read_paths: views(self.read_paths@),
            write_paths: views(self.write_paths@),
        }
    }
}

impl Clone for SpawnPermissionOverlay {
    fn clone(&self) -> (result: Self)
        ensures
            result@ == self@,
    {
        let result = SpawnPermissionOverlay {
            network: self.network,
            read_paths: self.read_paths.clone(),
            write_paths: self.write_paths.clone(),
        };
        assert(views(result.read_paths@) =~= views(self.read_paths@));
        assert(views(result.write_paths@) =~= views(self.write_paths@));
        result
    }
}

/// What a process is spawned with: exactly what the tool asked for.
pub open spec fn spawn_overlay(
    overlay: SandboxPermissionOverlayView,
) -> SpawnPermissionOverlayView {
    SpawnPermissionOverlayView {
        network: match overlay.network {
            SandboxNetworkPermission::Unchanged => SpawnNetworkPermission::Unchanged,
            SandboxNetworkPermission::Enabled => SpawnNetworkPermission::Enabled,
        },
        read_paths: overlay.read_paths,
        write_paths: overlay.write_paths,
    }
}

/// Hands over what a tool asked for to a process that is spawned.
pub fn sandbox_overlay_for_spawn(overlay: Option<&SandboxPermissionOverlay>) -> (result: Option<
    SpawnPermissionOverlay,
>)
    ensures
        match overlay {
            Some(overlay) => result matches Some(spawned) && spawned@ == spawn_overlay(overlay@),
            None => result is None,
        },
{
    let overlay = match overlay {
        Some(overlay) => overlay,
        None => return None,
    };
    let read_paths = overlay.read_paths.clone();
    let write_paths = overlay.write_paths.clone();
    assert(views(read_paths@) =~= views(overlay.read_paths@));
    assert(views(write_paths@) =~= views(overlay.write_paths@));
    let network = match overlay.network {
        SandboxNetworkPermission::Unchanged => SpawnNetworkPermission::Unchanged,
        SandboxNetworkPermission::Enabled => SpawnNetworkPermission::Enabled,
    };
    Some(SpawnPermissionOverlay { network, read_paths, write_paths })
}

} // verus!
