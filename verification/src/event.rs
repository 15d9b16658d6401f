//! The owned filesystem change record and its two closed classifications,
//! together with the verified mapping from the native layer's integer codes.

use vstd::prelude::*;

verus! {

/// The kind of change that occurred to a path.
#[derive(Clone, Copy, Debug, PartialEq, Eq, Structural)]
pub enum EffectType {
    Rename,
    Modify,
    Create,
    Destroy,
    Owner,
    Other,
}

/// The kind of filesystem entity an event concerns.  `Watcher` marks an
/// event about the watch's own root path (for example, the watched path
/// itself was removed).
#[derive(Clone, Copy, Debug, PartialEq, Eq, Structural)]
pub enum PathType {
    Dir,
    File,
    HardLink,
    SymLink,
    Watcher,
    Other,
}

/// An immutable, fully owned filesystem change record.  It holds no
/// reference into native memory: all text is copied out of the callback's
/// transient buffers before the callback returns.
#[derive(Clone, Debug, PartialEq)]
pub struct Event {
    /// Signed 64-bit timestamp, passed through unmodified from the native
    /// side; treated as opaque ordering data, never reinterpreted.
    pub effect_time: i64,
    /// The primary path affected.  Never absent: empty when the native side
    /// supplied none, or supplied invalidly encoded text.
    pub path_name: String,
    /// The secondary path, present for effects with two paths (a rename's
    /// old and new name).  `None` when the native side supplied none, so an
    /// absent second path is distinguished from an empty one.
    pub associated_path_name: Option<String>,
    /// The kind of change.
    pub effect_type: EffectType,
    /// The kind of entity affected.
    pub path_type: PathType,
}

/// Native code for a rename effect.
pub const EFFECT_RENAME: i8 = 0;
/// Native code for a modify effect.
pub const EFFECT_MODIFY: i8 = 1;
/// Native code for a create effect.
pub const EFFECT_CREATE: i8 = 2;
/// Native code for a destroy effect.
pub const EFFECT_DESTROY: i8 = 3;
/// Native code for an ownership-change effect.
pub const EFFECT_OWNER: i8 = 4;
/// Native code for any other effect.
pub const EFFECT_OTHER: i8 = 5;

/// Native code for a directory.
pub const PATH_DIR: i8 = 0;
/// Native code for a regular file.
pub const PATH_FILE: i8 = 1;
/// Native code for a hard link.
pub const PATH_HARD_LINK: i8 = 2;
/// Native code for a symbolic link.
pub const PATH_SYM_LINK: i8 = 3;
/// Native code for the watch's own root path.
pub const PATH_WATCHER: i8 = 4;
/// Native code for any other entity.
pub const PATH_OTHER: i8 = 5;

/// The effect a native code denotes.  The set of codes is closed on this
/// side but open on the native side: every code outside the known set
/// degrades to `Other`, never to an error.
pub open spec fn spec_effect_type(code: i8) -> EffectType {
    if code == EFFECT_RENAME {
        EffectType::Rename
    } else if code == EFFECT_MODIFY {
        EffectType::Modify
    } else if code == EFFECT_CREATE {
        EffectType::Create
    } else if code == EFFECT_DESTROY {
        EffectType::Destroy
    } else if code == EFFECT_OWNER {
        EffectType::Owner
    } else {
        EffectType::Other
    }
}

/// The entity kind a native code denotes; codes outside the known set
/// degrade to `Other`.
pub open spec fn spec_path_type(code: i8) -> PathType {
    if code == PATH_DIR {
        PathType::Dir
    } else if code == PATH_FILE {
        PathType::File
    } else if code == PATH_HARD_LINK {
        PathType::HardLink
    } else if code == PATH_SYM_LINK {
        PathType::SymLink
    } else if code == PATH_WATCHER {
        PathType::Watcher
    } else {
        PathType::Other
    }
}

/// Maps a native effect code to the closed [`EffectType`] set.  Total:
/// unknown codes map to `Other`.
pub fn effect_type_from_c(effect_type: i8) -> (r: EffectType)
    ensures
        r == spec_effect_type(effect_type),
{
    if effect_type == EFFECT_RENAME {
        EffectType::Rename
    } else if effect_type == EFFECT_MODIFY {
        EffectType::Modify
    } else if effect_type == EFFECT_CREATE {
        EffectType::Create
    } else if effect_type == EFFECT_DESTROY {
        EffectType::Destroy
    } else if effect_type == EFFECT_OWNER {
        EffectType::Owner
    } else {
        EffectType::Other
    }
}

/// Maps a native path-type code to the closed [`PathType`] set.  Total:
/// unknown codes map to `Other`.
pub fn path_type_from_c(path_type: i8) -> (r: PathType)
    ensures
        r == spec_path_type(path_type),
{
    if path_type == PATH_DIR {
        PathType::Dir
    } else if path_type == PATH_FILE {
        PathType::File
    } else if path_type == PATH_HARD_LINK {
        PathType::HardLink
    } else if path_type == PATH_SYM_LINK {
        PathType::SymLink
    } else if path_type == PATH_WATCHER {
        PathType::Watcher
    } else {
        PathType::Other
    }
}

} // verus!
