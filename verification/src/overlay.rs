//! Overlay-filesystem descriptions.
//!
//! The volumes this crate produces are consumed by collaborators such
//! as an overlay filesystem stacked on top of them. The types here
//! only describe such a stack — its layer directories and their order
//! — and validate the description; mounting is the consumer's own,
//! unverified business.

use vstd::prelude::*;

verus! {

/// A rejected overlay description.
#[derive(Clone, Copy, Debug, PartialEq, Eq, Structural)]
pub enum OverlayError {
    /// An overlay needs at least one read-only layer.
    NoLowerLayers,
}

/// An overlay filesystem configuration.
#[derive(Debug)]
pub struct OverlayConfig {
    /// The read-only layer directories, ordered from bottom to top.
    pub lower_dirs: Vec<String>,
    /// The single writable layer.
    pub upper_dir: String,
    /// Scratch directory for atomic operations; must be empty and on
    /// the same filesystem as the upper layer.
    pub work_dir: String,
    /// The mount point where the merged view appears.
    pub merged_dir: String,
}

impl OverlayConfig {
    /// Describes an overlay. At least one lower directory is required;
    /// an empty stack is rejected.
    pub fn new(
        lower_dirs: Vec<String>,
        upper_dir: String,
        work_dir: String,
        merged_dir: String,
    ) -> (r: Result<Self, OverlayError>)
        ensures
            r is Ok <==> lower_dirs@.len() > 0,
            r matches Ok(c) ==> {
                &&& c.lower_dirs@ == lower_dirs@
                &&& c.upper_dir@ == upper_dir@
                &&& c.work_dir@ == work_dir@
                &&& c.merged_dir@ == merged_dir@
            },
            r matches Err(e) ==> e == OverlayError::NoLowerLayers,
    {
        if lower_dirs.len() == 0 {
            Err(OverlayError::NoLowerLayers)
        } else {
            Ok(OverlayConfig { lower_dirs, upper_dir, work_dir, merged_dir })
        }
    }

    /// The lower directories in the order the kernel expects them:
    /// topmost layer first, so the internal bottom-to-top order is
    /// reversed.
    pub fn kernel_lower_order(&self) -> (v: Vec<String>)
        ensures
            v@.len() == self.lower_dirs@.len(),
            forall|i: int|
                0 <= i < v@.len() ==> #[trigger] v@[i]@ == self.lower_dirs@[self.lower_dirs@.len()
                    - 1 - i]@,
    {
        let n = self.lower_dirs.len();
        let mut v: Vec<String> = Vec::new();
        let mut i: usize = 0;
        while i < n
            invariant
                n == self.lower_dirs@.len(),
                0 <= i <= n,
                v@.len() == i,
                forall|k: int|
                    0 <= k < i ==> #[trigger] v@[k]@ == self.lower_dirs@[n - 1 - k]@,
            decreases n - i,
        {
            v.push(self.lower_dirs[n - 1 - i].clone());
            i = i + 1;
        }
        v
    }
}

/// A container image layer stored as an archive.
pub struct ImageLayer {
    /// Path of the layer archive.
    pub tar_path: String,
    /// The layer's content hash: its identity.
    pub layer_id: String,
}

impl ImageLayer {
    /// Describes the layer stored at `tar_path` under the identity
    /// `layer_id`.
    pub fn new(tar_path: String, layer_id: String) -> (l: Self)
        ensures
            l.tar_path@ == tar_path@,
            l.layer_id@ == layer_id@,
    {
        ImageLayer { tar_path, layer_id }
    }
}

/// A snapshot in an overlay snapshotter: an extracted layer and the
/// parents it builds upon.
pub struct Snapshot {
    /// The snapshot's identifier.
    pub id: String,
    /// The directory holding the extracted layer contents.
    pub fs_dir: String,
    /// Parent snapshot identifiers this snapshot builds upon.
    pub parents: Vec<String>,
}

impl Snapshot {
    /// Describes the snapshot `id` extracted at `fs_dir` on top of
    /// `parents`.
    pub fn new(id: String, fs_dir: String, parents: Vec<String>) -> (s: Self)
        ensures
            s.id@ == id@,
            s.fs_dir@ == fs_dir@,
            s.parents@ == parents@,
    {
        Snapshot { id, fs_dir, parents }
    }
}

} // verus!
