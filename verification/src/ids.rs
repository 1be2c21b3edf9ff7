//! Widget identifiers: opaque, stable handles naming persistent UI elements
//! across frames, allocated once at startup from a monotonic generator.

use vstd::prelude::*;

verus! {

/// An opaque, stable handle naming one persistent widget across frames.
#[derive(Clone, Copy, PartialEq, Eq, Structural, Debug)]
pub struct WidgetId {
    pub index: u64,
}

/// A monotonic source of fresh widget identifiers.
///
/// Identifiers handed out by one generator are pairwise distinct and are
/// never reused: `next` strictly increases the counter.
pub struct Generator {
    pub next_index: u64,
}

impl Generator {
    /// A fresh generator that starts counting at zero.
    pub fn new() -> (g: Generator)
        ensures
            g.next_index == 0,
    {
        Generator { next_index: 0 }
    }

    /// Allocates the next identifier; the counter strictly increases, so no
    /// identifier is ever handed out twice.
    pub fn next(&mut self) -> (id: WidgetId)
        requires
            old(self).next_index < u64::MAX,
        ensures
            id.index == old(self).next_index,
            final(self).next_index == old(self).next_index + 1,
    {
        let id = WidgetId { index: self.next_index };
        self.next_index = self.next_index + 1;
        id
    }
}

/// The fixed identifier registry: one root container and one text label.
///
/// These two identifiers are allocated exactly once, at application state
/// construction, and every frame's scene references exactly these two.
#[derive(Clone, Copy, PartialEq, Eq, Structural, Debug)]
pub struct Ids {
    pub root: WidgetId,
    pub label: WidgetId,
}

impl Ids {
    /// Allocates the registry's two identifiers from the generator.
    ///
    /// The two identifiers are distinct, and the generator advances past
    /// both, so neither can ever be allocated again.
    pub fn new(gen: &mut Generator) -> (ids: Ids)
        requires
            old(gen).next_index < u64::MAX - 1,
        ensures
            ids.root.index == old(gen).next_index,
            ids.label.index == old(gen).next_index + 1,
            ids.root != ids.label,
            final(gen).next_index == old(gen).next_index + 2,
    {
        let root = gen.next();
        let label = gen.next();
        Ids { root, label }
    }
}

} // verus!
