//! Command encoders: the debug-group stack and signpost log of an
//! encoder, with the end of encoding modelled as a one-way switch.

use vstd::prelude::*;

verus! {

/// How a resource is used by an encoded pass, as a bit set.
#[derive(Clone, Copy, Debug, PartialEq, Eq, Structural)]
pub struct ResourceUsage(pub usize);

impl ResourceUsage {
    /// The pass reads the resource.
    pub fn read() -> (r: ResourceUsage)
        ensures
            r.0 == 1,
    {
        ResourceUsage(1)
    }

    /// The pass writes the resource.
    pub fn write() -> (r: ResourceUsage)
        ensures
            r.0 == 2,
    {
        ResourceUsage(2)
    }

    /// The pass samples the resource.
    pub fn sample() -> (r: ResourceUsage)
        ensures
            r.0 == 4,
    {
        ResourceUsage(4)
    }
}

/// Which resource kinds a barrier orders, as a bit set.
#[derive(Clone, Copy, Debug, PartialEq, Eq, Structural)]
pub struct BarrierScope(pub usize);

impl BarrierScope {
    /// The barrier orders buffer access.
    pub fn buffers() -> (r: BarrierScope)
        ensures
            r.0 == 1,
    {
        BarrierScope(1)
    }

    /// The barrier orders texture access.
    pub fn textures() -> (r: BarrierScope)
        ensures
            r.0 == 2,
    {
        BarrierScope(2)
    }

    /// The barrier orders render-target access.
    pub fn render_targets() -> (r: BarrierScope)
        ensures
            r.0 == 4,
    {
        BarrierScope(4)
    }
}

/// An encoder of commands: its label, its open debug groups as a stack,
/// the signposts inserted so far, and whether encoding has ended.
pub struct CommandEncoder {
    pub label: Option<std::string::String>,
    pub debug_groups: Vec<std::string::String>,
    pub signposts: Vec<std::string::String>,
    pub ended: bool,
}

impl CommandEncoder {
    /// A fresh encoder: unlabelled, no open groups, no signposts, still
    /// encoding.
    pub fn new() -> (r: CommandEncoder)
        ensures
            r.label is None,
            r.debug_groups@ =~= Seq::<std::string::String>::empty(),
            r.signposts@ =~= Seq::<std::string::String>::empty(),
            !r.ended,
    {
        CommandEncoder { label: None, debug_groups: Vec::new(), signposts: Vec::new(), ended: false }
    }

    /// Declares encoding finished.  An encoder ends once; asking again is
    /// not allowed by the native protocol, so it is not allowed here.
    pub fn end_encoding(&mut self)
        requires
            !old(self).ended,
        ensures
            final(self).ended,
            final(self).label == old(self).label,
            final(self).debug_groups@ == old(self).debug_groups@,
            final(self).signposts@ == old(self).signposts@,
    {
        self.ended = true;
    }

    /// Appends a signpost to the log of a live encoder; nothing else
    /// moves.
    pub fn insert_debug_signpost(&mut self, signpost: &str)
        requires
            !old(self).ended,
        ensures
            final(self).signposts@.len() == old(self).signposts@.len() + 1,
            final(self).signposts@.last()@ == signpost@,
            forall|k: int|
                0 <= k < old(self).signposts@.len() ==> final(self).signposts@[k] == old(
                    self,
                ).signposts@[k],
            final(self).debug_groups@ == old(self).debug_groups@,
            final(self).label == old(self).label,
            final(self).ended == old(self).ended,
    {
        self.signposts.push(signpost.to_owned());
    }

    /// Opens a debug group on a live encoder: the name goes on top of the
    /// stack.
    pub fn push_debug_group(&mut self, debug_group: &str)
        requires
            !old(self).ended,
        ensures
            final(self).debug_groups@.len() == old(self).debug_groups@.len() + 1,
            final(self).debug_groups@.last()@ == debug_group@,
            forall|k: int|
                0 <= k < old(self).debug_groups@.len() ==> final(self).debug_groups@[k] == old(
                    self,
                ).debug_groups@[k],
            final(self).signposts@ == old(self).signposts@,
            final(self).label == old(self).label,
            final(self).ended == old(self).ended,
    {
        self.debug_groups.push(debug_group.to_owned());
    }

    /// Closes the most recently opened debug group.  The native protocol
    /// pairs every pop with an earlier push, so an empty stack admits no
    /// pop.
    pub fn pop_debug_group(&mut self)
        requires
            !old(self).ended,
            old(self).debug_groups@.len() > 0,
        ensures
            final(self).debug_groups@ == old(self).debug_groups@.drop_last(),
            final(self).signposts@ == old(self).signposts@,
            final(self).label == old(self).label,
            final(self).ended == old(self).ended,
    {
        self.debug_groups.pop();
    }
}

} // verus!
