//! The drawing-surface scope protocol: drawing commands are valid only
//! between a begin step and an end step, the end step runs exactly once per
//! scope — on the error path as well as the success path — and every command
//! is translated by the drawing offset the surface reported when the scope
//! was entered.
//!
//! The platform may relocate the writable region of a surface for a partial
//! update, in which case the offset it reports is non-zero and content drawn
//! without translating by it lands in the wrong place.  The protocol here
//! makes the translation structural: commands are issued in logical
//! coordinates through the scope, which applies the offset itself.

use vstd::prelude::*;

verus! {

/// A position on a surface, in pixels.
#[derive(Clone, Copy, PartialEq, Eq, Structural, Debug)]
pub struct Point {
    pub x: i32,
    pub y: i32,
}

/// A rectangle on a surface: the update region a scope may be restricted to.
#[derive(Clone, Copy, PartialEq, Eq, Structural, Debug)]
pub struct Rect {
    pub left: i32,
    pub top: i32,
    pub right: i32,
    pub bottom: i32,
}

/// One drawing command as the surface retains it: an opaque tag for what was
/// drawn, at an absolute surface position.
#[derive(Clone, Copy, PartialEq, Eq, Structural, Debug)]
pub struct DrawCommand {
    /// What was drawn; opaque to the protocol.
    pub item: u64,
    /// Absolute surface coordinates, offset already applied.
    pub x: i32,
    pub y: i32,
}

/// The command that drawing `item` at logical position `(x, y)` turns into
/// under a scope whose drawing offset is `offset`.
pub open spec fn translated_command(offset: Point, item: u64, x: i32, y: i32) -> DrawCommand {
    DrawCommand { item, x: (x + offset.x) as i32, y: (y + offset.y) as i32 }
}

/// Law (offset correctness): under any drawing offset, a command issued at a
/// logical position lands at that position translated by the offset; in
/// particular, one issued at the logical origin lands exactly at the offset.
pub proof fn lemma_offset_correctness(offset: Point, item: u64, x: i32, y: i32)
    requires
        i32::MIN <= x + offset.x <= i32::MAX,
        i32::MIN <= y + offset.y <= i32::MAX,
    ensures
        translated_command(offset, item, x, y).x == x + offset.x,
        translated_command(offset, item, x, y).y == y + offset.y,
        translated_command(offset, item, 0, 0).x == offset.x,
        translated_command(offset, item, 0, 0).y == offset.y,
{
}

/// An open draw scope: the interval between a begin step and an end step on
/// one surface.  It carries the drawing offset the surface reported — every
/// caller that draws must go through [`DrawScope::draw_at`], which applies
/// the offset — and collects the commands issued so far.
pub struct DrawScope {
    /// The offset the surface reported when the scope was entered.
    pub offset: Point,
    /// The update region requested when the scope was entered; `None` means
    /// the whole surface.
    pub region: Option<Rect>,
    /// Commands issued in this scope, in order, at absolute coordinates.
    pub commands: Vec<DrawCommand>,
}

impl DrawScope {
    /// The drawing offset of this scope.
    pub fn offset(&self) -> (r: Point)
        ensures
            r == self.offset,
    {
        self.offset
    }

    /// Issue one drawing command at a logical position.  The scope
    /// translates it by its offset before recording it.
    pub fn draw_at(&mut self, item: u64, x: i32, y: i32)
        requires
            i32::MIN <= x + old(self).offset.x <= i32::MAX,
            i32::MIN <= y + old(self).offset.y <= i32::MAX,
        ensures
            final(self).offset == old(self).offset,
            final(self).region == old(self).region,
            final(self).commands@ == old(self).commands@.push(
                translated_command(old(self).offset, item, x, y),
            ),
            final(self).commands@.last().x == x + old(self).offset.x,
            final(self).commands@.last().y == y + old(self).offset.y,
    {
        let command = DrawCommand { item, x: x + self.offset.x, y: y + self.offset.y };
        self.commands.push(command);
    }
}

/// A drawing surface, reduced to what the scope protocol reads and writes of
/// it: its size, whether a scope is currently open, how many scopes have
/// completed, the offset the platform will report at the next begin step,
/// and the content that completed scopes have committed.
pub struct DrawingSurface {
    /// Current size in pixels.
    pub width: i32,
    pub height: i32,
    /// Whether the surface is between a begin step and an end step.
    pub drawing: bool,
    /// How many end steps have run: each completed scope runs exactly one.
    pub completed_scopes: u64,
    /// The drawing offset the platform will report at the next begin step;
    /// non-zero when the writable region has been relocated.
    pub next_offset: Point,
    /// Content committed by completed scopes, in order of issue.
    pub committed: Vec<DrawCommand>,
}

impl DrawingSurface {
    /// A fresh surface of the given size: no scope open, nothing committed,
    /// and no relocation reported yet.
    pub fn new(width: i32, height: i32) -> (s: DrawingSurface)
        ensures
            s.width == width,
            s.height == height,
            !s.drawing,
            s.completed_scopes == 0,
            s.next_offset == (Point { x: 0, y: 0 }),
            s.committed@ == Seq::<DrawCommand>::empty(),
    {
        DrawingSurface {
            width,
            height,
            drawing: false,
            completed_scopes: 0,
            next_offset: Point { x: 0, y: 0 },
            committed: Vec::new(),
        }
    }

    /// Resize the surface.  Valid only outside a draw scope; everything but
    /// the size is kept.
    pub fn resize(&mut self, width: i32, height: i32)
        requires
            !old(self).drawing,
        ensures
            final(self).width == width,
            final(self).height == height,
            !final(self).drawing,
            final(self).completed_scopes == old(self).completed_scopes,
            final(self).next_offset == old(self).next_offset,
            final(self).committed == old(self).committed,
    {
        self.width = width;
        self.height = height;
    }

    /// Enter a draw scope, optionally restricted to an update region.  A
    /// scope is never entered twice without an intervening end step.  The
    /// returned scope carries the offset the surface reports and starts with
    /// no commands.
    pub fn begin_draw(&mut self, update: Option<Rect>) -> (scope: DrawScope)
        requires
            !old(self).drawing,
        ensures
            final(self).drawing,
            final(self).width == old(self).width,
            final(self).height == old(self).height,
            final(self).completed_scopes == old(self).completed_scopes,
            final(self).next_offset == old(self).next_offset,
            final(self).committed == old(self).committed,
            scope.offset == old(self).next_offset,
            scope.region == update,
            scope.commands@ == Seq::<DrawCommand>::empty(),
    {
        self.drawing = true;
        DrawScope { offset: self.next_offset, region: update, commands: Vec::new() }
    }

    /// Leave a draw scope: the commands the scope collected are committed,
    /// in order, and the surface is ready for an independent next scope.
    pub fn end_draw(&mut self, scope: DrawScope)
        requires
            old(self).drawing,
            old(self).completed_scopes < u64::MAX,
        ensures
            !final(self).drawing,
            final(self).width == old(self).width,
            final(self).height == old(self).height,
            final(self).completed_scopes == old(self).completed_scopes + 1,
            final(self).next_offset == old(self).next_offset,
            final(self).committed@ == old(self).committed@ + scope.commands@,
    {
        let mut commands = scope.commands;
        self.committed.append(&mut commands);
        self.completed_scopes = self.completed_scopes + 1;
        self.drawing = false;
    }
}

/// Run one draw callback under a correctly bracketed scope on the whole
/// surface.  The begin step runs first, the callback exactly once, and the
/// end step exactly once — whether the callback succeeds or returns an
/// error, so a failed callback leaves the surface ready for an independent
/// next scope.  The callback receives the scope, whose offset it cannot
/// avoid: drawing goes through [`DrawScope::draw_at`].
pub fn draw_into_surface<E, F: FnOnce(DrawScope) -> (DrawScope, Result<(), E>)>(
    surface: &mut DrawingSurface,
    draw: F,
) -> (r: Result<(), E>)
    requires
        !old(surface).drawing,
        old(surface).completed_scopes < u64::MAX,
        forall|s: DrawScope|
            (s.offset == old(surface).next_offset && s.region is None && s.commands@
                == Seq::<DrawCommand>::empty()) ==> #[trigger] call_requires(draw, (s,)),
    ensures
        !final(surface).drawing,
        final(surface).width == old(surface).width,
        final(surface).height == old(surface).height,
        final(surface).completed_scopes == old(surface).completed_scopes + 1,
        final(surface).next_offset == old(surface).next_offset,
        exists|entered: DrawScope, left: DrawScope|
            {
                &&& entered.offset == old(surface).next_offset
                &&& entered.region is None
                &&& entered.commands@ == Seq::<DrawCommand>::empty()
                &&& #[trigger] call_ensures(draw, (entered,), (left, r))
                &&& final(surface).committed@ == old(surface).committed@ + left.commands@
            },
{
    let scope = surface.begin_draw(None);
    let (scope, result) = draw(scope);
    surface.end_draw(scope);
    result
}

} // verus!
