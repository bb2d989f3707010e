//! The command-recording core: a display-list builder that queues draw
//! commands, and the immutable display list it compiles them into.
//!
//! Every draw command captures the supplied paint's configuration by value
//! at the moment it records; the builder keeps a save stack whose depth
//! `save`, `restore` and `restore_to_count` move by the stated rules.

use vstd::prelude::*;

use crate::color::Color;
use crate::enums::ClipOperation;
use crate::enums::TextureSampling;
use crate::filters::ImageFilter;
use crate::filters::ImageFilterV;
use crate::geometry::Matrix;
use crate::geometry::Point;
use crate::geometry::Rect;
use crate::geometry::RoundingRadii;
use crate::geometry::Scalar;
use crate::paint::Paint;
use crate::paint::PaintV;
use crate::paragraph::Paragraph;
use crate::paragraph::ParagraphV;
use crate::path::Path;
use crate::path::PathV;
use crate::texture::Texture;

verus! {

/// One recorded command.  Paints, paths, paragraphs and nested display
/// lists are captured by value when the command records.
#[derive(Debug)]
pub enum Command {
    Save,
    SaveLayer { bounds: Rect, paint: Option<Paint>, backdrop: Option<ImageFilter> },
    Restore,
    Scale { x_scale: Scalar, y_scale: Scalar },
    Rotate { angle_degrees: Scalar },
    Translate { x_translation: Scalar, y_translation: Scalar },
    AppendTransform { matrix: Matrix },
    SetTransform { matrix: Matrix },
    ResetTransform,
    ClipRect { rect: Rect, op: ClipOperation },
    ClipOval { oval_bounds: Rect, op: ClipOperation },
    ClipRoundedRect { rect: Rect, radii: RoundingRadii, op: ClipOperation },
    ClipPath { path: Path, op: ClipOperation },
    DrawPaint { paint: Paint },
    DrawLine { from: Point, to: Point, paint: Paint },
    DrawDashedLine { from: Point, to: Point, on_length: Scalar, off_length: Scalar, paint: Paint },
    DrawRect { rect: Rect, paint: Paint },
    DrawOval { oval_bounds: Rect, paint: Paint },
    DrawRoundedRect { rect: Rect, radii: RoundingRadii, paint: Paint },
    DrawRoundedRectDifference {
        outer_rect: Rect,
        outer_radii: RoundingRadii,
        inner_rect: Rect,
        inner_radii: RoundingRadii,
        paint: Paint,
    },
    DrawPath { path: Path, paint: Paint },
    DrawDisplayList { list: DisplayList, opacity: Scalar },
    DrawParagraph { paragraph: Paragraph, point: Point },
    DrawShadow {
        path: Path,
        color: Color,
        elevation: Scalar,
        occluder_is_transparent: bool,
        device_pixel_ratio: Scalar,
    },
    DrawTexture { texture: Texture, point: Point, sampling: TextureSampling, paint: Paint },
    DrawTextureRect {
        texture: Texture,
        src_rect: Rect,
        dst_rect: Rect,
        sampling: TextureSampling,
        paint: Option<Paint>,
    },
}

/// An immutable, replayable sequence of recorded commands.
#[derive(Debug)]
pub struct DisplayList {
    pub commands: Vec<Command>,
}

/// The mathematical value of a recorded command.
pub ghost enum CommandV {
    Save,
    SaveLayer { bounds: Rect, paint: Option<PaintV>, backdrop: Option<ImageFilterV> },
    Restore,
    Scale { x_scale: Scalar, y_scale: Scalar },
    Rotate { angle_degrees: Scalar },
    Translate { x_translation: Scalar, y_translation: Scalar },
    AppendTransform { matrix: Matrix },
    SetTransform { matrix: Matrix },
    ResetTransform,
    ClipRect { rect: Rect, op: ClipOperation },
    ClipOval { oval_bounds: Rect, op: ClipOperation },
    ClipRoundedRect { rect: Rect, radii: RoundingRadii, op: ClipOperation },
    ClipPath { path: PathV, op: ClipOperation },
    DrawPaint { paint: PaintV },
    DrawLine { from: Point, to: Point, paint: PaintV },
    DrawDashedLine { from: Point, to: Point, on_length: Scalar, off_length: Scalar, paint: PaintV },
    DrawRect { rect: Rect, paint: PaintV },
    DrawOval { oval_bounds: Rect, paint: PaintV },
    DrawRoundedRect { rect: Rect, radii: RoundingRadii, paint: PaintV },
    DrawRoundedRectDifference {
        outer_rect: Rect,
        outer_radii: RoundingRadii,
        inner_rect: Rect,
        inner_radii: RoundingRadii,
        paint: PaintV,
    },
    DrawPath { path: PathV, paint: PaintV },
    DrawDisplayList { commands: Seq<CommandV>, opacity: Scalar },
    DrawParagraph { paragraph: ParagraphV, point: Point },
    DrawShadow {
        path: PathV,
        color: Color,
        elevation: Scalar,
        occluder_is_transparent: bool,
        device_pixel_ratio: Scalar,
    },
    DrawTexture { texture: Texture, point: Point, sampling: TextureSampling, paint: PaintV },
    DrawTextureRect {
        texture: Texture,
        src_rect: Rect,
        dst_rect: Rect,
        sampling: TextureSampling,
        paint: Option<PaintV>,
    },
}

/// The value an optional paint reference snapshots to.
pub open spec fn opt_paint_view(p: Option<&Paint>) -> Option<PaintV> {
    match p {
        Some(paint) => Some(paint@),
        None => None,
    }
}

/// The value an optional owned paint denotes.
pub open spec fn opt_owned_paint_view(p: Option<Paint>) -> Option<PaintV> {
    match p {
        Some(paint) => Some(paint@),
        None => None,
    }
}

/// The value an optional image filter reference snapshots to.
pub open spec fn opt_filter_view(f: Option<&ImageFilter>) -> Option<ImageFilterV> {
    match f {
        Some(filter) => Some(filter@),
        None => None,
    }
}

/// The value an optional owned image filter denotes.
pub open spec fn opt_owned_filter_view(f: Option<ImageFilter>) -> Option<ImageFilterV> {
    match f {
        Some(filter) => Some(filter@),
        None => None,
    }
}

/// The value a recorded command denotes.
pub open spec fn command_view(c: Command) -> CommandV
    decreases c,
{
    match c {
        Command::Save => CommandV::Save,
        Command::SaveLayer { bounds, paint, backdrop } => CommandV::SaveLayer {
            bounds,
            paint: opt_owned_paint_view(paint),
            backdrop: opt_owned_filter_view(backdrop),
        },
        Command::Restore => CommandV::Restore,
        Command::Scale { x_scale, y_scale } => CommandV::Scale { x_scale, y_scale },
        Command::Rotate { angle_degrees } => CommandV::Rotate { angle_degrees },
        Command::Translate { x_translation, y_translation } => CommandV::Translate {
            x_translation,
            y_translation,
        },
        Command::AppendTransform { matrix } => CommandV::AppendTransform { matrix },
        Command::SetTransform { matrix } => CommandV::SetTransform { matrix },
        Command::ResetTransform => CommandV::ResetTransform,
        Command::ClipRect { rect, op } => CommandV::ClipRect { rect, op },
        Command::ClipOval { oval_bounds, op } => CommandV::ClipOval { oval_bounds, op },
        Command::ClipRoundedRect { rect, radii, op } => CommandV::ClipRoundedRect {
            rect,
            radii,
            op,
        },
        Command::ClipPath { path, op } => CommandV::ClipPath { path: path@, op },
        Command::DrawPaint { paint } => CommandV::DrawPaint { paint: paint@ },
        Command::DrawLine { from, to, paint } => CommandV::DrawLine { from, to, paint: paint@ },
        Command::DrawDashedLine { from, to, on_length, off_length, paint } => {
            CommandV::DrawDashedLine { from, to, on_length, off_length, paint: paint@ }
        },
        Command::DrawRect { rect, paint } => CommandV::DrawRect { rect, paint: paint@ },
        Command::DrawOval { oval_bounds, paint } => CommandV::DrawOval {
            oval_bounds,
            paint: paint@,
        },
        Command::DrawRoundedRect { rect, radii, paint } => CommandV::DrawRoundedRect {
            rect,
            radii,
            paint: paint@,
        },
        Command::DrawRoundedRectDifference {
            outer_rect,
            outer_radii,
            inner_rect,
            inner_radii,
            paint,
        } => CommandV::DrawRoundedRectDifference {
            outer_rect,
            outer_radii,
            inner_rect,
            inner_radii,
            paint: paint@,
        },
        Command::DrawPath { path, paint } => CommandV::DrawPath { path: path@, paint: paint@ },
        Command::DrawDisplayList { list, opacity } => CommandV::DrawDisplayList {
            commands: commands_view(list.commands@),
            opacity,
        },
        Command::DrawParagraph { paragraph, point } => CommandV::DrawParagraph {
            paragraph: paragraph@,
            point,
        },
        Command::DrawShadow { path, color, elevation, occluder_is_transparent, device_pixel_ratio } => {
            CommandV::DrawShadow {
                path: path@,
                color,
                elevation,
                occluder_is_transparent,
                device_pixel_ratio,
            }
        },
        Command::DrawTexture { texture, point, sampling, paint } => CommandV::DrawTexture {
            texture,
            point,
            sampling,
            paint: paint@,
        },
        Command::DrawTextureRect { texture, src_rect, dst_rect, sampling, paint } => {
            CommandV::DrawTextureRect {
                texture,
                src_rect,
                dst_rect,
                sampling,
                paint: opt_owned_paint_view(paint),
            }
        },
    }
}

/// The values of a sequence of recorded commands.
pub open spec fn commands_view(s: Seq<Command>) -> Seq<CommandV>
    decreases s,
{
    if s.len() == 0 {
        Seq::<CommandV>::empty()
    } else {
        commands_view(s.drop_last()).push(command_view(s.last()))
    }
}

/// Appending one command appends its value.
pub proof fn lemma_commands_view_push(s: Seq<Command>, c: Command)
    ensures
        commands_view(s.push(c)) == commands_view(s).push(command_view(c)),
{
    assert(s.push(c).drop_last() =~= s);
    assert(s.push(c).last() == c);
}

impl View for DisplayList {
    type V = Seq<CommandV>;

    open spec fn view(&self) -> Seq<CommandV> {
        commands_view(self.commands@)
    }
}

impl DisplayList {
    /// The number of commands the display list holds.
    pub fn command_count(&self) -> (r: usize)
        ensures
            r == self@.len(),
    {
        proof {
            lemma_commands_view_len(self.commands@);
        }
        self.commands.len()
    }
}

/// A command sequence and its value have the same length.
pub proof fn lemma_commands_view_len(s: Seq<Command>)
    ensures
        commands_view(s).len() == s.len(),
    decreases s,
{
    if s.len() > 0 {
        lemma_commands_view_len(s.drop_last());
    }
}

/// Copy one recorded command, value for value.
fn clone_command(c: &Command) -> (r: Command)
    ensures
        command_view(r) == command_view(*c),
    decreases *c,
{
    match c {
        Command::Save => Command::Save,
        Command::SaveLayer { bounds, paint, backdrop } => Command::SaveLayer {
            bounds: *bounds,
            paint: match paint {
                Some(p) => Some(p.clone()),
                None => None,
            },
            backdrop: match backdrop {
                Some(f) => Some(f.clone()),
                None => None,
            },
        },
        Command::Restore => Command::Restore,
        Command::Scale { x_scale, y_scale } => Command::Scale {
            x_scale: *x_scale,
            y_scale: *y_scale,
        },
        Command::Rotate { angle_degrees } => Command::Rotate { angle_degrees: *angle_degrees },
        Command::Translate { x_translation, y_translation } => Command::Translate {
            x_translation: *x_translation,
            y_translation: *y_translation,
        },
        Command::AppendTransform { matrix } => Command::AppendTransform { matrix: *matrix },
        Command::SetTransform { matrix } => Command::SetTransform { matrix: *matrix },
        Command::ResetTransform => Command::ResetTransform,
        Command::ClipRect { rect, op } => Command::ClipRect { rect: *rect, op: *op },
        Command::ClipOval { oval_bounds, op } => Command::ClipOval {
            oval_bounds: *oval_bounds,
            op: *op,
        },
        Command::ClipRoundedRect { rect, radii, op } => Command::ClipRoundedRect {
            rect: *rect,
            radii: *radii,
            op: *op,
        },
        Command::ClipPath { path, op } => Command::ClipPath { path: path.clone(), op: *op },
        Command::DrawPaint { paint } => Command::DrawPaint { paint: paint.clone() },
        Command::DrawLine { from, to, paint } => Command::DrawLine {
            from: *from,
            to: *to,
            paint: paint.clone(),
        },
        Command::DrawDashedLine { from, to, on_length, off_length, paint } => {
            Command::DrawDashedLine {
                from: *from,
                to: *to,
                on_length: *on_length,
                off_length: *off_length,
                paint: paint.clone(),
            }
        },
        Command::DrawRect { rect, paint } => Command::DrawRect {
            rect: *rect,
            paint: paint.clone(),
        },
        Command::DrawOval { oval_bounds, paint } => Command::DrawOval {
            oval_bounds: *oval_bounds,
            paint: paint.clone(),
        },
        Command::DrawRoundedRect { rect, radii, paint } => Command::DrawRoundedRect {
            rect: *rect,
            radii: *radii,
            paint: paint.clone(),
        },
        Command::DrawRoundedRectDifference {
            outer_rect,
            outer_radii,
            inner_rect,
            inner_radii,
            paint,
        } => Command::DrawRoundedRectDifference {
            outer_rect: *outer_rect,
            outer_radii: *outer_radii,
            inner_rect: *inner_rect,
            inner_radii: *inner_radii,
            paint: paint.clone(),
        },
        Command::DrawPath { path, paint } => Command::DrawPath {
            path: path.clone(),
            paint: paint.clone(),
        },
        Command::DrawDisplayList { list, opacity } => Command::DrawDisplayList {
            list: DisplayList { commands: clone_commands(&list.commands) },
            opacity: *opacity,
        },
        Command::DrawParagraph { paragraph, point } => Command::DrawParagraph {
            paragraph: paragraph.clone(),
            point: *point,
        },
        Command::DrawShadow { path, color, elevation, occluder_is_transparent, device_pixel_ratio } => {
            Command::DrawShadow {
                path: path.clone(),
                color: *color,
                elevation: *elevation,
                occluder_is_transparent: *occluder_is_transparent,
                device_pixel_ratio: *device_pixel_ratio,
            }
        },
        Command::DrawTexture { texture, point, sampling, paint } => Command::DrawTexture {
            texture: *texture,
            point: *point,
            sampling: *sampling,
            paint: paint.clone(),
        },
        Command::DrawTextureRect { texture, src_rect, dst_rect, sampling, paint } => {
            Command::DrawTextureRect {
                texture: *texture,
                src_rect: *src_rect,
                dst_rect: *dst_rect,
                sampling: *sampling,
                paint: match paint {
                    Some(p) => Some(p.clone()),
                    None => None,
                },
            }
        },
    }
}

/// Copy a sequence of recorded commands, value for value.
fn clone_commands(v: &Vec<Command>) -> (r: Vec<Command>)
    ensures
        commands_view(r@) == commands_view(v@),
    decreases v@,
{
    let mut r: Vec<Command> = Vec::new();
    let mut i: usize = 0;
    proof {
        assert(commands_view(r@) =~= commands_view(v@.take(0)));
    }
    while i < v.len()
        invariant
            i <= v.len(),
            commands_view(r@) == commands_view(v@.take(i as int)),
        decreases v@.len() - i,
    {
        proof {
            assert(decreases_to!(v@ => v@[i as int]));
        }
        let c = clone_command(&v[i]);
        proof {
            lemma_commands_view_push(r@, c);
            assert(v@.take(i + 1).drop_last() =~= v@.take(i as int));
            assert(v@.take(i + 1).last() == v@[i as int]);
        }
        r.push(c);
        i = i + 1;
    }
    proof {
        assert(v@.take(v@.len() as int) =~= v@);
    }
    r
}

impl Clone for DisplayList {
    fn clone(&self) -> (r: Self)
        ensures
            r@ == self@,
    {
        DisplayList { commands: clone_commands(&self.commands) }
    }
}

/// The mathematical value of a [`DisplayListBuilder`]: the commands queued
/// so far, the save-stack depth, and the cull rectangle it was created
/// with.
pub ghost struct BuilderV {
    pub commands: Seq<CommandV>,
    pub save_depth: nat,
    pub cull_rect: Option<Rect>,
}

/// The builder after a `save`: one level deeper, with the save recorded.
pub open spec fn saved(b: BuilderV) -> BuilderV {
    BuilderV {
        commands: b.commands.push(CommandV::Save),
        save_depth: b.save_depth + 1,
        cull_rect: b.cull_rect,
    }
}

/// The builder after a `restore`: one level shallower with the restore
/// recorded, or unchanged at the root level.
pub open spec fn restored(b: BuilderV) -> BuilderV {
    if b.save_depth > 1 {
        BuilderV {
            commands: b.commands.push(CommandV::Restore),
            save_depth: (b.save_depth - 1) as nat,
            cull_rect: b.cull_rect,
        }
    } else {
        b
    }
}

/// The builder after `n` saves.
pub open spec fn saved_n(b: BuilderV, n: nat) -> BuilderV
    decreases n,
{
    if n == 0 {
        b
    } else {
        saved(saved_n(b, (n - 1) as nat))
    }
}

/// The builder after `n` restores.
pub open spec fn restored_n(b: BuilderV, n: nat) -> BuilderV
    decreases n,
{
    if n == 0 {
        b
    } else {
        restored(restored_n(b, (n - 1) as nat))
    }
}

/// How many restores `restore_to_count` performs: none at or above the
/// current depth, down to the root and no further otherwise.
pub open spec fn restores_for(depth: nat, count: nat) -> nat {
    if count >= depth {
        0
    } else if count <= 1 {
        (depth - 1) as nat
    } else {
        (depth - count) as nat
    }
}

/// Each save raises the save count by one: after `n` saves the count is
/// the initial count plus `n`.
pub proof fn lemma_saved_n_depth(b: BuilderV, n: nat)
    ensures
        saved_n(b, n).save_depth == b.save_depth + n,
        saved_n(b, n).cull_rect == b.cull_rect,
    decreases n,
{
    if n > 0 {
        lemma_saved_n_depth(b, (n - 1) as nat);
    }
}

/// Each restore above the root lowers the save count by one.
pub proof fn lemma_restored_n_depth(b: BuilderV, m: nat)
    requires
        b.save_depth >= m + 1,
    ensures
        restored_n(b, m).save_depth == b.save_depth - m,
        restored_n(b, m).cull_rect == b.cull_rect,
    decreases m,
{
    if m > 0 {
        lemma_restored_n_depth(b, (m - 1) as nat);
    }
}

/// The save-count law: after `n` saves the count is the initial count plus
/// `n`, and after `m <= n` further restores it is the initial count plus
/// `n - m`.
pub proof fn lemma_save_restore_counts(b: BuilderV, n: nat, m: nat)
    requires
        b.save_depth >= 1,
        m <= n,
    ensures
        saved_n(b, n).save_depth == b.save_depth + n,
        restored_n(saved_n(b, n), m).save_depth == b.save_depth + n - m,
{
    lemma_saved_n_depth(b, n);
    lemma_restored_n_depth(saved_n(b, n), m);
}

/// The rectangle behind an optional reference, as an optional value.
pub open spec fn copied_rect(r: Option<&Rect>) -> Option<Rect> {
    match r {
        Some(rect) => Some(*rect),
        None => None,
    }
}

/// A mutable command recorder: commands queued so far, the save-stack
/// depth, and the optional cull rectangle.
#[derive(Debug)]
pub struct DisplayListBuilder {
    pub commands: Vec<Command>,
    pub save_depth: u32,
    pub cull_rect: Option<Rect>,
}

impl View for DisplayListBuilder {
    type V = BuilderV;

    open spec fn view(&self) -> BuilderV {
        BuilderV {
            commands: commands_view(self.commands@),
            save_depth: self.save_depth as nat,
            cull_rect: self.cull_rect,
        }
    }
}

impl DisplayListBuilder {
    /// A fresh builder: no commands, save count one.  The optional cull
    /// rectangle lets the engine treat content outside it as undefined.
    pub fn new(cull_rect: Option<&Rect>) -> (r: Self)
        ensures
            r@.commands == Seq::<CommandV>::empty(),
            r@.save_depth == 1,
            r@.cull_rect == copied_rect(cull_rect),
    {
        let owned: Option<Rect> = match cull_rect {
            Some(rect) => Some(*rect),
            None => None,
        };
        DisplayListBuilder { commands: Vec::new(), save_depth: 1, cull_rect: owned }
    }

    /// Compile the queued commands into an immutable display list.  The
    /// builder is drained, not destroyed: afterwards it is empty, at save
    /// count one, and ready to record again.
    pub fn build(&mut self) -> (r: DisplayList)
        ensures
            r@ == old(self)@.commands,
            final(self)@.commands == Seq::<CommandV>::empty(),
            final(self)@.save_depth == 1,
            final(self)@.cull_rect == old(self)@.cull_rect,
    {
        let mut commands: Vec<Command> = Vec::new();
        std::mem::swap(&mut commands, &mut self.commands);
        self.save_depth = 1;
        DisplayList { commands }
    }

    /// Stash the current transformation and clip state one level deeper on
    /// the save stack.
    pub fn save(&mut self)
        requires
            old(self).save_depth < u32::MAX,
        ensures
            final(self)@ == saved(old(self)@),
    {
        proof {
            lemma_commands_view_push(self.commands@, Command::Save);
        }
        self.commands.push(Command::Save);
        self.save_depth = self.save_depth + 1;
    }

    /// Stash the state one level deeper and redirect subsequent commands
    /// to an offscreen layer; the balancing restore composites the layer
    /// back using the given paint and backdrop filter, captured by value
    /// here.
    pub fn save_layer(&mut self, bounds: &Rect, paint: Option<&Paint>, backdrop: Option<
        &ImageFilter,
    >)
        requires
            old(self).save_depth < u32::MAX,
        ensures
            final(self)@ == (BuilderV {
                commands: old(self)@.commands.push(
                    CommandV::SaveLayer {
                        bounds: *bounds,
                        paint: opt_paint_view(paint),
                        backdrop: opt_filter_view(backdrop),
                    },
                ),
                save_depth: old(self)@.save_depth + 1,
                cull_rect: old(self)@.cull_rect,
            }),
    {
        let cmd = Command::SaveLayer {
            bounds: *bounds,
            paint: match paint {
                Some(p) => Some(p.clone()),
                None => None,
            },
            backdrop: match backdrop {
                Some(f) => Some(f.clone()),
                None => None,
            },
        };
        proof {
            lemma_commands_view_push(self.commands@, cmd);
        }
        self.commands.push(cmd);
        self.save_depth = self.save_depth + 1;
    }

    /// Pop one level off the save stack; at the root level this is a
    /// no-op.
    pub fn restore(&mut self)
        ensures
            final(self)@ == restored(old(self)@),
    {
        if self.save_depth > 1 {
            proof {
                lemma_commands_view_push(self.commands@, Command::Restore);
            }
            self.commands.push(Command::Restore);
            self.save_depth = self.save_depth - 1;
        }
    }

    /// The current size of the save stack.
    pub fn get_save_count(&mut self) -> (r: u32)
        ensures
            final(self)@ == old(self)@,
            r == old(self)@.save_depth,
    {
        self.save_depth
    }

    /// Restore until the save stack reaches the given count: a no-op at or
    /// below the current count, and never past the root level.
    pub fn restore_to_count(&mut self, count: u32)
        ensures
            final(self)@ == restored_n(
                old(self)@,
                restores_for(old(self)@.save_depth, count as nat),
            ),
            count >= old(self).save_depth ==> final(self)@ == old(self)@,
            1 <= count <= old(self).save_depth ==> final(self)@.save_depth == count as nat,
    {
        let ghost pre = self@;
        let ghost mut k: nat = 0;
        while self.save_depth > count && self.save_depth > 1
            invariant
                self@ == restored_n(pre, k),
                self@.save_depth + k == pre.save_depth,
                k == 0 || self@.save_depth >= count,
                k == 0 || self@.save_depth >= 1,
            decreases self.save_depth,
        {
            proof {
                assert(restored_n(pre, k + 1) == restored(restored_n(pre, k)));
            }
            self.restore();
            proof {
                k = k + 1;
            }
        }
        proof {
            assert(k == restores_for(pre.save_depth, count as nat));
        }
    }

    /// Queue one command, leaving the save stack as it is.
    fn record(&mut self, cmd: Command)
        ensures
            final(self)@ == (BuilderV {
                commands: old(self)@.commands.push(command_view(cmd)),
                ..old(self)@
            }),
    {
        proof {
            lemma_commands_view_push(self.commands@, cmd);
        }
        self.commands.push(cmd);
    }

    /// Scale the transformation on top of the save stack.
    pub fn scale(&mut self, x_scale: Scalar, y_scale: Scalar)
        ensures
            final(self)@ == (BuilderV {
                commands: old(self)@.commands.push(CommandV::Scale { x_scale, y_scale }),
                ..old(self)@
            }),
    {
        self.record(Command::Scale { x_scale, y_scale });
    }

    /// Rotate the transformation on top of the save stack clockwise by the
    /// given angle in degrees.
    pub fn rotate(&mut self, angle_degrees: Scalar)
        ensures
            final(self)@ == (BuilderV {
                commands: old(self)@.commands.push(CommandV::Rotate { angle_degrees }),
                ..old(self)@
            }),
    {
        self.record(Command::Rotate { angle_degrees });
    }

    /// Translate the transformation on top of the save stack.
    pub fn translate(&mut self, x_translation: Scalar, y_translation: Scalar)
        ensures
            final(self)@ == (BuilderV {
                commands: old(self)@.commands.push(
                    CommandV::Translate { x_translation, y_translation },
                ),
                ..old(self)@
            }),
    {
        self.record(Command::Translate { x_translation, y_translation });
    }

    /// Append a matrix to the transformation on top of the save stack; the
    /// new transform composes after whatever is already active.
    pub fn transform(&mut self, transform: &Matrix)
        ensures
            final(self)@ == (BuilderV {
                commands: old(self)@.commands.push(
                    CommandV::AppendTransform { matrix: *transform },
                ),
                ..old(self)@
            }),
    {
        self.record(Command::AppendTransform { matrix: *transform });
    }

    /// Replace the transformation on top of the save stack.
    pub fn set_transform(&mut self, transform: &Matrix)
        ensures
            final(self)@ == (BuilderV {
                commands: old(self)@.commands.push(CommandV::SetTransform { matrix: *transform }),
                ..old(self)@
            }),
    {
        self.record(Command::SetTransform { matrix: *transform });
    }

    /// Reset the transformation on top of the save stack to identity.
    pub fn reset_transform(&mut self)
        ensures
            final(self)@ == (BuilderV {
                commands: old(self)@.commands.push(CommandV::ResetTransform),
                ..old(self)@
            }),
    {
        self.record(Command::ResetTransform);
    }

    /// Reduce the current clip by a rectangle under the given operation.
    pub fn clip_rect(&mut self, rect: &Rect, op: ClipOperation)
        ensures
            final(self)@ == (BuilderV {
                commands: old(self)@.commands.push(CommandV::ClipRect { rect: *rect, op }),
                ..old(self)@
            }),
    {
        self.record(Command::ClipRect { rect: *rect, op });
    }

    /// Reduce the current clip by an oval under the given operation.
    pub fn clip_oval(&mut self, oval_bounds: &Rect, op: ClipOperation)
        ensures
            final(self)@ == (BuilderV {
                commands: old(self)@.commands.push(
                    CommandV::ClipOval { oval_bounds: *oval_bounds, op },
                ),
                ..old(self)@
            }),
    {
        self.record(Command::ClipOval { oval_bounds: *oval_bounds, op });
    }

    /// Reduce the current clip by a rounded rectangle under the given
    /// operation.
    pub fn clip_rounded_rect(&mut self, rect: &Rect, radii: &RoundingRadii, op: ClipOperation)
        ensures
            final(self)@ == (BuilderV {
                commands: old(self)@.commands.push(
                    CommandV::ClipRoundedRect { rect: *rect, radii: *radii, op },
                ),
                ..old(self)@
            }),
    {
        self.record(Command::ClipRoundedRect { rect: *rect, radii: *radii, op });
    }

    /// Reduce the current clip by a path under the given operation.
    pub fn clip_path(&mut self, path: &Path, op: ClipOperation)
        ensures
            final(self)@ == (BuilderV {
                commands: old(self)@.commands.push(CommandV::ClipPath { path: path@, op }),
                ..old(self)@
            }),
    {
        self.record(Command::ClipPath { path: path.clone(), op });
    }

    /// Fill the current clip with the given paint, captured by value.
    pub fn draw_paint(&mut self, paint: &Paint)
        ensures
            final(self)@ == (BuilderV {
                commands: old(self)@.commands.push(CommandV::DrawPaint { paint: paint@ }),
                ..old(self)@
            }),
    {
        self.record(Command::DrawPaint { paint: paint.clone() });
    }

    /// Draw a line segment; the paint is captured by value.
    pub fn draw_line(&mut self, from: Point, to: Point, paint: &Paint)
        ensures
            final(self)@ == (BuilderV {
                commands: old(self)@.commands.push(CommandV::DrawLine { from, to, paint: paint@ }),
                ..old(self)@
            }),
    {
        self.record(Command::DrawLine { from, to, paint: paint.clone() });
    }

    /// Draw a dashed line segment; the paint is captured by value.
    pub fn draw_dashed_line(
        &mut self,
        from: Point,
        to: Point,
        on_length: Scalar,
        off_length: Scalar,
        paint: &Paint,
    )
        ensures
            final(self)@ == (BuilderV {
                commands: old(self)@.commands.push(
                    CommandV::DrawDashedLine { from, to, on_length, off_length, paint: paint@ },
                ),
                ..old(self)@
            }),
    {
        self.record(Command::DrawDashedLine { from, to, on_length, off_length,
            paint: paint.clone() });
    }

    /// Draw a rectangle; the paint is captured by value.
    pub fn draw_rect(&mut self, rect: &Rect, paint: &Paint)
        ensures
            final(self)@ == (BuilderV {
                commands: old(self)@.commands.push(
                    CommandV::DrawRect { rect: *rect, paint: paint@ },
                ),
                ..old(self)@
            }),
    {
        self.record(Command::DrawRect { rect: *rect, paint: paint.clone() });
    }

    /// Draw an oval; the paint is captured by value.
    pub fn draw_oval(&mut self, oval_bounds: &Rect, paint: &Paint)
        ensures
            final(self)@ == (BuilderV {
                commands: old(self)@.commands.push(
                    CommandV::DrawOval { oval_bounds: *oval_bounds, paint: paint@ },
                ),
                ..old(self)@
            }),
    {
        self.record(Command::DrawOval { oval_bounds: *oval_bounds, paint: paint.clone() });
    }

    /// Draw a rounded rectangle; the paint is captured by value.
    pub fn draw_rounded_rect(&mut self, rect: &Rect, radii: &RoundingRadii, paint: &Paint)
        ensures
            final(self)@ == (BuilderV {
                commands: old(self)@.commands.push(
                    CommandV::DrawRoundedRect { rect: *rect, radii: *radii, paint: paint@ },
                ),
                ..old(self)@
            }),
    {
        self.record(Command::DrawRoundedRect { rect: *rect, radii: *radii, paint: paint.clone() });
    }

    /// Draw the shape between two rounded rectangles; the paint is
    /// captured by value.
    pub fn draw_rounded_rect_difference(
        &mut self,
        outer_rect: &Rect,
        outer_radii: &RoundingRadii,
        inner_rect: &Rect,
        inner_radii: &RoundingRadii,
        paint: &Paint,
    )
        ensures
            final(self)@ == (BuilderV {
                commands: old(self)@.commands.push(
                    CommandV::DrawRoundedRectDifference {
                        outer_rect: *outer_rect,
                        outer_radii: *outer_radii,
                        inner_rect: *inner_rect,
                        inner_radii: *inner_radii,
                        paint: paint@,
                    },
                ),
                ..old(self)@
            }),
    {
        self.record(
            Command::DrawRoundedRectDifference {
                outer_rect: *outer_rect,
                outer_radii: *outer_radii,
                inner_rect: *inner_rect,
                inner_radii: *inner_radii,
                paint: paint.clone(),
            },
        );
    }

    /// Draw a path; path and paint are captured by value.
    pub fn draw_path(&mut self, path: &Path, paint: &Paint)
        ensures
            final(self)@ == (BuilderV {
                commands: old(self)@.commands.push(
                    CommandV::DrawPath { path: path@, paint: paint@ },
                ),
                ..old(self)@
            }),
    {
        self.record(Command::DrawPath { path: path.clone(), paint: paint.clone() });
    }

    /// Flatten another display list into this one at the given opacity;
    /// its commands are captured by value.
    pub fn draw_display_list(&mut self, display_list: &DisplayList, opacity: Scalar)
        ensures
            final(self)@ == (BuilderV {
                commands: old(self)@.commands.push(
                    CommandV::DrawDisplayList { commands: display_list@, opacity },
                ),
                ..old(self)@
            }),
    {
        self.record(Command::DrawDisplayList { list: display_list.clone(), opacity });
    }

    /// Draw a paragraph at the given point; the paragraph is captured by
    /// value.
    pub fn draw_paragraph(&mut self, paragraph: &Paragraph, point: Point)
        ensures
            final(self)@ == (BuilderV {
                commands: old(self)@.commands.push(
                    CommandV::DrawParagraph { paragraph: paragraph@, point },
                ),
                ..old(self)@
            }),
    {
        self.record(Command::DrawParagraph { paragraph: paragraph.clone(), point });
    }

    /// Draw a shadow for a path at the given material elevation.
    pub fn draw_shadow(
        &mut self,
        path: &Path,
        color: &Color,
        elevation: Scalar,
        occluder_is_transparent: bool,
        device_pixel_ratio: Scalar,
    )
        ensures
            final(self)@ == (BuilderV {
                commands: old(self)@.commands.push(
                    CommandV::DrawShadow {
                        path: path@,
                        color: *color,
                        elevation,
                        occluder_is_transparent,
                        device_pixel_ratio,
                    },
                ),
                ..old(self)@
            }),
    {
        self.record(
            Command::DrawShadow {
                path: path.clone(),
                color: *color,
                elevation,
                occluder_is_transparent,
                device_pixel_ratio,
            },
        );
    }

    /// Draw a texture at the given point; the paint is captured by value.
    pub fn draw_texture(
        &mut self,
        texture: &Texture,
        point: Point,
        sampling: TextureSampling,
        paint: &Paint,
    )
        ensures
            final(self)@ == (BuilderV {
                commands: old(self)@.commands.push(
                    CommandV::DrawTexture { texture: *texture, point, sampling, paint: paint@ },
                ),
                ..old(self)@
            }),
    {
        self.record(Command::DrawTexture { texture: *texture, point, sampling,
            paint: paint.clone() });
    }

    /// Draw a portion of a texture into a destination rectangle; the paint
    /// is captured by value.
    pub fn draw_texture_rect(
        &mut self,
        texture: &Texture,
        src_rect: &Rect,
        dst_rect: &Rect,
        sampling: TextureSampling,
        paint: Option<&Paint>,
    )
        ensures
            final(self)@ == (BuilderV {
                commands: old(self)@.commands.push(
                    CommandV::DrawTextureRect {
                        texture: *texture,
                        src_rect: *src_rect,
                        dst_rect: *dst_rect,
                        sampling,
                        paint: opt_paint_view(paint),
                    },
                ),
                ..old(self)@
            }),
    {
        self.record(
            Command::DrawTextureRect {
                texture: *texture,
                src_rect: *src_rect,
                dst_rect: *dst_rect,
                sampling,
                paint: match paint {
                    Some(p) => Some(p.clone()),
                    None => None,
                },
            },
        );
    }
}

} // verus!
