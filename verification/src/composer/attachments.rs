//! The attachment rows above the composer input — ready, uploading, failed
//! and the dashed paste hint — and the overlay that covers the transcript
//! pane while files are dragged over it. The state alone decides the tile,
//! the name's style, the meta line, the border and the trailing action.
use vstd::prelude::*;

use crate::ink::{InkRole, PaletteRole};
use crate::text::{chars_of, decimal, decimal_chars, extend_chars, string_from};

verus! {

/// What an attachment is; it picks the tile's glyph and tint.
#[derive(Debug, Clone, Copy, PartialEq, Eq, Structural)]
pub enum AttachmentKind {
    /// A picture: the image glyph, or the decoded preview when there is one.
    Image,
    /// Any other file.
    File,
    /// A promoted text excerpt: the info tint.
    Text,
}

/// Where one attachment row is in its life.
#[derive(Debug, PartialEq)]
pub enum AttachmentRowState {
    /// Uploaded and usable: the name in ink and an `x` to drop it.
    Ready,
    /// Transferring, with the whole percent done: dimmed tile, shimmering
    /// name, `Cancel`, and the accent hairline across the bottom.
    Uploading(u32),
    /// The transfer failed, with the reason: danger border and tile, the
    /// reason as the meta line, and `Retry`.
    Failed(String),
    /// The dashed "paste an image or drop files" affordance, which carries
    /// no action of its own.
    Hint,
}

/// What the tile at the start of the row shows.
#[derive(Debug, Clone, Copy, PartialEq, Eq, Structural)]
pub enum AttachmentTile {
    /// The decoded image preview in place of the glyph.
    Preview,
    /// The glyph on the danger tint: the upload failed.
    DangerTint,
    /// The glyph on the info tint: a promoted text excerpt.
    InfoTint,
    /// The glyph on the gradient placeholder.
    Placeholder,
}

/// How the file name is drawn.
#[derive(Debug, Clone, Copy, PartialEq, Eq, Structural)]
pub enum NameStyle {
    /// Ink, plain.
    Plain,
    /// Ink-2 with the shimmer of work in progress.
    Shimmer,
    /// Ink-3: the hint's invitation.
    Muted,
}

/// The row's border.
#[derive(Debug, Clone, Copy, PartialEq, Eq, Structural)]
pub enum RowBorder {
    /// The plain hairline.
    Line,
    /// The danger hue, at reduced strength.
    Danger,
    /// The hairline, dashed.
    Dashed,
}

/// The control at the end of the row.
#[derive(Debug, Clone, Copy, PartialEq, Eq, Structural)]
pub enum AttachmentAction {
    /// An `x` glyph that drops the attachment.
    Remove,
    /// A subtle xs `Cancel` button that abandons the upload.
    Cancel,
    /// A subtle xs `Retry` button that tries the upload again.
    Retry,
    /// Nothing: the hint row.
    Nothing,
}

/// One attachment row. Build with [`attachment_row`].
#[derive(Debug)]
pub struct AttachmentRow {
    /// Stable identity of the row.
    pub id: String,
    /// The file name.
    pub name: String,
    /// The meta line a ready row shows (size, type).
    pub meta: String,
    /// What the attachment is.
    pub kind: AttachmentKind,
    /// A glyph that overrides the one the kind and state pick.
    pub glyph: Option<String>,
    /// Whether a decoded preview exists for an image.
    pub thumbnail: bool,
    /// Where the row is in its life.
    pub state: AttachmentRowState,
}

/// A ready file row showing `name` over one line of `meta`.
pub fn attachment_row(id: &str, name: &str, meta: &str) -> (r: AttachmentRow)
    ensures
        r.id@ == id@,
        r.name@ == name@,
        r.meta@ == meta@,
        r.kind == AttachmentKind::File,
        r.glyph is None,
        !r.thumbnail,
        r.state == AttachmentRowState::Ready,
{
    AttachmentRow {
        id: id.to_string(),
        name: name.to_string(),
        meta: meta.to_string(),
        kind: AttachmentKind::File,
        glyph: None,
        thumbnail: false,
        state: AttachmentRowState::Ready,
    }
}

/// The glyph the state and kind pick: the paperclip on the hint, the `x`
/// once failed, else the image or the file glyph.
pub open spec fn glyph_for(state: AttachmentRowState, kind: AttachmentKind) -> Seq<char> {
    match state {
        AttachmentRowState::Hint => "paperclip"@,
        AttachmentRowState::Failed(_) => "x"@,
        _ => match kind {
            AttachmentKind::Image => "image"@,
            _ => "file"@,
        },
    }
}

/// The meta line while uploading: `Uploading · 40%`.
pub open spec fn uploading_text(percent: u32) -> Seq<char> {
    "Uploading · "@ + decimal(percent as nat) + "%"@
}

/// What a row's tile shows: a decoded image preview replaces the tile;
/// otherwise the danger tint once failed, the info tint for a text excerpt
/// (not on the hint), else the gradient placeholder.
pub open spec fn tile_of(r: AttachmentRow) -> AttachmentTile {
    if r.kind == AttachmentKind::Image && r.thumbnail {
        AttachmentTile::Preview
    } else if r.state is Failed {
        AttachmentTile::DangerTint
    } else if r.kind == AttachmentKind::Text && !(r.state is Hint) {
        AttachmentTile::InfoTint
    } else {
        AttachmentTile::Placeholder
    }
}

/// The tile tells the row's state: a decoded image preview always shows
/// itself; otherwise the tile is tinted danger exactly once the upload
/// failed, and info exactly for a text excerpt that neither failed nor is
/// the hint. Without an override the glyph is the `x` exactly once failed,
/// the paperclip exactly on the hint, and otherwise names the kind: the
/// image for a picture, the file for anything else.
pub proof fn lemma_the_tile_tells_the_state(r: AttachmentRow)
    ensures
        (tile_of(r) == AttachmentTile::Preview) == (r.kind == AttachmentKind::Image && r.thumbnail),
        !(r.kind == AttachmentKind::Image && r.thumbnail) ==> ((tile_of(r) == AttachmentTile::DangerTint)
            == (r.state is Failed)),
        !(r.kind == AttachmentKind::Image && r.thumbnail) ==> ((tile_of(r) == AttachmentTile::InfoTint) == (r.kind
            == AttachmentKind::Text && !(r.state is Failed) && !(r.state is Hint))),
        (glyph_for(r.state, r.kind) == "x"@) == (r.state is Failed),
        (glyph_for(r.state, r.kind) == "paperclip"@) == (r.state is Hint),
        !(r.state is Failed) && !(r.state is Hint) ==> glyph_for(r.state, r.kind) == (if r.kind
            == AttachmentKind::Image {
            "image"@
        } else {
            "file"@
        }),
{
    reveal_strlit("x");
    reveal_strlit("paperclip");
    reveal_strlit("image");
    reveal_strlit("file");
    assert("x"@.len() != "paperclip"@.len());
    assert("x"@.len() != "image"@.len());
    assert("x"@.len() != "file"@.len());
    assert("paperclip"@.len() != "image"@.len());
    assert("paperclip"@.len() != "file"@.len());
}

impl AttachmentRow {
    /// What the tile shows: an image, a file or a text excerpt.
    pub fn kind(self, kind: AttachmentKind) -> (r: Self)
        ensures
            r == (AttachmentRow { kind, ..self }),
    {
        AttachmentRow { kind, ..self }
    }

    /// Overrides the glyph the kind would pick (a PDF is a file).
    pub fn glyph(self, glyph: &str) -> (r: Self)
        ensures
            r == (AttachmentRow { glyph: r.glyph, ..self }),
            r.glyph matches Some(g) && g@ == glyph@,
    {
        AttachmentRow { glyph: Some(glyph.to_string()), ..self }
    }

    /// Marks that a decoded preview exists; for an image it replaces the
    /// glyph tile.
    pub fn thumbnail(self) -> (r: Self)
        ensures
            r == (AttachmentRow { thumbnail: true, ..self }),
    {
        AttachmentRow { thumbnail: true, ..self }
    }

    /// Sets the row state.
    pub fn state(self, state: AttachmentRowState) -> (r: Self)
        ensures
            r == (AttachmentRow { state, ..self }),
    {
        AttachmentRow { state, ..self }
    }

    /// The tile's glyph: the override when there is one, else what the
    /// state and kind pick.
    pub fn glyph_name(&self) -> (g: String)
        ensures
            g@ == match self.glyph {
                Some(o) => o@,
                None => glyph_for(self.state, self.kind),
            },
    {
        match &self.glyph {
            Some(o) => o.clone(),
            None => match (&self.state, self.kind) {
                (AttachmentRowState::Hint, _) => "paperclip".to_string(),
                (AttachmentRowState::Failed(_), _) => "x".to_string(),
                (_, AttachmentKind::Image) => "image".to_string(),
                (_, _) => "file".to_string(),
            },
        }
    }

    /// What the tile shows ([`tile_of`]).
    pub fn tile(&self) -> (t: AttachmentTile)
        ensures
            t == tile_of(*self),
    {
        let image = match self.kind {
            AttachmentKind::Image => true,
            _ => false,
        };
        let text = match self.kind {
            AttachmentKind::Text => true,
            _ => false,
        };
        if image && self.thumbnail {
            AttachmentTile::Preview
        } else {
            match &self.state {
                AttachmentRowState::Failed(_) => AttachmentTile::DangerTint,
                AttachmentRowState::Hint => AttachmentTile::Placeholder,
                _ => if text {
                    AttachmentTile::InfoTint
                } else {
                    AttachmentTile::Placeholder
                },
            }
        }
    }

    /// The tint behind the tile's glyph and the glyph's ink, or `None` for
    /// the preview (which paints itself) and the placeholder (which is a
    /// gradient from surface-3 to the strong hairline under an ink-3 glyph).
    pub fn tile_tint(&self) -> (r: Option<(PaletteRole, PaletteRole)>)
        ensures
            r == match tile_of(*self) {
                AttachmentTile::DangerTint => Some((PaletteRole::DangerSoft, PaletteRole::Danger)),
                AttachmentTile::InfoTint => Some((PaletteRole::InfoSoft, PaletteRole::Info)),
                _ => None::<(PaletteRole, PaletteRole)>,
            },
    {
        match self.tile() {
            AttachmentTile::DangerTint => Some((PaletteRole::DangerSoft, PaletteRole::Danger)),
            AttachmentTile::InfoTint => Some((PaletteRole::InfoSoft, PaletteRole::Info)),
            _ => None,
        }
    }

    /// Whether the tile is dimmed: only while uploading.
    pub fn dimmed(&self) -> (b: bool)
        ensures
            b == self.state is Uploading,
    {
        match &self.state {
            AttachmentRowState::Uploading(_) => true,
            _ => false,
        }
    }

    /// How the name is drawn: shimmering while uploading, muted on the
    /// hint, else plain.
    pub fn name_style(&self) -> (n: NameStyle)
        ensures
            n == match self.state {
                AttachmentRowState::Uploading(_) => NameStyle::Shimmer,
                AttachmentRowState::Hint => NameStyle::Muted,
                _ => NameStyle::Plain,
            },
    {
        match &self.state {
            AttachmentRowState::Uploading(_) => NameStyle::Shimmer,
            AttachmentRowState::Hint => NameStyle::Muted,
            _ => NameStyle::Plain,
        }
    }

    /// The meta line and its ink: `Uploading · N%` while uploading, the
    /// reason in danger once failed, else the row's own meta in ink-3.
    pub fn meta_line(&self) -> (r: (String, InkRole))
        ensures
            r.0@ == match self.state {
                AttachmentRowState::Uploading(p) => uploading_text(p),
                AttachmentRowState::Failed(reason) => reason@,
                _ => self.meta@,
            },
            r.1 == (if self.state is Failed {
                InkRole::Danger
            } else {
                InkRole::Ink3
            }),
    {
        match &self.state {
            AttachmentRowState::Uploading(p) => {
                let mut out = chars_of("Uploading · ");
                let digits = decimal_chars(*p as u64);
                extend_chars(&mut out, &digits);
                out.push('%');
                proof {
                    reveal_strlit("%");
                }
                assert(out@ == uploading_text(*p));
                (string_from(&out), InkRole::Ink3)
            },
            AttachmentRowState::Failed(reason) => (reason.clone(), InkRole::Danger),
            _ => (self.meta.clone(), InkRole::Ink3),
        }
    }

    /// The border: danger once failed, dashed on the hint, else the plain
    /// hairline.
    pub fn border(&self) -> (b: RowBorder)
        ensures
            b == match self.state {
                AttachmentRowState::Failed(_) => RowBorder::Danger,
                AttachmentRowState::Hint => RowBorder::Dashed,
                _ => RowBorder::Line,
            },
    {
        match &self.state {
            AttachmentRowState::Failed(_) => RowBorder::Danger,
            AttachmentRowState::Hint => RowBorder::Dashed,
            _ => RowBorder::Line,
        }
    }

    /// The control at the end of the row: `Cancel` while uploading, `Retry`
    /// once failed, the `x` on a ready row, nothing on the hint.
    pub fn action(&self) -> (a: AttachmentAction)
        ensures
            a == match self.state {
                AttachmentRowState::Ready => AttachmentAction::Remove,
                AttachmentRowState::Uploading(_) => AttachmentAction::Cancel,
                AttachmentRowState::Failed(_) => AttachmentAction::Retry,
                AttachmentRowState::Hint => AttachmentAction::Nothing,
            },
    {
        match &self.state {
            AttachmentRowState::Ready => AttachmentAction::Remove,
            AttachmentRowState::Uploading(_) => AttachmentAction::Cancel,
            AttachmentRowState::Failed(_) => AttachmentAction::Retry,
            AttachmentRowState::Hint => AttachmentAction::Nothing,
        }
    }

    /// Whether the progress hairline runs along the bottom: only while
    /// uploading.
    pub fn shows_progress(&self) -> (b: bool)
        ensures
            b == self.state is Uploading,
    {
        self.dimmed()
    }
}

/// The label of the button an action draws; the `x` and the hint have none.
pub fn action_label(action: AttachmentAction) -> (l: Option<&'static str>)
    ensures
        match action {
            AttachmentAction::Cancel => l matches Some(s) && s@ == "Cancel"@,
            AttachmentAction::Retry => l matches Some(s) && s@ == "Retry"@,
            _ => l is None,
        },
{
    match action {
        AttachmentAction::Cancel => Some("Cancel"),
        AttachmentAction::Retry => Some("Retry"),
        _ => None,
    }
}

/// The drag-over overlay: its headline and the line under it, and whether
/// it skips the enter fade.
#[derive(Debug)]
pub struct DropOverlay {
    /// Stable identity of the overlay.
    pub id: String,
    /// Whether files are being dragged over the pane.
    pub visible: bool,
    /// The headline.
    pub title: String,
    /// The line under it, usually a file count.
    pub subtitle: String,
    /// Whether the enter fade and scale are skipped (static captures).
    pub at_rest: bool,
}

/// The overlay over the pane files are being dragged onto, with the stock
/// headline and line.
pub fn drop_overlay(id: &str, visible: bool) -> (o: DropOverlay)
    ensures
        o.id@ == id@,
        o.visible == visible,
        o.title@ == "Drop to attach to this turn"@,
        o.subtitle@ == "images become screenshots the agent can see"@,
        !o.at_rest,
{
    DropOverlay {
        id: id.to_string(),
        visible,
        title: "Drop to attach to this turn".to_string(),
        subtitle: "images become screenshots the agent can see".to_string(),
        at_rest: false,
    }
}

impl DropOverlay {
    /// The headline.
    pub fn title(self, title: &str) -> (o: Self)
        ensures
            o == (DropOverlay { title: o.title, ..self }),
            o.title@ == title@,
    {
        DropOverlay { title: title.to_string(), ..self }
    }

    /// The line under the headline.
    pub fn subtitle(self, subtitle: &str) -> (o: Self)
        ensures
            o == (DropOverlay { subtitle: o.subtitle, ..self }),
            o.subtitle@ == subtitle@,
    {
        DropOverlay { subtitle: subtitle.to_string(), ..self }
    }

    /// Skips the enter fade and scale.
    pub fn at_rest(self) -> (o: Self)
        ensures
            o == (DropOverlay { at_rest: true, ..self }),
    {
        DropOverlay { at_rest: true, ..self }
    }
}

} // verus!
