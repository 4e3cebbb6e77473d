//! Buttons: their variants and sizes, the palette roles each variant paints
//! with at rest and under the pointer, and which interaction states a
//! button shows.
use vstd::prelude::*;

use crate::ink::PaletteRole;

verus! {

/// The visual weight of a button.
#[derive(Debug, Clone, Copy, PartialEq, Eq, Structural)]
pub enum ButtonVariant {
    /// Surface-2 ground with a line-strong border.
    Secondary,
    /// Accent ground, white text: one per surface.
    Primary,
    /// No ground or border until hovered.
    Subtle,
    /// A border and no ground.
    Outline,
    /// Danger ink on a danger-soft border.
    Danger,
}

impl Default for ButtonVariant {
    fn default() -> (v: Self)
        ensures
            v == ButtonVariant::Secondary,
    {
        ButtonVariant::Secondary
    }
}

/// The control height a button takes.
#[derive(Debug, Clone, Copy, PartialEq, Eq, Structural)]
pub enum ButtonSize {
    /// The medium control.
    Md,
    /// The small control.
    Sm,
    /// The extra-small control.
    Xs,
}

impl Default for ButtonSize {
    fn default() -> (s: Self)
        ensures
            s == ButtonSize::Md,
    {
        ButtonSize::Md
    }
}

/// What a variant paints with, at rest and hovered, and whether it casts the
/// resting shadow.
#[derive(Debug, Clone, Copy, PartialEq, Eq, Structural)]
pub struct Look {
    /// The ground at rest.
    pub bg: PaletteRole,
    /// The ground under the pointer.
    pub bg_hover: PaletteRole,
    /// The border at rest.
    pub border: PaletteRole,
    /// The border under the pointer.
    pub border_hover: PaletteRole,
    /// The text at rest.
    pub text: PaletteRole,
    /// The text under the pointer.
    pub text_hover: PaletteRole,
    /// Whether the button casts the first shadow step.
    pub shadow: bool,
}

/// The palette roles each variant paints with.
pub open spec fn look_of(variant: ButtonVariant, muted: bool) -> Look {
    match variant {
        ButtonVariant::Secondary => Look {
            bg: PaletteRole::Surface2,
            bg_hover: PaletteRole::Surface3,
            border: PaletteRole::LineStrong,
            border_hover: PaletteRole::Ink4,
            text: PaletteRole::Ink,
            text_hover: PaletteRole::Ink,
            shadow: true,
        },
        ButtonVariant::Primary => Look {
            bg: PaletteRole::Accent,
            bg_hover: PaletteRole::AccentStrong,
            border: PaletteRole::Transparent,
            border_hover: PaletteRole::Transparent,
            text: PaletteRole::White,
            text_hover: PaletteRole::White,
            shadow: true,
        },
        ButtonVariant::Subtle => Look {
            bg: PaletteRole::Transparent,
            bg_hover: PaletteRole::Surface2,
            border: PaletteRole::Transparent,
            border_hover: PaletteRole::Transparent,
            text: if muted {
                PaletteRole::Ink3
            } else {
                PaletteRole::Ink2
            },
            text_hover: PaletteRole::Ink,
            shadow: false,
        },
        ButtonVariant::Outline => Look {
            bg: PaletteRole::Transparent,
            bg_hover: PaletteRole::Surface2,
            border: PaletteRole::LineStrong,
            border_hover: PaletteRole::Ink4,
            text: PaletteRole::Ink,
            text_hover: PaletteRole::Ink,
            shadow: false,
        },
        ButtonVariant::Danger => Look {
            bg: PaletteRole::Transparent,
            bg_hover: PaletteRole::DangerSoft,
            border: PaletteRole::DangerSoft,
            border_hover: PaletteRole::Danger,
            text: PaletteRole::Danger,
            text_hover: PaletteRole::Danger,
            shadow: false,
        },
    }
}

/// What each weight means on screen: only the primary is filled with the
/// accent and lettered in white; only the danger button speaks in the danger
/// colour; only the secondary and the primary cast a shadow; the secondary
/// and the outline carry the strong hairline; the subtle and the outline
/// have no ground until hovered; hovering never leaves a button less
/// present; and `muted` dims only a subtle button's resting text.
pub proof fn lemma_button_weights(variant: ButtonVariant, muted: bool)
    ensures
        ({
            let l = look_of(variant, muted);
            &&& (l.bg == PaletteRole::Accent) == (variant == ButtonVariant::Primary)
            &&& (l.text == PaletteRole::White) == (variant == ButtonVariant::Primary)
            &&& (l.text == PaletteRole::Danger) == (variant == ButtonVariant::Danger)
            &&& l.shadow == (variant == ButtonVariant::Secondary || variant == ButtonVariant::Primary)
            &&& (l.border == PaletteRole::LineStrong) == (variant == ButtonVariant::Secondary || variant
                == ButtonVariant::Outline)
            &&& (l.bg == PaletteRole::Transparent) == (variant == ButtonVariant::Subtle || variant == ButtonVariant::Outline
                || variant == ButtonVariant::Danger)
            &&& l.bg_hover != PaletteRole::Transparent
            &&& l.text_hover != PaletteRole::Ink3 && l.text_hover != PaletteRole::Ink2
        }),
        variant != ButtonVariant::Subtle ==> look_of(variant, true) == look_of(variant, false),
        look_of(ButtonVariant::Subtle, true).text == PaletteRole::Ink3,
        look_of(ButtonVariant::Subtle, false).text == PaletteRole::Ink2,
{
}

impl Look {
    /// The look of `variant`; `muted` dims a ghost button's resting text.
    pub fn of(variant: ButtonVariant, muted: bool) -> (look: Self)
        ensures
            look == look_of(variant, muted),
    {
        match variant {
            ButtonVariant::Secondary => Look {
                bg: PaletteRole::Surface2,
                bg_hover: PaletteRole::Surface3,
                border: PaletteRole::LineStrong,
                border_hover: PaletteRole::Ink4,
                text: PaletteRole::Ink,
                text_hover: PaletteRole::Ink,
                shadow: true,
            },
            ButtonVariant::Primary => Look {
                bg: PaletteRole::Accent,
                bg_hover: PaletteRole::AccentStrong,
                border: PaletteRole::Transparent,
                border_hover: PaletteRole::Transparent,
                text: PaletteRole::White,
                text_hover: PaletteRole::White,
                shadow: true,
            },
            ButtonVariant::Subtle => Look {
                bg: PaletteRole::Transparent,
                bg_hover: PaletteRole::Surface2,
                border: PaletteRole::Transparent,
                border_hover: PaletteRole::Transparent,
                text: if muted {
                    PaletteRole::Ink3
                } else {
                    PaletteRole::Ink2
                },
                text_hover: PaletteRole::Ink,
                shadow: false,
            },
            ButtonVariant::Outline => Look {
                bg: PaletteRole::Transparent,
                bg_hover: PaletteRole::Surface2,
                border: PaletteRole::LineStrong,
                border_hover: PaletteRole::Ink4,
                text: PaletteRole::Ink,
                text_hover: PaletteRole::Ink,
                shadow: false,
            },
            ButtonVariant::Danger => Look {
                bg: PaletteRole::Transparent,
                bg_hover: PaletteRole::DangerSoft,
                border: PaletteRole::DangerSoft,
                border_hover: PaletteRole::Danger,
                text: PaletteRole::Danger,
                text_hover: PaletteRole::Danger,
                shadow: false,
            },
        }
    }
}

/// A button: a label or a glyph (a square glyph-only button), its variant and
/// size, and whether it is muted or disabled.
#[derive(Debug)]
pub struct Button {
    /// Stable identity of the button.
    pub id: String,
    /// The label; `None` on a glyph-only button.
    pub label: Option<String>,
    /// The name of the leading glyph.
    pub icon: Option<String>,
    /// The visual weight.
    pub variant: ButtonVariant,
    /// The control height.
    pub size: ButtonSize,
    /// A square button: as wide as it is tall, no side padding.
    pub square: bool,
    /// A ghost button's quieter resting text.
    pub muted: bool,
    /// Disabled: dimmed, no pointer, no focus, no click.
    pub disabled: bool,
}

/// A secondary, medium button reading `label`.
pub fn button(id: &str, label: &str) -> (b: Button)
    ensures
        b.id@ == id@,
        b.label matches Some(l) && l@ == label@,
        b.icon is None,
        b.variant == ButtonVariant::Secondary,
        b.size == ButtonSize::Md,
        !b.square && !b.muted && !b.disabled,
{
    Button {
        id: id.to_string(),
        label: Some(label.to_string()),
        icon: None,
        variant: ButtonVariant::Secondary,
        size: ButtonSize::Md,
        square: false,
        muted: false,
        disabled: false,
    }
}

/// A square, glyph-only button.
pub fn icon_button(id: &str, glyph: &str) -> (b: Button)
    ensures
        b.id@ == id@,
        b.label is None,
        b.icon matches Some(g) && g@ == glyph@,
        b.variant == ButtonVariant::Secondary,
        b.size == ButtonSize::Md,
        b.square && !b.muted && !b.disabled,
{
    Button {
        id: id.to_string(),
        label: None,
        icon: Some(glyph.to_string()),
        variant: ButtonVariant::Secondary,
        size: ButtonSize::Md,
        square: true,
        muted: false,
        disabled: false,
    }
}

/// What a button shows for the pointer and the keyboard this frame.
#[derive(Debug, Clone, Copy, PartialEq, Eq, Structural)]
pub struct ButtonState {
    /// Paints the hover look.
    pub hovered: bool,
    /// Plays the press.
    pub pressed: bool,
    /// Draws the accent focus ring.
    pub ring: bool,
    /// Casts the resting shadow (the ring replaces it).
    pub shadow: bool,
    /// Takes part in the tab order.
    pub tab_stop: bool,
}

impl Button {
    /// Sets the variant.
    pub fn variant(self, variant: ButtonVariant) -> (b: Self)
        ensures
            b == (Button { variant, ..self }),
    {
        Button { variant, ..self }
    }

    /// The accent-filled primary.
    pub fn primary(self) -> (b: Self)
        ensures
            b == (Button { variant: ButtonVariant::Primary, ..self }),
    {
        self.variant(ButtonVariant::Primary)
    }

    /// No ground or border until hovered.
    pub fn ghost(self) -> (b: Self)
        ensures
            b == (Button { variant: ButtonVariant::Subtle, ..self }),
    {
        self.variant(ButtonVariant::Subtle)
    }

    /// A border and no ground.
    pub fn outline(self) -> (b: Self)
        ensures
            b == (Button { variant: ButtonVariant::Outline, ..self }),
    {
        self.variant(ButtonVariant::Outline)
    }

    /// Danger ink.
    pub fn danger(self) -> (b: Self)
        ensures
            b == (Button { variant: ButtonVariant::Danger, ..self }),
    {
        self.variant(ButtonVariant::Danger)
    }

    /// Sets the size.
    pub fn size(self, size: ButtonSize) -> (b: Self)
        ensures
            b == (Button { size, ..self }),
    {
        Button { size, ..self }
    }

    /// The small control.
    pub fn sm(self) -> (b: Self)
        ensures
            b == (Button { size: ButtonSize::Sm, ..self }),
    {
        self.size(ButtonSize::Sm)
    }

    /// The extra-small control.
    pub fn xs(self) -> (b: Self)
        ensures
            b == (Button { size: ButtonSize::Xs, ..self }),
    {
        self.size(ButtonSize::Xs)
    }

    /// A leading glyph, by name.
    pub fn icon(self, glyph: &str) -> (b: Self)
        ensures
            b == (Button { icon: b.icon, ..self }),
            b.icon matches Some(g) && g@ == glyph@,
    {
        Button { icon: Some(glyph.to_string()), ..self }
    }

    /// A ghost button's quieter resting text.
    pub fn muted(self) -> (b: Self)
        ensures
            b == (Button { muted: true, ..self }),
    {
        Button { muted: true, ..self }
    }

    /// Disables the button.
    pub fn disabled(self, disabled: bool) -> (b: Self)
        ensures
            b == (Button { disabled, ..self }),
    {
        Button { disabled, ..self }
    }

    /// The look the button paints with.
    pub fn look(&self) -> (look: Look)
        ensures
            look == look_of(self.variant, self.muted),
    {
        Look::of(self.variant, self.muted)
    }

    /// Whether the label is drawn: only a label that is present and not
    /// empty.
    pub fn shows_label(&self) -> (b: bool)
        ensures
            b == (self.label matches Some(l) && l@.len() > 0),
    {
        match &self.label {
            Some(l) => !l.as_str().is_empty(),
            None => false,
        }
    }

    /// What the button shows, from the pointer's hover and press, whether it
    /// holds the focus, and whether the keyboard last moved the focus. A
    /// disabled button shows none of them and is no tab stop; the focus ring
    /// shows only for keyboard focus and replaces the resting shadow.
    pub fn state(&self, hovered: bool, pressed: bool, focused: bool, keyboard_nav: bool) -> (s: ButtonState)
        ensures
            s.hovered == (hovered && !self.disabled),
            s.pressed == (pressed && !self.disabled),
            s.ring == (!self.disabled && focused && keyboard_nav),
            s.shadow == (!s.ring && look_of(self.variant, self.muted).shadow),
            s.tab_stop == !self.disabled,
    {
        let ring = !self.disabled && focused && keyboard_nav;
        let look = self.look();
        ButtonState {
            hovered: hovered && !self.disabled,
            pressed: pressed && !self.disabled,
            ring,
            shadow: !ring && look.shadow,
            tab_stop: !self.disabled,
        }
    }
}

} // verus!
