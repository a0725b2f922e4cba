use vstd::prelude::*;

use vstd::string::*;

use crate::codec::image_decode_rgba8;
use crate::error::{dimensions_text, ViewerError};
use crate::skin::{
    cape_dimensions_ok, decode_cape_png, decode_png, skin_format_for, CapeImage, ModelVariant,
    SkinImage,
};
use crate::text::{push_decimal, str_eq};

verus! {

/// The parts of the player model.
#[derive(Debug, Clone, Copy, PartialEq, Eq, Structural)]
pub enum BodyPart {
    Head,
    Body,
    RightArm,
    LeftArm,
    RightLeg,
    LeftLeg,
}

/// How the cape moves with the player.
#[derive(Debug, Clone, Copy, PartialEq, Eq, Structural)]
pub enum CapeMotion {
    Stopped,
    Idle,
    Walking,
    Running,
}

/// Diagnostic render modes of the viewer, chosen by a query value.
#[derive(Debug, Clone, Copy, PartialEq, Eq, Structural)]
pub enum DebugMode {
    Disabled,
    SolidHead,
    HeadTextured,
    HeadOverlay,
    BaseOnly,
    FullNoOverlays,
    FullOverlays,
    Unlit,
}

pub open spec fn debug_mode_for(value: Seq<char>) -> DebugMode {
    if value == "solid-head"@ || value == "head"@ {
        DebugMode::SolidHead
    } else if value == "head-textured"@ {
        DebugMode::HeadTextured
    } else if value == "head-overlay"@ {
        DebugMode::HeadOverlay
    } else if value == "base-only"@ {
        DebugMode::BaseOnly
    } else if value == "full-no-overlays"@ {
        DebugMode::FullNoOverlays
    } else if value == "full-overlays"@ {
        DebugMode::FullOverlays
    } else if value == "unlit"@ {
        DebugMode::Unlit
    } else {
        DebugMode::Disabled
    }
}

pub open spec fn debug_label(mode: DebugMode) -> Seq<char> {
    match mode {
        DebugMode::Disabled => ""@,
        DebugMode::SolidHead => "Debug: solid base head only"@,
        DebugMode::HeadTextured => "Debug: textured base head only"@,
        DebugMode::HeadOverlay => "Debug: textured base head + hat layer"@,
        DebugMode::BaseOnly => "Debug: base model only"@,
        DebugMode::FullNoOverlays => "Debug: full model without overlays"@,
        DebugMode::FullOverlays => "Debug: full model with overlays"@,
        DebugMode::Unlit => "Debug: full model unlit"@,
    }
}

pub open spec fn part_label_spec(part: BodyPart, overlay: bool) -> Seq<char> {
    match (part, overlay) {
        (BodyPart::Head, false) => "head"@,
        (BodyPart::Head, true) => "hat"@,
        (BodyPart::Body, false) => "body"@,
        (BodyPart::Body, true) => "jacket"@,
        (BodyPart::RightArm, false) => "right_arm"@,
        (BodyPart::RightArm, true) => "right_sleeve"@,
        (BodyPart::LeftArm, false) => "left_arm"@,
        (BodyPart::LeftArm, true) => "left_sleeve"@,
        (BodyPart::RightLeg, false) => "right_leg"@,
        (BodyPart::RightLeg, true) => "right_pants"@,
        (BodyPart::LeftLeg, false) => "left_leg"@,
        (BodyPart::LeftLeg, true) => "left_pants"@,
    }
}

impl DebugMode {
    /// The mode a `debug` query value selects; unknown values select none.
    pub fn from_query_value(value: &str) -> (m: DebugMode)
        ensures
            m == debug_mode_for(value@),
    {
        if str_eq(value, "solid-head") || str_eq(value, "head") {
            DebugMode::SolidHead
        } else if str_eq(value, "head-textured") {
            DebugMode::HeadTextured
        } else if str_eq(value, "head-overlay") {
            DebugMode::HeadOverlay
        } else if str_eq(value, "base-only") {
            DebugMode::BaseOnly
        } else if str_eq(value, "full-no-overlays") {
            DebugMode::FullNoOverlays
        } else if str_eq(value, "full-overlays") {
            DebugMode::FullOverlays
        } else if str_eq(value, "unlit") {
            DebugMode::Unlit
        } else {
            DebugMode::Disabled
        }
    }

    /// The status line shown for a mode; empty for no debug mode.
    pub fn status_label(self) -> (l: &'static str)
        ensures
            l@ == debug_label(self),
    {
        match self {
            DebugMode::Disabled => "",
            DebugMode::SolidHead => "Debug: solid base head only",
            DebugMode::HeadTextured => "Debug: textured base head only",
            DebugMode::HeadOverlay => "Debug: textured base head + hat layer",
            DebugMode::BaseOnly => "Debug: base model only",
            DebugMode::FullNoOverlays => "Debug: full model without overlays",
            DebugMode::FullOverlays => "Debug: full model with overlays",
            DebugMode::Unlit => "Debug: full model unlit",
        }
    }
}

/// The name a model part is reported under; outer-layer parts get their
/// clothing name.
pub fn part_label(part: BodyPart, overlay: bool) -> (l: &'static str)
    ensures
        l@ == part_label_spec(part, overlay),
{
    match (part, overlay) {
        (BodyPart::Head, false) => "head",
        (BodyPart::Head, true) => "hat",
        (BodyPart::Body, false) => "body",
        (BodyPart::Body, true) => "jacket",
        (BodyPart::RightArm, false) => "right_arm",
        (BodyPart::RightArm, true) => "right_sleeve",
        (BodyPart::LeftArm, false) => "left_arm",
        (BodyPart::LeftArm, true) => "left_sleeve",
        (BodyPart::RightLeg, false) => "right_leg",
        (BodyPart::RightLeg, true) => "right_pants",
        (BodyPart::LeftLeg, false) => "left_leg",
        (BodyPart::LeftLeg, true) => "left_pants",
    }
}

/// The arm model the viewer uses for a `slim` flag.
pub fn model_variant(slim: bool) -> (m: ModelVariant)
    ensures
        m == (if slim {
            ModelVariant::Slim
        } else {
            ModelVariant::Classic
        }),
{
    if slim {
        ModelVariant::Slim
    } else {
        ModelVariant::Classic
    }
}

/// Limbs are drawn with a polygon offset so their outer layer does not fight
/// the body's.
pub fn skinview3d_uses_polygon_offset(part: BodyPart) -> (b: bool)
    ensures
        b == (part is RightArm || part is LeftArm || part is RightLeg || part is LeftLeg),
{
    matches!(part, BodyPart::RightArm | BodyPart::LeftArm | BodyPart::RightLeg | BodyPart::LeftLeg)
}

/// The status line after a skin is loaded.
pub open spec fn skin_loaded_message(width: u32, height: u32, slim: bool) -> Seq<char> {
    "Loaded skin: "@ + dimensions_text(width, height) + " ("@ + (if slim {
        "slim"@
    } else {
        "classic"@
    }) + ")"@
}

/// The status line after a cape is loaded.
pub open spec fn cape_loaded_message(width: u32, height: u32) -> Seq<char> {
    "Loaded cape: "@ + dimensions_text(width, height)
}

/// Decodes an uploaded skin for the viewer. The arm model is the one the
/// caller names, not the detected one; the second value is the status line.
pub fn skin_upload(bytes: &[u8], slim: bool) -> (r: Result<(SkinImage, String), ViewerError>)
    ensures
        match image_decode_rgba8(bytes@) {
            None => r matches Err(e) && e == ViewerError::InvalidPng,
            Some(d) => match skin_format_for(d.0, d.1) {
                None => r matches Err(e) && e == ViewerError::UnsupportedSkinDimensions(d.0, d.1),
                Some(format) => r matches Ok(out) && out.0.width == d.0 && out.0.height == d.1
                    && out.0.format == format && out.0.model == (if slim {
                    ModelVariant::Slim
                } else {
                    ModelVariant::Classic
                }) && out.0.rgba@ == d.2 && out.1@ == skin_loaded_message(d.0, d.1, slim),
            },
        },
{
    let mut skin = match decode_png(bytes) {
        Ok(skin) => skin,
        Err(e) => return Err(e),
    };
    skin.model = model_variant(slim);
    let mut message = String::from_str("Loaded skin: ");
    push_decimal(&mut message, skin.width as u64);
    message.append("x");
    push_decimal(&mut message, skin.height as u64);
    message.append(" (");
    if slim {
        message.append("slim");
    } else {
        message.append("classic");
    }
    message.append(")");
    assert(message@ =~= skin_loaded_message(skin.width, skin.height, slim));
    Ok((skin, message))
}

/// Decodes an uploaded cape for the viewer; the second value is the status line.
pub fn cape_upload(bytes: &[u8]) -> (r: Result<(CapeImage, String), ViewerError>)
    ensures
        match image_decode_rgba8(bytes@) {
            None => r matches Err(e) && e == ViewerError::InvalidCapePng,
            Some(d) => if cape_dimensions_ok(d.0, d.1) {
                r matches Ok(out) && out.0.width == d.0 && out.0.height == d.1 && out.0.rgba@ == d.2
                    && out.1@ == cape_loaded_message(d.0, d.1)
            } else {
                r matches Err(e) && e == ViewerError::UnsupportedCapeDimensions(d.0, d.1)
            },
        },
{
    let cape = match decode_cape_png(bytes) {
        Ok(cape) => cape,
        Err(e) => return Err(e),
    };
    let mut message = String::from_str("Loaded cape: ");
    push_decimal(&mut message, cape.width as u64);
    message.append("x");
    push_decimal(&mut message, cape.height as u64);
    assert(message@ =~= cape_loaded_message(cape.width, cape.height));
    Ok((cape, message))
}

/// A debug mode shows a status label exactly when it is an actual mode.
pub proof fn lemma_debug_label_empty_iff_none(mode: DebugMode)
    ensures
        (debug_label(mode).len() == 0) <==> (mode == DebugMode::Disabled),
{
    reveal_strlit("");
    reveal_strlit("Debug: solid base head only");
    reveal_strlit("Debug: textured base head only");
    reveal_strlit("Debug: textured base head + hat layer");
    reveal_strlit("Debug: base model only");
    reveal_strlit("Debug: full model without overlays");
    reveal_strlit("Debug: full model with overlays");
    reveal_strlit("Debug: full model unlit");
}

} // verus!
