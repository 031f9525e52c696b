use vstd::prelude::*;

verus! {

/// How a 3D sprite turns towards the camera.
#[derive(Debug, Clone, Copy, PartialEq, Eq, Hash, Structural)]
pub enum Billboard {
    /// Faces along the negative view forward direction.
    Forward,
    /// Always looks at the camera.
    LookAt,
}

impl Default for Billboard {
    fn default() -> (r: Self)
        ensures
            r == Billboard::Forward,
    {
        Billboard::Forward
    }
}

/// The billboard mode of a sprite as seen by the render world.
#[derive(Debug, Clone, Copy, PartialEq, Eq, Hash, Structural)]
pub enum ExtractedBillboard {
    /// The entity has no billboard component.
    Disabled,
    Forward,
    LookAt,
}

/// The value of the `BILLBOARD` shader definition for each mode.
pub open spec fn billboard_shader_value(b: ExtractedBillboard) -> u32 {
    match b {
        ExtractedBillboard::Disabled => 0,
        ExtractedBillboard::Forward => 1,
        ExtractedBillboard::LookAt => 2,
    }
}

/// The render-world mode of an entity with the given billboard component, if any.
pub open spec fn extract_billboard_mode(value: Option<Billboard>) -> ExtractedBillboard {
    match value {
        Option::Some(Billboard::Forward) => ExtractedBillboard::Forward,
        Option::Some(Billboard::LookAt) => ExtractedBillboard::LookAt,
        Option::None => ExtractedBillboard::Disabled,
    }
}

impl ExtractedBillboard {
    /// Maps the (optional) billboard component of an entity to its render-world mode.
    pub fn from_component(value: Option<&Billboard>) -> (r: Self)
        ensures
            r == extract_billboard_mode(match value {
                Option::Some(b) => Option::Some(*b),
                Option::None => Option::None,
            }),
    {
        match value {
            Option::Some(billboard) => match billboard {
                Billboard::Forward => ExtractedBillboard::Forward,
                Billboard::LookAt => ExtractedBillboard::LookAt,
            },
            Option::None => ExtractedBillboard::Disabled,
        }
    }

    /// The number handed to the shader as the `BILLBOARD` definition.
    pub fn shader_value(&self) -> (r: u32)
        ensures
            r == billboard_shader_value(*self),
    {
        match self {
            ExtractedBillboard::Disabled => 0,
            ExtractedBillboard::Forward => 1,
            ExtractedBillboard::LookAt => 2,
        }
    }
}

/// Distinct billboard modes reach the shader as distinct values, so a pipeline
/// specialized for one mode is never reused for another.
pub proof fn lemma_shader_value_injective(a: ExtractedBillboard, b: ExtractedBillboard)
    requires
        billboard_shader_value(a) == billboard_shader_value(b),
    ensures
        a == b,
{
}

/// Extraction keeps the mode of a billboard and maps a missing component to `Disabled`.
pub proof fn lemma_extract_preserves_mode(value: Option<Billboard>)
    ensures
        extract_billboard_mode(value) == ExtractedBillboard::Disabled <==> value is None,
        value == Option::Some(Billboard::Forward) <==> extract_billboard_mode(value)
            == ExtractedBillboard::Forward,
        value == Option::Some(Billboard::LookAt) <==> extract_billboard_mode(value)
            == ExtractedBillboard::LookAt,
{
}

} // verus!
