use vstd::prelude::*;

verus! {

/// Reads the channels of `egui::Color32::BLUE`, the colour pickers' pure blue.
/// Trusted: that constant is opaque, with no red, no green and full blue.
#[verifier::external_body]
fn picker_blue() -> (channels: [u8; 4])
    ensures
        channels@ == seq![0u8, 0u8, 255u8, 255u8],
{
    egui::Color32::BLUE.to_array()
}

/// A colour in the packed form that colour pickers edit: four 8-bit channels, red,
/// green, blue and alpha, each standing for the fraction `channel / 255`.
#[derive(Clone, Copy, Debug, PartialEq, Eq, Structural)]
pub struct PackedColor {
    pub r: u8,
    pub g: u8,
    pub b: u8,
    pub a: u8,
}

impl PackedColor {
    /// The colour with the given channels, in the order red, green, blue, alpha.
    pub open spec fn of_channels(channels: Seq<u8>) -> PackedColor
        recommends
            channels.len() == 4,
    {
        PackedColor { r: channels[0], g: channels[1], b: channels[2], a: channels[3] }
    }

    /// The channels in the order red, green, blue, alpha.
    pub open spec fn channels(self) -> Seq<u8> {
        seq![self.r, self.g, self.b, self.a]
    }

    pub fn new(r: u8, g: u8, b: u8, a: u8) -> (color: PackedColor)
        ensures
            color == (PackedColor { r, g, b, a }),
    {
        PackedColor { r, g, b, a }
    }

    /// Reads a colour from its four channels.
    pub fn from_array(channels: [u8; 4]) -> (color: PackedColor)
        ensures
            color == PackedColor::of_channels(channels@),
    {
        PackedColor { r: channels[0], g: channels[1], b: channels[2], a: channels[3] }
    }

    /// Writes the colour out as its four channels; `from_array` reads it back.
    pub fn to_array(self) -> (channels: [u8; 4])
        ensures
            channels@ == self.channels(),
            PackedColor::of_channels(channels@) == self,
    {
        let channels: [u8; 4] = [self.r, self.g, self.b, self.a];
        assert(channels@ =~= self.channels());
        channels
    }

    /// The colour pickers' pure blue, opaque.
    pub fn blue() -> (color: PackedColor)
        ensures
            color == (PackedColor { r: 0, g: 0, b: 255, a: 255 }),
    {
        PackedColor::from_array(picker_blue())
    }

    /// Opaque white.
    pub open spec fn white_spec() -> PackedColor {
        PackedColor { r: 255, g: 255, b: 255, a: 255 }
    }

    #[verifier::when_used_as_spec(white_spec)]
    pub fn white() -> (color: PackedColor)
        ensures
            color == PackedColor::white_spec(),
    {
        PackedColor { r: 255, g: 255, b: 255, a: 255 }
    }
}

} // verus!
