//! Colours of RGB LEDs.

use vstd::prelude::*;

verus! {

/// A colour with eight bits per channel.
#[derive(Debug, Clone, Copy, PartialEq, Eq)]
pub struct Color {
    pub r: u8,
    pub g: u8,
    pub b: u8,
    pub a: u8,
}

/// The colour that `csscolorparser::Color::from_html` reads from a text, as its
/// four eight-bit channels, or `None` where it reads none.
pub uninterp spec fn html_color(text: Seq<char>) -> Option<Color>;

/// The colour that a linear `colorgrad` gradient from `start` to `end`,
/// blended in RGB over the positions `0..=last`, takes at `position`, as its
/// four eight-bit channels.
pub uninterp spec fn gradient_color(start: Color, end: Color, last: nat, position: nat) -> Color;

/// The colour of the gradient from `start` to `end` over the positions
/// `0..=last` at `position`: `start` at the first position, `end` at the
/// last one and behind it, and a blend of the two in between.
pub open spec fn gradient_at(start: Color, end: Color, last: nat, position: nat) -> Color {
    if position == 0 {
        start
    } else if position >= last {
        end
    } else {
        gradient_color(start, end, last, position)
    }
}

/// Reads a CSS colour with `csscolorparser::Color::from_html` and takes its
/// channels with `to_rgba8`. The contract claims that the outcome depends on
/// the text alone; it says nothing of which texts are colours.
#[verifier::external_body]
pub(crate) fn parse_html_color(text: &str) -> (parsed: Option<Color>)
    ensures
        parsed == html_color(text@),
{
    match csscolorparser::Color::from_html(text) {
        Ok(color) => {
            let [r, g, b, a] = color.to_rgba8();
            Some(Color { r, g, b, a })
        },
        Err(_) => None,
    }
}

/// Samples a gradient of two colours with `colorgrad::Gradient::at`: the
/// gradient is built by `colorgrad::CustomGradient` from `start` and `end` over
/// the domain from 0 to `last`, and the channels of the sample are taken with
/// `to_rgba8`.
///
/// The contract claims that the sample depends on the four arguments alone,
/// and what the source of `at` shows of the ends of the domain: at or below
/// its start the first colour comes back, else at or above its end the last
/// one.
#[verifier::external_body]
pub(crate) fn sample_gradient(start: Color, end: Color, last: u32, position: u32) -> (sampled: Color)
    ensures
        sampled == gradient_color(start, end, last as nat, position as nat),
        position == 0 ==> sampled == start,
        position > 0 && position >= last ==> sampled == end,
{
    let first = csscolorparser::Color::from_rgba8(start.r, start.g, start.b, start.a);
    let second = csscolorparser::Color::from_rgba8(end.r, end.g, end.b, end.a);
    let gradient = colorgrad::CustomGradient::new()
        .colors(&[first, second])
        .domain(&[0u32.into(), last.into()])
        .build()
        .unwrap();
    let [r, g, b, a] = gradient.at(position.into()).to_rgba8();
    Color { r, g, b, a }
}

} // verus!
