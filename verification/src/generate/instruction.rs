use vstd::prelude::*;

use crate::generate::font::Font;
use crate::generate::outline::LineStyle;
use crate::generate::outline::Rgb;
use crate::generate::text_gen::views;
use crate::generate::text_gen::ShapedLine;
use crate::generate::text_gen::WordModel;
use crate::generate::units::Length;
use crate::generate::units::Point;

verus! {

/// The handle under which an image was registered, with the size of the
/// image in pixels.
#[derive(Clone, Copy, Debug, PartialEq, Eq, Structural)]
pub struct ImageHandle {
    pub index: usize,
    pub width_px: usize,
    pub height_px: usize,
}

/// Whether a shape is filled or only outlined.
#[derive(Clone, Copy, Debug, PartialEq, Eq, Structural)]
pub enum PaintMode {
    Fill,
    Stroke,
}

/// The factor `num / den` by which an image is enlarged on both axes.
#[derive(Clone, Copy, Debug, PartialEq, Eq, Structural)]
pub struct Scale {
    pub num: Length,
    pub den: Length,
}

/// What a run of text is, apart from how its text is stored.
pub struct StyledTextModel {
    pub text: Seq<char>,
    pub font: Font,
}

/// A run of text in one font.
#[derive(Clone, Debug)]
pub struct StyledText {
    pub text: String,
    pub font: Font,
}

impl View for StyledText {
    type V = StyledTextModel;

    open spec fn view(&self) -> StyledTextModel {
        StyledTextModel { text: self.text@, font: self.font }
    }
}

/// What a draw instruction is, apart from how its texts are stored.
pub enum InstructionModel {
    TextBlock { pos: Point, font: Font, lines: Seq<Seq<WordModel>> },
    TextSection { pos: Point, runs: Seq<StyledTextModel> },
    Rect { origin: Point, width: Length, height: Length, mode: PaintMode, color: Rgb },
    Line { from: Point, to: Point, style: LineStyle },
    Image { image: ImageHandle, pos: Point, scale: Option<Scale> },
}

/// One thing to draw on a page. The instructions of a page are drawn in the
/// order in which they stand.
#[derive(Clone, Debug)]
pub enum Instruction {
    /// Shaped lines of one font, one line height apart; `pos` is the top
    /// left corner of the first line.
    TextBlock { pos: Point, font: Font, lines: Vec<ShapedLine> },
    /// Runs of text that follow each other on one line that starts at `pos`.
    TextSection { pos: Point, runs: Vec<StyledText> },
    /// A rectangle whose top left corner is `origin`.
    Rect { origin: Point, width: Length, height: Length, mode: PaintMode, color: Rgb },
    /// A straight line.
    Line { from: Point, to: Point, style: LineStyle },
    /// A registered image whose bottom left corner is `pos`.
    Image { image: ImageHandle, pos: Point, scale: Option<Scale> },
}

impl View for Instruction {
    type V = InstructionModel;

    open spec fn view(&self) -> InstructionModel {
        match *self {
            Instruction::TextBlock { pos, font, lines } => InstructionModel::TextBlock {
                pos,
                font,
                lines: views(lines@),
            },
            Instruction::TextSection { pos, runs } => InstructionModel::TextSection {
                pos,
                runs: views(runs@),
            },
            Instruction::Rect { origin, width, height, mode, color } => InstructionModel::Rect {
                origin,
                width,
                height,
                mode,
                color,
            },
            Instruction::Line { from, to, style } => InstructionModel::Line { from, to, style },
            Instruction::Image { image, pos, scale } => InstructionModel::Image {
                image,
                pos,
                scale,
            },
        }
    }
}

/// What a list of pages holds, page by page and instruction by instruction.
pub open spec fn pages_model(pages: Seq<Vec<Instruction>>) -> Seq<Seq<InstructionModel>> {
    pages.map_values(|page: Vec<Instruction>| views(page@))
}

/// The number of instructions on all of `pages` together.
pub open spec fn instruction_count(pages: Seq<Seq<InstructionModel>>) -> nat
    decreases pages.len(),
{
    if pages.len() == 0 {
        0
    } else {
        instruction_count(pages.drop_last()) + pages.last().len()
    }
}

} // verus!
