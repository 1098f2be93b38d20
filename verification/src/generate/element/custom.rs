use vstd::prelude::*;

use crate::generate::element::element_builder::ElementBuilder;
use crate::generate::font::Font;
use crate::generate::font::FontHandle;
use crate::generate::instruction::Instruction;
use crate::generate::instruction::InstructionModel;
use crate::generate::instruction::StyledText;
use crate::generate::instruction::StyledTextModel;
use crate::generate::text_gen::views;
use crate::generate::units::Length;
use crate::generate::units::Point;

verus! {

/// What a custom element is, apart from how its texts are stored.
pub struct CustomModel {
    pub runs: Seq<StyledTextModel>,
    pub position: Point,
}

/// Text written at a place of the caller's choosing, whatever the cursor
/// says.
#[derive(Clone, Debug)]
pub struct Custom {
    pub ops: Vec<StyledText>,
    pub position: Point,
}

impl View for Custom {
    type V = CustomModel;

    open spec fn view(&self) -> CustomModel {
        CustomModel { runs: views(self.ops@), position: self.position }
    }
}

impl Custom {
    pub fn new(position: Point) -> (r: Custom)
        ensures
            r@ == (CustomModel { runs: Seq::empty(), position }),
    {
        let r = Custom { ops: Vec::new(), position };
        assert(r@.runs =~= Seq::empty());
        r
    }

    /// Adds a run of `text` in `font` at `font_size` behind the runs that
    /// are there.
    pub fn write_text(&mut self, text: &str, font: FontHandle, font_size: Length)
        ensures
            final(self)@ == (CustomModel {
                runs: old(self)@.runs.push(
                    StyledTextModel {
                        text: text@,
                        font: Font { font_id: font, font_size, font_height_offset: Length { units: 0 } },
                    },
                ),
                position: old(self).position,
            }),
    {
        let run = StyledText {
            text: String::from_str(text),
            font: Font::new(font, font_size, Length::zero()),
        };
        self.ops.push(run);
        assert(self@.runs =~= old(self)@.runs.push(run@));
    }

    /// The name of this kind of element, as warnings give it.
    pub fn display_name(&self) -> (name: &'static str)
        ensures
            name@ == "Custom"@,
    {
        "Custom"
    }

    pub fn calculate_width(&self, builder: &ElementBuilder) -> (width: Length)
        ensures
            width@ == 0,
    {
        Length::zero()
    }

    pub fn calculate_height(&self, builder: &ElementBuilder) -> (height: Length)
        ensures
            height@ == 0,
    {
        Length::zero()
    }

    /// Puts the runs onto the current page at the element's own position.
    /// The cursor stays where it is.
    pub fn build(&self, builder: &mut ElementBuilder)
        requires
            old(builder)@.wf(),
        ensures
            final(builder)@ == old(builder)@.emitted(
                InstructionModel::TextSection { pos: self.position, runs: self@.runs },
            ),
            old(builder)@.grows_into(final(builder)@),
    {
        let mut runs: Vec<StyledText> = Vec::new();
        let mut i: usize = 0;
        while i < self.ops.len()
            invariant
                i <= self.ops.len(),
                views(runs@) == self@.runs.take(i as int),
            decreases self.ops.len() - i,
        {
            let run = StyledText { text: self.ops[i].text.clone(), font: self.ops[i].font };
            let ghost before = views(runs@);
            runs.push(run);
            assert(views(runs@) =~= before.push(run@));
            i += 1;
        }
        assert(self@.runs.take(i as int) =~= self@.runs);
        builder.emit(Instruction::TextSection { pos: self.position, runs });
    }
}

} // verus!
