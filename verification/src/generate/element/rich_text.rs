use vstd::prelude::*;

use crate::generate::element::builder_model::lemma_grows_transitive;
use crate::generate::element::builder_model::BuilderModel;
use crate::generate::element::element_builder::ElementBuilder;
use crate::generate::font::Font;
use crate::generate::instruction::Instruction;
use crate::generate::instruction::InstructionModel;
use crate::generate::instruction::StyledText;
use crate::generate::instruction::StyledTextModel;
use crate::generate::text_gen::shape_text;
use crate::generate::text_gen::views;
use crate::generate::text_gen::words_text;
use crate::generate::text_gen::words_width;
use crate::generate::text_gen::LayoutBackend;
use crate::generate::text_gen::ShapedText;
use crate::generate::text_gen::WordModel;
use crate::generate::units::Length;

verus! {

/// What a part of a line is, apart from how its text is stored.
pub struct PartModel {
    pub text: Seq<char>,
    pub font: Font,
    pub width: Length,
}

/// The piece of one run that stands on one line.
#[derive(Clone, Debug)]
pub struct RichTextLinePart {
    pub text: String,
    pub font: Font,
    pub width: Length,
}

impl View for RichTextLinePart {
    type V = PartModel;

    open spec fn view(&self) -> PartModel {
        PartModel { text: self.text@, font: self.font, width: self.width }
    }
}

/// What a composed line is, apart from how its texts are stored.
pub struct LineModel {
    pub parts: Seq<PartModel>,
    pub height: Length,
}

/// One line of rich text: its parts from left to right, and its height.
#[derive(Clone, Debug)]
pub struct RichTextLine {
    pub parts: Vec<RichTextLinePart>,
    pub height: Length,
}

impl View for RichTextLine {
    type V = LineModel;

    open spec fn view(&self) -> LineModel {
        LineModel { parts: views(self.parts@), height: self.height }
    }
}

/// The greatest line height among the fonts of `parts`; zero for no parts.
pub open spec fn tallest(parts: Seq<PartModel>) -> Length
    decreases parts.len(),
{
    if parts.len() == 0 {
        Length { units: 0 }
    } else {
        tallest(parts.drop_last()).spec_max(parts.last().font.spec_line_height())
    }
}

impl LineModel {
    /// A line is as high as the tallest of its parts, not as their sum.
    pub open spec fn wf(self) -> bool {
        self.height == tallest(self.parts)
    }

    /// The line with no parts.
    pub open spec fn empty() -> LineModel {
        LineModel { parts: Seq::empty(), height: Length { units: 0 } }
    }

    /// The line with `part` added at its right end.
    pub open spec fn with_part(self, part: PartModel) -> LineModel {
        LineModel {
            parts: self.parts.push(part),
            height: self.height.spec_max(part.font.spec_line_height()),
        }
    }

    /// The line that holds `words`, set in `font`, and nothing else.
    pub open spec fn of_words(words: Seq<WordModel>, font: Font) -> LineModel {
        LineModel::empty().with_part(
            PartModel { text: words_text(words), font, width: words_width(words) },
        )
    }
}

/// A line that is as high as its tallest part stays so when it gets one
/// more part.
pub proof fn lemma_with_part_keeps_height(line: LineModel, part: PartModel)
    requires
        line.wf(),
    ensures
        line.with_part(part).wf(),
{
    assert(line.parts.push(part).drop_last() =~= line.parts);
}

impl Default for RichTextLine {
    fn default() -> (line: RichTextLine)
        ensures
            line@ == LineModel::empty(),
    {
        let line = RichTextLine { parts: Vec::new(), height: Length::zero() };
        assert(line@.parts =~= Seq::empty());
        line
    }
}

impl RichTextLine {
    /// Adds `part` at the right end of the line. The line becomes as high
    /// as `part` where that is higher than the line was.
    pub fn push_part(&mut self, part: RichTextLinePart)
        ensures
            final(self)@ == old(self)@.with_part(part@),
            old(self)@.wf() ==> final(self)@.wf(),
    {
        proof {
            if self@.wf() {
                lemma_with_part_keeps_height(self@, part@);
            }
        }
        self.height = self.height.max(part.font.line_height());
        self.parts.push(part);
        assert(self@.parts =~= old(self)@.parts.push(part@));
    }
}

/// Runs of text, each in a font of its own, that flow as one paragraph.
#[derive(Clone, Debug)]
pub struct RichText {
    pub parts: Vec<(String, Font)>,
}

/// The lines that the rest of a run makes after it was wrapped: one line
/// for each shaped line, and a line without parts where there is none, so
/// that what follows starts on a line of its own.
pub open spec fn wrapped_lines(shaped: Seq<Seq<WordModel>>, font: Font) -> Seq<LineModel> {
    if shaped.len() == 0 {
        seq![LineModel::empty()]
    } else {
        Seq::new(shaped.len(), |i: int| LineModel::of_words(shaped[i], font))
    }
}

/// The width that is taken on the last of the lines that the rest of a run
/// makes.
pub open spec fn wrapped_width(shaped: Seq<Seq<WordModel>>) -> Length {
    if shaped.len() == 0 {
        Length { units: 0 }
    } else {
        words_width(shaped.last())
    }
}

/// Whether every line of `lines` is as high as its tallest part.
pub open spec fn all_lines_wf(lines: Seq<RichTextLine>) -> bool {
    forall|i: int| 0 <= i < lines.len() ==> (#[trigger] lines[i])@.wf()
}

/// What of `text` is left after its first `taken` characters.
pub fn rest_of(text: &str, taken: usize) -> (rest: &str)
    ensures
        rest@ == text@.skip(
            if taken <= text@.len() {
                taken as int
            } else {
                text@.len() as int
            },
        ),
{
    let len = text.unicode_len();
    let from = if taken <= len {
        taken
    } else {
        len
    };
    text.substring_char(from, len)
}

/// The part that the first line of `shaped` makes: the words of that line
/// joined, at the width they have together.
pub fn first_line_part(shaped: &ShapedText, font: Font) -> (part: RichTextLinePart)
    requires
        shaped@.lines.len() >= 1,
    ensures
        part@ == (PartModel {
            text: words_text(shaped@.lines[0]),
            font,
            width: words_width(shaped@.lines[0]),
        }),
{
    let line = &shaped.lines[0];
    RichTextLinePart { text: line.text(), font, width: line.width() }
}

/// Adds to `lines` the lines that the rest of a wrapped run makes, and
/// gives the width that is taken on the last of them.
pub fn push_wrapped_lines(lines: &mut Vec<RichTextLine>, shaped: &ShapedText, font: Font) -> (taken:
    Length)
    ensures
        views(final(lines)@) == views(old(lines)@) + wrapped_lines(shaped@.lines, font),
        taken == wrapped_width(shaped@.lines),
        all_lines_wf(old(lines)@) ==> all_lines_wf(final(lines)@),
{
    let ghost before = lines@;
    let count = shaped.lines.len();
    if count == 0 {
        lines.push(RichTextLine::default());
        return Length::zero();
    }
    let mut taken = Length::zero();
    let mut i: usize = 0;
    while i < count
        invariant
            i <= count,
            count == shaped.lines.len(),
            count > 0,
            views(lines@) == views(before) + wrapped_lines(shaped@.lines, font).take(i as int),
            i > 0 ==> taken == words_width(shaped@.lines[i - 1]),
            all_lines_wf(before) ==> all_lines_wf(lines@),
        decreases count - i,
    {
        let source = &shaped.lines[i];
        let width = source.width();
        let mut line = RichTextLine::default();
        line.push_part(RichTextLinePart { text: source.text(), font, width });
        let ghost entered = lines@;
        lines.push(line);
        taken = width;
        assert(views(lines@) =~= views(entered).push(line@));
        i += 1;
    }
    taken
}

/// `lines` with `part` added at the right end of the last of them.
pub open spec fn with_part_on_last(lines: Seq<LineModel>, part: PartModel) -> Seq<LineModel> {
    lines.update(lines.len() - 1, lines.last().with_part(part))
}

/// Puts a run that fits behind what the last of `lines` holds: all of
/// `text`, at the width it has by itself.
pub fn place_fitting_run(lines: &mut Vec<RichTextLine>, text: &str, font: Font, width: Length)
    requires
        old(lines).len() >= 1,
    ensures
        views(final(lines)@) == with_part_on_last(
            views(old(lines)@),
            PartModel { text: text@, font, width },
        ),
        final(lines).len() == old(lines).len(),
        all_lines_wf(old(lines)@) ==> all_lines_wf(final(lines)@),
{
    let part = RichTextLinePart { text: String::from_str(text), font, width };
    push_on_last(lines, part);
}

/// Puts a run that does not fit: `part`, its first shaped line, ends the
/// last of `lines`, and the rest of the run, shaped against the whole
/// width, makes lines of its own. Gives the width that is taken on the last
/// of these.
pub fn place_wrapping_run(
    lines: &mut Vec<RichTextLine>,
    part: RichTextLinePart,
    shaped_rest: &ShapedText,
    font: Font,
) -> (taken: Length)
    requires
        old(lines).len() >= 1,
    ensures
        views(final(lines)@) == with_part_on_last(views(old(lines)@), part@) + wrapped_lines(
            shaped_rest@.lines,
            font,
        ),
        taken == wrapped_width(shaped_rest@.lines),
        final(lines).len() > old(lines).len(),
        all_lines_wf(old(lines)@) ==> all_lines_wf(final(lines)@),
{
    push_on_last(lines, part);
    let taken = push_wrapped_lines(lines, shaped_rest, font);
    assert(views(lines@).len() == lines.len());
    taken
}

/// Adds `part` at the right end of the last of `lines`.
fn push_on_last(lines: &mut Vec<RichTextLine>, part: RichTextLinePart)
    requires
        old(lines).len() >= 1,
    ensures
        views(final(lines)@) == with_part_on_last(views(old(lines)@), part@),
        final(lines).len() == old(lines).len(),
        all_lines_wf(old(lines)@) ==> all_lines_wf(final(lines)@),
{
    let last = lines.len() - 1;
    let line = &mut lines[last];
    line.push_part(part);
}

impl BuilderModel {
    /// The region after `part` was written at the cursor: the cursor
    /// stands at its right end.
    pub open spec fn with_part(self, part: PartModel) -> BuilderModel {
        self.emitted(
            InstructionModel::TextSection {
                pos: self.cursor,
                runs: seq![StyledTextModel { text: part.text, font: part.font }],
            },
        ).shifted(part.width)
    }

    /// The region after `parts` were written one behind the other.
    pub open spec fn with_parts(self, parts: Seq<PartModel>) -> BuilderModel
        decreases parts.len(),
    {
        if parts.len() == 0 {
            self
        } else {
            self.with_parts(parts.drop_last()).with_part(parts.last())
        }
    }

    /// The region after `line` was written: the cursor goes down by the
    /// height of the line, the parts follow each other from there, and the
    /// cursor returns to the left edge.
    pub open spec fn with_rich_line(self, line: LineModel) -> BuilderModel {
        self.advanced(line.height).with_parts(line.parts).at_left_edge()
    }

    /// The region after `lines` were written one below the other.
    pub open spec fn with_rich_lines(self, lines: Seq<LineModel>) -> BuilderModel
        decreases lines.len(),
    {
        if lines.len() == 0 {
            self
        } else {
            self.with_rich_lines(lines.drop_last()).with_rich_line(lines.last())
        }
    }
}

/// How far the runs of a rich text are broken into lines: the lines so far,
/// and the width that is taken on the last of them.
pub struct SplitState {
    pub lines: Seq<LineModel>,
    pub width: Length,
}

/// What of `text` is left behind its first `taken` characters; nothing
/// where it has no more.
pub open spec fn rest_behind(text: Seq<char>, taken: nat) -> Seq<char> {
    text.skip(
        if taken <= text.len() {
            taken as int
        } else {
            text.len() as int
        },
    )
}

/// The lines after one more run, `text` in `font`, was placed in a region
/// that is `full_width` wide.
///
/// An empty run changes nothing. Another run is shaped against what is left
/// of the last line. Where that gives one line at most, the whole run goes
/// behind what the last line holds, at the width it has when it is shaped
/// against no width at all. Where it gives more, its first line ends the last
/// line, and what is left of the run behind the text of that line is shaped
/// against the full width and makes lines of its own.
pub open spec fn run_placed<B: LayoutBackend>(
    backend: &B,
    state: SplitState,
    full_width: Length,
    text: Seq<char>,
    font: Font,
) -> SplitState {
    let shaped = backend.shaped(text, font, Some(full_width.spec_minus(state.width)));
    if text.len() == 0 {
        state
    } else if shaped.lines.len() <= 1 {
        let width = backend.shaped(text, font, None).width;
        SplitState {
            lines: with_part_on_last(state.lines, PartModel { text, font, width }),
            width: state.width.spec_plus(width),
        }
    } else {
        let first = PartModel {
            text: words_text(shaped.lines[0]),
            font,
            width: words_width(shaped.lines[0]),
        };
        let rest = backend.shaped(rest_behind(text, first.text.len()), font, Some(full_width));
        SplitState {
            lines: with_part_on_last(state.lines, first) + wrapped_lines(rest.lines, font),
            width: wrapped_width(rest.lines),
        }
    }
}

/// The lines after the first `count` of the runs `parts` were placed, one
/// after the other, in a region that is `full_width` wide. Before the first
/// run there is one line, without parts.
pub open spec fn runs_placed<B: LayoutBackend>(
    backend: &B,
    full_width: Length,
    parts: Seq<(String, Font)>,
    count: nat,
) -> SplitState
    decreases count,
{
    if count == 0 || count > parts.len() {
        SplitState { lines: seq![LineModel::empty()], width: Length { units: 0 } }
    } else {
        run_placed(
            backend,
            runs_placed(backend, full_width, parts, (count - 1) as nat),
            full_width,
            parts[count - 1].0@,
            parts[count - 1].1,
        )
    }
}

impl RichText {
    /// The lines that the text breaks into in a region that is `full_width`
    /// wide.
    pub open spec fn lines<B: LayoutBackend>(&self, backend: &B, full_width: Length) -> Seq<LineModel> {
        runs_placed(backend, full_width, self.parts@, self.parts@.len()).lines
    }

    /// Whether `backend` knows the font of every run, so that the text
    /// can be shaped.
    pub open spec fn known<B: LayoutBackend>(&self, backend: &B) -> bool {
        forall|i: int| 0 <= i < self.parts@.len() ==> backend.knows((#[trigger] self.parts@[i]).1.font_id)
    }

    /// What laying out the text makes of `region`: its lines are written
    /// one below the other from the cursor on.
    pub open spec fn laid_out<B: LayoutBackend>(&self, backend: &B, region: BuilderModel) -> BuilderModel {
        region.with_rich_lines(self.lines(backend, region.remaining_width))
    }
}

/// Runs that are all empty leave the one line without parts that there is
/// before the first run.
pub proof fn lemma_empty_runs_give_one_empty_line<B: LayoutBackend>(
    backend: &B,
    full_width: Length,
    parts: Seq<(String, Font)>,
    count: nat,
)
    requires
        count <= parts.len(),
        forall|i: int| 0 <= i < count ==> (#[trigger] parts[i]).0@.len() == 0,
    ensures
        runs_placed(backend, full_width, parts, count) == (SplitState {
            lines: seq![LineModel::empty()],
            width: Length { units: 0 },
        }),
    decreases count,
{
    if count > 0 {
        lemma_empty_runs_give_one_empty_line(backend, full_width, parts, (count - 1) as nat);
    }
}

/// There is always a line, and the first run that is not empty puts a
/// part in its own font onto the first line.
pub proof fn lemma_first_run_starts_first_line<B: LayoutBackend>(
    backend: &B,
    full_width: Length,
    parts: Seq<(String, Font)>,
    count: nat,
    first: int,
)
    requires
        0 <= first < count <= parts.len(),
        parts[first].0@.len() > 0,
        forall|i: int| 0 <= i < first ==> (#[trigger] parts[i]).0@.len() == 0,
    ensures
        runs_placed(backend, full_width, parts, count).lines.len() >= 1,
        runs_placed(backend, full_width, parts, count).lines[0].parts.len() >= 1,
        runs_placed(backend, full_width, parts, count).lines[0].parts[0].font == parts[first].1,
    decreases count,
{
    if count == first + 1 {
        lemma_empty_runs_give_one_empty_line(backend, full_width, parts, first as nat);
    } else {
        lemma_first_run_starts_first_line(backend, full_width, parts, (count - 1) as nat, first);
    }
}

/// The texts of `parts` one after another.
pub open spec fn parts_text(parts: Seq<PartModel>) -> Seq<char>
    decreases parts.len(),
{
    if parts.len() == 0 {
        Seq::empty()
    } else {
        parts_text(parts.drop_last()) + parts.last().text
    }
}

/// The texts of the parts of `lines` one after another, line by line.
pub open spec fn lines_text(lines: Seq<LineModel>) -> Seq<char>
    decreases lines.len(),
{
    if lines.len() == 0 {
        Seq::empty()
    } else {
        lines_text(lines.drop_last()) + parts_text(lines.last().parts)
    }
}

/// The texts of the words of the shaped lines `shaped` one after another.
pub open spec fn shaped_text(shaped: Seq<Seq<WordModel>>) -> Seq<char>
    decreases shaped.len(),
{
    if shaped.len() == 0 {
        Seq::empty()
    } else {
        shaped_text(shaped.drop_last()) + words_text(shaped.last())
    }
}

/// The texts of the first `count` of the runs `parts` one after another.
pub open spec fn runs_text(parts: Seq<(String, Font)>, count: nat) -> Seq<char>
    decreases count,
{
    if count == 0 || count > parts.len() {
        Seq::empty()
    } else {
        runs_text(parts, (count - 1) as nat) + parts[count - 1].0@
    }
}

/// Whether `backend` spells what it shapes: the words of a shaped text,
/// read line by line, are the text that was shaped, whatever the font and
/// the width.
pub open spec fn spells<B: LayoutBackend>(backend: &B) -> bool {
    forall|text: Seq<char>, font: Font, max_width: Option<Length>|
        shaped_text(#[trigger] backend.shaped(text, font, max_width).lines) == text
}

/// A part added to the last line adds its text behind that of the lines.
pub proof fn lemma_part_on_last_adds_its_text(lines: Seq<LineModel>, part: PartModel)
    requires
        lines.len() >= 1,
    ensures
        lines_text(with_part_on_last(lines, part)) == lines_text(lines) + part.text,
{
    let after = with_part_on_last(lines, part);
    assert(after.drop_last() =~= lines.drop_last());
    assert(after.last().parts.drop_last() =~= lines.last().parts);
    assert(lines_text(after) =~= lines_text(lines) + part.text);
}

/// Lines behind other lines add their text behind that of the others.
pub proof fn lemma_text_of_lines_joined(first: Seq<LineModel>, second: Seq<LineModel>)
    ensures
        lines_text(first + second) == lines_text(first) + lines_text(second),
    decreases second.len(),
{
    if second.len() == 0 {
        assert(first + second =~= first);
        assert(lines_text(first) + lines_text(second) =~= lines_text(first));
    } else {
        lemma_text_of_lines_joined(first, second.drop_last());
        assert((first + second).drop_last() =~= first + second.drop_last());
        assert(lines_text(first + second) =~= lines_text(first) + lines_text(second));
    }
}

/// The first `count` of the lines that shaped lines make hold the text of
/// the first `count` shaped lines.
pub proof fn lemma_text_of_lines_of_words(shaped: Seq<Seq<WordModel>>, font: Font, count: nat)
    requires
        count <= shaped.len(),
    ensures
        lines_text(Seq::new(count, |i: int| LineModel::of_words(shaped[i], font))) == shaped_text(
            shaped.take(count as int),
        ),
    decreases count,
{
    let lines = Seq::new(count, |i: int| LineModel::of_words(shaped[i], font));
    if count > 0 {
        lemma_text_of_lines_of_words(shaped, font, (count - 1) as nat);
        assert(lines.drop_last() =~= Seq::new(
            (count - 1) as nat,
            |i: int| LineModel::of_words(shaped[i], font),
        ));
        assert(shaped.take(count as int).drop_last() =~= shaped.take(count - 1));
        let last = lines.last().parts;
        assert(last.drop_last() =~= Seq::<PartModel>::empty());
        assert(parts_text(last.drop_last()) =~= Seq::<char>::empty());
        assert(last.last().text == words_text(shaped[count - 1]));
        assert(parts_text(last) =~= words_text(shaped[count - 1]));
    }
}

/// The lines that the rest of a wrapped run makes hold the text that was
/// shaped.
pub proof fn lemma_text_of_wrapped_lines(shaped: Seq<Seq<WordModel>>, font: Font)
    ensures
        lines_text(wrapped_lines(shaped, font)) == shaped_text(shaped),
{
    if shaped.len() == 0 {
        let lines = wrapped_lines(shaped, font);
        assert(lines.drop_last() =~= Seq::<LineModel>::empty());
        assert(lines_text(lines.drop_last()) =~= Seq::<char>::empty());
        assert(lines.last().parts =~= Seq::<PartModel>::empty());
        assert(parts_text(lines.last().parts) =~= Seq::<char>::empty());
        assert(lines_text(lines) =~= Seq::<char>::empty());
    } else {
        lemma_text_of_lines_of_words(shaped, font, shaped.len());
        assert(shaped.take(shaped.len() as int) =~= shaped);
    }
}

/// The text of shaped lines is that of the first line and then that of the
/// lines behind it.
pub proof fn lemma_shaped_text_from_first(shaped: Seq<Seq<WordModel>>)
    requires
        shaped.len() >= 1,
    ensures
        shaped_text(shaped) == words_text(shaped[0]) + shaped_text(shaped.skip(1)),
    decreases shaped.len(),
{
    if shaped.len() == 1 {
        assert(shaped.drop_last() =~= Seq::<Seq<WordModel>>::empty());
        assert(shaped.skip(1) =~= Seq::<Seq<WordModel>>::empty());
        assert(shaped_text(shaped) =~= words_text(shaped[0]) + shaped_text(shaped.skip(1)));
    } else {
        lemma_shaped_text_from_first(shaped.drop_last());
        assert(shaped.drop_last().skip(1) =~= shaped.skip(1).drop_last());
        assert(shaped_text(shaped) =~= words_text(shaped[0]) + shaped_text(shaped.skip(1)));
    }
}

/// With a backend that spells what it shapes, breaking runs into lines
/// keeps their text: the parts of the lines, read in order, hold the text of
/// the runs, with no character lost, added or moved.
pub proof fn lemma_text_is_kept<B: LayoutBackend>(
    backend: &B,
    full_width: Length,
    parts: Seq<(String, Font)>,
    count: nat,
)
    requires
        count <= parts.len(),
        spells(backend),
    ensures
        runs_placed(backend, full_width, parts, count).lines.len() >= 1,
        lines_text(runs_placed(backend, full_width, parts, count).lines) == runs_text(
            parts,
            count,
        ),
    decreases count,
{
    if count == 0 {
        let lines = seq![LineModel::empty()];
        assert(lines.drop_last() =~= Seq::<LineModel>::empty());
        assert(lines_text(lines.drop_last()) =~= Seq::<char>::empty());
        assert(lines.last().parts =~= Seq::<PartModel>::empty());
        assert(parts_text(lines.last().parts) =~= Seq::<char>::empty());
        assert(lines_text(lines) =~= Seq::<char>::empty());
    } else {
        lemma_text_is_kept(backend, full_width, parts, (count - 1) as nat);
        let state = runs_placed(backend, full_width, parts, (count - 1) as nat);
        let text = parts[count - 1].0@;
        let font = parts[count - 1].1;
        let shaped = backend.shaped(text, font, Some(full_width.spec_minus(state.width)));
        if text.len() == 0 {
            assert(runs_text(parts, count) =~= runs_text(parts, (count - 1) as nat));
        } else if shaped.lines.len() <= 1 {
            let width = backend.shaped(text, font, None).width;
            lemma_part_on_last_adds_its_text(state.lines, PartModel { text, font, width });
        } else {
            let first = PartModel {
                text: words_text(shaped.lines[0]),
                font,
                width: words_width(shaped.lines[0]),
            };
            let behind = rest_behind(text, first.text.len());
            let rest = backend.shaped(behind, font, Some(full_width));
            lemma_shaped_text_from_first(shaped.lines);
            assert(shaped_text(shaped.lines) == text);
            assert(behind =~= shaped_text(shaped.lines.skip(1)));
            assert(shaped_text(rest.lines) == behind);
            lemma_part_on_last_adds_its_text(state.lines, first);
            lemma_text_of_wrapped_lines(rest.lines, font);
            lemma_text_of_lines_joined(
                with_part_on_last(state.lines, first),
                wrapped_lines(rest.lines, font),
            );
            assert(first.text + behind =~= text);
            assert(lines_text(runs_placed(backend, full_width, parts, count).lines)
                =~= runs_text(parts, (count - 1) as nat) + text);
        }
    }
}

impl ElementBuilder {
    /// Breaks the runs of `rich_text` into lines.
    ///
    /// Each run is shaped against what is left of the current line. A run
    /// that fits goes behind what the line holds. Of a run that does not,
    /// the first shaped line ends the current line, and the rest of the run
    /// is shaped against the whole width and makes lines of its own.
    pub fn split_rich_text_into_lines<B: LayoutBackend>(
        &self,
        rich_text: &RichText,
        backend: &B,
    ) -> (lines: Vec<RichTextLine>)
        requires
            rich_text.known(backend),
        ensures
            views(lines@) == rich_text.lines(backend, self.remaining_width),
            lines.len() >= 1,
            all_lines_wf(lines@),
    {
        let mut current_line_width = Length::zero();
        let mut lines: Vec<RichTextLine> = Vec::new();
        lines.push(RichTextLine::default());
        assert(views(lines@) =~= seq![LineModel::empty()]);
        let mut i: usize = 0;
        while i < rich_text.parts.len()
            invariant
                i <= rich_text.parts.len(),
                lines.len() >= 1,
                all_lines_wf(lines@),
                (SplitState { lines: views(lines@), width: current_line_width }) == runs_placed(
                    backend,
                    self.remaining_width,
                    rich_text.parts@,
                    i as nat,
                ),
                rich_text.known(backend),
            decreases rich_text.parts.len() - i,
        {
            let text = rich_text.parts[i].0.as_str();
            let font = rich_text.parts[i].1;
            assert(backend.knows(rich_text.parts@[i as int].1.font_id));
            if !text.is_empty() {
                let available = self.remaining_width.minus(current_line_width);
                let shaped = shape_text(backend, &font, text, Some(available));
                if shaped.lines.len() <= 1 {
                    let width = shape_text(backend, &font, text, None).width;
                    place_fitting_run(&mut lines, text, font, width);
                    current_line_width = current_line_width.plus(width);
                } else {
                    let part = first_line_part(&shaped, font);
                    let rest = rest_of(text, part.text.as_str().unicode_len());
                    let shaped_rest = shape_text(backend, &font, rest, Some(self.remaining_width));
                    current_line_width = place_wrapping_run(&mut lines, part, &shaped_rest, font);
                }
            }
            i += 1;
        }
        lines
    }

    /// Writes `lines` one below the other from the cursor on.
    pub fn push_rich_lines(&mut self, lines: &Vec<RichTextLine>)
        requires
            old(self)@.wf(),
        ensures
            final(self)@ == old(self)@.with_rich_lines(views(lines@)),
            old(self)@.grows_into(final(self)@),
    {
        let mut i: usize = 0;
        while i < lines.len()
            invariant
                i <= lines.len(),
                self@.wf(),
                self@ == old(self)@.with_rich_lines(views(lines@).take(i as int)),
                old(self)@.grows_into(self@),
            decreases lines.len() - i,
        {
            let line = &lines[i];
            let ghost line_start = self@;
            self.advance_cursor(line.height);
            let mut j: usize = 0;
            while j < line.parts.len()
                invariant
                    j <= line.parts.len(),
                    self@.wf(),
                    self@ == line_start.advanced(line.height).with_parts(line@.parts.take(j as int)),
                    old(self)@.grows_into(self@),
                decreases line.parts.len() - j,
            {
                let part = &line.parts[j];
                let mut runs: Vec<StyledText> = Vec::new();
                runs.push(StyledText { text: part.text.clone(), font: part.font });
                assert(views(runs@) =~= seq![StyledTextModel { text: part@.text, font: part@.font }]);
                let ghost entered = self@;
                self.emit(Instruction::TextSection { pos: self.cursor, runs });
                self.cursor.x = self.cursor.x.plus(part.width);
                proof {
                    assert(line@.parts.take(j + 1).drop_last() =~= line@.parts.take(j as int));
                    lemma_grows_transitive(old(self)@, entered, self@);
                }
                j += 1;
            }
            assert(line@.parts.take(j as int) =~= line@.parts);
            self.reset_cursor_x();
            proof {
                assert(views(lines@).take(i + 1).drop_last() =~= views(lines@).take(i as int));
            }
            i += 1;
        }
        assert(views(lines@).take(i as int) =~= views(lines@));
    }

    /// Breaks `rich_text` into lines and writes them from the cursor on.
    pub fn push_rich_text<B: LayoutBackend>(&mut self, rich_text: &RichText, backend: &B)
        requires
            rich_text.known(backend),
            old(self)@.wf(),
        ensures
            final(self)@ == rich_text.laid_out(backend, old(self)@),
            rich_text.lines(backend, old(self).remaining_width).len() >= 1,
            old(self)@.grows_into(final(self)@),
    {
        let lines = self.split_rich_text_into_lines(rich_text, backend);
        assert(views(lines@).len() == lines.len());
        self.push_rich_lines(&lines);
    }
}

impl RichText {
    /// The text made of `parts`, each a run with its font.
    pub fn new(parts: Vec<(String, Font)>) -> (r: RichText)
        ensures
            r.parts == parts,
    {
        RichText { parts }
    }

    /// The name of this kind of element, as warnings give it.
    pub fn display_name(&self) -> (name: &'static str)
        ensures
            name@ == "Rich Text"@,
    {
        "Rich Text"
    }

    /// Rich text takes all the width that is left.
    pub fn calculate_width(&self, builder: &ElementBuilder) -> (width: Length)
        ensures
            width == builder@.remaining_width_from_cursor(),
    {
        builder.remaining_width_from_cursor()
    }

    /// The heights of the lines that the text breaks into, added up.
    pub fn calculate_height<B: LayoutBackend>(
        &self,
        builder: &ElementBuilder,
        backend: &B,
    ) -> (height: Length)
        requires
            self.known(backend),
        ensures
            height == total_height(self.lines(backend, builder.remaining_width)),
    {
        let lines = builder.split_rich_text_into_lines(self, backend);
        lines_height(&lines)
    }

    /// Breaks the text into lines and writes them from the cursor on.
    pub fn build<B: LayoutBackend>(&self, builder: &mut ElementBuilder, backend: &B)
        requires
            self.known(backend),
            old(builder)@.wf(),
        ensures
            final(builder)@ == self.laid_out(backend, old(builder)@),
            old(builder)@.grows_into(final(builder)@),
    {
        builder.push_rich_text(self, backend);
    }
}

/// The heights of `lines` added up.
pub open spec fn total_height(lines: Seq<LineModel>) -> Length
    decreases lines.len(),
{
    if lines.len() == 0 {
        Length { units: 0 }
    } else {
        total_height(lines.drop_last()).spec_plus(lines.last().height)
    }
}

/// The heights of `lines` added up.
pub fn lines_height(lines: &Vec<RichTextLine>) -> (height: Length)
    ensures
        height == total_height(views(lines@)),
{
    let mut height = Length::zero();
    let mut i: usize = 0;
    while i < lines.len()
        invariant
            i <= lines.len(),
            height == total_height(views(lines@).take(i as int)),
        decreases lines.len() - i,
    {
        assert(views(lines@).take(i + 1).drop_last() =~= views(lines@).take(i as int));
        height = height.plus(lines[i].height);
        i += 1;
    }
    assert(views(lines@).take(i as int) =~= views(lines@));
    height
}

} // verus!
