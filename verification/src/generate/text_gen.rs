use vstd::prelude::*;

use crate::generate::font::Font;
use crate::generate::font::FontHandle;
use crate::generate::units::Length;

verus! {

/// The font size that elements take when none is given: 9 pt, in units.
pub const DEFAULT_FONT_SIZE: i64 = 114_300;

/// The extra leading that elements take when none is given: 3.9 pt, in units.
pub const DEFAULT_FONT_LINE_HEIGHT_OFFSET: i64 = 49_530;

/// The width that one side of a column keeps when none is given: 50 mm, in
/// units.
pub const LEFT_WIDTH: i64 = 1_800_000;

/// The measures that elements fall back on when they are given none.
#[derive(Clone, Copy, Debug, PartialEq, Eq, Structural)]
pub struct LayoutConfig {
    pub font_size: Length,
    pub font_height_offset: Length,
    pub min_column_width: Length,
}

impl LayoutConfig {
    /// The usual measures: a font of 9 pt with 3.9 pt of extra leading,
    /// and columns at least 50 mm wide.
    pub open spec fn usual() -> LayoutConfig {
        LayoutConfig {
            font_size: Length { units: DEFAULT_FONT_SIZE },
            font_height_offset: Length { units: DEFAULT_FONT_LINE_HEIGHT_OFFSET },
            min_column_width: Length { units: LEFT_WIDTH },
        }
    }
}

impl Default for LayoutConfig {
    fn default() -> (r: LayoutConfig)
        ensures
            r == LayoutConfig::usual(),
    {
        LayoutConfig {
            font_size: Length::from_units(DEFAULT_FONT_SIZE),
            font_height_offset: Length::from_units(DEFAULT_FONT_LINE_HEIGHT_OFFSET),
            min_column_width: Length::from_units(LEFT_WIDTH),
        }
    }
}

/// The views of the items of a sequence, in order.
pub open spec fn views<T: View>(items: Seq<T>) -> Seq<T::V> {
    items.map_values(|item: T| item@)
}

/// What a word is, apart from how its text is stored.
pub struct WordModel {
    pub text: Seq<char>,
    pub x: Length,
    pub width: Length,
}

/// A word as the shaper measured it: its text, where it starts within its
/// line and how wide it is.
#[derive(Clone, Debug)]
pub struct ShapedWord {
    pub text: String,
    pub x: Length,
    pub width: Length,
}

impl View for ShapedWord {
    type V = WordModel;

    open spec fn view(&self) -> WordModel {
        WordModel { text: self.text@, x: self.x, width: self.width }
    }
}

/// One line of shaped text.
#[derive(Clone, Debug)]
pub struct ShapedLine {
    pub words: Vec<ShapedWord>,
}

impl View for ShapedLine {
    type V = Seq<WordModel>;

    open spec fn view(&self) -> Seq<WordModel> {
        views(self.words@)
    }
}

/// What a shaped text is, apart from how it is stored.
pub struct ShapedTextModel {
    pub lines: Seq<Seq<WordModel>>,
    pub width: Length,
}

/// A text broken into lines, with the width of the widest line.
#[derive(Clone, Debug)]
pub struct ShapedText {
    pub lines: Vec<ShapedLine>,
    pub width: Length,
}

impl View for ShapedText {
    type V = ShapedTextModel;

    open spec fn view(&self) -> ShapedTextModel {
        ShapedTextModel { lines: views(self.lines@), width: self.width }
    }
}

/// The widths of `words` added up.
pub open spec fn words_width(words: Seq<WordModel>) -> Length
    decreases words.len(),
{
    if words.len() == 0 {
        Length { units: 0 }
    } else {
        words_width(words.drop_last()).spec_plus(words.last().width)
    }
}

/// The texts of `words` one after another.
pub open spec fn words_text(words: Seq<WordModel>) -> Seq<char>
    decreases words.len(),
{
    if words.len() == 0 {
        Seq::empty()
    } else {
        words_text(words.drop_last()) + words.last().text
    }
}

impl ShapedLine {
    /// The widths of the words of this line added up.
    pub fn width(&self) -> (r: Length)
        ensures
            r == words_width(self@),
    {
        let mut total = Length::zero();
        let mut i: usize = 0;
        while i < self.words.len()
            invariant
                i <= self.words.len(),
                total == words_width(self@.take(i as int)),
            decreases self.words.len() - i,
        {
            assert(self@.take(i + 1).drop_last() =~= self@.take(i as int));
            total = total.plus(self.words[i].width);
            i += 1;
        }
        assert(self@.take(i as int) =~= self@);
        total
    }

    /// The texts of the words of this line one after another.
    pub fn text(&self) -> (r: String)
        ensures
            r@ == words_text(self@),
    {
        let mut joined = String::new();
        let mut i: usize = 0;
        while i < self.words.len()
            invariant
                i <= self.words.len(),
                joined@ == words_text(self@.take(i as int)),
            decreases self.words.len() - i,
        {
            assert(self@.take(i + 1).drop_last() =~= self@.take(i as int));
            joined.append(self.words[i].text.as_str());
            i += 1;
        }
        assert(self@.take(i as int) =~= self@);
        joined
    }
}

impl ShapedWord {
    /// A word with the same text and measures.
    pub fn copy(&self) -> (word: ShapedWord)
        ensures
            word@ == self@,
    {
        ShapedWord { text: self.text.clone(), x: self.x, width: self.width }
    }
}

impl ShapedLine {
    /// A line of the same words.
    pub fn copy(&self) -> (line: ShapedLine)
        ensures
            line@ == self@,
    {
        let mut words: Vec<ShapedWord> = Vec::new();
        let mut i: usize = 0;
        while i < self.words.len()
            invariant
                i <= self.words.len(),
                views(words@) == self@.take(i as int),
            decreases self.words.len() - i,
        {
            let word = self.words[i].copy();
            let ghost before = views(words@);
            words.push(word);
            assert(views(words@) =~= before.push(word@));
            i += 1;
        }
        ShapedLine { words }
    }
}

impl ShapedText {
    /// The lines of this text, copied.
    pub fn copy_lines(&self) -> (lines: Vec<ShapedLine>)
        ensures
            views(lines@) == self@.lines,
    {
        let mut lines: Vec<ShapedLine> = Vec::new();
        let mut i: usize = 0;
        while i < self.lines.len()
            invariant
                i <= self.lines.len(),
                views(lines@) == self@.lines.take(i as int),
            decreases self.lines.len() - i,
        {
            let line = self.lines[i].copy();
            let ghost before = views(lines@);
            lines.push(line);
            assert(views(lines@) =~= before.push(line@));
            i += 1;
        }
        lines
    }

    /// The height of `lines` lines set in `font`.
    pub open spec fn spec_height(lines: nat, font: Font) -> Length {
        font.spec_line_height().spec_times(lines)
    }

    /// The height of this text set in `font`: one line height for each line.
    pub fn height(&self, font: &Font) -> (r: Length)
        ensures
            r == Self::spec_height(self@.lines.len(), *font),
    {
        font.line_height().times(self.lines.len())
    }
}

/// What a cell is, apart from how its text is stored.
pub struct GridCellModel {
    pub content: Seq<char>,
    pub font: Font,
}

/// A cell handed to the grid solver: its text and the font it is set in.
#[derive(Clone, Debug)]
pub struct GridCell {
    pub content: String,
    pub font: Font,
}

impl View for GridCell {
    type V = GridCellModel;

    open spec fn view(&self) -> GridCellModel {
        GridCellModel { content: self.content@, font: self.font }
    }
}

/// The box that the grid solver gave a cell: its outer size and the inset
/// and width of the area left for the text.
#[derive(Clone, Copy, Debug, PartialEq, Eq, Structural)]
pub struct CellBox {
    pub width: Length,
    pub height: Length,
    pub padding_left: Length,
    pub padding_top: Length,
    pub content_width: Length,
}

/// What a backend is asked when it shapes a text.
pub struct ShapeRequest {
    pub text: Seq<char>,
    pub font: Font,
    pub max_width: Option<Length>,
}

/// What a backend is asked when it solves a grid.
pub struct GridRequest {
    pub cells: Seq<GridCellModel>,
    pub num_cols: usize,
    pub width: Length,
}

/// Whether `answer` is an answer to `request`. Any value is: this says
/// only which request an answer belongs to.
pub open spec fn answers<Request, Answer>(answer: (Request, Answer), request: Request) -> bool {
    answer.0 == request
}

/// What the engine needs measured by whoever renders the pages.
///
/// A backend answers as a function of what it is asked: `shaped` and `grid`
/// name its answers, and the contracts of the engine speak of them. That a
/// backend gives the same answer whenever it is asked the same is what its
/// implementor promises; the engine takes it on trust, and nothing here
/// proves it. Nothing else is taken for granted of the answers: the engine
/// lays out whatever boxes and lines they hold.
pub trait LayoutBackend: Sized {
    /// The shaping that this backend gives `text` in `font` against
    /// `max_width`. Unless a backend says what it is, it is only known to
    /// be the same wherever the backend and the request are.
    open spec fn shaped(&self, text: Seq<char>, font: Font, max_width: Option<Length>) -> ShapedTextModel {
        (choose|answer: ((Self, ShapeRequest), ShapedTextModel)|
            #[trigger] answers(answer, (*self, ShapeRequest { text, font, max_width }))).1
    }

    /// The boxes that this backend gives `cells` in a grid of `num_cols`
    /// columns that is `width` wide. Unless a backend says what they are,
    /// they are only known to be the same wherever the backend and the
    /// request are.
    open spec fn grid(&self, cells: Seq<GridCellModel>, num_cols: usize, width: Length) -> Seq<CellBox> {
        (choose|answer: ((Self, GridRequest), Seq<CellBox>)|
            #[trigger] answers(answer, (*self, GridRequest { cells, num_cols, width }))).1
    }

    /// Whether this backend knows the font `font`, so that it can shape
    /// text in it. Unless a backend says which fonts it knows, this is only
    /// known to be the same wherever the backend and the font are.
    open spec fn knows(&self, font: FontHandle) -> bool {
        (choose|answer: ((Self, FontHandle), bool)| #[trigger] answers(answer, (*self, font))).1
    }

    /// Whether this backend knows the font `font`.
    fn has_font(&self, font: FontHandle) -> (known: bool)
        ensures
            known == self.knows(font),
    ;

    /// Breaks `text`, set in `font`, into lines no wider than `max_width`
    /// where one is given. The backend must know the font: text in a font
    /// that it does not know cannot be shaped.
    fn shape(&self, text: &str, font: &Font, max_width: Option<Length>) -> (shaped: ShapedText)
        requires
            self.knows(font.font_id),
        ensures
            shaped@ == self.shaped(text@, *font, max_width),
    ;

    /// Sizes the cells of a grid of `num_cols` columns that is `width` wide.
    /// The boxes come back row by row. A grid is solved where there is one
    /// box for each cell.
    fn solve_grid(&self, cells: &Vec<GridCell>, num_cols: usize, width: Length) -> (boxes: Vec<
        CellBox,
    >)
        ensures
            boxes@ == self.grid(views(cells@), num_cols, width),
    ;
}

/// Shapes `text` in `font`, which `backend` must know, against
/// `max_width`.
pub fn shape_text<B: LayoutBackend>(
    backend: &B,
    font: &Font,
    text: &str,
    max_width: Option<Length>,
) -> (shaped: ShapedText)
    requires
        backend.knows(font.font_id),
    ensures
        shaped@ == backend.shaped(text@, *font, max_width),
{
    backend.shape(text, font, max_width)
}

} // verus!
