use vstd::prelude::*;

use crate::generate::element::builder_model::continues;
use crate::generate::element::builder_model::lemma_count_with_more;
use crate::generate::element::builder_model::lemma_grows_transitive;
use crate::generate::element::builder_model::BuilderModel;
use crate::generate::element::element_builder::ElementBuilder;
use crate::generate::element::failure_message;
use crate::generate::element::font_registered;
use crate::generate::element::layout_failure;
use crate::generate::font::Font;
use crate::generate::instruction::Instruction;
use crate::generate::instruction::InstructionModel;
use crate::generate::instruction::PaintMode;
use crate::generate::outline::Rgb;
use crate::generate::text_gen::shape_text;
use crate::generate::text_gen::CellBox;
use crate::generate::text_gen::views;
use crate::generate::text_gen::GridCell;
use crate::generate::text_gen::GridCellModel;
use crate::generate::text_gen::LayoutBackend;
use crate::generate::text_gen::ShapedLine;
use crate::generate::text_gen::ShapedText;
use crate::generate::text_gen::ShapedTextModel;
use crate::generate::text_gen::WordModel;
use crate::generate::units::Length;
use crate::generate::units::Point;

verus! {

/// The grey behind the cells of a header row.
pub const HEADER_SHADE: u8 = 230;

/// The grey behind the cells of every other content row, the first
/// included.
pub const STRIPE_SHADE: u8 = 242;

/// The room that is added to the width of a cell's text area before the
/// text is shaped against it: 3 pt, in units.
pub const CELL_TEXT_SLACK: i64 = 38_100;

/// A table of texts, with a header row that is repeated on every page the
/// table runs over.
#[derive(Clone, Debug)]
pub struct Table {
    pub font: Font,
    pub num_cols: usize,
    pub header: Option<(Vec<String>, Font)>,
    pub content: Vec<Vec<String>>,
}

/// The colour behind the cells of content row `row`: rows are striped,
/// beginning with the darker shade.
pub open spec fn spec_stripe(row: nat) -> Rgb {
    if row % 2 == 0 {
        Rgb { r: STRIPE_SHADE, g: STRIPE_SHADE, b: STRIPE_SHADE }
    } else {
        Rgb { r: 255, g: 255, b: 255 }
    }
}

/// The colour behind the cells of content row `row`.
pub fn stripe(row: usize) -> (color: Rgb)
    ensures
        color == spec_stripe(row as nat),
{
    if row % 2 == 0 {
        Rgb::grey(STRIPE_SHADE)
    } else {
        Rgb::grey(255)
    }
}

/// The height of the highest of the boxes `from` to `to`, the last not
/// included; zero where there is none.
pub open spec fn spec_row_height(boxes: Seq<CellBox>, from: int, to: int) -> Length
    decreases to - from,
{
    if to <= from {
        Length { units: 0 }
    } else {
        spec_row_height(boxes, from, to - 1).spec_max(boxes[to - 1].height)
    }
}

/// The height of the highest of the boxes `from` to `to`, the last not
/// included.
pub fn row_height(boxes: &Vec<CellBox>, from: usize, to: usize) -> (height: Length)
    requires
        from <= to <= boxes.len(),
    ensures
        height == spec_row_height(boxes@, from as int, to as int),
{
    let mut height = Length::zero();
    let mut i: usize = from;
    while i < to
        invariant
            from <= i <= to,
            to <= boxes.len(),
            height == spec_row_height(boxes@, from as int, i as int),
        decreases to - i,
    {
        height = height.max(boxes[i].height);
        i += 1;
    }
    height
}

impl BuilderModel {
    /// The region after a cell was drawn at the cursor: its background in
    /// `color`, as large as `cell_box`, the shaped `lines` on it, inset as
    /// the box says, and the cursor at the right edge of the cell.
    pub open spec fn with_table_cell(
        self,
        cell_box: CellBox,
        lines: Seq<Seq<WordModel>>,
        font: Font,
        color: Rgb,
    ) -> BuilderModel {
        self.emitted(
            InstructionModel::Rect {
                origin: self.cursor,
                width: cell_box.width,
                height: cell_box.height,
                mode: PaintMode::Fill,
                color,
            },
        ).emitted(
            InstructionModel::TextBlock {
                pos: Point {
                    x: self.cursor.x.spec_plus(cell_box.padding_left),
                    y: self.cursor.y.spec_minus(cell_box.padding_top),
                },
                font,
                lines,
            },
        ).shifted(cell_box.width)
    }
}

/// One more instruction on the last page is one more in all, and no
/// more pages.
pub proof fn lemma_emitted_count(region: BuilderModel, instruction: InstructionModel)
    requires
        region.wf(),
    ensures
        region.emitted(instruction).count() == region.count() + 1,
        region.emitted(instruction).pages.len() == region.pages.len(),
{
    lemma_count_with_more(region.pages, region.pages.len() - 1, seq![instruction]);
}

/// A cell is two instructions, its background and its text, on the page
/// of the cursor.
pub proof fn lemma_table_cell_count(
    region: BuilderModel,
    cell_box: CellBox,
    lines: Seq<Seq<WordModel>>,
    font: Font,
    color: Rgb,
)
    requires
        region.wf(),
    ensures
        region.with_table_cell(cell_box, lines, font, color).count() == region.count() + 2,
        region.with_table_cell(cell_box, lines, font, color).pages.len() == region.pages.len(),
{
    let square = InstructionModel::Rect {
        origin: region.cursor,
        width: cell_box.width,
        height: cell_box.height,
        mode: PaintMode::Fill,
        color,
    };
    let text = InstructionModel::TextBlock {
        pos: Point {
            x: region.cursor.x.spec_plus(cell_box.padding_left),
            y: region.cursor.y.spec_minus(cell_box.padding_top),
        },
        font,
        lines,
    };
    lemma_emitted_count(region, square);
    lemma_emitted_count(region.emitted(square), text);
}

/// Moving down adds no instruction, whether or not it breaks the page.
pub proof fn lemma_advanced_count(region: BuilderModel, dy: Length)
    requires
        region.wf(),
    ensures
        region.advanced(dy).count() == region.count(),
{
    if region.breaks_on(dy) {
        assert(region.pages.push(Seq::empty()).drop_last() =~= region.pages);
    }
}

impl ElementBuilder {
    /// Draws one cell at the cursor and moves the cursor to the right edge
    /// of the cell.
    pub fn push_table_cell(
        &mut self,
        cell_box: &CellBox,
        lines: Vec<ShapedLine>,
        font: Font,
        color: Rgb,
    )
        requires
            old(self)@.wf(),
        ensures
            final(self)@ == old(self)@.with_table_cell(*cell_box, views(lines@), font, color),
            old(self)@.grows_into(final(self)@),
            final(self)@.pages.len() == old(self)@.pages.len(),
    {
        let start = self.cursor;
        self.emit(
            Instruction::Rect {
                origin: start,
                width: cell_box.width,
                height: cell_box.height,
                mode: PaintMode::Fill,
                color,
            },
        );
        self.emit(
            Instruction::TextBlock {
                pos: Point {
                    x: start.x.plus(cell_box.padding_left),
                    y: start.y.minus(cell_box.padding_top),
                },
                font,
                lines,
            },
        );
        self.cursor.x = self.cursor.x.plus(cell_box.width);
    }

    /// Draws the cells `from` to `to` of `table`, the last not included, as
    /// one row from the cursor on, and moves the cursor below the row, to
    /// the left edge. Says whether that broke the page.
    pub fn push_table_row(&mut self, table: &BuiltTable, from: usize, to: usize, color: Rgb) -> (broke:
        bool)
        requires
            old(self)@.wf(),
            table.wf(),
            from <= to <= table.cells.len(),
        ensures
            final(self)@ == table.row_drawn(old(self)@, from as int, to as int, color),
            broke == table.row_breaks(old(self)@, from as int, to as int, color),
            old(self)@.grows_into(final(self)@),
            final(self)@.pages.len() == old(self)@.pages.len() + (if broke {
                1nat
            } else {
                0nat
            }),
    {
        let mut i: usize = from;
        while i < to
            invariant
                from <= i <= to,
                to <= table.cells.len(),
                table.wf(),
                old(self)@.wf(),
                old(self)@.grows_into(self@),
                self@.pages.len() == old(self)@.pages.len(),
                self@ == table.cells_drawn(old(self)@, from as int, i as int, color),
            decreases to - i,
        {
            let ghost entered = self@;
            self.push_table_cell(
                &table.boxes[i],
                table.texts[i].copy_lines(),
                table.cells[i].font,
                color,
            );
            proof {
                lemma_grows_transitive(old(self)@, entered, self@);
            }
            i += 1;
        }
        let ghost drawn = self@;
        self.reset_cursor_x();
        let broke = self.advance_cursor(row_height(&table.boxes, from, to));
        proof {
            lemma_grows_transitive(old(self)@, drawn, self@);
        }
        broke
    }
}

impl Table {
    /// Every row is as long as the table has columns, the header row too.
    /// The constructors keep it so.
    pub open spec fn wf(&self) -> bool {
        &&& self.header is Some ==> self.header_len() == self.num_cols
        &&& forall|row: int|
            0 <= row < self.content@.len() ==> (#[trigger] self.content@[row])@.len()
                == self.num_cols
    }

    /// A table of `num_cols` columns, set in `font`, without header or rows.
    pub fn new(num_cols: usize, font: Font) -> (table: Table)
        ensures
            table.num_cols == num_cols,
            table.font == font,
            table.header is None,
            table.content@.len() == 0,
            table.wf(),
    {
        Table { num_cols, header: None, content: Vec::new(), font }
    }

    /// Sets the header row. It is set in `font`, or in the font of the
    /// table where none is given.
    pub fn set_header(&mut self, header: Vec<String>, font: Option<Font>)
        requires
            header.len() == old(self).num_cols,
        ensures
            final(self).header == Some(
                (
                    header,
                    match font {
                        Some(f) => f,
                        None => old(self).font,
                    },
                ),
            ),
            final(self).num_cols == old(self).num_cols,
            final(self).font == old(self).font,
            final(self).content == old(self).content,
            old(self).wf() ==> final(self).wf(),
    {
        let font = match font {
            Some(f) => f,
            None => self.font,
        };
        self.header = Some((header, font));
    }

    /// Adds a row below the rows that are there.
    pub fn add_row(&mut self, row: Vec<String>)
        requires
            row.len() == old(self).num_cols,
        ensures
            final(self).content@ == old(self).content@.push(row),
            final(self).num_cols == old(self).num_cols,
            final(self).font == old(self).font,
            final(self).header == old(self).header,
            old(self).wf() ==> final(self).wf(),
    {
        self.content.push(row);
    }

    /// A table whose rows are all as long as it has columns has a cell for
    /// each column of each row, and of the header row where there is one.
    pub proof fn lemma_cell_count(&self)
        requires
            self.wf(),
        ensures
            self.cell_models().len() == self.header_len() + self.content@.len() * self.num_cols,
    {
        self.lemma_content_cell_count(self.content@.len());
    }

    /// The first `rows` rows of a table whose rows are all as long as it
    /// has columns have as many cells as rows times columns.
    pub proof fn lemma_content_cell_count(&self, rows: nat)
        requires
            self.wf(),
            rows <= self.content@.len(),
        ensures
            self.content_cells(rows).len() == rows * self.num_cols,
        decreases rows,
    {
        let columns = self.num_cols as int;
        if rows > 0 {
            self.lemma_content_cell_count((rows - 1) as nat);
            assert(self.content@[rows - 1]@.len() == self.num_cols);
            assert(self.row_cells(rows - 1).len() == columns);
            assert(self.content_cells(rows).len() == self.content_cells((rows - 1) as nat).len()
                + columns);
            assert(rows * columns == (rows - 1) * columns + columns) by (nonlinear_arith);
        } else {
            assert(0 * columns == 0);
        }
    }

    /// The name of this kind of element, as warnings give it.
    pub fn display_name(&self) -> (name: &'static str)
        ensures
            name@ == "Table"@,
    {
        "Table"
    }

    /// How many cells the header row has.
    pub open spec fn header_len(&self) -> nat {
        match self.header {
            Some(header) => header.0@.len(),
            None => 0,
        }
    }

    /// The cells of the header row; none where the table has no header.
    pub open spec fn header_cells(&self) -> Seq<GridCellModel> {
        match self.header {
            Some(header) => Seq::new(
                header.0@.len(),
                |i: int| GridCellModel { content: header.0@[i]@, font: header.1 },
            ),
            None => Seq::empty(),
        }
    }

    /// The cells of content row `row`.
    pub open spec fn row_cells(&self, row: int) -> Seq<GridCellModel> {
        Seq::new(
            self.content@[row]@.len(),
            |i: int| GridCellModel { content: self.content@[row]@[i]@, font: self.font },
        )
    }

    /// The cells of the first `rows` content rows, row by row.
    pub open spec fn content_cells(&self, rows: nat) -> Seq<GridCellModel>
        decreases rows,
    {
        if rows == 0 {
            Seq::empty()
        } else {
            self.content_cells((rows - 1) as nat) + self.row_cells(rows - 1)
        }
    }

    /// The cells of the table: those of the header, set in the header's
    /// font, then those of the content row by row, set in the table's font.
    pub open spec fn cell_models(&self) -> Seq<GridCellModel> {
        self.header_cells() + self.content_cells(self.content@.len())
    }

    /// Whether the fonts of the table are registered where `fonts` fonts
    /// are: that of the content and that of the header.
    pub open spec fn registered<B: LayoutBackend>(&self, backend: &B, fonts: nat) -> bool {
        &&& font_registered(backend, self.font.font_id, fonts)
        &&& self.header matches Some(header) ==> font_registered(backend, header.1.font_id, fonts)
    }

    /// Whether `backend` knows the fonts of the table, so that the texts of
    /// its cells can be shaped.
    pub open spec fn known<B: LayoutBackend>(&self, backend: &B) -> bool {
        &&& backend.knows(self.font.font_id)
        &&& self.header matches Some(header) ==> backend.knows(header.1.font_id)
    }

    /// The content cells are set in the font of the table.
    pub proof fn lemma_content_cell_fonts(&self, rows: nat)
        ensures
            forall|cell: int|
                0 <= cell < self.content_cells(rows).len() ==> (#[trigger] self.content_cells(
                    rows,
                )[cell]).font == self.font,
        decreases rows,
    {
        if rows > 0 {
            self.lemma_content_cell_fonts((rows - 1) as nat);
            let before = self.content_cells((rows - 1) as nat);
            assert forall|cell: int| 0 <= cell < self.content_cells(rows).len() implies (
            #[trigger] self.content_cells(rows)[cell]).font == self.font by {
                if cell < before.len() {
                    assert(self.content_cells(rows)[cell] == before[cell]);
                } else {
                    assert(self.content_cells(rows)[cell] == self.row_cells(rows - 1)[cell
                        - before.len()]);
                }
            }
        }
    }

    /// Where the backend knows the fonts of the table, it knows the font of
    /// every cell.
    pub proof fn lemma_cell_fonts_known<B: LayoutBackend>(&self, backend: &B)
        requires
            self.known(backend),
        ensures
            forall|cell: int|
                0 <= cell < self.cell_models().len() ==> backend.knows(
                    (#[trigger] self.cell_models()[cell]).font.font_id,
                ),
    {
        self.lemma_content_cell_fonts(self.content@.len());
    }

    /// The cells of the table, row by row, those of the header first.
    pub fn cells(&self) -> (cells: Vec<GridCell>)
        ensures
            views(cells@) == self.cell_models(),
            cells.len() >= self.header_len(),
    {
        let mut cells: Vec<GridCell> = Vec::new();
        match &self.header {
            Some(header) => {
                let mut i: usize = 0;
                while i < header.0.len()
                    invariant
                        i <= header.0.len(),
                        self.header == Some(*header),
                        views(cells@) == self.header_cells().take(i as int),
                    decreases header.0.len() - i,
                {
                    let cell = GridCell { content: header.0[i].clone(), font: header.1 };
                    let ghost before = views(cells@);
                    cells.push(cell);
                    assert(views(cells@) =~= before.push(cell@));
                    i += 1;
                }
            },
            None => {},
        }
        let mut row: usize = 0;
        while row < self.content.len()
            invariant
                row <= self.content.len(),
                views(cells@) == self.header_cells() + self.content_cells(row as nat),
            decreases self.content.len() - row,
        {
            let texts = &self.content[row];
            let mut i: usize = 0;
            while i < texts.len()
                invariant
                    i <= texts.len(),
                    row < self.content.len(),
                    *texts == self.content@[row as int],
                    views(cells@) == self.header_cells() + self.content_cells(row as nat)
                        + self.row_cells(row as int).take(i as int),
                decreases texts.len() - i,
            {
                let cell = GridCell { content: texts[i].clone(), font: self.font };
                let ghost before = views(cells@);
                cells.push(cell);
                assert(views(cells@) =~= before.push(cell@));
                i += 1;
            }
            row += 1;
        }
        cells
    }

    /// A table takes all the width that is left.
    pub fn calculate_width(&self, builder: &ElementBuilder) -> (width: Length)
        ensures
            width == builder@.remaining_width_from_cursor(),
    {
        builder.remaining_width_from_cursor()
    }

    /// The boxes that `backend` gives the cells of the table in a grid
    /// that is `width` wide.
    pub open spec fn boxes<B: LayoutBackend>(&self, backend: &B, width: Length) -> Seq<CellBox> {
        backend.grid(self.cell_models(), self.num_cols, width)
    }

    /// The shaping that `backend` gives the text of cell `cell`: against
    /// the width of the text area of its box, and a little more.
    pub open spec fn cell_text<B: LayoutBackend>(
        &self,
        backend: &B,
        width: Length,
        cell: int,
    ) -> ShapedTextModel {
        backend.shaped(
            self.cell_models()[cell].content,
            self.cell_models()[cell].font,
            Some(
                self.boxes(backend, width)[cell].content_width.spec_plus(
                    Length { units: CELL_TEXT_SLACK },
                ),
            ),
        )
    }

    /// Whether the table can be laid out in a grid that is `width` wide:
    /// it has columns, its header, if it has one, is as long as a row, and
    /// the backend gives a box for each cell.
    pub open spec fn measurable<B: LayoutBackend>(&self, backend: &B, width: Length) -> bool {
        &&& self.num_cols > 0
        &&& self.header is Some ==> self.header_len() == self.num_cols
        &&& self.boxes(backend, width).len() == self.cell_models().len()
    }

    /// Whether `built` is what `backend` measures of the table in a grid
    /// that is `width` wide: its cells, and for each the box and the shaped
    /// text that the backend gives it.
    pub open spec fn measured<B: LayoutBackend>(
        &self,
        backend: &B,
        width: Length,
        built: BuiltTable,
    ) -> bool {
        &&& built.wf()
        &&& built.num_cols == self.num_cols
        &&& built.has_header == self.header is Some
        &&& views(built.cells@) == self.cell_models()
        &&& built.boxes@ == self.boxes(backend, width)
        &&& forall|cell: int|
            0 <= cell < built.texts@.len() ==> (#[trigger] built.texts@[cell])@ == self.cell_text(
                backend,
                width,
                cell,
            )
    }

    /// The region in which the height of the table is measured from the
    /// cursor of `region` on.
    pub open spec fn probe(region: BuilderModel) -> BuilderModel {
        region.region(
            region.cursor,
            region.remaining_width_from_cursor(),
            0,
            region.added_padding_bottom,
        )
    }

    /// The height that the table takes in `region`: that of the rows of
    /// the table as the backend measures it for the width that is left, the
    /// header counted once for each time it is drawn; none where the table
    /// cannot be laid out. Every measuring of the table gives this height,
    /// since the height is that of the grid.
    pub open spec fn spec_height<B: LayoutBackend>(&self, backend: &B, region: BuilderModel) -> Length {
        if self.measurable(backend, region.remaining_width_from_cursor()) {
            (choose|built: BuiltTable| #[trigger]
                self.measured(backend, region.remaining_width_from_cursor(), built)).spec_height(
                Self::probe(region),
            )
        } else {
            Length { units: 0 }
        }
    }

    /// The heights of the rows added up, the header counted once at the
    /// start and once more for every page that it is repeated on. A table
    /// that cannot be laid out takes no height.
    pub fn calculate_height<B: LayoutBackend>(
        &self,
        builder: &ElementBuilder,
        backend: &B,
    ) -> (height: Length)
        requires
            self.known(backend),
            builder@.wf(),
        ensures
            height == self.spec_height(backend, builder@),
    {
        match BuiltTable::build(self, builder, backend) {
            Some(built) => {
                let height = built.height(builder);
                proof {
                    let width = builder@.remaining_width_from_cursor();
                    assert(self.measured(backend, width, built));
                    let chosen = choose|other: BuiltTable| #[trigger]
                        self.measured(backend, width, other);
                    assert(views(chosen.cells@).len() == chosen.cells.len());
                    assert(views(built.cells@).len() == built.cells.len());
                    built.lemma_height_of_same_grid(&chosen, Self::probe(builder@));
                }
                height
            },
            None => Length::zero(),
        }
    }

    /// Whether there is nothing to the table: no columns and no cells.
    pub open spec fn blank(&self) -> bool {
        self.num_cols == 0 && self.cell_models().len() == 0
    }

    /// What laying out the table makes of `region`: the table drawn as
    /// the backend measures it for the width that is left, or, where the
    /// table cannot be laid out, the warning that says so. A table without
    /// columns and cells leaves the region as it is. Every measuring of the
    /// table draws the same, since the cells, their boxes and their shaped
    /// texts are the same.
    pub open spec fn laid_out<B: LayoutBackend>(&self, backend: &B, region: BuilderModel) -> BuilderModel {
        if self.blank() {
            region
        } else if self.measurable(backend, region.remaining_width_from_cursor()) {
            (choose|built: BuiltTable| #[trigger]
                self.measured(backend, region.remaining_width_from_cursor(), built)).drawn(
                region,
            )
        } else {
            region.warned(failure_message("Table"@))
        }
    }

    /// Whether the header row of the table is drawn again on each page
    /// that the table runs onto from `region`: it is where the table can be
    /// laid out, has a header row, and a whole page has room for that row.
    pub open spec fn repeats_header<B: LayoutBackend>(&self, backend: &B, region: BuilderModel) -> bool {
        let width = region.remaining_width_from_cursor();
        self.measurable(backend, width) && (choose|built: BuiltTable| #[trigger]
            self.measured(backend, width, built)).repeats(region)
    }

    /// What the header row of the table puts at the top of a page that the
    /// table runs onto from `region`.
    pub open spec fn header_page<B: LayoutBackend>(
        &self,
        backend: &B,
        region: BuilderModel,
    ) -> Seq<InstructionModel> {
        (choose|built: BuiltTable| #[trigger]
            self.measured(backend, region.remaining_width_from_cursor(), built)).header_page(
            region,
        )
    }

    /// Two measurings of the table for one width are the same table.
    pub proof fn lemma_measured_once<B: LayoutBackend>(
        &self,
        backend: &B,
        width: Length,
        built: BuiltTable,
        other: BuiltTable,
    )
        requires
            self.measured(backend, width, built),
            self.measured(backend, width, other),
        ensures
            built.same_table(&other),
    {
        assert(views(built.cells@).len() == built.cells.len());
        assert(views(other.cells@).len() == other.cells.len());
        assert forall|cell: int| 0 <= cell < built.texts@.len() implies (#[trigger] built.texts@[cell])@
            == other.texts@[cell]@ by {
            assert(other.texts@[cell]@ == self.cell_text(backend, width, cell));
        }
    }

    /// Draws the table from the cursor on, as the backend measures it for
    /// the width that is left: the header row, then the content rows, and
    /// the header row again at the top of each page that a row breaks onto.
    /// A table that cannot be laid out is left out, with a warning; of a
    /// table without columns and cells nothing is drawn, and nothing said.
    pub fn build<B: LayoutBackend>(&self, builder: &mut ElementBuilder, backend: &B)
        requires
            self.known(backend),
            old(builder)@.wf(),
        ensures
            old(builder)@.grows_into(final(builder)@),
            final(builder)@ == self.laid_out(backend, old(builder)@),
            self.repeats_header(backend, old(builder)@) ==> forall|page: int|
                old(builder)@.pages.len() <= page < final(builder)@.pages.len() ==> continues(
                    self.header_page(backend, old(builder)@),
                    #[trigger] final(builder)@.pages[page],
                ),
            self.repeats_header(backend, old(builder)@) ==> final(builder)@.count()
                == old(builder)@.count() + 2 * self.cell_models().len() + 2 * (self.num_cols
                * (final(builder)@.pages.len() - old(builder)@.pages.len())),
            self.header is None && self.measurable(
                backend,
                old(builder)@.remaining_width_from_cursor(),
            ) ==> final(builder)@.count() == old(builder)@.count() + 2 * self.cell_models().len(),
    {
        if self.num_cols == 0 {
            let cells = self.cells();
            assert(views(cells@).len() == cells.len());
            if cells.len() == 0 {
                return ;
            }
        }
        match BuiltTable::build(self, builder, backend) {
            Some(built) => {
                let headers = built.draw(builder);
                proof {
                    let added = builder@.pages.len() - old(builder)@.pages.len();
                    assert(views(built.cells@).len() == built.cells.len());
                    assert((1 + added) * self.num_cols == self.num_cols + self.num_cols * added)
                        by (nonlinear_arith);
                    assert(0 * self.num_cols == 0);
                }
                assert(self.measured(backend, old(builder)@.remaining_width_from_cursor(), built));
                proof {
                    let before = old(builder)@;
                    let width = before.remaining_width_from_cursor();
                    let chosen = choose|other: BuiltTable| #[trigger]
                        self.measured(backend, width, other);
                    self.lemma_measured_once(backend, width, built, chosen);
                    built.lemma_drawn_of_same_table(&chosen, before);
                    if built.has_header {
                        built.lemma_cells_drawn_of_same_table(
                            &chosen,
                            before.alone().with_cursor(before.top_left()),
                            0,
                            built.num_cols as int,
                            BuiltTable::header_color(),
                        );
                    }
                }
            },
            None => {
                builder.warn(layout_failure(self.display_name()));
            },
        }
    }
}

/// A table that was measured: its cells row by row, those of the header
/// first, and for each cell its box and its shaped text.
pub struct BuiltTable {
    pub cells: Vec<GridCell>,
    pub boxes: Vec<CellBox>,
    pub texts: Vec<ShapedText>,
    pub has_header: bool,
    pub num_cols: usize,
}

impl BuilderModel {
    /// The region with nothing on its one page and no warnings, and all
    /// else as it is.
    pub open spec fn alone(self) -> BuilderModel {
        BuilderModel { pages: seq![Seq::empty()], errors: Seq::empty(), ..self }
    }

    /// Where the cursor stands at the top of a page.
    pub open spec fn top_left(self) -> Point {
        Point { x: self.origin.x, y: self.style.spec_page_top() }
    }

    /// The height that is left below the cursor at the top of a page.
    pub open spec fn fresh_height(self) -> Length {
        self.style.spec_page_top().spec_minus(self.style.padding.bottom).spec_minus(
            self.added_padding_bottom,
        )
    }
}

impl BuiltTable {
    /// There are a box and a text for each cell, rows have cells, and a
    /// header row is whole.
    pub open spec fn wf(&self) -> bool {
        &&& self.cells.len() == self.boxes.len()
        &&& self.cells.len() == self.texts.len()
        &&& self.num_cols > 0
        &&& self.has_header ==> self.num_cols <= self.cells.len()
    }

    /// Where the content begins among the cells: behind the header row.
    pub open spec fn spec_content_start(&self) -> int {
        if self.has_header {
            self.num_cols as int
        } else {
            0
        }
    }

    /// Where the row that begins at cell `start` ends: one row further, or
    /// at the last cell where the row is short.
    pub open spec fn spec_row_end(&self, start: int) -> int {
        if self.cells.len() - start > self.num_cols {
            start + self.num_cols
        } else {
            self.cells.len() as int
        }
    }

    /// The colour behind the cells of a header row.
    pub open spec fn header_color() -> Rgb {
        Rgb { r: HEADER_SHADE, g: HEADER_SHADE, b: HEADER_SHADE }
    }

    /// The height of the header row; zero where there is none.
    pub open spec fn spec_header_height(&self) -> Length {
        spec_row_height(self.boxes@, 0, self.spec_content_start())
    }

    /// Whether the header row is repeated on the pages that the table runs
    /// onto: it is where there is one and a whole page has room for it. A
    /// header row that no page can hold is drawn once, where the table
    /// starts.
    pub open spec fn repeats(&self, region: BuilderModel) -> bool {
        self.has_header && self.spec_header_height()@ <= region.fresh_height()@
    }

    /// What drawing the cells `from` to `to`, the last not included, side
    /// by side makes of `region`.
    pub open spec fn cells_drawn(&self, region: BuilderModel, from: int, to: int, color: Rgb) -> BuilderModel
        decreases to - from,
    {
        if to <= from {
            region
        } else {
            self.cells_drawn(region, from, to - 1, color).with_table_cell(
                self.boxes@[to - 1],
                self.texts@[to - 1]@.lines,
                self.cells@[to - 1].font,
                color,
            )
        }
    }

    /// Whether moving below the row of the cells `from` to `to` breaks the
    /// page.
    pub open spec fn row_breaks(&self, region: BuilderModel, from: int, to: int, color: Rgb) -> bool {
        self.cells_drawn(region, from, to, color).at_left_edge().breaks_on(
            spec_row_height(self.boxes@, from, to),
        )
    }

    /// What drawing the cells `from` to `to` as a row makes of `region`:
    /// the cells side by side, and the cursor below the highest of them, at
    /// the left edge.
    pub open spec fn row_drawn(&self, region: BuilderModel, from: int, to: int, color: Rgb) -> BuilderModel {
        self.cells_drawn(region, from, to, color).at_left_edge().advanced(
            spec_row_height(self.boxes@, from, to),
        )
    }

    /// What the header row puts onto a page that it opens: its cells, from
    /// the top left corner of the page on.
    pub open spec fn header_page(&self, region: BuilderModel) -> Seq<InstructionModel> {
        self.cells_drawn(
            region.alone().with_cursor(region.top_left()),
            0,
            self.num_cols as int,
            Self::header_color(),
        ).pages[0]
    }

    /// What drawing the cells `from` to `to` as a row makes of `region`,
    /// the header row included that follows where the row breaks the page:
    /// a header row that is repeated is drawn again at the top of the new
    /// page, whatever row it was that broke the page.
    pub open spec fn row_then_header(
        &self,
        region: BuilderModel,
        from: int,
        to: int,
        color: Rgb,
    ) -> BuilderModel {
        let below = self.row_drawn(region, from, to, color);
        if self.row_breaks(region, from, to, color) && self.repeats(region) {
            self.row_drawn(
                below.with_cursor(below.top_left()),
                0,
                self.num_cols as int,
                Self::header_color(),
            )
        } else {
            below
        }
    }

    /// What drawing the header row where the table starts makes of
    /// `region`; nothing new where the table has no header.
    pub open spec fn header_drawn(&self, region: BuilderModel) -> BuilderModel {
        if self.has_header {
            self.row_then_header(region, 0, self.num_cols as int, Self::header_color())
        } else {
            region
        }
    }

    /// What drawing the content rows from cell `start` on makes of
    /// `region`, where the first of them is content row `row`: each row is
    /// drawn in its stripe, with the header row behind it where it breaks
    /// the page.
    pub open spec fn rows_drawn(&self, region: BuilderModel, start: int, row: nat) -> BuilderModel
        decreases self.cells.len() - start,
    {
        if 0 <= start < self.cells.len() && self.num_cols > 0 {
            self.rows_drawn(
                self.row_then_header(region, start, self.spec_row_end(start), spec_stripe(row)),
                self.spec_row_end(start),
                row + 1,
            )
        } else {
            region
        }
    }

    /// What drawing the table makes of `region`: the header row, then the
    /// content rows.
    pub open spec fn drawn(&self, region: BuilderModel) -> BuilderModel {
        self.rows_drawn(self.header_drawn(region), self.spec_content_start(), 0)
    }

    /// Whether `boxes` and `texts` can be those of the cells of `table`:
    /// the table has columns, there are a box and a text for each cell, and
    /// a header row is as long as the rows are.
    pub open spec fn fits(
        table: &Table,
        cells: Seq<GridCell>,
        boxes: Seq<CellBox>,
        texts: Seq<ShapedText>,
    ) -> bool {
        &&& table.num_cols > 0
        &&& boxes.len() == cells.len()
        &&& texts.len() == cells.len()
        &&& table.header is Some ==> table.header_len() == table.num_cols && cells.len()
            >= table.num_cols
    }

    /// Has the grid of `table` solved for the width that is left from the
    /// cursor, and the text of each cell shaped against the width of the
    /// text area of its box and a little more. Gives the measured table
    /// exactly where the table can be laid out in that width.
    pub fn build<B: LayoutBackend>(table: &Table, builder: &ElementBuilder, backend: &B) -> (built:
        Option<BuiltTable>)
        requires
            table.known(backend),
        ensures
            built is Some <==> table.measurable(backend, builder@.remaining_width_from_cursor()),
            built matches Some(b) ==> table.measured(
                backend,
                builder@.remaining_width_from_cursor(),
                b,
            ),
    {
        let ghost width = builder@.remaining_width_from_cursor();
        let cells = table.cells();
        proof {
            table.lemma_cell_fonts_known(backend);
        }
        let boxes = backend.solve_grid(&cells, table.num_cols, builder.remaining_width_from_cursor());
        let mut texts: Vec<ShapedText> = Vec::new();
        if boxes.len() == cells.len() {
            let slack = Length::from_units(CELL_TEXT_SLACK);
            let mut i: usize = 0;
            while i < cells.len()
                invariant
                    i <= cells.len(),
                    boxes.len() == cells.len(),
                    texts.len() == i,
                    slack == (Length { units: CELL_TEXT_SLACK }),
                    views(cells@) == table.cell_models(),
                    boxes@ == table.boxes(backend, width),
                    forall|cell: int|
                        0 <= cell < table.cell_models().len() ==> backend.knows(
                            (#[trigger] table.cell_models()[cell]).font.font_id,
                        ),
                    forall|cell: int|
                        0 <= cell < i ==> (#[trigger] texts@[cell])@ == table.cell_text(
                            backend,
                            width,
                            cell,
                        ),
                decreases cells.len() - i,
            {
                assert(cells@[i as int]@ == table.cell_models()[i as int]);
                let text = shape_text(
                    backend,
                    &cells[i].font,
                    cells[i].content.as_str(),
                    Some(boxes[i].content_width.plus(slack)),
                );
                texts.push(text);
                i += 1;
            }
        }
        assert(views(cells@).len() == cells.len());
        Self::accept(table, cells, boxes, texts)
    }

    /// Takes what was measured of `table` where it fits the table.
    pub fn accept(
        table: &Table,
        cells: Vec<GridCell>,
        boxes: Vec<CellBox>,
        texts: Vec<ShapedText>,
    ) -> (built: Option<BuiltTable>)
        ensures
            built is Some <==> Self::fits(table, cells@, boxes@, texts@),
            built matches Some(b) ==> {
                &&& b.wf()
                &&& b.cells == cells
                &&& b.boxes == boxes
                &&& b.texts == texts
                &&& b.num_cols == table.num_cols
                &&& b.has_header == table.header is Some
            },
    {
        let header_fits = match &table.header {
            Some(header) => header.0.len() == table.num_cols && cells.len() >= table.num_cols,
            None => true,
        };
        if table.num_cols == 0 || boxes.len() != cells.len() || texts.len() != cells.len()
            || !header_fits {
            None
        } else {
            Some(
                BuiltTable {
                    cells,
                    boxes,
                    texts,
                    has_header: table.header.is_some(),
                    num_cols: table.num_cols,
                },
            )
        }
    }

    /// Where the header row ends among the cells, if there is one.
    pub fn header_cells(&self) -> (end: Option<usize>)
        requires
            self.wf(),
        ensures
            end == if self.has_header {
                Some(self.num_cols)
            } else {
                None::<usize>
            },
            end matches Some(e) ==> e <= self.cells.len(),
    {
        if self.has_header {
            Some(self.num_cols)
        } else {
            None
        }
    }

    /// Where the content begins among the cells.
    pub fn content_cells(&self) -> (start: usize)
        requires
            self.wf(),
        ensures
            start == self.spec_content_start(),
            start <= self.cells.len(),
    {
        if self.has_header {
            self.num_cols
        } else {
            0
        }
    }

    /// Where the row that begins at cell `start` ends.
    pub fn row_cells(&self, start: usize) -> (end: usize)
        requires
            self.wf(),
            start < self.cells.len(),
        ensures
            end == self.spec_row_end(start as int),
            start < end <= self.cells.len(),
    {
        if self.cells.len() - start > self.num_cols {
            start + self.num_cols
        } else {
            self.cells.len()
        }
    }

    /// The height of the header row; zero where there is none.
    pub fn header_height(&self) -> (height: Length)
        requires
            self.wf(),
        ensures
            height == self.spec_header_height(),
    {
        row_height(&self.boxes, 0, self.content_cells())
    }

    /// Whether the header row is repeated on the pages that the table runs
    /// onto in the region of `builder`.
    pub fn header_repeats(&self, builder: &ElementBuilder) -> (repeats: bool)
        requires
            self.wf(),
        ensures
            repeats == self.repeats(builder@),
    {
        let fresh = builder.style.page_top().minus(builder.style.padding.bottom).minus(
            builder.added_padding_bottom,
        );
        self.has_header && self.header_height().at_most(fresh)
    }

    /// The region and the height so far after the cursor moved below a
    /// row of height `row`: the header row is counted and passed again where
    /// the row breaks the page and the header is repeated.
    pub open spec fn height_below(
        &self,
        probe: BuilderModel,
        height: Length,
        row: Length,
    ) -> (BuilderModel, Length) {
        if probe.breaks_on(row) && self.repeats(probe) {
            (
                probe.advanced(row).with_cursor(probe.top_left()).advanced(self.spec_header_height()),
                height.spec_plus(row).spec_plus(self.spec_header_height()),
            )
        } else {
            (probe.advanced(row), height.spec_plus(row))
        }
    }

    /// The height of the rows from cell `start` on, added to `height`,
    /// when the cursor moves down row by row from where `probe` has it.
    pub open spec fn rows_height(&self, probe: BuilderModel, start: int, height: Length) -> Length
        decreases self.cells.len() - start,
    {
        if 0 <= start < self.cells.len() && self.num_cols > 0 {
            let end = self.spec_row_end(start);
            let below = self.height_below(probe, height, spec_row_height(self.boxes@, start, end));
            self.rows_height(below.0, end, below.1)
        } else {
            height
        }
    }

    /// The height that the table takes from the cursor of `region` on:
    /// the heights of the rows added up, the header counted once where the
    /// table starts and once more for every page that it is repeated on.
    pub open spec fn spec_height(&self, region: BuilderModel) -> Length {
        if self.has_header {
            let below = self.height_below(
                region,
                Length { units: 0 },
                self.spec_header_height(),
            );
            self.rows_height(below.0, self.spec_content_start(), below.1)
        } else {
            self.rows_height(region, 0, Length { units: 0 })
        }
    }

    /// Whether `other` has the same grid: as many cells in as many
    /// columns, the same boxes, and a header row as well or none either.
    pub open spec fn same_grid(&self, other: &BuiltTable) -> bool {
        &&& self.cells.len() == other.cells.len()
        &&& self.boxes@ == other.boxes@
        &&& self.has_header == other.has_header
        &&& self.num_cols == other.num_cols
    }

    /// Whether `other` is the same table: the same grid, and in each cell
    /// the same text, shaped the same, in the same font.
    pub open spec fn same_table(&self, other: &BuiltTable) -> bool {
        &&& self.same_grid(other)
        &&& views(self.cells@) == views(other.cells@)
        &&& self.texts@.len() == other.texts@.len()
        &&& forall|cell: int|
            0 <= cell < self.texts@.len() ==> (#[trigger] self.texts@[cell])@
                == other.texts@[cell]@
    }

    /// The same tables draw the same cells.
    pub proof fn lemma_cells_drawn_of_same_table(
        &self,
        other: &BuiltTable,
        region: BuilderModel,
        from: int,
        to: int,
        color: Rgb,
    )
        requires
            self.wf(),
            other.wf(),
            self.same_table(other),
            0 <= from,
            to <= self.cells.len(),
        ensures
            self.cells_drawn(region, from, to, color) == other.cells_drawn(region, from, to, color),
        decreases to - from,
    {
        if from < to {
            self.lemma_cells_drawn_of_same_table(other, region, from, to - 1, color);
            assert(views(self.cells@)[to - 1] == self.cells@[to - 1]@);
            assert(views(other.cells@)[to - 1] == other.cells@[to - 1]@);
            assert(self.texts@[to - 1]@ == other.texts@[to - 1]@);
        }
    }

    /// The same tables draw the same row, and the same header behind it.
    pub proof fn lemma_row_of_same_table(
        &self,
        other: &BuiltTable,
        region: BuilderModel,
        from: int,
        to: int,
        color: Rgb,
    )
        requires
            self.wf(),
            other.wf(),
            self.same_table(other),
            0 <= from,
            to <= self.cells.len(),
        ensures
            self.row_then_header(region, from, to, color) == other.row_then_header(
                region,
                from,
                to,
                color,
            ),
    {
        self.lemma_cells_drawn_of_same_table(other, region, from, to, color);
        if self.row_breaks(region, from, to, color) && self.repeats(region) {
            let below = self.row_drawn(region, from, to, color);
            self.lemma_cells_drawn_of_same_table(
                other,
                below.with_cursor(below.top_left()),
                0,
                self.num_cols as int,
                Self::header_color(),
            );
        }
    }

    /// The same tables draw the same content rows.
    pub proof fn lemma_rows_drawn_of_same_table(
        &self,
        other: &BuiltTable,
        region: BuilderModel,
        start: int,
        row: nat,
    )
        requires
            self.wf(),
            other.wf(),
            self.same_table(other),
        ensures
            self.rows_drawn(region, start, row) == other.rows_drawn(region, start, row),
        decreases self.cells.len() - start,
    {
        if 0 <= start < self.cells.len() && self.num_cols > 0 {
            let end = self.spec_row_end(start);
            self.lemma_row_of_same_table(other, region, start, end, spec_stripe(row));
            self.lemma_rows_drawn_of_same_table(
                other,
                self.row_then_header(region, start, end, spec_stripe(row)),
                end,
                row + 1,
            );
        }
    }

    /// The same tables are drawn the same.
    pub proof fn lemma_drawn_of_same_table(&self, other: &BuiltTable, region: BuilderModel)
        requires
            self.wf(),
            other.wf(),
            self.same_table(other),
        ensures
            self.drawn(region) == other.drawn(region),
    {
        if self.has_header {
            self.lemma_row_of_same_table(
                other,
                region,
                0,
                self.num_cols as int,
                Self::header_color(),
            );
        }
        self.lemma_rows_drawn_of_same_table(
            other,
            self.header_drawn(region),
            self.spec_content_start(),
            0,
        );
    }

    /// Tables with the same grid take the same height: the texts in the
    /// cells do not count.
    pub proof fn lemma_rows_height_of_same_grid(
        &self,
        other: &BuiltTable,
        probe: BuilderModel,
        start: int,
        height: Length,
    )
        requires
            self.same_grid(other),
        ensures
            self.rows_height(probe, start, height) == other.rows_height(probe, start, height),
        decreases self.cells.len() - start,
    {
        if 0 <= start < self.cells.len() && self.num_cols > 0 {
            let end = self.spec_row_end(start);
            let below = self.height_below(probe, height, spec_row_height(self.boxes@, start, end));
            self.lemma_rows_height_of_same_grid(other, below.0, end, below.1);
        }
    }

    /// Tables with the same grid take the same height from the cursor of
    /// `region` on.
    pub proof fn lemma_height_of_same_grid(&self, other: &BuiltTable, region: BuilderModel)
        requires
            self.same_grid(other),
        ensures
            self.spec_height(region) == other.spec_height(region),
    {
        if self.has_header {
            let below = self.height_below(
                region,
                Length { units: 0 },
                self.spec_header_height(),
            );
            self.lemma_rows_height_of_same_grid(other, below.0, self.spec_content_start(), below.1);
        } else {
            self.lemma_rows_height_of_same_grid(other, region, 0, Length { units: 0 });
        }
    }

    /// Moves the cursor of `probe` below a row of height `row` and adds
    /// what that takes to `height`.
    fn measure_below(&self, probe: &mut ElementBuilder, height: Length, row: Length) -> (sum: Length)
        requires
            self.wf(),
        ensures
            (final(probe)@, sum) == self.height_below(old(probe)@, height, row),
    {
        let repeats = self.header_repeats(probe);
        let mut sum = height.plus(row);
        if probe.advance_cursor(row) && repeats {
            let header = self.header_height();
            sum = sum.plus(header);
            probe.cursor = Point { x: probe.origin.x, y: probe.style.page_top() };
            probe.advance_cursor(header);
        }
        sum
    }

    /// The height that the table takes from the cursor of `builder` on.
    pub fn height(&self, builder: &ElementBuilder) -> (height: Length)
        requires
            self.wf(),
        ensures
            height == self.spec_height(
                builder@.region(
                    builder.cursor,
                    builder@.remaining_width_from_cursor(),
                    0,
                    builder.added_padding_bottom,
                ),
            ),
    {
        let mut probe = builder.generate_region(
            builder.cursor,
            builder.remaining_width_from_cursor(),
            0,
            builder.added_padding_bottom,
        );
        let ghost region = probe@;
        let mut height = Length::zero();
        if self.has_header {
            height = self.measure_below(&mut probe, height, self.header_height());
        }
        let mut start = self.content_cells();
        while start < self.cells.len()
            invariant
                self.wf(),
                start <= self.cells.len(),
                self.rows_height(probe@, start as int, height) == self.spec_height(region),
            decreases self.cells.len() - start,
        {
            let end = self.row_cells(start);
            height = self.measure_below(&mut probe, height, row_height(&self.boxes, start, end));
            start = end;
        }
        height
    }

    /// Draws the cells `from` to `to` as a row and, where that breaks the
    /// page and the header row is repeated, the header row at the top of the
    /// new page. Says whether the row broke the page.
    pub fn push_row_then_header(
        &self,
        builder: &mut ElementBuilder,
        from: usize,
        to: usize,
        color: Rgb,
    ) -> (broke: bool)
        requires
            self.wf(),
            old(builder)@.wf(),
            from <= to <= self.cells.len(),
        ensures
            final(builder)@ == self.row_then_header(old(builder)@, from as int, to as int, color),
            broke == self.row_breaks(old(builder)@, from as int, to as int, color),
            old(builder)@.grows_into(final(builder)@),
            final(builder)@.pages.len() == old(builder)@.pages.len() + (if broke {
                1nat
            } else {
                0nat
            }),
            broke && self.repeats(old(builder)@) ==> final(builder)@.pages.last()
                == self.header_page(old(builder)@),
    {
        let repeats = self.header_repeats(builder);
        let broke = builder.push_table_row(self, from, to, color);
        if broke && repeats {
            let ghost below = builder@;
            builder.cursor = Point { x: builder.origin.x, y: builder.style.page_top() };
            let ghost top = builder@;
            proof {
                assert(top.alone() == old(builder)@.alone().with_cursor(old(builder)@.top_left()));
                self.lemma_cells_stay_on_page(top, 0, self.num_cols as int, Self::header_color());
                assert(top.pages.last() =~= Seq::<InstructionModel>::empty());
            }
            builder.push_table_row(self, 0, self.num_cols, Rgb::grey(HEADER_SHADE));
            proof {
                lemma_grows_transitive(old(builder)@, below, builder@);
                assert(builder@.pages.last() =~= self.header_page(old(builder)@));
            }
        }
        broke
    }

    /// Cells that are drawn side by side are two instructions each, on the
    /// page of the cursor.
    pub proof fn lemma_cells_count(&self, region: BuilderModel, from: int, to: int, color: Rgb)
        requires
            region.wf(),
            from <= to,
        ensures
            self.cells_drawn(region, from, to, color).count() == region.count() + 2 * (to - from),
            self.cells_drawn(region, from, to, color).pages.len() == region.pages.len(),
        decreases to - from,
    {
        if from < to {
            self.lemma_cells_count(region, from, to - 1, color);
            lemma_table_cell_count(
                self.cells_drawn(region, from, to - 1, color),
                self.boxes@[to - 1],
                self.texts@[to - 1]@.lines,
                self.cells@[to - 1].font,
                color,
            );
        }
    }

    /// A row is two instructions for each of its cells, and as many again
    /// for each cell of the header row where the header row follows it onto
    /// a new page.
    pub proof fn lemma_row_count(&self, region: BuilderModel, from: int, to: int, color: Rgb)
        requires
            region.wf(),
            from <= to,
        ensures
            self.row_then_header(region, from, to, color).count() == region.count() + 2 * (to
                - from) + (if self.row_breaks(region, from, to, color) && self.repeats(region) {
                2 * self.num_cols
            } else {
                0
            }),
    {
        self.lemma_cells_count(region, from, to, color);
        lemma_advanced_count(
            self.cells_drawn(region, from, to, color).at_left_edge(),
            spec_row_height(self.boxes@, from, to),
        );
        if self.row_breaks(region, from, to, color) && self.repeats(region) {
            let below = self.row_drawn(region, from, to, color);
            let top = below.with_cursor(below.top_left());
            self.lemma_cells_count(top, 0, self.num_cols as int, Self::header_color());
            lemma_advanced_count(
                self.cells_drawn(top, 0, self.num_cols as int, Self::header_color()).at_left_edge(),
                spec_row_height(self.boxes@, 0, self.num_cols as int),
            );
        }
    }

    /// Cells that are drawn side by side stay on the last page of their
    /// region and leave all else but the cursor's place on the line as it
    /// is: what they put there is what they put onto an empty page from the
    /// same cursor.
    pub proof fn lemma_cells_stay_on_page(&self, region: BuilderModel, from: int, to: int, color: Rgb)
        requires
            region.wf(),
        ensures
            self.cells_drawn(region, from, to, color) == (BuilderModel {
                cursor: self.cells_drawn(region.alone(), from, to, color).cursor,
                pages: region.pages.update(
                    region.pages.len() - 1,
                    region.pages.last() + self.cells_drawn(region.alone(), from, to, color).pages[0],
                ),
                ..region
            }),
            self.cells_drawn(region.alone(), from, to, color).cursor.y == region.cursor.y,
            self.cells_drawn(region.alone(), from, to, color).pages.len() == 1,
        decreases to - from,
    {
        if to <= from {
            assert(region.pages.update(
                region.pages.len() - 1,
                region.pages.last() + Seq::<InstructionModel>::empty(),
            ) =~= region.pages);
        } else {
            self.lemma_cells_stay_on_page(region, from, to - 1, color);
            let before = self.cells_drawn(region, from, to - 1, color);
            let alone = self.cells_drawn(region.alone(), from, to - 1, color);
            let after = self.cells_drawn(region, from, to, color);
            let after_alone = self.cells_drawn(region.alone(), from, to, color);
            let last = region.pages.len() - 1;
            let square = InstructionModel::Rect {
                origin: before.cursor,
                width: self.boxes@[to - 1].width,
                height: self.boxes@[to - 1].height,
                mode: PaintMode::Fill,
                color,
            };
            let text = InstructionModel::TextBlock {
                pos: Point {
                    x: before.cursor.x.spec_plus(self.boxes@[to - 1].padding_left),
                    y: before.cursor.y.spec_minus(self.boxes@[to - 1].padding_top),
                },
                font: self.cells@[to - 1].font,
                lines: self.texts@[to - 1]@.lines,
            };
            assert(before.cursor == alone.cursor);
            assert(before.pages[last] == region.pages.last() + alone.pages[0]);
            assert(after.pages[last] =~= before.pages[last].push(square).push(text));
            assert(after_alone.pages.len() == 1);
            assert(after_alone.pages[0] =~= alone.pages[0].push(square).push(text));
            assert(after.pages =~= region.pages.update(
                last,
                region.pages.last() + after_alone.pages[0],
            ));
        }
    }

    /// Draws the header row where the table starts; nothing where there is
    /// none. Says whether moving below the row broke the page.
    pub fn build_headers(&self, builder: &mut ElementBuilder) -> (broke: bool)
        requires
            self.wf(),
            old(builder)@.wf(),
        ensures
            final(builder)@ == self.header_drawn(old(builder)@),
            old(builder)@.grows_into(final(builder)@),
            !self.has_header ==> !broke,
            self.has_header ==> broke == self.row_breaks(
                old(builder)@,
                0,
                self.num_cols as int,
                Self::header_color(),
            ),
            final(builder)@.pages.len() == old(builder)@.pages.len() + (if broke {
                1nat
            } else {
                0nat
            }),
            broke && self.repeats(old(builder)@) ==> final(builder)@.pages.last()
                == self.header_page(old(builder)@),
    {
        match self.header_cells() {
            Some(end) => self.push_row_then_header(builder, 0, end, Rgb::grey(HEADER_SHADE)),
            None => false,
        }
    }

    /// Draws the table from the cursor on: the header row, then the
    /// content rows. Gives the count of header rows that were drawn.
    ///
    /// Where a whole page has room for the header row, every page that the
    /// table runs onto begins with it, whichever row it was that broke the
    /// page, so that the header is drawn once more than the table breaks the
    /// page. A header row that no page can hold is drawn once.
    pub fn draw(&self, builder: &mut ElementBuilder) -> (headers: usize)
        requires
            self.wf(),
            old(builder)@.wf(),
        ensures
            final(builder)@ == self.drawn(old(builder)@),
            old(builder)@.grows_into(final(builder)@),
            self.repeats(old(builder)@) ==> headers == 1 + final(builder)@.pages.len() - old(
                builder,
            )@.pages.len(),
            self.has_header && !self.repeats(old(builder)@) ==> headers == 1,
            !self.has_header ==> headers == 0,
            self.repeats(old(builder)@) ==> forall|page: int|
                old(builder)@.pages.len() <= page < final(builder)@.pages.len() ==> continues(
                    self.header_page(old(builder)@),
                    #[trigger] final(builder)@.pages[page],
                ),
            final(builder)@.count() == old(builder)@.count() + 2 * (self.cells.len()
                - self.spec_content_start()) + 2 * (headers * self.num_cols),
    {
        let repeats = self.header_repeats(builder);
        let mut headers: usize = 0;
        if self.has_header {
            headers = 1;
            proof {
                self.lemma_row_count(old(builder)@, 0, self.num_cols as int, Self::header_color());
            }
            if self.build_headers(builder) && repeats {
                assert(builder@.pages.len() == builder.pages.len());
                headers = 2;
            }
        }
        assert(headers * self.num_cols == if headers == 2 {
            2 * self.num_cols
        } else if headers == 1 {
            self.num_cols as int
        } else {
            0
        }) by (nonlinear_arith)
            requires
                headers <= 2,
        ;
        let mut start = self.content_cells();
        let mut row: usize = 0;
        while start < self.cells.len()
            invariant
                self.wf(),
                self.spec_content_start() <= start <= self.cells.len(),
                row <= start - self.spec_content_start(),
                old(builder)@.wf(),
                old(builder)@.grows_into(builder@),
                repeats == self.repeats(old(builder)@),
                self.rows_drawn(builder@, start as int, row as nat) == self.drawn(old(builder)@),
                repeats ==> headers == 1 + builder@.pages.len() - old(builder)@.pages.len(),
                self.has_header && !repeats ==> headers == 1,
                !self.has_header ==> headers == 0,
                repeats ==> forall|page: int|
                    old(builder)@.pages.len() <= page < builder@.pages.len() ==> continues(
                        self.header_page(old(builder)@),
                        #[trigger] builder@.pages[page],
                    ),
                builder@.count() == old(builder)@.count() + 2 * (start - self.spec_content_start())
                    + 2 * (headers * self.num_cols),
            decreases self.cells.len() - start,
        {
            let end = self.row_cells(start);
            let ghost entered = builder@;
            assert(self.repeats(entered) == repeats);
            assert(self.header_page(entered) == self.header_page(old(builder)@)) by {
                assert(entered.alone().with_cursor(entered.top_left()) == old(
                    builder,
                )@.alone().with_cursor(old(builder)@.top_left()));
            }
            let broke = self.push_row_then_header(builder, start, end, stripe(row));
            proof {
                self.lemma_row_count(entered, start as int, end as int, spec_stripe(row as nat));
                assert((headers + 1) * self.num_cols == headers * self.num_cols + self.num_cols)
                    by (nonlinear_arith);
                lemma_grows_transitive(old(builder)@, entered, builder@);
                if repeats {
                    assert forall|page: int|
                        old(builder)@.pages.len() <= page < builder@.pages.len() implies continues(
                        self.header_page(old(builder)@),
                        #[trigger] builder@.pages[page],
                    ) by {
                        if page < entered.pages.len() {
                            assert(continues(self.header_page(old(builder)@), entered.pages[page]));
                            assert(continues(entered.pages[page], builder@.pages[page]));
                        }
                    }
                }
            }
            if broke && repeats {
                assert(builder@.pages.len() == builder.pages.len());
                headers = headers + 1;
            }
            start = end;
            row = row + 1;
        }
        headers
    }
}

} // verus!
