use pdf_generator::generate::document::Document;
use pdf_generator::generate::element::checkbox_group::checkbox_height;
use pdf_generator::generate::element::checkbox_group::checkbox_width;
use pdf_generator::generate::element::checkbox_group::row_height as checkbox_row_height;
use pdf_generator::generate::element::checkbox_group::row_width as checkbox_row_width;
use pdf_generator::generate::element::checkbox_group::CheckboxGroup;
use pdf_generator::generate::element::element_builder::auto_left_width;
use pdf_generator::generate::element::column::column_cursor_y;
use pdf_generator::generate::element::column::Column;
use pdf_generator::generate::element::column::LeftWidth;
use pdf_generator::generate::element::cursor_offset::CursorOffset;
use pdf_generator::generate::element::custom::Custom;
use pdf_generator::generate::element::element_builder::ElementBuilder;
use pdf_generator::generate::element::empty::Empty;
use pdf_generator::generate::element::group::Group;
use pdf_generator::generate::element::image::Image;
use pdf_generator::generate::element::image_flex::flex_placement;
use pdf_generator::generate::element::image_flex::FlexPlacement;
use pdf_generator::generate::element::image_flex::ImageFlex;
use pdf_generator::generate::element::layout_failure;
use pdf_generator::generate::element::line::Line;
use pdf_generator::generate::element::paragraph::Paragraph;
use pdf_generator::generate::element::table::row_height;
use pdf_generator::generate::element::table::stripe;
use pdf_generator::generate::element::table::BuiltTable;
use pdf_generator::generate::element::table::Table;
use pdf_generator::generate::element::Element;
use pdf_generator::generate::font::Font;
use pdf_generator::generate::font::FontHandle;
use pdf_generator::generate::instruction::ImageHandle;
use pdf_generator::generate::instruction::Instruction;
use pdf_generator::generate::instruction::PaintMode;
use pdf_generator::generate::instruction::Scale;
use pdf_generator::generate::outline::LineStyle;
use pdf_generator::generate::outline::Rgb;
use pdf_generator::generate::outline::TextOutline;
use pdf_generator::generate::padding::Padding;
use pdf_generator::generate::text_gen::CellBox;
use pdf_generator::generate::text_gen::GridCell;
use pdf_generator::generate::text_gen::LayoutBackend;
use pdf_generator::generate::text_gen::LayoutConfig;
use pdf_generator::generate::text_gen::ShapedLine;
use pdf_generator::generate::text_gen::ShapedText;
use pdf_generator::generate::text_gen::ShapedWord;
use pdf_generator::generate::units::Length;
use pdf_generator::generate::units::Point;

fn mm(v: i64) -> Length {
    Length::from_mm(v)
}

fn pt(v: i64) -> Length {
    Length::from_pt(v)
}

fn units(v: i64) -> Length {
    Length::from_units(v)
}

fn at(x: i64, y: i64) -> Point {
    Point { x: mm(x), y: mm(y) }
}

/// Sets every character 1 mm wide and breaks lines between words; gives
/// every cell of a grid an equal share of the width and a fixed height.
struct FixedPitch {
    row_height: Length,
    drop_boxes: usize,
}

fn backend() -> FixedPitch {
    FixedPitch { row_height: mm(10), drop_boxes: 0 }
}

impl LayoutBackend for FixedPitch {
    fn has_font(&self, _font: FontHandle) -> bool {
        true
    }

    fn shape(&self, text: &str, _font: &Font, max_width: Option<Length>) -> ShapedText {
        let pitch = mm(1).units;
        let mut lines: Vec<ShapedLine> = Vec::new();
        let mut words: Vec<ShapedWord> = Vec::new();
        let mut x = 0i64;
        let mut widest = 0i64;
        for word in text.split_inclusive(' ') {
            let width = word.chars().count() as i64 * pitch;
            if let Some(max) = max_width {
                if x > 0 && x + width > max.units {
                    widest = widest.max(x);
                    lines.push(ShapedLine { words: std::mem::take(&mut words) });
                    x = 0;
                }
            }
            words.push(ShapedWord {
                text: word.to_string(),
                x: units(x),
                width: units(width),
            });
            x += width;
        }
        if !words.is_empty() {
            widest = widest.max(x);
            lines.push(ShapedLine { words });
        }
        ShapedText { lines, width: units(widest) }
    }

    fn solve_grid(&self, cells: &Vec<GridCell>, num_cols: usize, width: Length) -> Vec<CellBox> {
        let column = units(width.units / num_cols.max(1) as i64);
        cells
            .iter()
            .skip(self.drop_boxes)
            .map(|_| CellBox {
                width: column,
                height: self.row_height,
                padding_left: mm(1),
                padding_top: mm(2),
                content_width: column.minus(mm(2)),
            })
            .collect()
    }
}

/// A picture of 4 by 6 red pixels.
const PICTURE: [u8; 73] = [
    137, 80, 78, 71, 13, 10, 26, 10, 0, 0, 0, 13, 73, 72, 68, 82, 0, 0, 0, 4, 0, 0, 0, 6, 8, 2, 0,
    0, 0, 107, 91, 168, 34, 0, 0, 0, 16, 73, 68, 65, 84, 120, 156, 99, 248, 207, 192, 0, 71, 12,
    148, 114, 0, 188, 187, 23, 233, 40, 39, 48, 196, 0, 0, 0, 0, 73, 69, 78, 68, 174, 66, 96, 130,
];

/// `document` with four fonts and five images registered, so that the handles
/// that the elements name are registered.
fn stocked(mut document: Document) -> Document {
    let helvetica = printpdf::BuiltinFont::Helvetica.get_subset_font().bytes;
    for _ in 0..4 {
        document.add_font(&helvetica).unwrap();
    }
    for _ in 0..5 {
        document.load_image(&PICTURE).unwrap();
    }
    document
}

/// Pages 210 mm by 297 mm with 10 mm kept free on every side.
fn a4() -> Document {
    stocked(Document::new("test", mm(210), mm(297), Padding::all(mm(10))))
}

fn font() -> Font {
    Font::new(FontHandle { index: 0 }, pt(10), pt(2))
}

fn spacer(height: i64) -> Element {
    Element::CursorOffset(CursorOffset::Relative(mm(height)))
}

fn spacer_units(height: i64) -> Element {
    Element::CursorOffset(CursorOffset::Relative(units(height)))
}

fn rule(height: i64) -> Element {
    Element::Line(Line::new(TextOutline {
        color: Rgb::new(0, 0, 0),
        thickness: mm(0),
        padding: Padding::y(units(mm(height).units / 2)),
    }))
}

fn picture(width: i64, height: i64) -> Image {
    Image::new(ImageHandle { index: 0, width_px: 10, height_px: 10 * height as usize / width as usize }, Some(units(width)))
}

fn count(builder: &ElementBuilder) -> usize {
    builder.pages.iter().map(|page| page.len()).sum()
}

fn image_pos(instruction: &Instruction) -> Point {
    match instruction {
        Instruction::Image { pos, .. } => *pos,
        _ => panic!("not an image"),
    }
}

fn block_pos(instruction: &Instruction) -> Point {
    match instruction {
        Instruction::TextBlock { pos, .. } => *pos,
        _ => panic!("not a text block"),
    }
}

fn fills(page: &Vec<Instruction>, shade: u8) -> usize {
    page.iter()
        .filter(|instruction| match instruction {
            Instruction::Rect { mode: PaintMode::Fill, color, .. } => *color == Rgb::grey(shade),
            _ => false,
        })
        .count()
}

#[test]
fn empty_takes_no_room_and_draws_nothing() {
    let document = a4();
    let mut builder = ElementBuilder::new(&document);
    let element = Element::Empty(Empty);
    assert_eq!(element.calculate_width(&builder, &backend()), mm(0));
    assert_eq!(element.calculate_height(&builder, &backend()), mm(0));
    element.build(&mut builder, &backend());
    assert_eq!(count(&builder), 0);
    assert_eq!(builder.cursor, at(10, 287));
    assert_eq!(element.display_name(), "Empty");
}

#[test]
fn line_is_as_high_as_its_padding_and_thickness() {
    let document = a4();
    let mut builder = ElementBuilder::new(&document);
    let line = Line::new(TextOutline {
        color: Rgb::new(1, 2, 3),
        thickness: mm(1),
        padding: Padding::new(mm(3), mm(4), mm(5), mm(6)),
    });
    assert_eq!(line.calculate_height(&builder), mm(8));
    assert_eq!(line.calculate_width(&builder), mm(190));
    line.build(&mut builder);
    assert_eq!(builder.cursor, at(10, 279));
    match &builder.pages[0][0] {
        Instruction::Line { from, to, style } => {
            assert_eq!(*from, at(15, 284));
            assert_eq!(*to, at(194, 284));
            assert_eq!(*style, LineStyle { color: Rgb::new(1, 2, 3), thickness: mm(1) });
        }
        _ => panic!("not a line"),
    }
}

#[test]
fn image_without_desired_width_keeps_its_size_at_300_dpi() {
    let document = a4();
    let mut builder = ElementBuilder::new(&document);
    let image = Image::new(ImageHandle { index: 4, width_px: 300, height_px: 150 }, None);
    assert_eq!(builder.measure_image(&image), (pt(72), pt(36)));
    builder.push_image(&image);
    assert_eq!(builder.cursor, Point { x: mm(10).plus(pt(72)), y: mm(287) });
    match &builder.pages[0][0] {
        Instruction::Image { image, pos, scale } => {
            assert_eq!(image.index, 4);
            assert_eq!(*pos, Point { x: mm(10), y: mm(287).minus(pt(36)) });
            assert_eq!(*scale, None);
        }
        _ => panic!("not an image"),
    }
}

#[test]
fn image_scaled_to_a_width_keeps_its_proportions() {
    let document = a4();
    let builder = ElementBuilder::new(&document);
    let image = Image::new(ImageHandle { index: 0, width_px: 300, height_px: 150 }, Some(mm(100)));
    assert_eq!(builder.measure_image(&image), (mm(100), mm(50)));
    assert_eq!(image.calculate_width(&builder), mm(100));
    assert_eq!(image.calculate_height(&builder), mm(50));
    let mut builder = builder;
    builder.push_image(&image);
    match &builder.pages[0][0] {
        Instruction::Image { pos, scale, .. } => {
            assert_eq!(*pos, at(10, 237));
            assert_eq!(*scale, Some(Scale { num: mm(100), den: pt(72) }));
        }
        _ => panic!("not an image"),
    }
}

#[test]
fn image_without_width_is_not_scaled() {
    let document = a4();
    let builder = ElementBuilder::new(&document);
    let image = Image::new(ImageHandle { index: 0, width_px: 0, height_px: 150 }, Some(mm(100)));
    assert_eq!(builder.measure_image(&image), (mm(0), pt(36)));
}

#[test]
fn image_element_moves_the_cursor_below_the_image() {
    let document = a4();
    let mut builder = ElementBuilder::new(&document);
    builder.advance_cursor(mm(250));
    let image = Image::new(ImageHandle { index: 0, width_px: 300, height_px: 150 }, Some(mm(100)));
    // 27 mm are left, the image is 50 mm high: it goes onto a new page.
    image.build(&mut builder);
    assert_eq!(builder.pages.len(), 2);
    assert!(builder.pages[0].is_empty());
    assert_eq!(image_pos(&builder.pages[1][0]), at(10, 237));
    assert_eq!(builder.cursor, at(10, 237));
}

#[test]
fn cursor_offsets_move_the_cursor_and_draw_nothing() {
    let document = a4();
    let mut builder = ElementBuilder::new(&document);
    CursorOffset::Relative(mm(20)).build(&mut builder);
    assert_eq!(builder.cursor, at(10, 267));
    CursorOffset::Absolute(mm(100)).build(&mut builder);
    assert_eq!(builder.cursor, at(10, 100));
    let breaks = CursorOffset::LineBreaks { lines: 3, font_size: pt(10), font_height_offset: pt(2) };
    assert_eq!(breaks.calculate_height(&builder), pt(36));
    breaks.build(&mut builder);
    assert_eq!(builder.cursor.y, mm(100).minus(pt(36)));
    assert_eq!(builder.pages.len(), 1);
    CursorOffset::PageBreaks(2).build(&mut builder);
    assert_eq!(builder.pages.len(), 3);
    assert_eq!(builder.cursor, at(10, 287));
    assert_eq!(count(&builder), 0);
    assert_eq!(CursorOffset::PageBreaks(2).calculate_height(&builder), mm(0));
    assert_eq!(CursorOffset::Absolute(mm(5)).calculate_height(&builder), mm(0));
    assert_eq!(CursorOffset::Relative(mm(5)).calculate_width(&builder), mm(0));
}

#[test]
fn line_breaks_take_the_font_measures_of_the_config() {
    let config = LayoutConfig::default();
    assert_eq!(
        CursorOffset::line_breaks(2, &config),
        CursorOffset::LineBreaks {
            lines: 2,
            font_size: pt(9),
            font_height_offset: units(49_530),
        }
    );
}

#[test]
fn relative_offset_breaks_the_page_like_any_advance() {
    let document = a4();
    let mut builder = ElementBuilder::new(&document);
    CursorOffset::Relative(mm(300)).build(&mut builder);
    assert_eq!(builder.pages.len(), 2);
    assert_eq!(builder.cursor, at(10, 264));
}

#[test]
fn custom_writes_at_its_own_position() {
    let document = a4();
    let mut builder = ElementBuilder::new(&document);
    let mut custom = Custom::new(at(50, 60));
    custom.write_text("Page ", FontHandle { index: 2 }, pt(8));
    custom.write_text("one", FontHandle { index: 3 }, pt(9));
    assert_eq!(custom.calculate_width(&builder), mm(0));
    assert_eq!(custom.calculate_height(&builder), mm(0));
    custom.build(&mut builder);
    assert_eq!(builder.cursor, at(10, 287));
    match &builder.pages[0][0] {
        Instruction::TextSection { pos, runs } => {
            assert_eq!(*pos, at(50, 60));
            assert_eq!(runs.len(), 2);
            assert_eq!(runs[0].text, "Page ");
            assert_eq!(runs[0].font, Font::new(FontHandle { index: 2 }, pt(8), pt(0)));
            assert_eq!(runs[1].text, "one");
            assert_eq!(runs[1].font, Font::new(FontHandle { index: 3 }, pt(9), pt(0)));
        }
        _ => panic!("not a text section"),
    }
}

#[test]
fn group_lays_its_elements_out_inside_the_padding() {
    let document = a4();
    let mut builder = ElementBuilder::new(&document);
    let mut group = Group::new();
    group.set_padding(Padding::new(mm(1), mm(2), mm(3), mm(4)));
    group.push(Element::Paragraph(Paragraph::new(&"word ".repeat(60), font())));
    group.push(spacer(10));
    // 183 mm are left inside the padding: 36 words a line, two lines.
    assert_eq!(group.calculate_height(&builder, &backend()), mm(13).plus(pt(24)));
    assert_eq!(group.calculate_width(&builder), mm(190));
    group.build(&mut builder, &backend());
    assert_eq!(builder.pages.len(), 1);
    assert_eq!(builder.pages[0].len(), 1);
    assert_eq!(block_pos(&builder.pages[0][0]), at(13, 286));
    assert_eq!(builder.cursor, Point { x: mm(10), y: mm(287 - 13).minus(pt(24)) });
}

#[test]
fn group_with_an_outline_is_framed() {
    let document = a4();
    let mut builder = ElementBuilder::new(&document);
    let mut group = Group::new();
    group.draw_outline(TextOutline {
        color: Rgb::new(5, 5, 5),
        thickness: pt(2),
        padding: Padding::all(mm(5)),
    });
    assert_eq!(group.padding, Padding::all(mm(5)));
    assert_eq!(group.outline, Some(LineStyle { color: Rgb::new(5, 5, 5), thickness: pt(2) }));
    group.push(spacer(40));
    group.build(&mut builder, &backend());
    assert_eq!(builder.pages[0].len(), 4);
    match &builder.pages[0][1] {
        Instruction::Line { from, to, .. } => {
            assert_eq!(*from, at(10, 237));
            assert_eq!(*to, at(200, 237));
        }
        _ => panic!("not a line"),
    }
    assert_eq!(builder.cursor, at(10, 237));
}

#[test]
fn kept_together_group_leaves_the_page_it_does_not_fit_on() {
    // Pages with 250 mm between the margins.
    let document = stocked(Document::new("test", mm(210), mm(270), Padding::all(mm(10))));
    let mut builder = ElementBuilder::new(&document);
    builder.advance_cursor(mm(240));
    assert_eq!(builder.remaining_height_from_cursor(), mm(10));
    let mut group = Group::new();
    group.set_keep_together(true);
    for _ in 0..4 {
        group.push(rule(10));
    }
    assert_eq!(group.calculate_height(&builder, &backend()), mm(40));
    group.build(&mut builder, &backend());
    assert_eq!(builder.pages.len(), 2);
    assert_eq!(builder.pages[0].len(), 0);
    assert_eq!(builder.pages[1].len(), 4);
    match &builder.pages[1][0] {
        Instruction::Line { from, .. } => assert_eq!(*from, at(10, 255)),
        _ => panic!("not a line"),
    }
    assert_eq!(builder.cursor, at(10, 220));
}

#[test]
fn group_that_is_not_kept_together_starts_where_the_cursor_is() {
    let document = stocked(Document::new("test", mm(210), mm(270), Padding::all(mm(10))));
    let mut builder = ElementBuilder::new(&document);
    builder.advance_cursor(mm(240));
    let mut group = Group::new();
    for _ in 0..4 {
        group.push(rule(10));
    }
    group.build(&mut builder, &backend());
    assert_eq!(builder.pages.len(), 2);
    // The first rule still fits: 5 mm above it, 5 mm below.
    assert_eq!(builder.pages[0].len(), 1);
    assert_eq!(builder.pages[1].len(), 3);
}

#[test]
fn kept_together_group_higher_than_a_page_is_split_after_all() {
    let document = stocked(Document::new("test", mm(210), mm(270), Padding::all(mm(10))));
    let mut builder = ElementBuilder::new(&document);
    builder.advance_cursor(mm(240));
    let mut group = Group::new();
    group.set_keep_together(true);
    for _ in 0..26 {
        group.push(rule(10));
    }
    group.build(&mut builder, &backend());
    assert_eq!(builder.pages[0].len(), 1);
}

#[test]
fn column_cursor_follows_the_lower_side_or_the_longer_one() {
    assert_eq!(column_cursor_y(1, mm(50), 1, mm(70)), mm(50));
    assert_eq!(column_cursor_y(1, mm(70), 1, mm(50)), mm(50));
    assert_eq!(column_cursor_y(2, mm(200), 1, mm(50)), mm(200));
    assert_eq!(column_cursor_y(1, mm(50), 3, mm(250)), mm(250));
}

#[test]
fn auto_left_width_leaves_the_right_side_its_least_width() {
    assert_eq!(auto_left_width(mm(30), mm(190), mm(50)), mm(30));
    assert_eq!(auto_left_width(mm(170), mm(190), mm(50)), mm(140));
    assert_eq!(auto_left_width(mm(30), mm(40), mm(50)), mm(0));
}

#[test]
fn equal_paragraphs_side_by_side_end_at_the_same_height() {
    let document = a4();
    let mut builder = ElementBuilder::new(&document);
    let (mut left, mut right) = builder.generate_column_builder(
        pdf_generator::generate::element::element_builder::ColumnWidth::Fixed(mm(50)),
    );
    Paragraph::new("left side", font()).build(&mut left, &backend());
    Paragraph::new("right side", font()).build(&mut right, &backend());
    assert_eq!(left.pages.len(), 1);
    assert_eq!(right.pages.len(), 1);
    assert_eq!(left.cursor.y, right.cursor.y);
    assert_eq!(left.cursor.y, mm(287).minus(pt(12)));

    let column = Column::new(
        Element::Paragraph(Paragraph::new("left side", font())),
        Element::Paragraph(Paragraph::new("right side", font())),
    );
    // 50 mm is the least column width of the usual configuration.
    assert_eq!(column.left_width, LeftWidth::Configured);
    assert_eq!(column.calculate_height(&builder, &backend()), pt(12));
    column.build(&mut builder, &backend());
    assert_eq!(builder.pages.len(), 1);
    assert_eq!(block_pos(&builder.pages[0][0]), at(10, 287));
    assert_eq!(block_pos(&builder.pages[0][1]), at(60, 287));
    assert_eq!(builder.cursor, Point { x: mm(10), y: mm(287).minus(pt(12)) });
}

#[test]
fn column_ends_below_its_taller_side() {
    let document = a4();
    let mut builder = ElementBuilder::new(&document);
    let column = Column::new_with_box(Box::new(spacer(30)), Box::new(spacer(80)));
    column.build(&mut builder, &backend());
    assert_eq!(builder.cursor, at(10, 207));
    assert_eq!(builder.pages.len(), 1);
}

#[test]
fn column_ends_where_the_side_with_more_pages_ends() {
    let document = a4();
    let mut builder = ElementBuilder::new(&document);
    builder.advance_cursor(mm(100));
    // The left side breaks the page and ends high up on page two; the
    // right side ends low on page one.
    let column = Column::new(spacer(200), spacer(170));
    column.build(&mut builder, &backend());
    assert_eq!(builder.pages.len(), 2);
    assert_eq!(builder.cursor, at(10, 264));
}

#[test]
fn column_sides_are_as_wide_as_the_policy_says() {
    let document = a4();
    let mut builder = ElementBuilder::new(&document);
    let text = "word ".repeat(8);
    let sides = |policy: LeftWidth| {
        Column::new(
            Element::Paragraph(Paragraph::new(&text, font())),
            Element::Paragraph(Paragraph::new(&text, font())),
        )
        .with_left_width(policy)
        .with_min_right_width(mm(160))
    };
    sides(LeftWidth::Percent(10, 100)).build(&mut builder, &backend());
    // 19 mm on the left: three words a line, three lines.
    assert_eq!(block_pos(&builder.pages[0][1]), at(29, 287));
    assert_eq!(builder.cursor.y, mm(287).minus(pt(36)));
    let top = builder.cursor.y;
    sides(LeftWidth::Auto).build(&mut builder, &backend());
    // The text asks for 40 mm, but the right side keeps 160 of 190 mm.
    assert_eq!(block_pos(&builder.pages[0][3]), Point { x: mm(40), y: top });
    assert_eq!(builder.cursor.y, top.minus(pt(24)));
}

#[test]
fn auto_column_falls_back_on_the_least_column_width_of_the_document() {
    let mut document = a4();
    document.set_config(LayoutConfig {
        font_size: pt(9),
        font_height_offset: pt(4),
        min_column_width: mm(170),
    });
    let mut builder = ElementBuilder::new(&document);
    let text = "word ".repeat(8);
    let column = Column::new(
        Element::Paragraph(Paragraph::new(&text, font())),
        Element::Paragraph(Paragraph::new(&text, font())),
    )
    .with_left_width(LeftWidth::Auto);
    assert_eq!(column.min_right_width, None);
    column.build(&mut builder, &backend());
    // The text asks for 40 mm, but the right side keeps 170 of 190 mm.
    assert_eq!(block_pos(&builder.pages[0][1]), at(30, 287));
    assert_eq!(column.with_min_right_width(mm(160)).min_right_width, Some(mm(160)));
    // A column that is given no width takes the configured one on the left.
    let top = builder.cursor.y;
    let plain = Column::new(spacer(5), Element::Paragraph(Paragraph::new("right", font())));
    plain.build(&mut builder, &backend());
    assert_eq!(block_pos(&builder.pages[0][2]), Point { x: mm(180), y: top });
}

#[test]
fn table_without_columns_and_cells_is_nothing() {
    let document = a4();
    let mut builder = ElementBuilder::new(&document);
    builder.advance_cursor(mm(20));
    let mut table = Table::new(0, font());
    table.add_row(Vec::new());
    table.build(&mut builder, &backend());
    assert_eq!(count(&builder), 0);
    assert!(builder.errors.is_empty());
    assert_eq!(builder.cursor, at(10, 267));
    assert_eq!(table.calculate_height(&builder, &backend()), mm(0));
    // Cells without columns cannot be laid out.
    table.content.push(vec!["a".to_string()]);
    table.build(&mut builder, &backend());
    assert_eq!(builder.errors, vec!["failed to lay out element 'Table'".to_string()]);
}

#[test]
fn flex_placement_skips_wraps_or_stays() {
    assert_eq!(flex_placement(units(180), units(180), units(100)), FlexPlacement::SameLine);
    assert_eq!(flex_placement(units(180), units(80), units(100)), FlexPlacement::NextLine);
    assert_eq!(flex_placement(units(180), units(80), units(80)), FlexPlacement::SameLine);
    assert_eq!(flex_placement(units(180), units(180), units(181)), FlexPlacement::Skip);
    assert_eq!(flex_placement(units(180), units(10), units(181)), FlexPlacement::Skip);
}

#[test]
fn flex_wraps_the_item_that_does_not_fit_on_the_line() {
    // A region 180 units wide.
    let document = stocked(Document::new("test", units(180), units(10_000), Padding::none()));
    let mut builder = ElementBuilder::new(&document);
    let mut flex = ImageFlex::new();
    flex.push(picture(100, 100));
    flex.push(picture(100, 100));
    flex.push(picture(50, 50));
    assert_eq!(flex.calculate_height(&builder, &backend()), units(200));
    flex.build(&mut builder, &backend());
    assert_eq!(builder.pages.len(), 1);
    let places: Vec<Point> = builder.pages[0].iter().map(image_pos).collect();
    // 100 + 100 is more than 180: the second item starts the second line,
    // and the third, for which 80 are left, stands beside it.
    assert_eq!(
        places,
        vec![
            Point { x: units(0), y: units(9_900) },
            Point { x: units(0), y: units(9_800) },
            Point { x: units(100), y: units(9_850) },
        ]
    );
    assert_eq!(builder.cursor, Point { x: units(0), y: units(9_800) });
    assert!(builder.errors.is_empty());
}

#[test]
fn flex_keeps_gaps_between_items_and_lines() {
    let document = stocked(Document::new("test", units(180), units(10_000), Padding::none()));
    let mut builder = ElementBuilder::new(&document);
    let mut flex = ImageFlex::new();
    flex.set_spacing(units(10), units(7));
    flex.push(picture(80, 80));
    flex.push(picture(80, 40));
    flex.push(picture(80, 80));
    assert_eq!(flex.calculate_height(&builder, &backend()), units(167));
    flex.build(&mut builder, &backend());
    let places: Vec<Point> = builder.pages[0].iter().map(image_pos).collect();
    assert_eq!(
        places,
        vec![
            Point { x: units(0), y: units(9_920) },
            Point { x: units(90), y: units(9_960) },
            Point { x: units(0), y: units(9_833) },
        ]
    );
    assert_eq!(builder.cursor, Point { x: units(0), y: units(9_833) });
}

#[test]
fn flex_leaves_out_an_item_that_is_wider_than_the_region() {
    let document = stocked(Document::new("test", units(180), units(10_000), Padding::none()));
    let mut builder = ElementBuilder::new(&document);
    let mut flex = ImageFlex::new();
    flex.push(picture(100, 100));
    flex.push(picture(200, 100));
    flex.push(picture(50, 50));
    flex.build(&mut builder, &backend());
    assert_eq!(builder.pages[0].len(), 2);
    assert_eq!(builder.errors, vec!["failed to lay out element 'Image'".to_string()]);
    assert_eq!(image_pos(&builder.pages[0][1]), Point { x: units(100), y: units(9_950) });
    assert_eq!(layout_failure("Table"), "failed to lay out element 'Table'");
}

#[test]
fn flex_breaks_the_page_for_an_item_that_is_too_high() {
    let document = stocked(Document::new("test", units(180), units(250), Padding::none()));
    let mut builder = ElementBuilder::new(&document);
    let mut flex = ImageFlex::new();
    flex.push(picture(100, 100));
    flex.push(picture(100, 100));
    flex.push(picture(100, 100));
    flex.build(&mut builder, &backend());
    assert_eq!(builder.pages.len(), 2);
    assert_eq!(builder.pages[0].len(), 2);
    assert_eq!(image_pos(&builder.pages[1][0]), Point { x: units(0), y: units(150) });
    assert_eq!(builder.cursor, Point { x: units(0), y: units(150) });
}

#[test]
fn checkbox_takes_the_box_and_its_label() {
    let label = backend().shape("yes", &font(), None);
    assert_eq!(checkbox_width(&label, &font()), pt(15).plus(mm(3)));
    assert_eq!(checkbox_height(&label, &font()), pt(12));
    // The label gives the height, also where the box is higher.
    let tight = Font::new(FontHandle { index: 0 }, pt(10), pt(-5));
    assert_eq!(checkbox_height(&label, &tight), pt(5));
}

#[test]
fn checkboxes_stand_in_a_row_with_gaps_between_them() {
    let document = a4();
    let mut builder = ElementBuilder::new(&document);
    let group = CheckboxGroup::new(vec!["yes".to_string(), "no".to_string()], font())
        .with_space_between_checkboxes(mm(4));
    assert_eq!(group.calculate_width(&backend()), pt(30).plus(mm(9)));
    assert_eq!(group.calculate_height(&backend()), pt(12));
    group.build(&mut builder, &backend());
    assert_eq!(builder.pages[0].len(), 4);
    match &builder.pages[0][0] {
        Instruction::Rect { origin, width, height, mode, .. } => {
            assert_eq!(*origin, at(10, 287));
            assert_eq!(*width, pt(10));
            assert_eq!(*height, pt(10));
            assert_eq!(*mode, PaintMode::Stroke);
        }
        _ => panic!("not a rectangle"),
    }
    assert_eq!(block_pos(&builder.pages[0][1]), Point { x: mm(10).plus(pt(15)), y: mm(287) });
    match &builder.pages[0][2] {
        Instruction::Rect { origin, .. } => {
            assert_eq!(*origin, Point { x: mm(17).plus(pt(15)), y: mm(287) });
        }
        _ => panic!("not a rectangle"),
    }
    assert_eq!(builder.cursor, Point { x: mm(10), y: mm(287).minus(pt(12)) });
    let default = CheckboxGroup::new(Vec::new(), font());
    assert_eq!(default.space_between_checkboxes, units(95_250));
}

#[test]
fn checkbox_row_is_drawn_from_labels_that_were_shaped() {
    let document = a4();
    let mut builder = ElementBuilder::new(&document);
    let group = CheckboxGroup::new(vec!["yes".to_string(), "no".to_string()], font());
    let labels = group.shape_labels(&backend());
    assert_eq!(labels.len(), 2);
    assert_eq!(labels[1].lines[0].text(), "no");
    assert_eq!(checkbox_row_width(&labels, &font(), mm(4)), pt(30).plus(mm(9)));
    assert_eq!(checkbox_row_height(&labels, &font()), pt(12));
    assert_eq!(checkbox_row_width(&Vec::new(), &font(), mm(4)), mm(0));
    builder.push_checkbox(&labels[0], &font());
    assert_eq!(builder.pages[0].len(), 2);
    assert_eq!(builder.cursor, Point { x: mm(13).plus(pt(15)), y: mm(287) });
    builder.reset_cursor_x();
    builder.push_checkbox_row(&labels, &font(), mm(4));
    assert_eq!(builder.pages[0].len(), 6);
    assert_eq!(builder.cursor, Point { x: mm(10), y: mm(287).minus(pt(12)) });
}

#[test]
fn table_row_is_drawn_from_the_measured_table() {
    let document = a4();
    let mut builder = ElementBuilder::new(&document);
    let built = BuiltTable::build(&table(1), &builder, &backend()).unwrap();
    assert_eq!(built.texts.len(), 4);
    assert_eq!(built.texts[3].lines[0].text(), "value 0");
    assert!(!builder.push_table_row(&built, 2, 4, Rgb::new(1, 2, 3)));
    assert_eq!(builder.pages[0].len(), 4);
    assert_eq!(fills(&builder.pages[0], 230), 0);
    assert_eq!(block_pos(&builder.pages[0][3]), at(106, 285));
    assert_eq!(builder.cursor, at(10, 277));
    builder.advance_cursor(mm(260));
    // 7 mm are left: the row is drawn, and the cursor moves onto page two.
    assert!(builder.push_table_row(&built, 0, 2, Rgb::new(1, 2, 3)));
    assert_eq!(builder.pages.len(), 2);
    assert_eq!(builder.pages[0].len(), 8);
    assert_eq!(builder.cursor, at(10, 284));
    builder.push_table_cell(&built.boxes[0], built.texts[0].copy_lines(), font(), Rgb::grey(9));
    assert_eq!(builder.cursor, at(105, 284));
    assert_eq!(fills(&builder.pages[1], 9), 1);
}

#[test]
fn measured_table_is_refused_when_texts_or_boxes_are_missing() {
    let table = table(1);
    let cells = table.cells();
    let boxes = backend().solve_grid(&cells, 2, mm(190));
    let texts = |count: usize| -> Vec<ShapedText> {
        (0..count).map(|_| backend().shape("x", &font(), None)).collect()
    };
    assert!(BuiltTable::accept(&table, table.cells(), boxes.clone(), texts(4)).is_some());
    assert!(BuiltTable::accept(&table, table.cells(), boxes.clone(), texts(3)).is_none());
    assert!(BuiltTable::accept(&table, table.cells(), boxes[..3].to_vec(), texts(4)).is_none());
    let mut ragged = Table::new(2, font());
    ragged.header = Some((vec!["only".to_string()], font()));
    let cells = ragged.cells();
    assert_eq!(cells.len(), 1);
    assert!(BuiltTable::accept(&ragged, cells, boxes[..1].to_vec(), texts(1)).is_none());
}

#[test]
fn row_height_is_that_of_the_highest_box() {
    let cell = |height: i64| CellBox {
        width: mm(10),
        height: mm(height),
        padding_left: mm(0),
        padding_top: mm(0),
        content_width: mm(10),
    };
    let boxes = vec![cell(3), cell(9), cell(5), cell(2)];
    assert_eq!(row_height(&boxes, 0, 4), mm(9));
    assert_eq!(row_height(&boxes, 2, 4), mm(5));
    assert_eq!(row_height(&boxes, 3, 3), mm(0));
}

#[test]
fn content_rows_are_striped() {
    assert_eq!(stripe(0), Rgb::grey(242));
    assert_eq!(stripe(1), Rgb::grey(255));
    assert_eq!(stripe(2), Rgb::grey(242));
}

fn table(rows: usize) -> Table {
    let mut table = Table::new(2, font());
    table.set_header(vec!["Name".to_string(), "Value".to_string()], None);
    for row in 0..rows {
        table.add_row(vec![format!("row {row}"), format!("value {row}")]);
    }
    table
}

#[test]
fn table_cells_stand_side_by_side_row_below_row() {
    let document = a4();
    let mut builder = ElementBuilder::new(&document);
    let table = table(2);
    assert_eq!(table.calculate_width(&builder), mm(190));
    assert_eq!(table.calculate_height(&builder, &backend()), mm(30));
    table.build(&mut builder, &backend());
    let page = &builder.pages[0];
    assert_eq!(page.len(), 12);
    match &page[0] {
        Instruction::Rect { origin, width, height, mode, color } => {
            assert_eq!(*origin, at(10, 287));
            assert_eq!(*width, mm(95));
            assert_eq!(*height, mm(10));
            assert_eq!(*mode, PaintMode::Fill);
            assert_eq!(*color, Rgb::grey(230));
        }
        _ => panic!("not a rectangle"),
    }
    assert_eq!(block_pos(&page[1]), at(11, 285));
    match &page[2] {
        Instruction::Rect { origin, .. } => assert_eq!(*origin, at(105, 287)),
        _ => panic!("not a rectangle"),
    }
    match &page[4] {
        Instruction::Rect { origin, color, .. } => {
            assert_eq!(*origin, at(10, 277));
            assert_eq!(*color, Rgb::grey(242));
        }
        _ => panic!("not a rectangle"),
    }
    match &page[8] {
        Instruction::Rect { origin, color, .. } => {
            assert_eq!(*origin, at(10, 267));
            assert_eq!(*color, Rgb::grey(255));
        }
        _ => panic!("not a rectangle"),
    }
    assert_eq!(builder.cursor, at(10, 257));
}

#[test]
fn table_over_three_pages_shows_its_header_three_times() {
    let document = a4();
    let mut builder = ElementBuilder::new(&document);
    let table = table(60);
    table.build(&mut builder, &backend());
    assert_eq!(builder.pages.len(), 3);
    for page in &builder.pages {
        // One header row of two cells on each page.
        assert_eq!(fills(page, 230), 2);
    }
    let rows: Vec<usize> =
        builder.pages.iter().map(|page| (fills(page, 242) + fills(page, 255)) / 2).collect();
    assert_eq!(rows, vec![27, 27, 6]);
    // The header opens each later page.
    for page in 1..3 {
        match &builder.pages[page][0] {
            Instruction::Rect { color, .. } => assert_eq!(*color, Rgb::grey(230)),
            _ => panic!("not a rectangle"),
        }
    }
    // 60 rows and the header three times.
    assert_eq!(table.calculate_height(&ElementBuilder::new(&document), &backend()), mm(630));
}

#[test]
fn table_counts_the_header_rows_it_draws() {
    let document = a4();
    let mut builder = ElementBuilder::new(&document);
    let built = BuiltTable::build(&table(60), &builder, &backend()).unwrap();
    assert!(built.header_repeats(&builder));
    assert_eq!(built.draw(&mut builder), 3);
    assert_eq!(builder.pages.len(), 3);

    let mut plain = Table::new(2, font());
    plain.add_row(vec!["a".to_string(), "b".to_string()]);
    let mut builder = ElementBuilder::new(&document);
    let built = BuiltTable::build(&plain, &builder, &backend()).unwrap();
    assert!(!built.header_repeats(&builder));
    assert!(!built.build_headers(&mut builder));
    assert_eq!(builder.pages[0].len(), 0);
    assert_eq!(built.draw(&mut builder), 0);
}

#[test]
fn table_draws_two_instructions_for_each_cell_and_each_header_cell_again() {
    let document = a4();
    let mut builder = ElementBuilder::new(&document);
    builder.advance_cursor(mm(100));
    spacer(0).build(&mut builder, &backend());
    let before = count(&builder);
    table(60).build(&mut builder, &backend());
    let added = builder.pages.len() - 1;
    assert_eq!(added, 2);
    // 61 rows of two cells, and the header again on each of two new pages.
    assert_eq!(count(&builder), before + 2 * 122 + 2 * 2 * added);

    let mut plain = Table::new(2, font());
    for _ in 0..60 {
        plain.add_row(vec!["a".to_string(), "b".to_string()]);
    }
    let mut builder = ElementBuilder::new(&document);
    plain.build(&mut builder, &backend());
    assert_eq!(builder.pages.len(), 3);
    assert_eq!(count(&builder), 2 * 120);
}

#[test]
fn every_page_that_a_table_runs_onto_begins_with_the_header() {
    let document = a4();
    let mut builder = ElementBuilder::new(&document);
    builder.advance_cursor(mm(100));
    table(60).build(&mut builder, &backend());
    // 17 rows go below the header on what is left, 27 on the next page.
    assert_eq!(builder.pages.len(), 3);
    for page in 1..3 {
        // The header row stands at the top left corner, cell beside cell.
        match &builder.pages[page][0] {
            Instruction::Rect { origin, color, .. } => {
                assert_eq!(*origin, at(10, 287));
                assert_eq!(*color, Rgb::grey(230));
            }
            _ => panic!("not a rectangle"),
        }
        assert_eq!(block_pos(&builder.pages[page][1]), at(11, 285));
        match &builder.pages[page][2] {
            Instruction::Rect { origin, color, .. } => {
                assert_eq!(*origin, at(105, 287));
                assert_eq!(*color, Rgb::grey(230));
            }
            _ => panic!("not a rectangle"),
        }
        // The first content row follows right below it.
        match &builder.pages[page][4] {
            Instruction::Rect { origin, .. } => assert_eq!(*origin, at(10, 277)),
            _ => panic!("not a rectangle"),
        }
        assert_eq!(fills(&builder.pages[page], 230), 2);
    }
}

#[test]
fn header_that_breaks_the_page_is_drawn_again_on_the_new_page() {
    let document = a4();
    let mut builder = ElementBuilder::new(&document);
    builder.advance_cursor(mm(270));
    let built = BuiltTable::build(&table(1), &builder, &backend()).unwrap();
    // 7 mm are left: the header breaks the page and opens the next one.
    assert!(built.build_headers(&mut builder));
    assert_eq!(builder.pages.len(), 2);
    assert_eq!(fills(&builder.pages[0], 230), 2);
    assert_eq!(fills(&builder.pages[1], 230), 2);
    assert_eq!(builder.cursor, at(10, 277));

    let mut builder = ElementBuilder::new(&document);
    builder.advance_cursor(mm(270));
    assert_eq!(built.draw(&mut builder), 2);
    assert_eq!(builder.pages.len(), 2);
    assert_eq!(builder.pages[1].len(), 8);
    assert_eq!(builder.cursor, at(10, 267));
    assert_eq!(built.height(&{
        let mut probe = ElementBuilder::new(&document);
        probe.advance_cursor(mm(270));
        probe
    }), mm(30));
}

#[test]
fn header_row_higher_than_a_page_is_drawn_once() {
    let document = a4();
    let mut builder = ElementBuilder::new(&document);
    let tall = FixedPitch { row_height: mm(300), drop_boxes: 0 };
    let built = BuiltTable::build(&table(1), &builder, &tall).unwrap();
    assert!(!built.header_repeats(&builder));
    // The header breaks the page, and the row breaks it again.
    assert_eq!(built.draw(&mut builder), 1);
    assert_eq!(builder.pages.len(), 3);
    assert_eq!(fills(&builder.pages[0], 230), 2);
    assert_eq!(fills(&builder.pages[1], 230), 0);
    assert_eq!(fills(&builder.pages[2], 230), 0);
    assert_eq!(built.height(&ElementBuilder::new(&document)), mm(600));
}

#[test]
fn flex_item_that_runs_over_the_page_takes_the_cursor_with_it() {
    let document = stocked(Document::new("test", units(180), units(250), Padding::none()));
    let mut builder = ElementBuilder::new(&document);
    let mut flex = ImageFlex::new();
    flex.push_element(spacer_units(300));
    flex.push(picture(50, 50));
    builder.advance_cursor(units(10));
    flex.build(&mut builder, &backend());
    // The spacer moves to a fresh page, since 240 are left, and runs over
    // it by 50 all the same. The picture stands where the spacer ended.
    assert_eq!(builder.pages.len(), 3);
    assert_eq!(image_pos(&builder.pages[2][0]), Point { x: units(0), y: units(150) });
    assert_eq!(builder.cursor, Point { x: units(0), y: units(150) });
}

#[test]
fn table_without_header_has_only_content_rows() {
    let document = a4();
    let mut builder = ElementBuilder::new(&document);
    let mut table = Table::new(3, font());
    table.add_row(vec!["a".to_string(), "b".to_string(), "c".to_string()]);
    table.build(&mut builder, &backend());
    assert_eq!(builder.pages[0].len(), 6);
    assert_eq!(fills(&builder.pages[0], 230), 0);
    assert_eq!(fills(&builder.pages[0], 242), 3);
    assert_eq!(builder.cursor, at(10, 277));
}

#[test]
fn table_that_the_solver_cannot_box_is_left_out_with_a_warning() {
    let document = a4();
    let mut builder = ElementBuilder::new(&document);
    let short = FixedPitch { row_height: mm(10), drop_boxes: 1 };
    let table = table(2);
    table.build(&mut builder, &short);
    assert_eq!(count(&builder), 0);
    assert_eq!(builder.errors, vec!["failed to lay out element 'Table'".to_string()]);
    assert_eq!(builder.cursor, at(10, 287));
    assert_eq!(table.calculate_height(&builder, &short), mm(0));
    assert!(BuiltTable::build(&table, &builder, &short).is_none());
    assert!(BuiltTable::build(&Table::new(0, font()), &builder, &backend()).is_none());
}

#[test]
fn table_whose_header_is_not_as_long_as_a_row_takes_no_height() {
    let document = a4();
    let builder = ElementBuilder::new(&document);
    let mut ragged = Table::new(2, font());
    ragged.header = Some((vec!["only".to_string()], font()));
    ragged.content.push(vec!["a".to_string(), "b".to_string(), "c".to_string()]);
    assert_eq!(ragged.calculate_height(&builder, &backend()), mm(0));
    assert!(BuiltTable::build(&ragged, &builder, &backend()).is_none());
    assert_eq!(Table::new(0, font()).calculate_height(&builder, &backend()), mm(0));
}

#[test]
fn solved_table_knows_its_rows() {
    let document = a4();
    let builder = ElementBuilder::new(&document);
    let built = BuiltTable::build(&table(3), &builder, &backend()).unwrap();
    assert_eq!(built.cells.len(), 8);
    assert_eq!(built.cells[0].content, "Name");
    assert_eq!(built.cells[2].content, "row 0");
    assert_eq!(built.header_cells(), Some(2));
    assert_eq!(built.content_cells(), 2);
    assert_eq!(built.row_cells(2), 4);
    assert_eq!(built.row_cells(6), 8);
    assert_eq!(built.header_height(), mm(10));
    assert_eq!(built.height(&builder), mm(40));
}

#[test]
fn measuring_twice_gives_the_same_height_and_changes_nothing() {
    let document = a4();
    let mut builder = ElementBuilder::new(&document);
    builder.advance_cursor(mm(33));
    let mut group = Group::new();
    group.set_padding(Padding::all(mm(2)));
    group.push(rule(10));
    group.push(Element::Image(picture(36_000, 72_000)));
    group.push(Element::Column(Column::new(spacer(12), spacer(7))));
    let mut flex = ImageFlex::new();
    flex.push(picture(3_600_000, 360_000));
    flex.push(picture(3_600_000, 720_000));
    let elements = vec![
        (Element::Group(group), mm(10 + 2 + 12 + 4)),
        (Element::Flex(flex), units(1_080_000)),
        (Element::Paragraph(Paragraph::new(&"word ".repeat(60), font())), pt(24)),
        (Element::Table(table(2)), mm(30)),
        (Element::CheckboxGroup(CheckboxGroup::new(vec!["a".to_string()], font())), pt(12)),
    ];
    for (element, expected) in &elements {
        let first = element.calculate_height(&builder, &backend());
        let second = element.calculate_height(&builder, &backend());
        assert_eq!(first, *expected);
        assert_eq!(first, second);
        assert_eq!(
            element.calculate_width(&builder, &backend()),
            element.calculate_width(&builder, &backend())
        );
    }
    assert_eq!(builder.cursor, at(10, 254));
    assert_eq!(builder.pages.len(), 1);
    assert_eq!(count(&builder), 0);
    assert!(builder.errors.is_empty());
}

#[test]
fn elements_build_through_the_enum_as_they_do_themselves() {
    let document = a4();
    let mut builder = ElementBuilder::new(&document);
    let mut group = Group::new();
    group.push(spacer(10));
    let mut flex = ImageFlex::new();
    flex.push_element(Element::Image(picture(36_000, 36_000)));
    let elements = vec![
        Element::Group(group),
        Element::Flex(flex),
        Element::Table(table(1)),
        Element::CheckboxGroup(CheckboxGroup::new(vec!["a".to_string()], font())),
        Element::Custom(Custom::new(at(1, 1))),
        Element::Image(Image::new(ImageHandle { index: 0, width_px: 300, height_px: 300 }, None)),
    ];
    let names: Vec<&str> = elements.iter().map(|e| e.display_name()).collect();
    assert_eq!(names, vec!["Group", "Flex", "Table", "Checkbox Group", "Custom", "Image"]);
    let mut expected = mm(287);
    for element in &elements {
        let height = element.calculate_height(&builder, &backend());
        let before = count(&builder);
        element.build(&mut builder, &backend());
        expected = expected.minus(height);
        assert_eq!(builder.cursor, Point { x: mm(10), y: expected });
        assert!(count(&builder) >= before);
    }
    assert_eq!(builder.pages.len(), 1);
    assert_eq!(count(&builder), 1 + 8 + 2 + 1 + 1);
}
