use pdf_generator::generate::document::Document;
use pdf_generator::generate::element::element_builder::share;
use pdf_generator::generate::element::element_builder::ColumnWidth;
use pdf_generator::generate::element::element_builder::ElementBuilder;
use pdf_generator::generate::instruction::Instruction;
use pdf_generator::generate::instruction::PaintMode;
use pdf_generator::generate::outline::LineStyle;
use pdf_generator::generate::outline::Rgb;
use pdf_generator::generate::padding::Padding;
use pdf_generator::generate::text_gen::LayoutConfig;
use pdf_generator::generate::units::Length;
use pdf_generator::generate::units::Point;

fn mm(v: i64) -> Length {
    Length::from_mm(v)
}

fn at(x: i64, y: i64) -> Point {
    Point { x: mm(x), y: mm(y) }
}

/// Pages 210 mm by 297 mm with 10 mm kept free on every side.
fn a4() -> Document {
    Document::new("test", mm(210), mm(297), Padding::all(mm(10)))
}

fn black() -> LineStyle {
    LineStyle { color: Rgb::new(0, 0, 0), thickness: Length::from_pt(1) }
}

fn mark(tag: i64) -> Instruction {
    Instruction::Line { from: at(tag, 0), to: at(tag, 1), style: black() }
}

fn tag_of(instruction: &Instruction) -> i64 {
    match instruction {
        Instruction::Line { from, .. } => from.x.units / 36_000,
        _ => panic!("not a mark"),
    }
}

fn tags(builder: &ElementBuilder) -> Vec<Vec<i64>> {
    builder.pages.iter().map(|page| page.iter().map(tag_of).collect()).collect()
}

fn count(builder: &ElementBuilder) -> usize {
    builder.pages.iter().map(|page| page.len()).sum()
}

fn line_ends(instruction: &Instruction) -> (Point, Point) {
    match instruction {
        Instruction::Line { from, to, .. } => (*from, *to),
        _ => panic!("not a line"),
    }
}

#[test]
fn new_builder_starts_at_the_top_left_corner_inside_the_margins() {
    let document = a4();
    let builder = ElementBuilder::new(&document);
    assert_eq!(builder.pages.len(), 1);
    assert!(builder.pages[0].is_empty());
    assert_eq!(builder.origin, at(10, 287));
    assert_eq!(builder.cursor, at(10, 287));
    assert_eq!(builder.starting_page, 0);
    assert!(builder.errors.is_empty());
    assert_eq!(builder.remaining_width_from_cursor(), mm(190));
    assert_eq!(builder.remaining_height_from_cursor(), mm(277));
}

#[test]
fn remaining_width_shrinks_as_the_cursor_moves_right() {
    let document = a4();
    let mut builder = ElementBuilder::new(&document);
    builder.cursor.x = mm(50);
    assert_eq!(builder.remaining_width_from_cursor(), mm(150));
    builder.reset_cursor_x();
    assert_eq!(builder.cursor, at(10, 287));
    assert_eq!(builder.remaining_width_from_cursor(), mm(190));
}

#[test]
fn advance_cursor_stays_on_the_page_while_there_is_room() {
    let document = a4();
    let mut builder = ElementBuilder::new(&document);
    assert!(!builder.advance_cursor(mm(100)));
    assert_eq!(builder.cursor, at(10, 187));
    assert_eq!(builder.pages.len(), 1);
    // Exactly what is left still fits.
    assert!(!builder.advance_cursor(mm(177)));
    assert_eq!(builder.cursor, at(10, 10));
    assert_eq!(builder.remaining_height_from_cursor(), mm(0));
    assert_eq!(builder.pages.len(), 1);
}

#[test]
fn advance_cursor_breaks_the_page_and_carries_the_rest_over() {
    let document = a4();
    let mut builder = ElementBuilder::new(&document);
    builder.advance_cursor(mm(270));
    builder.cursor.x = mm(40);
    // 7 mm are left; of 20 mm, 13 mm go onto the next page.
    assert!(builder.advance_cursor(mm(20)));
    assert_eq!(builder.pages.len(), 2);
    assert_eq!(builder.cursor, at(10, 274));
}

#[test]
fn update_cursor_sets_the_height_only() {
    let document = a4();
    let mut builder = ElementBuilder::new(&document);
    builder.cursor.x = mm(33);
    builder.update_cursor(mm(120));
    assert_eq!(builder.cursor, at(33, 120));
    assert_eq!(builder.pages.len(), 1);
}

#[test]
fn next_page_adds_an_empty_page_and_keeps_the_width() {
    let document = a4();
    let mut builder = ElementBuilder::new(&document);
    builder.emit(mark(1));
    builder.advance_cursor(mm(30));
    builder.cursor.x = mm(70);
    builder.next_page();
    assert_eq!(tags(&builder), vec![vec![1], vec![]]);
    assert_eq!(builder.cursor, at(10, 287));
    assert_eq!(builder.remaining_width, mm(190));
}

#[test]
fn emit_appends_to_the_last_page() {
    let document = a4();
    let mut builder = ElementBuilder::new(&document);
    builder.emit(mark(1));
    builder.next_page();
    builder.emit(mark(2));
    builder.emit(mark(3));
    assert_eq!(tags(&builder), vec![vec![1], vec![2, 3]]);
}

#[test]
fn merge_puts_child_pages_behind_the_parent_pages_they_lie_on() {
    let document = a4();
    let mut parent = ElementBuilder::new(&document);
    parent.emit(mark(1));
    parent.next_page();
    parent.emit(mark(2));
    let (mut child, _) = parent.generate_column_builder(ColumnWidth::Fixed(mm(50)));
    assert_eq!(child.starting_page, 1);
    child.emit(mark(3));
    child.emit(mark(4));
    let before = count(&parent) + count(&child);
    parent.merge(child);
    assert_eq!(tags(&parent), vec![vec![1], vec![2, 3, 4]]);
    assert_eq!(count(&parent), before);
}

#[test]
fn merge_appends_the_pages_by_which_the_child_overflows() {
    let document = a4();
    let mut parent = ElementBuilder::new(&document);
    parent.emit(mark(1));
    let (mut child, _) = parent.generate_column_builder(ColumnWidth::Fixed(mm(50)));
    child.emit(mark(2));
    child.next_page();
    child.emit(mark(3));
    child.next_page();
    child.emit(mark(4));
    child.warn("careful".to_string());
    parent.warn("first".to_string());
    let before = count(&parent) + count(&child);
    let cursor = parent.cursor;
    parent.merge(child);
    assert_eq!(tags(&parent), vec![vec![1, 2], vec![3], vec![4]]);
    assert_eq!(count(&parent), before);
    assert_eq!(parent.errors, vec!["first".to_string(), "careful".to_string()]);
    assert_eq!(parent.cursor, cursor);
}

#[test]
fn merge_of_a_short_child_leaves_later_parent_pages_alone() {
    let document = a4();
    let mut parent = ElementBuilder::new(&document);
    parent.emit(mark(1));
    let (mut child, _) = parent.generate_column_builder(ColumnWidth::Fixed(mm(50)));
    parent.next_page();
    parent.emit(mark(2));
    parent.next_page();
    parent.emit(mark(3));
    child.emit(mark(4));
    child.next_page();
    child.emit(mark(5));
    parent.merge(child);
    assert_eq!(tags(&parent), vec![vec![1, 4], vec![2, 5], vec![3]]);
}

#[test]
fn siblings_that_start_on_the_same_page_stay_aligned() {
    let document = a4();
    let mut parent = ElementBuilder::new(&document);
    let (mut left, mut right) = parent.generate_column_builder(ColumnWidth::Fixed(mm(50)));
    left.emit(mark(1));
    left.next_page();
    left.emit(mark(2));
    right.emit(mark(3));
    right.next_page();
    right.emit(mark(4));
    right.next_page();
    right.emit(mark(5));
    parent.merge(left);
    parent.merge(right);
    assert_eq!(tags(&parent), vec![vec![1, 3], vec![2, 4], vec![5]]);
}

#[test]
fn merge_of_a_child_that_starts_behind_the_last_page_adds_all_its_pages() {
    let document = a4();
    let mut parent = ElementBuilder::new(&document);
    parent.emit(mark(1));
    parent.advance_cursor(mm(270));
    let mut child = parent.generate_group_builder(&Padding::none(), Some(mm(40)));
    assert_eq!(child.starting_page, 1);
    child.emit(mark(2));
    parent.merge(child);
    assert_eq!(tags(&parent), vec![vec![1], vec![2]]);
}

#[test]
fn fixed_columns_split_the_width_at_the_cursor() {
    let document = a4();
    let mut parent = ElementBuilder::new(&document);
    parent.advance_cursor(mm(7));
    parent.cursor.x = mm(30);
    let (left, right) = parent.generate_column_builder(ColumnWidth::Fixed(mm(50)));
    assert_eq!(left.origin, at(30, 280));
    assert_eq!(left.cursor, at(30, 280));
    assert_eq!(left.remaining_width, mm(50));
    assert_eq!(right.origin, at(80, 280));
    assert_eq!(right.cursor, at(80, 280));
    assert_eq!(right.remaining_width, mm(120));
    assert_eq!(left.pages.len(), 1);
    assert_eq!(right.pages.len(), 1);
    assert_eq!(left.starting_page, 0);
    assert_eq!(right.starting_page, 0);
}

#[test]
fn auto_column_is_as_wide_as_its_content_allows() {
    let document = a4();
    let parent = ElementBuilder::new(&document);
    let wide = ColumnWidth::Auto { content: mm(170), min_right: mm(50) };
    let (left, right) = parent.generate_column_builder(wide);
    assert_eq!(left.remaining_width, mm(140));
    assert_eq!(right.remaining_width, mm(50));
    let narrow = ColumnWidth::Auto { content: mm(30), min_right: mm(50) };
    let (left, right) = parent.generate_column_builder(narrow);
    assert_eq!(left.remaining_width, mm(30));
    assert_eq!(right.remaining_width, mm(160));
    assert_eq!(right.origin.x, mm(40));
}

#[test]
fn percent_columns_take_hundredths_of_what_is_left() {
    let document = a4();
    let parent = ElementBuilder::new(&document);
    let (left, right) = parent.generate_column_builder(ColumnWidth::Percent(25, 100));
    assert_eq!(left.remaining_width, Length::from_units(190 * 36_000 / 4));
    assert_eq!(right.remaining_width, Length::from_units(190 * 36_000 * 3 / 4));
    assert_eq!(right.origin.x, mm(10).plus(Length::from_units(190 * 36_000 / 4)));
}

#[test]
fn share_columns_can_take_a_third_and_nothing_of_no_parts() {
    let document = a4();
    let parent = ElementBuilder::new(&document);
    let (left, right) = parent.generate_column_builder(ColumnWidth::Percent(1, 3));
    assert_eq!(left.remaining_width, Length::from_units(190 * 36_000 / 3));
    assert_eq!(right.remaining_width, Length::from_units(190 * 36_000 * 2 / 3));
    let (left, right) = parent.generate_column_builder(ColumnWidth::Percent(1, 0));
    assert_eq!(left.remaining_width, mm(0));
    assert_eq!(right.remaining_width, mm(190));
    assert_eq!(share(mm(10), 3, 4), Length::from_units(270_000));
    assert_eq!(share(mm(10), 3, 0), mm(0));
}

#[test]
fn regions_know_what_the_document_has_registered() {
    let mut document = a4();
    document.set_config(LayoutConfig {
        font_size: Length::from_pt(11),
        font_height_offset: Length::from_pt(3),
        min_column_width: mm(40),
    });
    let parent = ElementBuilder::new(&document);
    assert_eq!((parent.fonts, parent.images), (0, 0));
    assert_eq!(parent.config, document.config);
    let child = parent.generate_group_builder(&Padding::all(mm(2)), None);
    assert_eq!((child.fonts, child.images), (0, 0));
    assert_eq!(child.config.min_column_width, mm(40));
    let (left, right) = parent.generate_column_builder(ColumnWidth::Fixed(mm(30)));
    assert_eq!(left.config, document.config);
    assert_eq!(right.config, document.config);
}

#[test]
fn group_region_is_inset_by_the_padding() {
    let document = a4();
    let mut parent = ElementBuilder::new(&document);
    parent.advance_cursor(mm(20));
    let padding = Padding::new(mm(1), mm(2), mm(3), mm(4));
    let child = parent.generate_group_builder(&padding, None);
    assert_eq!(child.origin, at(13, 266));
    assert_eq!(child.cursor, at(13, 266));
    assert_eq!(child.remaining_width, mm(183));
    assert_eq!(child.added_padding_bottom, mm(2));
    assert_eq!(child.starting_page, 0);
    assert_eq!(child.remaining_height_from_cursor(), mm(254));
}

#[test]
fn group_that_fits_what_is_left_starts_at_the_cursor() {
    let document = a4();
    let mut parent = ElementBuilder::new(&document);
    parent.advance_cursor(mm(237));
    // 40 mm are left, and the group is 40 mm high.
    let child = parent.generate_group_builder(&Padding::none(), Some(mm(40)));
    assert_eq!(child.starting_page, 0);
    assert_eq!(child.origin, at(10, 50));
}

#[test]
fn group_that_fits_a_page_but_not_what_is_left_starts_on_a_fresh_page() {
    let document = a4();
    let mut parent = ElementBuilder::new(&document);
    parent.advance_cursor(mm(267));
    parent.cursor.x = mm(60);
    let padding = Padding::new(mm(1), mm(2), mm(3), mm(4));
    let child = parent.generate_group_builder(&padding, Some(mm(40)));
    assert_eq!(child.starting_page, 1);
    assert_eq!(child.origin, at(13, 286));
    assert_eq!(child.cursor, at(13, 286));
    assert_eq!(parent.pages.len(), 1);
}

#[test]
fn group_higher_than_a_page_starts_at_the_cursor() {
    let document = a4();
    let mut parent = ElementBuilder::new(&document);
    parent.advance_cursor(mm(267));
    let child = parent.generate_group_builder(&Padding::none(), Some(mm(278)));
    assert_eq!(child.starting_page, 0);
    assert_eq!(child.origin, at(10, 20));
    // A group as high as a whole page still moves.
    let moved = parent.generate_group_builder(&Padding::none(), Some(mm(277)));
    assert_eq!(moved.starting_page, 1);
}

#[test]
fn outline_on_one_page_is_a_closed_frame() {
    let document = a4();
    let mut parent = ElementBuilder::new(&document);
    let padding = Padding::new(mm(1), mm(2), mm(3), mm(4));
    let mut group = parent.generate_group_builder(&padding, None);
    group.advance_cursor(mm(50));
    group.draw_outline(&padding, &black());
    assert_eq!(group.pages.len(), 1);
    let lines: Vec<(Point, Point)> = group.pages[0].iter().map(line_ends).collect();
    assert_eq!(
        lines,
        vec![
            (at(10, 287), at(200, 287)),
            (at(10, 234), at(200, 234)),
            (at(10, 287), at(10, 234)),
            (at(200, 287), at(200, 234)),
        ]
    );
    parent.merge(group);
    assert_eq!(parent.pages[0].len(), 4);
}

#[test]
fn outline_on_two_pages_is_open_towards_the_page_break() {
    let document = a4();
    let parent = ElementBuilder::new(&document);
    let padding = Padding::all(mm(5));
    let mut group = parent.generate_group_builder(&padding, None);
    group.advance_cursor(mm(300));
    assert_eq!(group.pages.len(), 2);
    // 267 mm were left above the bottom padding; 33 mm went onto page two.
    assert_eq!(group.cursor, at(15, 254));
    group.draw_outline(&padding, &black());
    let first: Vec<(Point, Point)> = group.pages[0].iter().map(line_ends).collect();
    let last: Vec<(Point, Point)> = group.pages[1].iter().map(line_ends).collect();
    assert_eq!(
        first,
        vec![
            (at(10, 287), at(200, 287)),
            (at(10, 287), at(10, 10)),
            (at(200, 287), at(200, 10)),
        ]
    );
    assert_eq!(
        last,
        vec![
            (at(10, 249), at(200, 249)),
            (at(10, 287), at(10, 249)),
            (at(200, 287), at(200, 249)),
        ]
    );
}

#[test]
fn outline_on_many_pages_draws_both_sides_on_every_page_between() {
    let document = a4();
    let parent = ElementBuilder::new(&document);
    let padding = Padding::none();
    let mut group = parent.generate_group_builder(&padding, None);
    group.next_page();
    group.next_page();
    group.next_page();
    group.advance_cursor(mm(7));
    group.draw_outline(&padding, &black());
    let sizes: Vec<usize> = group.pages.iter().map(|page| page.len()).collect();
    assert_eq!(sizes, vec![3, 2, 2, 3]);
    for page in 1..3 {
        let lines: Vec<(Point, Point)> = group.pages[page].iter().map(line_ends).collect();
        assert_eq!(lines, vec![(at(10, 287), at(10, 10)), (at(200, 287), at(200, 10))]);
    }
    assert_eq!(line_ends(&group.pages[3][0]), (at(10, 280), at(200, 280)));
}

#[test]
fn draw_rect_strokes_a_square_and_moves_below_it() {
    let document = a4();
    let mut builder = ElementBuilder::new(&document);
    builder.cursor.x = mm(20);
    builder.draw_rect(mm(12));
    assert_eq!(builder.cursor, at(20, 275));
    match &builder.pages[0][0] {
        Instruction::Rect { origin, width, height, mode, color } => {
            assert_eq!(*origin, at(20, 287));
            assert_eq!(*width, mm(12));
            assert_eq!(*height, mm(12));
            assert_eq!(*mode, PaintMode::Stroke);
            assert_eq!(*color, Rgb::new(0, 0, 0));
        }
        _ => panic!("not a rectangle"),
    }
}

#[test]
fn draw_rect_moves_to_a_fresh_page_when_the_square_does_not_fit() {
    let document = a4();
    let mut builder = ElementBuilder::new(&document);
    builder.advance_cursor(mm(270));
    builder.draw_rect(mm(12));
    assert_eq!(builder.pages.len(), 2);
    assert!(builder.pages[0].is_empty());
    assert_eq!(builder.pages[1].len(), 1);
    assert_eq!(builder.cursor, at(10, 275));
    match &builder.pages[1][0] {
        Instruction::Rect { origin, .. } => assert_eq!(*origin, at(10, 287)),
        _ => panic!("not a rectangle"),
    }
}

#[test]
fn draw_line_rules_across_the_width_inside_the_padding() {
    let document = a4();
    let mut builder = ElementBuilder::new(&document);
    let padding = Padding::new(mm(3), mm(4), mm(5), mm(6));
    let style = LineStyle { color: Rgb::new(9, 8, 7), thickness: mm(1) };
    builder.draw_line(&padding, &style);
    assert_eq!(builder.pages[0].len(), 1);
    match &builder.pages[0][0] {
        Instruction::Line { from, to, style: drawn } => {
            assert_eq!(*from, at(15, 284));
            // The rule ends 6 mm before the end of the 190 mm that are left.
            assert_eq!(*to, at(10 + 190 - 6, 284));
            assert_eq!(*drawn, style);
        }
        _ => panic!("not a line"),
    }
    assert_eq!(builder.cursor, at(10, 279));
}
