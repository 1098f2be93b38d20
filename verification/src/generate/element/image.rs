use vstd::prelude::*;

use crate::generate::element::builder_model::BuilderModel;
use crate::generate::element::element_builder::ElementBuilder;
use crate::generate::instruction::ImageHandle;
use crate::generate::instruction::Instruction;
use crate::generate::instruction::InstructionModel;
use crate::generate::instruction::Scale;
use crate::generate::units::Length;
use crate::generate::units::Point;
use crate::generate::units::UNITS_PER_PX;

verus! {

/// A registered image, placed at its own size or scaled to a width.
#[derive(Clone, Copy, Debug, PartialEq, Eq, Structural)]
pub struct Image {
    pub image: ImageHandle,
    pub desired_width: Option<Length>,
}

impl Image {
    /// The registered `image`, scaled to `desired_width` where one is given.
    pub fn new(image: ImageHandle, desired_width: Option<Length>) -> (r: Image)
        ensures
            r == (Image { image, desired_width }),
    {
        Image { image, desired_width }
    }

    /// The width of the image at 300 pixels per inch.
    pub open spec fn natural_width(&self) -> Length {
        Length::of(self.image.width_px * UNITS_PER_PX)
    }

    /// The height of the image at 300 pixels per inch.
    pub open spec fn natural_height(&self) -> Length {
        Length::of(self.image.height_px * UNITS_PER_PX)
    }

    /// The factor by which the image is scaled: the desired width over the
    /// natural one, where a width is desired and the image has one.
    pub open spec fn scale(&self) -> Option<Scale> {
        match self.desired_width {
            Some(desired) if self.natural_width()@ > 0 => Some(
                Scale { num: desired, den: self.natural_width() },
            ),
            _ => None,
        }
    }

    /// The width that the image takes on the page.
    pub open spec fn width(&self) -> Length {
        match self.scale() {
            Some(scale) => scale.num,
            None => self.natural_width(),
        }
    }

    /// The height that the image takes on the page: scaled as the width
    /// is, so that the image keeps its proportions.
    pub open spec fn height(&self) -> Length {
        match self.scale() {
            Some(scale) => self.natural_height().spec_scale(scale.num@, scale.den@),
            None => self.natural_height(),
        }
    }

    /// The instruction that places the image with its top left corner at
    /// `cursor`.
    pub open spec fn placed_at(&self, cursor: Point) -> InstructionModel {
        InstructionModel::Image {
            image: self.image,
            pos: Point { x: cursor.x, y: cursor.y.spec_minus(self.height()) },
            scale: self.scale(),
        }
    }
}

impl BuilderModel {
    /// The region after `image` was placed at the cursor: the cursor stands
    /// to the right of the image.
    pub open spec fn with_image(self, image: Image) -> BuilderModel {
        self.emitted(image.placed_at(self.cursor)).shifted(image.width())
    }

    /// The region after `image` was laid out as an element of its own: on
    /// a fresh page where the current one has no room for it, and the cursor
    /// below it at the left edge.
    pub open spec fn with_image_element(self, image: Image) -> BuilderModel {
        let start = if self.remaining_height()@ < image.height()@ {
            self.next_page()
        } else {
            self
        };
        start.with_image(image).at_left_edge().advanced(image.height())
    }
}

impl ElementBuilder {
    fn image_scale(image: &Image) -> (scale: Option<Scale>)
        ensures
            scale == image.scale(),
    {
        let natural = Length::from_px(image.image.width_px);
        match image.desired_width {
            Some(desired) => {
                if Length::zero().less_than(natural) {
                    Some(Scale { num: desired, den: natural })
                } else {
                    None
                }
            },
            None => None,
        }
    }

    /// The width and the height that `image` takes on the page.
    pub fn measure_image(&self, image: &Image) -> (size: (Length, Length))
        requires
            image.image.index < self@.images,
        ensures
            size.0 == image.width(),
            size.1 == image.height(),
    {
        let width = Length::from_px(image.image.width_px);
        let height = Length::from_px(image.image.height_px);
        match Self::image_scale(image) {
            Some(scale) => (scale.num, height.scale(scale.num.units, scale.den.units)),
            None => (width, height),
        }
    }

    /// Places `image`, which the document must have registered, with its
    /// top left corner at the cursor and moves the cursor to its right.
    pub fn push_image(&mut self, image: &Image)
        requires
            image.image.index < old(self)@.images,
            old(self)@.wf(),
        ensures
            final(self)@ == old(self)@.with_image(*image),
            old(self)@.grows_into(final(self)@),
    {
        let (width, height) = self.measure_image(image);
        let placed = Instruction::Image {
            image: image.image,
            pos: Point { x: self.cursor.x, y: self.cursor.y.minus(height) },
            scale: Self::image_scale(image),
        };
        self.emit(placed);
        self.cursor.x = self.cursor.x.plus(width);
    }
}

impl Image {
    /// The name of this kind of element, as warnings give it.
    pub fn display_name(&self) -> (name: &'static str)
        ensures
            name@ == "Image"@,
    {
        "Image"
    }

    pub fn calculate_width(&self, builder: &ElementBuilder) -> (width: Length)
        requires
            self.image.index < builder@.images,
        ensures
            width == self.width(),
    {
        builder.measure_image(self).0
    }

    pub fn calculate_height(&self, builder: &ElementBuilder) -> (height: Length)
        requires
            self.image.index < builder@.images,
        ensures
            height == self.height(),
    {
        builder.measure_image(self).1
    }

    /// Places the image at the cursor, on a new page where the current one
    /// has no room for it, and moves the cursor below it.
    pub fn build(&self, builder: &mut ElementBuilder)
        requires
            self.image.index < old(builder)@.images,
            old(builder)@.wf(),
        ensures
            final(builder)@ == old(builder)@.with_image_element(*self),
            old(builder)@.grows_into(final(builder)@),
    {
        let height = builder.measure_image(self).1;
        if builder.remaining_height_from_cursor().less_than(height) {
            builder.next_page();
        }
        builder.push_image(self);
        builder.reset_cursor_x();
        builder.advance_cursor(height);
    }
}

} // verus!
