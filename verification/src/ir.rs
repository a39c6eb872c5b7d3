//! A document as it comes out of the reading of a page description: text,
//! images and outlines in reading order, in points, with the origin at the top
//! left.
use crate::number::{whole, Num};
use vstd::prelude::*;

verus! {

/// A rectangle, in points, from the top left.
#[derive(Clone, Copy, Debug, PartialEq, Eq, Structural)]
pub struct RectIr {
    pub x_pt: Num,
    pub y_pt: Num,
    pub width_pt: Num,
    pub height_pt: Num,
}

impl DeepView for RectIr {
    type V = RectIr;

    open spec fn deep_view(&self) -> RectIr {
        *self
    }
}

/// A colour: red, green and blue, each from 0 to 1.
#[derive(Clone, Copy, Debug, PartialEq, Eq, Structural)]
pub struct Rgb {
    pub red: Num,
    pub green: Num,
    pub blue: Num,
}

impl DeepView for Rgb {
    type V = Rgb;

    open spec fn deep_view(&self) -> Rgb {
        *self
    }
}

/// A point, in points, from the top left.
#[derive(Clone, Copy, Debug, PartialEq, Eq, Structural)]
pub struct PointIr {
    pub x_pt: Num,
    pub y_pt: Num,
}

impl DeepView for PointIr {
    type V = PointIr;

    open spec fn deep_view(&self) -> PointIr {
        *self
    }
}

/// A run of text in one look.
#[derive(Debug, PartialEq)]
pub struct RunIr {
    pub text: String,
    pub font_size_pt: Num,
    pub font_family: Option<String>,
    pub bold: bool,
    pub italic: bool,
    pub color_rgb: Option<Rgb>,
}

/// What a [`RunIr`] holds.
#[verifier::ext_equal]
pub struct RunIrView {
    pub text: Seq<char>,
    pub font_size_pt: Num,
    pub font_family: Option<Seq<char>>,
    pub bold: bool,
    pub italic: bool,
    pub color_rgb: Option<Rgb>,
}

impl DeepView for RunIr {
    type V = RunIrView;

    open spec fn deep_view(&self) -> RunIrView {
        RunIrView {
            text: self.text@,
            font_size_pt: self.font_size_pt,
            font_family: self.font_family.deep_view(),
            bold: self.bold,
            italic: self.italic,
            color_rgb: self.color_rgb,
        }
    }
}

/// A paragraph: its runs.
#[derive(Debug, PartialEq)]
pub struct ParagraphIr {
    pub runs: Vec<RunIr>,
}

/// What a [`ParagraphIr`] holds.
#[verifier::ext_equal]
pub struct ParagraphIrView {
    pub runs: Seq<RunIrView>,
}

impl DeepView for ParagraphIr {
    type V = ParagraphIrView;

    open spec fn deep_view(&self) -> ParagraphIrView {
        ParagraphIrView {
            runs: self.runs.deep_view(),
        }
    }
}

/// A frame with text.
#[derive(Debug, PartialEq)]
pub struct TextFrameIr {
    pub rect: RectIr,
    pub paragraphs: Vec<ParagraphIr>,
}

/// What a [`TextFrameIr`] holds.
#[verifier::ext_equal]
pub struct TextFrameIrView {
    pub rect: RectIr,
    pub paragraphs: Seq<ParagraphIrView>,
}

impl DeepView for TextFrameIr {
    type V = TextFrameIrView;

    open spec fn deep_view(&self) -> TextFrameIrView {
        TextFrameIrView {
            rect: self.rect,
            paragraphs: self.paragraphs.deep_view(),
        }
    }
}

/// A frame with an image, in base64.
#[derive(Debug, PartialEq)]
pub struct ImageFrameIr {
    pub rect: RectIr,
    pub png_b64: String,
}

/// What a [`ImageFrameIr`] holds.
#[verifier::ext_equal]
pub struct ImageFrameIrView {
    pub rect: RectIr,
    pub png_b64: Seq<char>,
}

impl DeepView for ImageFrameIr {
    type V = ImageFrameIrView;

    open spec fn deep_view(&self) -> ImageFrameIrView {
        ImageFrameIrView {
            rect: self.rect,
            png_b64: self.png_b64@,
        }
    }
}

/// One outline of a shape.
#[derive(Debug, PartialEq)]
pub struct SubpathIr {
    pub points: Vec<PointIr>,
    pub closed: bool,
}

/// What a [`SubpathIr`] holds.
#[verifier::ext_equal]
pub struct SubpathIrView {
    pub points: Seq<PointIr>,
    pub closed: bool,
}

impl DeepView for SubpathIr {
    type V = SubpathIrView;

    open spec fn deep_view(&self) -> SubpathIrView {
        SubpathIrView {
            points: self.points@,
            closed: self.closed,
        }
    }
}

/// A shape: its outlines, and how they are filled and stroked.
#[derive(Debug, PartialEq)]
pub struct VectorIr {
    pub subpaths: Vec<SubpathIr>,
    pub fill_rgb: Option<Rgb>,
    pub stroke_rgb: Option<Rgb>,
    pub stroke_width_pt: Option<Num>,
}

/// What a [`VectorIr`] holds.
#[verifier::ext_equal]
pub struct VectorIrView {
    pub subpaths: Seq<SubpathIrView>,
    pub fill_rgb: Option<Rgb>,
    pub stroke_rgb: Option<Rgb>,
    pub stroke_width_pt: Option<Num>,
}

impl DeepView for VectorIr {
    type V = VectorIrView;

    open spec fn deep_view(&self) -> VectorIrView {
        VectorIrView {
            subpaths: self.subpaths.deep_view(),
            fill_rgb: self.fill_rgb,
            stroke_rgb: self.stroke_rgb,
            stroke_width_pt: self.stroke_width_pt,
        }
    }
}

/// A frame on a page.
#[derive(Debug, PartialEq)]
pub enum FrameIr {
    Text(TextFrameIr),
    Image(ImageFrameIr),
    Vector(VectorIr),
}

/// What a [`FrameIr`] holds.
pub enum FrameIrView {
    Text(TextFrameIrView),
    Image(ImageFrameIrView),
    Vector(VectorIrView),
}

impl DeepView for FrameIr {
    type V = FrameIrView;

    open spec fn deep_view(&self) -> FrameIrView {
        match self {
            FrameIr::Text(x) => FrameIrView::Text(x.deep_view()),
            FrameIr::Image(x) => FrameIrView::Image(x.deep_view()),
            FrameIr::Vector(x) => FrameIrView::Vector(x.deep_view()),
        }
    }
}

/// A page: its size, an image of the whole page to stand behind everything, and
/// its frames in reading order.
#[derive(Debug, PartialEq)]
pub struct PageIr {
    pub width_pt: Num,
    pub height_pt: Num,
    pub background_png_b64: Option<String>,
    pub frames: Vec<FrameIr>,
}

/// What a [`PageIr`] holds.
#[verifier::ext_equal]
pub struct PageIrView {
    pub width_pt: Num,
    pub height_pt: Num,
    pub background_png_b64: Option<Seq<char>>,
    pub frames: Seq<FrameIrView>,
}

impl DeepView for PageIr {
    type V = PageIrView;

    open spec fn deep_view(&self) -> PageIrView {
        PageIrView {
            width_pt: self.width_pt,
            height_pt: self.height_pt,
            background_png_b64: self.background_png_b64.deep_view(),
            frames: self.frames.deep_view(),
        }
    }
}

/// A document: its pages in reading order.
#[derive(Debug, PartialEq)]
pub struct DocumentIr {
    pub pages: Vec<PageIr>,
}

/// What a [`DocumentIr`] holds.
#[verifier::ext_equal]
pub struct DocumentIrView {
    pub pages: Seq<PageIrView>,
}

impl DeepView for DocumentIr {
    type V = DocumentIrView;

    open spec fn deep_view(&self) -> DocumentIrView {
        DocumentIrView {
            pages: self.pages.deep_view(),
        }
    }
}

/// The size of text that states none: 12 points.
pub fn default_font_size() -> (r: Num)
    ensures
        r == whole(12),
{
    Num::whole(12)
}

/// The size of the first page, by width and height; that of US Letter, 612 by
/// 792 points, where there is no page.
pub open spec fn first_page_size(pages: Seq<PageIrView>) -> (Num, Num) {
    if pages.len() > 0 {
        (pages[0].width_pt, pages[0].height_pt)
    } else {
        (whole(612), whole(792))
    }
}

impl DocumentIr {
    /// The size of the first page, by width and height.
    pub fn first_page_size(&self) -> (r: (Num, Num))
        ensures
            r == first_page_size(self.deep_view().pages),
    {
        if self.pages.len() > 0 {
            (self.pages[0].width_pt, self.pages[0].height_pt)
        } else {
            (Num::whole(612), Num::whole(792))
        }
    }
}

} // verus!
