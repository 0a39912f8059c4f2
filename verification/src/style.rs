//! The style registry: the fixed looks of the report's text.

use crate::document::{
    Alignment, CellNode, CellView, ParagraphNode, ParagraphView, TextRun, TextRunView,
};
use vstd::prelude::*;
use vstd::string::StringExecFns;

verus! {

/// Fill colour of a header cell.
pub const HEADER_FILL: &'static str = "7DCEA0";

/// The one font family of all styled text.
pub const FONT_FAMILY: &'static str = "Arial";

/// Size of body text, in half-points.
pub const FONT_SIZE: usize = 24;

/// Size of comment text, in half-points: four less than body text.
pub const COMMENT_FONT_SIZE: usize = FONT_SIZE - 4;

/// Width of every table column, in twips (7.62 cm).
pub const CELL_WIDTH: usize = 4320;

/// Top page margin, in twips (1.5 cm).
pub const PAGE_MARGIN_TOP: i32 = 851;

/// What a piece of text is in the report.
#[derive(Debug, Clone, Copy, PartialEq, Eq, Structural)]
pub enum Role {
    /// A label: the left column of a table, a header row, a section heading.
    Header,
    /// A value in a table.
    Data,
    /// The title of the document.
    Title,
    /// A line of the comment section.
    CommentDefault,
}

/// The paragraph that shows `text` in the look of `role`.
pub open spec fn styled(text: Seq<char>, role: Role) -> ParagraphView {
    match role {
        Role::Header | Role::Data => ParagraphView {
            run: TextRunView {
                text,
                bold: true,
                italic: false,
                size: Some(FONT_SIZE),
                font: Some(FONT_FAMILY@),
            },
            align: Some(Alignment::Left),
        },
        Role::Title => ParagraphView {
            run: TextRunView {
                text,
                bold: true,
                italic: false,
                size: Some(FONT_SIZE),
                font: Some(FONT_FAMILY@),
            },
            align: Some(Alignment::Center),
        },
        Role::CommentDefault => ParagraphView {
            run: TextRunView {
                text,
                bold: false,
                italic: true,
                size: Some(COMMENT_FONT_SIZE),
                font: Some(FONT_FAMILY@),
            },
            align: Some(Alignment::Right),
        },
    }
}

/// An empty paragraph without any formatting.
pub open spec fn blank() -> ParagraphView {
    ParagraphView {
        run: TextRunView {
            text: Seq::empty(),
            bold: false,
            italic: false,
            size: None,
            font: None,
        },
        align: None,
    }
}

/// A shaded cell that shows `text` as a label.
pub open spec fn header_cell_view(text: Seq<char>) -> CellView {
    CellView { paragraph: styled(text, Role::Header), fill: Some(HEADER_FILL@), width: CELL_WIDTH }
}

/// A cell that shows `text` as a value.
pub open spec fn data_cell_view(text: Seq<char>) -> CellView {
    CellView { paragraph: styled(text, Role::Data), fill: None, width: CELL_WIDTH }
}

/// Styles `text` for `role`.
pub fn style(text: &str, role: Role) -> (paragraph: ParagraphNode)
    ensures
        paragraph@ == styled(text@, role),
{
    let font = Some(String::from_str(FONT_FAMILY));
    let text = String::from_str(text);
    match role {
        Role::Header | Role::Data => ParagraphNode {
            run: TextRun { text, bold: true, italic: false, size: Some(FONT_SIZE), font },
            align: Some(Alignment::Left),
        },
        Role::Title => ParagraphNode {
            run: TextRun { text, bold: true, italic: false, size: Some(FONT_SIZE), font },
            align: Some(Alignment::Center),
        },
        Role::CommentDefault => ParagraphNode {
            run: TextRun { text, bold: false, italic: true, size: Some(COMMENT_FONT_SIZE), font },
            align: Some(Alignment::Right),
        },
    }
}

/// An empty paragraph: a line of space.
pub fn blank_paragraph() -> (paragraph: ParagraphNode)
    ensures
        paragraph@ == blank(),
{
    ParagraphNode {
        run: TextRun { text: String::new(), bold: false, italic: false, size: None, font: None },
        align: None,
    }
}

/// A header cell with `text`.
pub fn header_cell(text: &str) -> (cell: CellNode)
    ensures
        cell@ == header_cell_view(text@),
{
    CellNode {
        paragraph: style(text, Role::Header),
        fill: Some(String::from_str(HEADER_FILL)),
        width: CELL_WIDTH,
    }
}

/// A data cell with `text`.
pub fn data_cell(text: &str) -> (cell: CellNode)
    ensures
        cell@ == data_cell_view(text@),
{
    CellNode { paragraph: style(text, Role::Data), fill: None, width: CELL_WIDTH }
}

} // verus!
