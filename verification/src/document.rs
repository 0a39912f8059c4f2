//! The element tree of a report: paragraphs and tables of styled text.

use vstd::prelude::*;

verus! {

/// Horizontal alignment of a paragraph or a table.
#[derive(Debug, Clone, Copy, PartialEq, Eq, Structural)]
pub enum Alignment {
    Left,
    Center,
    Right,
}

/// A piece of text with its character formatting.
#[derive(Debug, Clone, PartialEq, Eq)]
pub struct TextRun {
    pub text: String,
    pub bold: bool,
    pub italic: bool,
    /// Font size in half-points, where one is set.
    pub size: Option<usize>,
    /// Font family, where one is set.
    pub font: Option<String>,
}

/// A paragraph of one run.
#[derive(Debug, Clone, PartialEq, Eq)]
pub struct ParagraphNode {
    pub run: TextRun,
    pub align: Option<Alignment>,
}

/// A table cell that holds one paragraph.
#[derive(Debug, Clone, PartialEq, Eq)]
pub struct CellNode {
    pub paragraph: ParagraphNode,
    /// Fill colour as six hexadecimal digits, where the cell is shaded.
    pub fill: Option<String>,
    /// Width in twips.
    pub width: usize,
}

/// A table row.
#[derive(Debug, Clone, PartialEq, Eq)]
pub struct RowNode {
    pub cells: Vec<CellNode>,
}

/// A table.
#[derive(Debug, Clone, PartialEq, Eq)]
pub struct TableNode {
    pub rows: Vec<RowNode>,
    pub align: Alignment,
}

/// A block of the document body.
#[derive(Debug, Clone, PartialEq, Eq)]
pub enum Block {
    Paragraph(ParagraphNode),
    Table(TableNode),
}

/// A document: its top page margin in twips and its body.
#[derive(Debug, Clone, PartialEq, Eq)]
pub struct Document {
    pub margin_top: i32,
    pub blocks: Vec<Block>,
}

pub struct TextRunView {
    pub text: Seq<char>,
    pub bold: bool,
    pub italic: bool,
    pub size: Option<usize>,
    pub font: Option<Seq<char>>,
}

pub struct ParagraphView {
    pub run: TextRunView,
    pub align: Option<Alignment>,
}

pub struct CellView {
    pub paragraph: ParagraphView,
    pub fill: Option<Seq<char>>,
    pub width: usize,
}

pub struct TableView {
    /// The rows, each as the sequence of its cells.
    pub rows: Seq<Seq<CellView>>,
    pub align: Alignment,
}

pub enum BlockView {
    Paragraph(ParagraphView),
    Table(TableView),
}

pub struct DocumentView {
    pub margin_top: i32,
    pub blocks: Seq<BlockView>,
}

impl View for TextRun {
    type V = TextRunView;

    open spec fn view(&self) -> TextRunView {
        TextRunView {
            text: self.text@,
            bold: self.bold,
            italic: self.italic,
            size: self.size,
            font: match self.font {
                Some(f) => Some(f@),
                None => None,
            },
        }
    }
}

impl View for ParagraphNode {
    type V = ParagraphView;

    open spec fn view(&self) -> ParagraphView {
        ParagraphView { run: self.run@, align: self.align }
    }
}

impl View for CellNode {
    type V = CellView;

    open spec fn view(&self) -> CellView {
        CellView {
            paragraph: self.paragraph@,
            fill: match self.fill {
                Some(f) => Some(f@),
                None => None,
            },
            width: self.width,
        }
    }
}

impl View for RowNode {
    type V = Seq<CellView>;

    open spec fn view(&self) -> Seq<CellView> {
        self.cells@.map_values(|cell: CellNode| cell@)
    }
}

impl View for TableNode {
    type V = TableView;

    open spec fn view(&self) -> TableView {
        TableView { rows: self.rows@.map_values(|row: RowNode| row@), align: self.align }
    }
}

impl View for Block {
    type V = BlockView;

    open spec fn view(&self) -> BlockView {
        match self {
            Block::Paragraph(p) => BlockView::Paragraph(p@),
            Block::Table(t) => BlockView::Table(t@),
        }
    }
}

impl View for Document {
    type V = DocumentView;

    open spec fn view(&self) -> DocumentView {
        DocumentView {
            margin_top: self.margin_top,
            blocks: self.blocks@.map_values(|block: Block| block@),
        }
    }
}

} // verus!
