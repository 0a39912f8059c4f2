//! The calls into the `docx_rs` document writer.
//!
//! The writer's values are opaque here. What one of them holds is named by a function without
//! a body, and each call below states, without proof, what the writer's source shows of it.

use crate::document::Alignment;
use vstd::prelude::*;

verus! {

/// The writer's run, opaque here.
#[verifier::external_type_specification]
#[verifier::external_body]
pub struct ExRun(docx_rs::Run);

/// The writer's paragraph, opaque here.
#[verifier::external_type_specification]
#[verifier::external_body]
pub struct ExParagraph(docx_rs::Paragraph);

/// The writer's table cell, opaque here.
#[verifier::external_type_specification]
#[verifier::external_body]
pub struct ExTableCell(docx_rs::TableCell);

/// The writer's table row, opaque here.
#[verifier::external_type_specification]
#[verifier::external_body]
pub struct ExTableRow(docx_rs::TableRow);

/// The writer's table, opaque here.
#[verifier::external_type_specification]
#[verifier::external_body]
pub struct ExTable(docx_rs::Table);

/// The writer's document, opaque here.
#[verifier::external_type_specification]
#[verifier::external_body]
pub struct ExDocx(docx_rs::Docx);

/// What a run of the writer holds: its text children and its character formatting.
pub struct RunContent {
    pub texts: Seq<Seq<char>>,
    pub bold: bool,
    pub italic: bool,
    /// Size in half-points.
    pub size: Option<usize>,
    /// The family set for the ASCII, high ANSI and East Asian ranges.
    pub font: Option<Seq<char>>,
}

/// What a paragraph of the writer holds: its runs and its alignment.
pub struct ParagraphContent {
    pub runs: Seq<RunContent>,
    pub align: Option<Alignment>,
}

/// What a table cell of the writer holds: its paragraphs, the fill of its shading and its
/// width in twips.
pub struct CellContent {
    pub paragraphs: Seq<ParagraphContent>,
    pub fill: Option<Seq<char>>,
    pub width: Option<usize>,
}

/// What a table of the writer holds: its rows, cell by cell, and its alignment.
pub struct TableContent {
    pub rows: Seq<Seq<CellContent>>,
    pub align: Alignment,
}

/// A child of the writer's document body.
pub enum BodyContent {
    Paragraph(ParagraphContent),
    Table(TableContent),
}

/// What a document of the writer holds: its top page margin and its body.
pub struct DocxContent {
    pub margin_top: i32,
    pub body: Seq<BodyContent>,
}

/// The top page margin of a new document of the writer, in twips.
pub const DEFAULT_MARGIN_TOP: i32 = 1985;

/// What the writer's escaping puts in the place of one character: the entity for a
/// character that XML reserves and for a line feed, nothing for a carriage return, and any
/// other character itself.
pub open spec fn escaped_char(c: char) -> Seq<char> {
    if c == '&' {
        seq!['&', 'a', 'm', 'p', ';']
    } else if c == '<' {
        seq!['&', 'l', 't', ';']
    } else if c == '>' {
        seq!['&', 'g', 't', ';']
    } else if c == '"' {
        seq!['&', 'q', 'u', 'o', 't', ';']
    } else if c == '\'' {
        seq!['&', 'a', 'p', 'o', 's', ';']
    } else if c == '\n' {
        seq!['&', '#', 'x', 'A', ';']
    } else if c == '\r' {
        Seq::empty()
    } else {
        seq![c]
    }
}

/// The family that `RunFonts` keeps of a given family name: the name, escaped character by
/// character.
pub open spec fn kept_font(family: Seq<char>) -> Seq<char>
    decreases family.len(),
{
    if family.len() == 0 {
        Seq::empty()
    } else {
        escaped_char(family[0]) + kept_font(family.drop_first())
    }
}

/// The text that `Run::add_text` keeps of a given text: the text without its line feeds,
/// escaped character by character.
pub open spec fn kept_text(text: Seq<char>) -> Seq<char>
    decreases text.len(),
{
    if text.len() == 0 {
        Seq::empty()
    } else if text[0] == '\n' {
        kept_text(text.drop_first())
    } else {
        escaped_char(text[0]) + kept_text(text.drop_first())
    }
}

/// Whether the writer's escaping changes `c`.
pub open spec fn is_reserved(c: char) -> bool {
    c == '&' || c == '<' || c == '>' || c == '"' || c == '\'' || c == '\n' || c == '\r'
}

/// A text without reserved characters reaches the document as it is.
pub proof fn lemma_plain_text_is_kept(text: Seq<char>)
    requires
        forall|i: int| 0 <= i < text.len() ==> !is_reserved(#[trigger] text[i]),
    ensures
        kept_text(text) == text,
        kept_font(text) == text,
    decreases text.len(),
{
    if text.len() > 0 {
        let rest = text.drop_first();
        assert forall|i: int| 0 <= i < rest.len() implies !is_reserved(#[trigger] rest[i]) by {
            assert(rest[i] == text[i + 1]);
        }
        lemma_plain_text_is_kept(rest);
        assert(!is_reserved(text[0]));
        assert(seq![text[0]] + rest =~= text);
    } else {
        assert(text =~= Seq::<char>::empty());
    }
}

/// The outcome of packing a document of the writer: the bytes of the archive, or the
/// writer's complaint. The document alone decides it: the writer sets its counter of
/// paragraph identifiers back before it builds, and stamps every entry with a fixed date.
pub uninterp spec fn packed_archive(docx: docx_rs::Docx) -> Result<Seq<u8>, Seq<char>>;

/// An outcome of the packing, by the views of its two sides.
pub open spec fn pack_view(packed: Result<Vec<u8>, String>) -> Result<Seq<u8>, Seq<char>> {
    match packed {
        Ok(bytes) => Ok(bytes@),
        Err(complaint) => Err(complaint@),
    }
}

/// What a run holds.
pub uninterp spec fn run_content(run: docx_rs::Run) -> RunContent;

/// What a paragraph holds.
pub uninterp spec fn paragraph_content(paragraph: docx_rs::Paragraph) -> ParagraphContent;

/// What a table cell holds.
pub uninterp spec fn cell_content(cell: docx_rs::TableCell) -> CellContent;

/// The cells of a table row.
pub uninterp spec fn row_content(row: docx_rs::TableRow) -> Seq<CellContent>;

/// What a table holds.
pub uninterp spec fn table_content(table: docx_rs::Table) -> TableContent;

/// What a document holds.
pub uninterp spec fn docx_content(docx: docx_rs::Docx) -> DocxContent;

/// A run without text or formatting.
pub open spec fn empty_run() -> RunContent {
    RunContent { texts: Seq::empty(), bold: false, italic: false, size: None, font: None }
}

/// `Run::new`: a run without children, with no property set.
#[verifier::external_body]
pub(crate) fn run_new() -> (run: docx_rs::Run)
    ensures
        run_content(run) == empty_run(),
{
    docx_rs::Run::new()
}

/// `Run::add_text`: appends one text child. The writer takes the line feeds out of `text` and
/// escapes the rest, so the child holds `kept_text` of it.
#[verifier::external_body]
pub(crate) fn run_add_text(run: docx_rs::Run, text: &str) -> (out: docx_rs::Run)
    ensures
        run_content(out) == (RunContent {
            texts: run_content(run).texts.push(kept_text(text@)),
            ..run_content(run)
        }),
{
    run.add_text(text)
}

/// `Run::bold`: switches bold on and leaves the rest as it is.
#[verifier::external_body]
pub(crate) fn run_bold(run: docx_rs::Run) -> (out: docx_rs::Run)
    ensures
        run_content(out) == (RunContent { bold: true, ..run_content(run) }),
{
    run.bold()
}

/// `Run::italic`: switches italic on and leaves the rest as it is.
#[verifier::external_body]
pub(crate) fn run_italic(run: docx_rs::Run) -> (out: docx_rs::Run)
    ensures
        run_content(out) == (RunContent { italic: true, ..run_content(run) }),
{
    run.italic()
}

/// `Run::size`: sets the size, in half-points, and leaves the rest as it is.
#[verifier::external_body]
pub(crate) fn run_size(run: docx_rs::Run, size: usize) -> (out: docx_rs::Run)
    ensures
        run_content(out) == (RunContent { size: Some(size), ..run_content(run) }),
{
    run.size(size)
}

/// `Run::fonts`, with fonts that name `family` for the ASCII, East Asian and high ANSI ranges:
/// sets the run's fonts and leaves the rest as it is. The writer escapes the name.
#[verifier::external_body]
pub(crate) fn run_fonts(run: docx_rs::Run, family: &str) -> (out: docx_rs::Run)
    ensures
        run_content(out) == (RunContent { font: Some(kept_font(family@)), ..run_content(run) }),
{
    run.fonts(docx_rs::RunFonts::new().ascii(family).east_asia(family).hi_ansi(family))
}

/// `Paragraph::new`: a paragraph without children or alignment. Its identifier comes from a
/// counter that the writer keeps for each thread and sets back whenever it packs a document;
/// nothing is stated of it. (The writer panics when the counter runs out: after 2^32
/// paragraphs on one thread without a packing in between.)
#[verifier::external_body]
pub(crate) fn paragraph_new() -> (paragraph: docx_rs::Paragraph)
    ensures
        paragraph_content(paragraph) == (ParagraphContent { runs: Seq::empty(), align: None }),
{
    docx_rs::Paragraph::new()
}

/// `Paragraph::add_run`: appends the run as the last child.
#[verifier::external_body]
pub(crate) fn paragraph_add_run(paragraph: docx_rs::Paragraph, run: docx_rs::Run) -> (out:
    docx_rs::Paragraph)
    ensures
        paragraph_content(out) == (ParagraphContent {
            runs: paragraph_content(paragraph).runs.push(run_content(run)),
            ..paragraph_content(paragraph)
        }),
{
    paragraph.add_run(run)
}

/// `Paragraph::align`: sets the alignment and leaves the children as they are.
#[verifier::external_body]
pub(crate) fn paragraph_align(paragraph: docx_rs::Paragraph, align: Alignment) -> (out:
    docx_rs::Paragraph)
    ensures
        paragraph_content(out) == (ParagraphContent {
            align: Some(align),
            ..paragraph_content(paragraph)
        }),
{
    paragraph.align(
        match align {
            Alignment::Left => docx_rs::AlignmentType::Left,
            Alignment::Center => docx_rs::AlignmentType::Center,
            Alignment::Right => docx_rs::AlignmentType::Right,
        },
    )
}

/// `TableCell::new`: a cell without children, with no property set.
#[verifier::external_body]
pub(crate) fn cell_new() -> (cell: docx_rs::TableCell)
    ensures
        cell_content(cell) == (CellContent { paragraphs: Seq::empty(), fill: None, width: None }),
{
    docx_rs::TableCell::new()
}

/// `TableCell::shading`, with a clear shading of the given fill: sets the cell's shading and
/// leaves the rest as it is. The fill is kept as it is given.
#[verifier::external_body]
pub(crate) fn cell_shading(cell: docx_rs::TableCell, fill: &str) -> (out: docx_rs::TableCell)
    ensures
        cell_content(out) == (CellContent { fill: Some(fill@), ..cell_content(cell) }),
{
    cell.shading(docx_rs::Shading::new().fill(fill))
}

/// `TableCell::width`, in twips: sets the cell's width and leaves the rest as it is.
#[verifier::external_body]
pub(crate) fn cell_width(cell: docx_rs::TableCell, width: usize) -> (out: docx_rs::TableCell)
    ensures
        cell_content(out) == (CellContent { width: Some(width), ..cell_content(cell) }),
{
    cell.width(width, docx_rs::WidthType::Dxa)
}

/// `TableCell::add_paragraph`: appends the paragraph as the last child.
#[verifier::external_body]
pub(crate) fn cell_add_paragraph(cell: docx_rs::TableCell, paragraph: docx_rs::Paragraph) -> (out:
    docx_rs::TableCell)
    ensures
        cell_content(out) == (CellContent {
            paragraphs: cell_content(cell).paragraphs.push(paragraph_content(paragraph)),
            ..cell_content(cell)
        }),
{
    cell.add_paragraph(paragraph)
}

/// `TableRow::new`: a row of the given cells, in their order.
#[verifier::external_body]
pub(crate) fn row_new(cells: Vec<docx_rs::TableCell>) -> (row: docx_rs::TableRow)
    ensures
        row_content(row) == cells@.map_values(|cell: docx_rs::TableCell| cell_content(cell)),
{
    docx_rs::TableRow::new(cells)
}

/// `Table::new`: a table of the given rows, in their order, aligned to the left.
#[verifier::external_body]
pub(crate) fn table_new(rows: Vec<docx_rs::TableRow>) -> (table: docx_rs::Table)
    ensures
        table_content(table) == (TableContent {
            rows: rows@.map_values(|row: docx_rs::TableRow| row_content(row)),
            align: Alignment::Left,
        }),
{
    docx_rs::Table::new(rows)
}

/// `Table::align`: sets the alignment and leaves the rows as they are.
#[verifier::external_body]
pub(crate) fn table_align(table: docx_rs::Table, align: Alignment) -> (out: docx_rs::Table)
    ensures
        table_content(out) == (TableContent { align, ..table_content(table) }),
{
    table.align(
        match align {
            Alignment::Left => docx_rs::TableAlignmentType::Left,
            Alignment::Center => docx_rs::TableAlignmentType::Center,
            Alignment::Right => docx_rs::TableAlignmentType::Right,
        },
    )
}

/// `Docx::new`: a document with an empty body and the writer's default page margins.
#[verifier::external_body]
pub(crate) fn docx_new() -> (docx: docx_rs::Docx)
    ensures
        docx_content(docx) == (DocxContent { margin_top: DEFAULT_MARGIN_TOP, body: Seq::empty() }),
{
    docx_rs::Docx::new()
}

/// `Docx::page_margin`, with the default margins but for the top: sets the page margins and
/// leaves the body as it is.
#[verifier::external_body]
pub(crate) fn docx_margin_top(docx: docx_rs::Docx, top: i32) -> (out: docx_rs::Docx)
    ensures
        docx_content(out) == (DocxContent { margin_top: top, ..docx_content(docx) }),
{
    docx.page_margin(docx_rs::PageMargin::new().top(top))
}

/// `Docx::add_paragraph`: appends the paragraph as the last child of the body.
#[verifier::external_body]
pub(crate) fn docx_add_paragraph(docx: docx_rs::Docx, paragraph: docx_rs::Paragraph) -> (out:
    docx_rs::Docx)
    ensures
        docx_content(out) == (DocxContent {
            body: docx_content(docx).body.push(
                BodyContent::Paragraph(paragraph_content(paragraph)),
            ),
            ..docx_content(docx)
        }),
{
    docx.add_paragraph(paragraph)
}

/// `Docx::add_table`: appends the table as the last child of the body.
#[verifier::external_body]
pub(crate) fn docx_add_table(docx: docx_rs::Docx, table: docx_rs::Table) -> (out: docx_rs::Docx)
    ensures
        docx_content(out) == (DocxContent {
            body: docx_content(docx).body.push(BodyContent::Table(table_content(table))),
            ..docx_content(docx)
        }),
{
    docx.add_table(table)
}

/// `Docx::build` and `XMLDocx::pack`, into a buffer in memory: the bytes of the archive, or
/// the writer's complaint, as the document decides them.
#[verifier::external_body]
pub(crate) fn docx_pack(docx: docx_rs::Docx) -> (packed: Result<Vec<u8>, String>)
    ensures
        pack_view(packed) == packed_archive(docx),
{
    let mut buffer = Vec::new();
    match docx.build().pack(std::io::Cursor::new(&mut buffer)) {
        Ok(()) => Ok(buffer),
        Err(error) => Err(error.to_string()),
    }
}

} // verus!
